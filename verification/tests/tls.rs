use air1_monitor::tls::{check_bundle, check_platform, trusted_roots, RootSource, TlsError};
use rumqttc::tokio_rustls::rustls::pki_types::pem::PemObject;
use rumqttc::tokio_rustls::rustls::pki_types::CertificateDer;

const ROOT_PEM: &str = "-----BEGIN CERTIFICATE-----
MIICGzCCAaGgAwIBAgIQQdKd0XLq7qeAwSxs6S+HUjAKBggqhkjOPQQDAzBPMQsw
CQYDVQQGEwJVUzEpMCcGA1UEChMgSW50ZXJuZXQgU2VjdXJpdHkgUmVzZWFyY2gg
R3JvdXAxFTATBgNVBAMTDElTUkcgUm9vdCBYMjAeFw0yMDA5MDQwMDAwMDBaFw00
MDA5MTcxNjAwMDBaME8xCzAJBgNVBAYTAlVTMSkwJwYDVQQKEyBJbnRlcm5ldCBT
ZWN1cml0eSBSZXNlYXJjaCBHcm91cDEVMBMGA1UEAxMMSVNSRyBSb290IFgyMHYw
EAYHKoZIzj0CAQYFK4EEACIDYgAEzZvVn4CDCuwJSvMWSj5cz3es3mcFDR0HttwW
+1qLFNvicWDEukWVEYmO6gbf9yoWHKS5xcUy4APgHoIYOIvXRdgKam7mAHf7AlF9
ItgKbppbd9/w+kHsOdx1ymgHDB/qo0IwQDAOBgNVHQ8BAf8EBAMCAQYwDwYDVR0T
AQH/BAUwAwEB/zAdBgNVHQ4EFgQUfEKWrt5LSDv6kviejM9ti6lyN5UwCgYIKoZI
zj0EAwMDaAAwZQIwe3lORlCEwkSHRhtFcP9Ymd70/aTSVaYgLXTWNLxBo1BfASdW
tL4ndQavEi51mI38AjEAi/V3bNTIZargCyzuFJ0nN6T5U6VR5CmD1/iQMVtCnwr1
/q4AaOeMSQ+2b1tbFfLn
-----END CERTIFICATE-----
";

fn root_der() -> Vec<u8> {
    let cert = CertificateDer::from_pem_slice(ROOT_PEM.as_bytes()).unwrap();
    cert.as_ref().to_vec()
}

#[test]
fn a_bundle_must_yield_a_certificate() {
    assert_eq!(check_bundle(false, 0), Err(TlsError::BundleMalformed));
    assert_eq!(check_bundle(false, 3), Err(TlsError::BundleMalformed));
    assert_eq!(check_bundle(true, 0), Err(TlsError::BundleEmpty));
    assert_eq!(check_bundle(true, 1), Ok(()));
}

#[test]
fn the_platform_store_must_yield_a_certificate() {
    assert_eq!(check_platform(2, 0, 0), Err(TlsError::PlatformUnreadable));
    assert_eq!(check_platform(0, 0, 0), Err(TlsError::PlatformEmpty));
    assert_eq!(check_platform(2, 5, 0), Err(TlsError::PlatformEmpty));
    assert_eq!(check_platform(2, 5, 4), Ok(()));
    assert_eq!(check_platform(0, 1, 1), Ok(()));
}

#[test]
fn roots_come_from_a_valid_bundle() {
    let roots = trusted_roots(RootSource::Bundle(ROOT_PEM.as_bytes().to_vec())).unwrap();
    assert_eq!(roots.len(), 1);
    let twice = format!("{}{}", ROOT_PEM, ROOT_PEM);
    let roots = trusted_roots(RootSource::Bundle(twice.into_bytes())).unwrap();
    assert_eq!(roots.len(), 2);
}

#[test]
fn a_bundle_without_usable_certificates_fails() {
    assert_eq!(trusted_roots(RootSource::Bundle(Vec::new())).err(), Some(TlsError::BundleEmpty));
    let text = b"no certificate in here\n".to_vec();
    assert_eq!(trusted_roots(RootSource::Bundle(text)).err(), Some(TlsError::BundleEmpty));
    let junk = "-----BEGIN CERTIFICATE-----\nAAAA\n-----END CERTIFICATE-----\n";
    assert_eq!(
        trusted_roots(RootSource::Bundle(junk.as_bytes().to_vec())).err(),
        Some(TlsError::BundleEmpty)
    );
    let broken = "-----BEGIN CERTIFICATE-----\n!!!not base64!!!\n-----END CERTIFICATE-----\n";
    assert_eq!(
        trusted_roots(RootSource::Bundle(broken.as_bytes().to_vec())).err(),
        Some(TlsError::BundleMalformed)
    );
}

#[test]
fn roots_come_from_the_platform_store() {
    let source = RootSource::Platform { certs: vec![root_der(), vec![1, 2, 3]], errors: 1 };
    assert_eq!(trusted_roots(source).unwrap().len(), 1);
    let source = RootSource::Platform { certs: vec![vec![1, 2, 3]], errors: 0 };
    assert_eq!(trusted_roots(source).err(), Some(TlsError::PlatformEmpty));
    let source = RootSource::Platform { certs: Vec::new(), errors: 0 };
    assert_eq!(trusted_roots(source).err(), Some(TlsError::PlatformEmpty));
    let source = RootSource::Platform { certs: Vec::new(), errors: 2 };
    assert_eq!(trusted_roots(source).err(), Some(TlsError::PlatformUnreadable));
}

#[test]
fn errors_read_as_the_connection_failure_they_are() {
    assert_eq!(TlsError::BundleMalformed.message(), "failed to parse CA certs");
    assert_eq!(TlsError::BundleEmpty.message(), "no CA certs added");
    assert_eq!(TlsError::PlatformUnreadable.message(), "failed to load native certs");
    assert_eq!(TlsError::PlatformEmpty.message(), "no native certificates available");
}
