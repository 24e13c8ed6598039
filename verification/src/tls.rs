//! The certificates that a TLS session trusts.
//!
//! Reading the CA bundle and the platform's trust store is the caller's
//! work. Which certificates of what was read can be used, and when their
//! lack fails the connection attempt, is decided here.

use rumqttc::tokio_rustls::rustls::pki_types::pem::PemObject;
use rumqttc::tokio_rustls::rustls::pki_types::CertificateDer;
use rumqttc::tokio_rustls::rustls::RootCertStore;
use vstd::prelude::*;

verus! {

/// A set of trusted root certificates.
#[verifier::external_type_specification]
#[verifier::external_body]
pub struct ExRootCertStore(rumqttc::tokio_rustls::rustls::RootCertStore);

/// The certificates that the PEM text `pem` holds, each in DER, in order,
/// sections of other kinds passed over; none where the text has an error of
/// syntax or of encoding.
pub uninterp spec fn pem_certificates(pem: Seq<u8>) -> Option<Seq<Seq<u8>>>;

/// How many of the DER certificates `certs` can be parsed as trust anchors.
pub uninterp spec fn usable_count(certs: Seq<Seq<u8>>) -> nat;

/// How many trust anchors a store holds.
pub uninterp spec fn anchor_count(roots: RootCertStore) -> nat;

/// What was read for the session to trust.
#[derive(Debug)]
pub enum RootSource {
    /// The bytes of the configured CA bundle.
    Bundle(Vec<u8>),
    /// What the platform's trust store gave: its certificates in DER, and
    /// how many errors it reported.
    Platform { certs: Vec<Vec<u8>>, errors: usize },
}

/// Why no trusted roots could be had. Each is a failure of the connection attempt.
#[derive(Clone, Copy, Debug, PartialEq, Eq, Structural)]
pub enum TlsError {
    /// The CA bundle is not valid PEM.
    BundleMalformed,
    /// The CA bundle holds no certificate that can be used.
    BundleEmpty,
    /// The platform's trust store could not be read.
    PlatformUnreadable,
    /// The platform's trust store holds no certificate that can be used.
    PlatformEmpty,
}

impl TlsError {
    /// The error in words.
    pub open spec fn message_text(self) -> Seq<char> {
        match self {
            TlsError::BundleMalformed => "failed to parse CA certs"@,
            TlsError::BundleEmpty => "no CA certs added"@,
            TlsError::PlatformUnreadable => "failed to load native certs"@,
            TlsError::PlatformEmpty => "no native certificates available"@,
        }
    }

    /// The error in words.
    pub fn message(self) -> (text: &'static str)
        ensures
            text@ == self.message_text(),
    {
        match self {
            TlsError::BundleMalformed => "failed to parse CA certs",
            TlsError::BundleEmpty => "no CA certs added",
            TlsError::PlatformUnreadable => "failed to load native certs",
            TlsError::PlatformEmpty => "no native certificates available",
        }
    }
}

/// Decodes the certificates of a PEM text with
/// `CertificateDer::pem_slice_iter`. The result is what the text holds, and
/// nothing else bears on it.
#[verifier::external_body]
fn decode_pem(pem: &Vec<u8>) -> (certs: Option<Vec<Vec<u8>>>)
    ensures
        certs.deep_view() == pem_certificates(pem@),
{
    let decoded: Result<Vec<CertificateDer<'static>>, _> = CertificateDer::pem_slice_iter(
        pem.as_slice(),
    ).collect();
    match decoded {
        Ok(certs) => Some(certs.iter().map(|c| c.as_ref().to_vec()).collect()),
        Err(_) => None,
    }
}

/// `RootCertStore::empty`: a store without trust anchors.
#[verifier::external_body]
fn empty_roots() -> (roots: RootCertStore)
    ensures
        anchor_count(roots) == 0,
{
    RootCertStore::empty()
}

/// `RootCertStore::add_parsable_certificates`: adds each certificate that
/// can be parsed as a trust anchor and skips the others. Returns how many
/// it added and how many it skipped; every certificate is one or the
/// other, and the store grows by those it added.
#[verifier::external_body]
fn add_parsable(roots: &mut RootCertStore, certs: Vec<Vec<u8>>) -> (counts: (usize, usize))
    ensures
        counts.0 == usable_count(certs.deep_view()),
        counts.0 + counts.1 == certs@.len(),
        anchor_count(*final(roots)) == anchor_count(*old(roots)) + counts.0,
{
    roots.add_parsable_certificates(certs.into_iter().map(|c| CertificateDer::from(c)))
}

/// The verdict on a CA bundle: it must be valid PEM and yield a
/// certificate that can be used.
pub open spec fn bundle_fault(decoded: bool, added: nat) -> Option<TlsError> {
    if !decoded {
        Some(TlsError::BundleMalformed)
    } else if added == 0 {
        Some(TlsError::BundleEmpty)
    } else {
        None
    }
}

/// The verdict on the platform's trust store: it fails where errors were
/// reported and no certificate came, and where no certificate can be used.
pub open spec fn platform_fault(errors: nat, certs: nat, added: nat) -> Option<TlsError> {
    if errors > 0 && certs == 0 {
        Some(TlsError::PlatformUnreadable)
    } else if added == 0 {
        Some(TlsError::PlatformEmpty)
    } else {
        None
    }
}

/// How many certificates of a source can be used.
pub open spec fn usable_in(source: RootSource) -> nat {
    match source {
        RootSource::Bundle(pem) => match pem_certificates(pem@) {
            Some(certs) => usable_count(certs),
            None => 0,
        },
        RootSource::Platform { certs, .. } => usable_count(certs.deep_view()),
    }
}

/// What is wrong with a source of roots, if anything.
pub open spec fn source_fault(source: RootSource) -> Option<TlsError> {
    match source {
        RootSource::Bundle(pem) => match pem_certificates(pem@) {
            Some(certs) => bundle_fault(true, usable_count(certs)),
            None => bundle_fault(false, 0),
        },
        RootSource::Platform { certs, errors } => platform_fault(
            errors as nat,
            certs@.len(),
            usable_count(certs.deep_view()),
        ),
    }
}

/// Judges a CA bundle by whether it could be decoded and by how many of its
/// certificates were added.
pub fn check_bundle(decoded: bool, added: usize) -> (r: Result<(), TlsError>)
    ensures
        match r {
            Ok(_) => bundle_fault(decoded, added as nat) is None,
            Err(e) => bundle_fault(decoded, added as nat) == Some(e),
        },
{
    if !decoded {
        Err(TlsError::BundleMalformed)
    } else if added == 0 {
        Err(TlsError::BundleEmpty)
    } else {
        Ok(())
    }
}

/// Judges the platform's trust store by the errors it reported, the
/// certificates it gave and how many of them were added.
pub fn check_platform(errors: usize, certs: usize, added: usize) -> (r: Result<(), TlsError>)
    ensures
        match r {
            Ok(_) => platform_fault(errors as nat, certs as nat, added as nat) is None,
            Err(e) => platform_fault(errors as nat, certs as nat, added as nat) == Some(e),
        },
{
    if errors > 0 && certs == 0 {
        Err(TlsError::PlatformUnreadable)
    } else if added == 0 {
        Err(TlsError::PlatformEmpty)
    } else {
        Ok(())
    }
}

/// The roots that a session trusts, from what was read for it: one trust
/// anchor for each certificate of the source that can be used. Fails where
/// there is none.
pub fn trusted_roots(source: RootSource) -> (r: Result<RootCertStore, TlsError>)
    ensures
        match r {
            Ok(roots) => {
                &&& source_fault(source) is None
                &&& anchor_count(roots) == usable_in(source)
                &&& anchor_count(roots) > 0
            },
            Err(e) => source_fault(source) == Some(e),
        },
{
    let mut roots = empty_roots();
    match source {
        RootSource::Bundle(pem) => {
            match decode_pem(&pem) {
                Some(certs) => {
                    let (added, _) = add_parsable(&mut roots, certs);
                    match check_bundle(true, added) {
                        Ok(_) => Ok(roots),
                        Err(e) => Err(e),
                    }
                },
                None => match check_bundle(false, 0) {
                    Ok(_) => Ok(roots),
                    Err(e) => Err(e),
                },
            }
        },
        RootSource::Platform { certs, errors } => {
            let n = certs.len();
            let (added, _) = add_parsable(&mut roots, certs);
            match check_platform(errors, n, added) {
                Ok(_) => Ok(roots),
                Err(e) => Err(e),
            }
        },
    }
}

} // verus!
