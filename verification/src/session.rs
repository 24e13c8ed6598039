//! What a session is opened with, and how the one-shot connection test ends.

use crate::config::{text_of, MqttConfig};
use vstd::prelude::*;
use vstd::string::StringExecFns;

verus! {

/// Where the certificates that a TLS session trusts come from.
#[derive(Clone, Copy, Debug, PartialEq, Eq, Structural)]
pub enum TlsMode {
    /// No TLS.
    Off,
    /// The CA bundle that the configuration names.
    CaBundle,
    /// The platform's trust store.
    PlatformRoots,
}

/// The parameters of one session, as plain values.
#[derive(Debug, Clone, PartialEq, Eq)]
pub struct SessionOptions {
    pub client_id: String,
    pub host: String,
    pub port: u16,
    /// User name and password, where a user name is configured.
    pub credentials: Option<(String, String)>,
    pub keep_alive_secs: u64,
    pub clean_session: bool,
    pub tls: TlsMode,
}

/// Session parameters with their texts as character sequences.
pub struct SessionOptionsView {
    pub client_id: Seq<char>,
    pub host: Seq<char>,
    pub port: u16,
    pub credentials: Option<(Seq<char>, Seq<char>)>,
    pub keep_alive_secs: u64,
    pub clean_session: bool,
    pub tls: TlsMode,
}

impl View for SessionOptions {
    type V = SessionOptionsView;

    open spec fn view(&self) -> SessionOptionsView {
        SessionOptionsView {
            client_id: self.client_id@,
            host: self.host@,
            port: self.port,
            credentials: match self.credentials {
                Some((user, password)) => Some((user@, password@)),
                None => None,
            },
            keep_alive_secs: self.keep_alive_secs,
            clean_session: self.clean_session,
            tls: self.tls,
        }
    }
}

/// The client identifier used where the configuration names none.
pub open spec fn default_client_id() -> Seq<char> {
    "air1-monitor"@
}

/// The view of an optional string slice.
pub open spec fn slice_text(t: Option<&str>) -> Option<Seq<char>> {
    match t {
        Some(s) => Some(s@),
        None => None,
    }
}

/// The parameters that a configuration and a password ask for: the
/// configured client identifier or the default one; the user name with the
/// password, or with an empty one where none is given; TLS from the bundle
/// where one is named, else from the platform.
pub open spec fn options_for(
    cfg: MqttConfig,
    password: Option<Seq<char>>,
    clean_session: bool,
) -> SessionOptionsView {
    SessionOptionsView {
        client_id: match cfg.client_id {
            Some(id) => id@,
            None => default_client_id(),
        },
        host: cfg.host@,
        port: cfg.port,
        credentials: match cfg.username {
            Some(user) => Some(
                (
                    user@,
                    match password {
                        Some(p) => p,
                        None => Seq::empty(),
                    },
                ),
            ),
            None => None,
        },
        keep_alive_secs: cfg.keepalive_secs as u64,
        clean_session,
        tls: if !cfg.tls {
            TlsMode::Off
        } else if cfg.ca_path is Some {
            TlsMode::CaBundle
        } else {
            TlsMode::PlatformRoots
        },
    }
}

/// The parameters of a session for a configuration and a password.
pub fn build_options(cfg: &MqttConfig, password: Option<&str>, clean_session: bool) -> (options:
    SessionOptions)
    ensures
        options@ == options_for(*cfg, slice_text(password), clean_session),
{
    let client_id = match &cfg.client_id {
        Some(id) => id.clone(),
        None => String::from_str("air1-monitor"),
    };
    let credentials = match &cfg.username {
        Some(user) => {
            let secret = match password {
                Some(p) => String::from_str(p),
                None => String::new(),
            };
            Some((user.clone(), secret))
        },
        None => None,
    };
    let tls = if !cfg.tls {
        TlsMode::Off
    } else if cfg.ca_path.is_some() {
        TlsMode::CaBundle
    } else {
        TlsMode::PlatformRoots
    };
    SessionOptions {
        client_id,
        host: cfg.host.clone(),
        port: cfg.port,
        credentials,
        keep_alive_secs: cfg.keepalive_secs as u64,
        clean_session,
        tls,
    }
}

/// How long the connection test waits for the broker to be reachable, in seconds.
pub const PROBE_TIMEOUT_SECS: u64 = 3;

/// How long the connection test waits for the acknowledgment, in seconds.
pub const TEST_TIMEOUT_SECS: u64 = 5;

/// The same in nanoseconds.
pub const TEST_TIMEOUT_NANOS: u128 = 5_000_000_000;

/// What the connection test saw.
#[derive(Debug, Clone, PartialEq, Eq)]
pub enum TestNote {
    /// The broker acknowledged the session.
    Acknowledged,
    /// Any other notification.
    Other,
    /// The transport failed, in its own words.
    Failed(String),
    /// The notifications ended.
    Ended,
}

/// A note with its text as a character sequence.
pub enum TestNoteView {
    Acknowledged,
    Other,
    Failed(Seq<char>),
    Ended,
}

impl View for TestNote {
    type V = TestNoteView;

    open spec fn view(&self) -> TestNoteView {
        match *self {
            TestNote::Acknowledged => TestNoteView::Acknowledged,
            TestNote::Other => TestNoteView::Other,
            TestNote::Failed(reason) => TestNoteView::Failed(reason@),
            TestNote::Ended => TestNoteView::Ended,
        }
    }
}

/// How the connection test goes on.
#[derive(Debug, Clone, PartialEq, Eq)]
pub enum TestVerdict {
    /// Wait for the next notification.
    Continue,
    Passed,
    Failed(String),
}

/// A verdict with its text as a character sequence.
pub enum TestVerdictView {
    Continue,
    Passed,
    Failed(Seq<char>),
}

impl View for TestVerdict {
    type V = TestVerdictView;

    open spec fn view(&self) -> TestVerdictView {
        match *self {
            TestVerdict::Continue => TestVerdictView::Continue,
            TestVerdict::Passed => TestVerdictView::Passed,
            TestVerdict::Failed(reason) => TestVerdictView::Failed(reason@),
        }
    }
}

/// The verdict on one notification that came `elapsed_nanos` nanoseconds
/// into the test. A notification that comes after the timeout fails the
/// test whatever it is; before that the first acknowledgment passes it, a
/// transport error fails it, and anything else is waited out. The end of
/// the notifications fails it.
pub open spec fn test_verdict(note: TestNoteView, elapsed_nanos: u128) -> TestVerdictView {
    match note {
        TestNoteView::Ended => TestVerdictView::Failed("MQTT test ended without ConnAck"@),
        _ => if elapsed_nanos > TEST_TIMEOUT_NANOS {
            TestVerdictView::Failed("MQTT test timed out after 5s"@)
        } else {
            match note {
                TestNoteView::Acknowledged => TestVerdictView::Passed,
                TestNoteView::Failed(reason) => TestVerdictView::Failed(
                    "MQTT error during test: "@ + reason,
                ),
                _ => TestVerdictView::Continue,
            }
        },
    }
}

/// Decides how the connection test goes on after a notification.
pub fn test_step(note: TestNote, elapsed_nanos: u128) -> (verdict: TestVerdict)
    ensures
        verdict@ == test_verdict(note@, elapsed_nanos),
{
    match note {
        TestNote::Ended => TestVerdict::Failed(String::from_str("MQTT test ended without ConnAck")),
        TestNote::Acknowledged => if elapsed_nanos > TEST_TIMEOUT_NANOS {
            TestVerdict::Failed(String::from_str("MQTT test timed out after 5s"))
        } else {
            TestVerdict::Passed
        },
        TestNote::Failed(reason) => if elapsed_nanos > TEST_TIMEOUT_NANOS {
            TestVerdict::Failed(String::from_str("MQTT test timed out after 5s"))
        } else {
            TestVerdict::Failed(
                String::from_str("MQTT error during test: ").concat(reason.as_str()),
            )
        },
        TestNote::Other => if elapsed_nanos > TEST_TIMEOUT_NANOS {
            TestVerdict::Failed(String::from_str("MQTT test timed out after 5s"))
        } else {
            TestVerdict::Continue
        },
    }
}

} // verus!
