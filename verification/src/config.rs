//! How the client is configured.
use vstd::prelude::*;
use vstd::string::*;
use crate::error::{Error, ErrorView, clone_opt_string};

verus! {

/// Seconds that a request may take unless the configuration says otherwise.
pub const DEFAULT_REQUEST_TIMEOUT: u64 = 5;

pub const NANOS_PER_SEC: u32 = 1_000_000_000;

/// A span of time: whole seconds and the nanoseconds beyond them.
#[derive(Debug, Clone, Copy, PartialEq, Eq, Structural)]
pub struct Timeout {
    pub secs: u64,
    pub nanos: u32,
}

impl Timeout {
    /// The nanoseconds stay below a second.
    pub open spec fn wf(self) -> bool {
        self.nanos < NANOS_PER_SEC
    }

    /// The span in nanoseconds.
    pub open spec fn nanoseconds(self) -> int {
        self.secs * 1_000_000_000 + self.nanos
    }

    /// The seconds of the sum of two spans.
    pub open spec fn sum_secs(self, other: Timeout) -> int {
        self.secs + other.secs + (self.nanos + other.nanos) / 1_000_000_000
    }

    /// Whether the sum of two spans can be held.
    pub open spec fn fits(self, other: Timeout) -> bool {
        self.sum_secs(other) <= u64::MAX
    }

    /// The sum of two spans.
    pub open spec fn plus(self, other: Timeout) -> Timeout {
        Timeout {
            secs: self.sum_secs(other) as u64,
            nanos: ((self.nanos + other.nanos) % 1_000_000_000) as u32,
        }
    }

    /// A span of whole seconds.
    pub fn from_secs(secs: u64) -> (t: Timeout)
        ensures
            t == (Timeout { secs, nanos: 0 }),
            t.wf(),
    {
        Timeout { secs, nanos: 0 }
    }

    /// The whole seconds of the span.
    pub fn as_secs(&self) -> (secs: u64)
        ensures
            secs == self.secs,
    {
        self.secs
    }

    /// The sum of two spans, if it can be held.
    pub fn checked_add(self, other: Timeout) -> (r: Option<Timeout>)
        ensures
            r == if self.fits(other) {
                Some(self.plus(other))
            } else {
                None
            },
    {
        let nanos: u64 = self.nanos as u64 + other.nanos as u64;
        let carry: u64 = nanos / 1_000_000_000;
        let rest: u32 = (nanos % 1_000_000_000) as u32;
        match self.secs.checked_add(other.secs) {
            Some(secs) => match secs.checked_add(carry) {
                Some(secs) => Some(Timeout { secs, nanos: rest }),
                None => None,
            },
            None => None,
        }
    }
}

/// The sum of two well-formed spans is well formed and lasts as long as
/// both together.
pub proof fn sum_of_timeouts_adds_up(a: Timeout, b: Timeout)
    requires
        a.wf(),
        b.wf(),
        a.fits(b),
    ensures
        a.plus(b).wf(),
        a.plus(b).nanoseconds() == a.nanoseconds() + b.nanoseconds(),
{
}

#[derive(Debug, PartialEq, Eq)]
pub struct Config {
    pub endpoint: String,
    /// Accept any certificate of the server.
    pub insecure: bool,
    /// The application's name, set directly for development.
    pub dev_app: Option<String>,
    pub ca_file: Option<String>,
    /// The files of the client's certificate and of its key.
    pub cert_key_file: Option<(String, String)>,
    pub max_idle_connections: Option<usize>,
    /// How long a request may take.
    pub request_timeout: Timeout,
}

impl Clone for Config {
    fn clone(&self) -> (r: Self)
        ensures
            r == *self,
    {
        Config {
            endpoint: self.endpoint.clone(),
            insecure: self.insecure,
            dev_app: clone_opt_string(&self.dev_app),
            ca_file: clone_opt_string(&self.ca_file),
            cert_key_file: match &self.cert_key_file {
                Some(pair) => Some((pair.0.clone(), pair.1.clone())),
                None => None,
            },
            max_idle_connections: self.max_idle_connections,
            request_timeout: self.request_timeout,
        }
    }
}

impl Default for Config {
    fn default() -> (c: Config)
        ensures
            c.endpoint@ == Seq::<char>::empty(),
            !c.insecure,
            c.dev_app is None,
            c.ca_file is None,
            c.cert_key_file is None,
            c.max_idle_connections is None,
            c.request_timeout == (Timeout { secs: 0, nanos: 0 }),
    {
        Config {
            endpoint: String::new(),
            insecure: false,
            dev_app: None,
            ca_file: None,
            cert_key_file: None,
            max_idle_connections: None,
            request_timeout: Timeout::from_secs(0),
        }
    }
}

/// What came of reading a PEM file: it could not be opened (with the reason),
/// it could not be parsed, or it held that many items.
#[derive(Debug)]
pub enum PemOutcome {
    Unreadable(String),
    Invalid,
    Parsed(usize),
}

/// The error of a PEM file that cannot be used, if it is one: `what` is
/// `cert` or `key`.
pub open spec fn pem_failure(what: Seq<char>, path: Seq<char>, outcome: PemOutcome) -> Option<
    ErrorView,
> {
    match outcome {
        PemOutcome::Unreadable(reason) => Some(
            ErrorView::Other("open "@ + what + " file("@ + path + ") fail: "@ + reason@),
        ),
        PemOutcome::Invalid => Some(ErrorView::Other("invalid "@ + what + " file: "@ + path)),
        PemOutcome::Parsed(n) => if n == 0 {
            Some(ErrorView::Other("empty "@ + what + " file: "@ + path))
        } else {
            None
        },
    }
}

fn check_pem(what: &str, path: &str, outcome: PemOutcome) -> (r: Result<(), Error>)
    ensures
        match pem_failure(what@, path@, outcome) {
            Some(e) => r is Err && r->Err_0@ == e,
            None => r is Ok,
        },
{
    match outcome {
        PemOutcome::Unreadable(reason) => {
            let mut msg = String::from_str("open ");
            msg.append(what);
            msg.append(" file(");
            msg.append(path);
            msg.append(") fail: ");
            msg.append(reason.as_str());
            Err(Error::Other(msg))
        },
        PemOutcome::Invalid => {
            let mut msg = String::from_str("invalid ");
            msg.append(what);
            msg.append(" file: ");
            msg.append(path);
            Err(Error::Other(msg))
        },
        PemOutcome::Parsed(n) => {
            if n == 0 {
                let mut msg = String::from_str("empty ");
                msg.append(what);
                msg.append(" file: ");
                msg.append(path);
                Err(Error::Other(msg))
            } else {
                Ok(())
            }
        },
    }
}

/// Accepts what was read from a file of certificates, or says why not.
pub fn load_pem_certs(cert_path: &str, outcome: PemOutcome) -> (r: Result<(), Error>)
    ensures
        match pem_failure("cert"@, cert_path@, outcome) {
            Some(e) => r is Err && r->Err_0@ == e,
            None => r is Ok,
        },
{
    check_pem("cert", cert_path, outcome)
}

/// Accepts what was read from a file of keys, or says why not.
pub fn load_pem_keys(key_path: &str, outcome: PemOutcome) -> (r: Result<(), Error>)
    ensures
        match pem_failure("key"@, key_path@, outcome) {
            Some(e) => r is Err && r->Err_0@ == e,
            None => r is Ok,
        },
{
    check_pem("key", key_path, outcome)
}

impl Config {
    /// A configuration for the endpoint, with everything else at its default.
    pub fn new(endpoint: &str) -> (c: Config)
        ensures
            c.endpoint@ == endpoint@,
            !c.insecure,
            c.dev_app is None,
            c.ca_file is None,
            c.cert_key_file is None,
            c.max_idle_connections is None,
            c.request_timeout == (Timeout { secs: DEFAULT_REQUEST_TIMEOUT, nanos: 0 }),
    {
        Config {
            endpoint: String::from_str(endpoint),
            insecure: false,
            dev_app: None,
            ca_file: None,
            cert_key_file: None,
            max_idle_connections: None,
            request_timeout: Timeout::from_secs(DEFAULT_REQUEST_TIMEOUT),
        }
    }

    /// Sets the file of the certificate authority.
    pub fn ca_file(self, file: &str) -> (c: Config)
        ensures
            c.ca_file is Some && c.ca_file->0@ == file@,
            c == (Config { ca_file: c.ca_file, ..self }),
    {
        let mut c = self;
        c.ca_file = Some(String::from_str(file));
        c
    }

    /// Sets the files of the client's certificate and of its key.
    pub fn cert_key_file(self, cert: &str, key: &str) -> (c: Config)
        ensures
            c.cert_key_file matches Some(pair) && pair.0@ == cert@ && pair.1@ == key@,
            c == (Config { cert_key_file: c.cert_key_file, ..self }),
    {
        let mut c = self;
        c.cert_key_file = Some((String::from_str(cert), String::from_str(key)));
        c
    }

    /// The application's name may come from `dev_app` or from the client's
    /// certificate, not from both.
    pub fn check_app_source(&self) -> (r: Result<(), Error>)
        ensures
            if self.dev_app is Some && self.cert_key_file is Some {
                r is Err && r->Err_0@ == ErrorView::Other("dev_app & config duplicated"@)
            } else {
                r is Ok
            },
    {
        if self.dev_app.is_some() && self.cert_key_file.is_some() {
            Err(Error::other("dev_app & config duplicated"))
        } else {
            Ok(())
        }
    }
}

} // verus!
