//! Errors of the registry client and their classification.
use vstd::prelude::*;
use vstd::string::*;

verus! {

/// A local I/O failure: whether it was a deadline that ran out, and its text.
#[derive(Debug, PartialEq, Eq)]
pub struct IoFailure {
    pub timed_out: bool,
    pub message: String,
}

#[derive(Debug, PartialEq, Eq)]
pub enum Error {
    /// Local I/O failed.
    Io(IoFailure),
    /// The HTTP client failed.
    Http(String),
    /// TLS handshake or certificate handling failed.
    Ssl(String),
    /// Encoding or decoding of a payload failed.
    Serialize(String),
    /// The server reported a failure: its code and its message.
    Request(String, String),
    /// The server refused the named resources: its message and their keys.
    NotPermitted(String, Vec<String>),
    /// Anything else.
    Other(String),
}

/// An error as a plain value: texts as sequences of characters.
pub enum ErrorView {
    Io(bool, Seq<char>),
    Http(Seq<char>),
    Ssl(Seq<char>),
    Serialize(Seq<char>),
    Request(Seq<char>, Seq<char>),
    NotPermitted(Seq<char>, Seq<Seq<char>>),
    Other(Seq<char>),
}

/// The texts of a list of strings.
pub open spec fn texts(v: Seq<String>) -> Seq<Seq<char>> {
    v.map_values(|s: String| s@)
}

impl View for Error {
    type V = ErrorView;

    open spec fn view(&self) -> ErrorView {
        match self {
            Error::Io(f) => ErrorView::Io(f.timed_out, f.message@),
            Error::Http(m) => ErrorView::Http(m@),
            Error::Ssl(m) => ErrorView::Ssl(m@),
            Error::Serialize(m) => ErrorView::Serialize(m@),
            Error::Request(c, m) => ErrorView::Request(c@, m@),
            Error::NotPermitted(m, keys) => ErrorView::NotPermitted(m@, texts(keys@)),
            Error::Other(m) => ErrorView::Other(m@),
        }
    }
}

/// Whether `code` is one of the server codes after which a request may be sent again.
pub open spec fn retryable_code(code: Seq<char>) -> bool {
    ||| code == "SYSTEM_ERROR"@
    ||| code == "TOO_MANY_ATTEMPTS"@
    ||| code == "DEADLINE_EXCEEDED"@
    ||| code == "CANCELLED"@
}

/// Compares a string with a literal.
pub(crate) fn text_is(s: &String, lit: &str) -> (r: bool)
    ensures
        r == (s@ == lit@),
{
    let t = String::from_str(lit);
    *s == t
}

/// A copy of an optional string.
pub(crate) fn clone_opt_string(o: &Option<String>) -> (r: Option<String>)
    ensures
        r == *o,
{
    match o {
        Some(s) => Some(s.clone()),
        None => None,
    }
}

/// A copy of a list of strings.
pub(crate) fn clone_strings(v: &Vec<String>) -> (r: Vec<String>)
    ensures
        r@ == v@,
{
    let mut out: Vec<String> = Vec::new();
    let mut i: usize = 0;
    while i < v.len()
        invariant
            i <= v.len(),
            out@ == v@.subrange(0, i as int),
        decreases v.len() - i,
    {
        out.push(v[i].clone());
        assert(out@ =~= v@.subrange(0, i + 1));
        i += 1;
    }
    assert(v@.subrange(0, v.len() as int) =~= v@);
    out
}

impl Clone for IoFailure {
    fn clone(&self) -> (r: Self)
        ensures
            r == *self,
    {
        IoFailure { timed_out: self.timed_out, message: self.message.clone() }
    }
}

impl Clone for Error {
    fn clone(&self) -> (r: Self)
        ensures
            r@ == self@,
    {
        match self {
            Error::Io(f) => Error::Io(f.clone()),
            Error::Http(m) => Error::Http(m.clone()),
            Error::Ssl(m) => Error::Ssl(m.clone()),
            Error::Serialize(m) => Error::Serialize(m.clone()),
            Error::Request(c, m) => Error::Request(c.clone(), m.clone()),
            Error::NotPermitted(m, keys) => {
                let k = clone_strings(keys);
                Error::NotPermitted(m.clone(), k)
            },
            Error::Other(m) => Error::Other(m.clone()),
        }
    }
}

impl Error {
    /// What `is_timeout` answers.
    pub open spec fn timeout(&self) -> bool {
        match self {
            Error::Io(f) => f.timed_out,
            Error::Request(code, _) => code@ == "DEADLINE_EXCEEDED"@,
            _ => false,
        }
    }

    /// What `is_not_found` answers.
    pub open spec fn not_found(&self) -> bool {
        match self {
            Error::Request(code, _) => code@ == "NOT_FOUND"@,
            _ => false,
        }
    }

    /// What `can_retry` answers.
    pub open spec fn retryable(&self) -> bool {
        match self {
            Error::Io(_) => true,
            Error::Http(_) => true,
            Error::Ssl(_) => false,
            Error::Serialize(_) => false,
            Error::Request(code, _) => retryable_code(code@),
            Error::NotPermitted(_, _) => false,
            Error::Other(_) => false,
        }
    }

    /// The text that the error shows to a reader.
    pub open spec fn text(&self) -> Seq<char> {
        match self {
            Error::Io(f) => f.message@,
            Error::Http(m) => m@,
            Error::Ssl(m) => m@,
            Error::Serialize(m) => m@,
            Error::Request(code, message) => "request fail["@ + code@ + "]: "@ + message@,
            Error::NotPermitted(message, _) => "not permitted: "@ + message@,
            Error::Other(m) => m@,
        }
    }

    /// The I/O error of a deadline that ran out on the client's side.
    pub fn io_timeout() -> (e: Error)
        ensures
            e@ == ErrorView::Io(true, "timeout"@),
    {
        Error::Io(IoFailure { timed_out: true, message: String::from_str("timeout") })
    }

    /// An error of the last kind with the given text.
    pub fn other(msg: &str) -> (e: Error)
        ensures
            e@ == ErrorView::Other(msg@),
    {
        Error::Other(String::from_str(msg))
    }

    /// True for a local deadline and for the server's `DEADLINE_EXCEEDED`.
    pub fn is_timeout(&self) -> (r: bool)
        ensures
            r == self.timeout(),
    {
        match self {
            Error::Io(f) => f.timed_out,
            Error::Request(code, _) => text_is(code, "DEADLINE_EXCEEDED"),
            _ => false,
        }
    }

    /// True for the server's `NOT_FOUND` only.
    pub fn is_not_found(&self) -> (r: bool)
        ensures
            r == self.not_found(),
    {
        if let Error::Request(code, _) = self {
            if text_is(code, "NOT_FOUND") {
                return true;
            }
        }
        false
    }

    /// Whether the request that failed with this error may be sent again.
    pub fn can_retry(&self) -> (r: bool)
        ensures
            r == self.retryable(),
    {
        match self {
            Error::Ssl(_) => false,
            Error::Serialize(_) => false,
            Error::Request(code, _) => {
                text_is(code, "SYSTEM_ERROR") || text_is(code, "TOO_MANY_ATTEMPTS")
                    || text_is(code, "DEADLINE_EXCEEDED") || text_is(code, "CANCELLED")
            },
            Error::NotPermitted(_, _) => false,
            Error::Other(_) => false,
            _ => true,
        }
    }

    /// The error as text, as a reader sees it.
    pub fn message(&self) -> (r: String)
        ensures
            r@ == self.text(),
    {
        match self {
            Error::Io(f) => f.message.clone(),
            Error::Http(m) => m.clone(),
            Error::Ssl(m) => m.clone(),
            Error::Serialize(m) => m.clone(),
            Error::Request(code, message) => {
                let mut out = String::from_str("request fail[");
                out.append(code.as_str());
                out.append("]: ");
                out.append(message.as_str());
                out
            },
            Error::NotPermitted(message, _) => {
                let mut out = String::from_str("not permitted: ");
                out.append(message.as_str());
                out
            },
            Error::Other(m) => m.clone(),
        }
    }
}

/// A server failure with a code that asks for another attempt can be retried,
/// a deadline that ran out is always among them, and what was not found is
/// never a deadline.
pub proof fn timeouts_can_be_retried(e: Error)
    ensures
        e.timeout() ==> e.retryable(),
        !(e.timeout() && e.not_found()),
{
    reveal_strlit("DEADLINE_EXCEEDED");
    reveal_strlit("NOT_FOUND");
    if let Error::Request(code, _) = e {
        if code@ == "DEADLINE_EXCEEDED"@ && code@ == "NOT_FOUND"@ {
            assert("DEADLINE_EXCEEDED"@.len() == 17);
            assert("NOT_FOUND"@.len() == 9);
        }
    }
}

} // verus!
