//! The common name of a certificate's subject.
use vstd::prelude::*;
use vstd::slice::slice_subrange;
use vstd::string::*;
use crate::error::{Error, ErrorView};

verus! {

/// The tags of the DER values that a subject is made of.
pub const TAG_OBID: u8 = 0x06;

pub const TAG_SEQ: u8 = 0x30;

pub const TAG_SET: u8 = 0x31;

pub const TAG_STR: u8 = 0x13;

/// The object identifier of the common name.
pub open spec fn obid_cn() -> Seq<u8> {
    seq![85u8, 4u8, 3u8]
}

/// A DER value inside a byte string: its tag, and where its content starts
/// and ends.
pub struct Tlv {
    pub tag: u8,
    pub start: int,
    pub end: int,
}

/// The value with the given tag whose content has `len` bytes from `start`
/// on, if the window up to `end` holds that many.
pub open spec fn sized(tag: u8, start: int, len: int, end: int) -> Option<Tlv> {
    if start + len > end {
        None
    } else {
        Some(Tlv { tag, start, end: start + len })
    }
}

/// The DER value that begins at `at` in the window of `bytes` that ends at
/// `end`. The tag is one byte, never of the high-number form; the length is
/// in the short form, or in the long form of one or two bytes where the
/// short form cannot hold it.
pub open spec fn tlv_in(bytes: Seq<u8>, at: int, end: int) -> Option<Tlv> {
    if at < 0 || end > bytes.len() || at + 2 > end {
        None
    } else {
        let tag = bytes[at];
        let first = bytes[at + 1];
        if tag & 0x1F == 0x1F {
            None
        } else if first < 128 {
            sized(tag, at + 2, first as int, end)
        } else if first == 0x81 {
            if at + 3 > end || bytes[at + 2] < 128 {
                None
            } else {
                sized(tag, at + 3, bytes[at + 2] as int, end)
            }
        } else if first == 0x82 {
            if at + 4 > end || bytes[at + 2] == 0 {
                None
            } else {
                sized(tag, at + 4, bytes[at + 2] * 256 + bytes[at + 3], end)
            }
        } else {
            None
        }
    }
}

/// The content of the value at `at` if it has the tag `tag`.
pub open spec fn value_in(bytes: Seq<u8>, at: int, end: int, tag: u8) -> Option<Tlv> {
    match tlv_in(bytes, at, end) {
        Some(v) => if v.tag == tag {
            Some(v)
        } else {
            None
        },
        None => None,
    }
}

/// Where the common name stands in a subject, read from `at` on. The
/// subject is a run of sets; each holds a sequence of an object identifier
/// and a value. The first set whose identifier is that of the common name
/// decides: its value must be a printable string. Anything that is not laid
/// out so ends the search.
pub open spec fn common_name_in(subject: Seq<u8>, at: int) -> Option<Tlv>
    decreases subject.len() - at,
{
    if at < 0 || at >= subject.len() {
        None
    } else {
        match value_in(subject, at, subject.len() as int, TAG_SET) {
            None => None,
            Some(set) => match value_in(subject, set.start, set.end, TAG_SEQ) {
                None => None,
                Some(seq) => match value_in(subject, seq.start, seq.end, TAG_OBID) {
                    None => None,
                    Some(obid) => if subject.subrange(obid.start, obid.end) == obid_cn() {
                        value_in(subject, obid.end, seq.end, TAG_STR)
                    } else {
                        common_name_in(subject, set.end)
                    },
                },
            },
        }
    }
}

/// The subject that `webpki` reads from a certificate, if it can read it.
pub uninterp spec fn trust_anchor_subject(cert_der: Seq<u8>) -> Option<Seq<u8>>;

/// The text that std makes of bytes, with what is no UTF-8 replaced.
pub uninterp spec fn utf8_lossy(bytes: Seq<u8>) -> Seq<char>;

/// The bytes of an optional vector.
pub open spec fn opt_bytes(v: Option<Vec<u8>>) -> Option<Seq<u8>> {
    match v {
        Some(b) => Some(b@),
        None => None,
    }
}

/// The text of an optional string.
pub open spec fn opt_chars(s: Option<String>) -> Option<Seq<char>> {
    match s {
        Some(t) => Some(t@),
        None => None,
    }
}

/// Calls `webpki::trust_anchor_util::cert_der_as_trust_anchor` and hands out
/// the subject of the trust anchor that it made of the certificate.
#[verifier::external_body]
fn cert_subject(cert_der: &[u8]) -> (r: Option<Vec<u8>>)
    ensures
        opt_bytes(r) == trust_anchor_subject(cert_der@),
{
    match webpki::trust_anchor_util::cert_der_as_trust_anchor(cert_der) {
        Ok(anchor) => Some(anchor.subject.to_vec()),
        Err(_) => None,
    }
}

/// Calls std's `String::from_utf8_lossy`.
#[verifier::external_body]
fn lossy_text(bytes: &[u8]) -> (r: String)
    ensures
        r@ == utf8_lossy(bytes@),
{
    String::from_utf8_lossy(bytes).into_owned()
}

/// A DER value as the reader found it: its tag and the bounds of its content.
#[derive(Debug, Clone, Copy, PartialEq, Eq)]
pub struct Value {
    pub tag: u8,
    pub start: usize,
    pub end: usize,
}

/// The value as a plain one.
pub open spec fn tlv_of(v: Option<Value>) -> Option<Tlv> {
    match v {
        Some(v) => Some(Tlv { tag: v.tag, start: v.start as int, end: v.end as int }),
        None => None,
    }
}

fn sized_value(tag: u8, start: usize, len: usize, end: usize) -> (r: Option<Value>)
    requires
        start <= end,
    ensures
        tlv_of(r) == sized(tag, start as int, len as int, end as int),
{
    if len > end - start {
        None
    } else {
        Some(Value { tag, start, end: start + len })
    }
}

/// Reads the DER value that begins at `at` in the window that ends at `end`.
pub fn read_value(bytes: &[u8], at: usize, end: usize) -> (r: Option<Value>)
    ensures
        tlv_of(r) == tlv_in(bytes@, at as int, end as int),
        r matches Some(v) ==> at + 2 <= v.start <= v.end <= end <= bytes@.len(),
{
    if end > bytes.len() || at > end || end - at < 2 {
        return None;
    }
    let tag = bytes[at];
    let first = bytes[at + 1];
    if tag & 0x1F == 0x1F {
        None
    } else if first < 128 {
        sized_value(tag, at + 2, first as usize, end)
    } else if first == 0x81 {
        if end - at < 3 || bytes[at + 2] < 128 {
            None
        } else {
            sized_value(tag, at + 3, bytes[at + 2] as usize, end)
        }
    } else if first == 0x82 {
        if end - at < 4 || bytes[at + 2] == 0 {
            None
        } else {
            let high: usize = bytes[at + 2] as usize;
            let low: usize = bytes[at + 3] as usize;
            sized_value(tag, at + 4, high * 256 + low, end)
        }
    } else {
        None
    }
}

/// Reads the value at `at` and hands it out if it has the tag `tag`.
pub fn get_value(bytes: &[u8], at: usize, end: usize, tag: u8) -> (r: Option<Value>)
    ensures
        tlv_of(r) == value_in(bytes@, at as int, end as int, tag),
        r matches Some(v) ==> at + 2 <= v.start <= v.end <= end <= bytes@.len(),
{
    match read_value(bytes, at, end) {
        Some(v) => if v.tag == tag {
            Some(v)
        } else {
            None
        },
        None => None,
    }
}

fn is_obid_cn(bytes: &[u8], start: usize, end: usize) -> (r: bool)
    requires
        start <= end <= bytes@.len(),
    ensures
        r == (bytes@.subrange(start as int, end as int) == obid_cn()),
{
    if end - start != 3 {
        assert(bytes@.subrange(start as int, end as int).len() != obid_cn().len());
        return false;
    }
    let r = bytes[start] == 85 && bytes[start + 1] == 4 && bytes[start + 2] == 3;
    proof {
        let s = bytes@.subrange(start as int, end as int);
        if r {
            assert(s =~= obid_cn());
        } else {
            assert(s[0] == bytes@[start as int] && s[1] == bytes@[start + 1] && s[2] == bytes@[start
                + 2]);
            assert(obid_cn()[0] == 85 && obid_cn()[1] == 4 && obid_cn()[2] == 3);
        }
    }
    r
}

/// Finds where the common name stands in the subject of a certificate.
pub fn find_common_name(subject: &[u8]) -> (r: Option<Value>)
    ensures
        tlv_of(r) == common_name_in(subject@, 0),
        r matches Some(v) ==> v.start <= v.end <= subject@.len(),
{
    let end = subject.len();
    let mut at: usize = 0;
    while at < end
        invariant
            end == subject@.len(),
            at <= end,
            common_name_in(subject@, at as int) == common_name_in(subject@, 0),
        decreases end - at,
    {
        let set = match get_value(subject, at, end, TAG_SET) {
            Some(v) => v,
            None => {
                return None;
            },
        };
        let seq = match get_value(subject, set.start, set.end, TAG_SEQ) {
            Some(v) => v,
            None => {
                return None;
            },
        };
        let obid = match get_value(subject, seq.start, seq.end, TAG_OBID) {
            Some(v) => v,
            None => {
                return None;
            },
        };
        if is_obid_cn(subject, obid.start, obid.end) {
            return get_value(subject, obid.end, seq.end, TAG_STR);
        }
        at = set.end;
    }
    None
}

/// The common name in the subject of a certificate, as text.
pub fn common_name(subject: &[u8]) -> (r: Option<String>)
    ensures
        opt_chars(r) == match common_name_in(subject@, 0) {
            Some(v) => Some(utf8_lossy(subject@.subrange(v.start, v.end))),
            None => None,
        },
{
    match find_common_name(subject) {
        Some(data) => Some(lossy_text(slice_subrange(subject, data.start, data.end))),
        None => None,
    }
}

/// The common name of the subject of a DER-encoded certificate.
pub fn get_cert_cn(cert_der: &[u8]) -> (r: Option<String>)
    ensures
        opt_chars(r) == match trust_anchor_subject(cert_der@) {
            Some(subject) => match common_name_in(subject, 0) {
                Some(v) => Some(utf8_lossy(subject.subrange(v.start, v.end))),
                None => None,
            },
            None => None,
        },
{
    match cert_subject(cert_der) {
        Some(subject) => common_name(subject.as_slice()),
        None => None,
    }
}

/// The name that a client's certificate gives to the application: the
/// common name of its subject, which it must have.
pub fn client_cert_name(cert_der: &[u8]) -> (r: Result<String, Error>)
    ensures
        match trust_anchor_subject(cert_der@) {
            Some(subject) => match common_name_in(subject, 0) {
                Some(v) => r is Ok && r->Ok_0@ == utf8_lossy(subject.subrange(v.start, v.end)),
                None => r is Err && r->Err_0@ == ErrorView::Other("get cert cn fail"@),
            },
            None => r is Err && r->Err_0@ == ErrorView::Other("get cert cn fail"@),
        },
{
    match get_cert_cn(cert_der) {
        Some(name) => Ok(name),
        None => Err(Error::other("get cert cn fail")),
    }
}

/// The error of a client's certificate that the TLS configuration refused.
pub fn client_cert_failure(reason: &str) -> (e: Error)
    ensures
        e@ == ErrorView::Ssl("add client cert fail: "@ + reason@),
{
    let mut msg = String::from_str("add client cert fail: ");
    msg.append(reason);
    Error::Ssl(msg)
}

} // verus!
