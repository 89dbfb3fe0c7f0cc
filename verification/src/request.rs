//! How a request to the registry is laid out, and how its answer is read.
use vstd::prelude::*;
use vstd::string::*;
use vstd::utf8::{decode_utf8, encode_utf8, encode_utf8_decode_utf8};
use crate::config::Timeout;
use crate::error::{Error, ErrorView, texts, text_is};
use crate::seqs::{lemma_filter_distinct, lemma_filter_next, lemma_filter_origin, pairwise_distinct};

verus! {

/// The upper-case hexadecimal digit of a number below sixteen.
pub open spec fn hex_digit(n: u8) -> char {
    if n < 10 {
        ((48 + n) as u8) as char
    } else {
        ((55 + n) as u8) as char
    }
}

/// A byte written as a percent sign and two hexadecimal digits.
pub open spec fn percent_byte(b: u8) -> Seq<char> {
    seq!['%', hex_digit(b / 16), hex_digit(b % 16)]
}

/// An ASCII letter or digit.
pub open spec fn is_alphanumeric(b: u8) -> bool {
    (48 <= b <= 57) || (65 <= b <= 90) || (97 <= b <= 122)
}

/// Bytes in which everything but ASCII letters and digits is percent-encoded.
pub open spec fn percent_encoded(bytes: Seq<u8>) -> Seq<char>
    decreases bytes.len(),
{
    if bytes.len() == 0 {
        Seq::empty()
    } else {
        percent_encoded(bytes.drop_last()) + if is_alphanumeric(bytes.last()) {
            seq![bytes.last() as char]
        } else {
            percent_byte(bytes.last())
        }
    }
}

/// A byte as a form body holds it: letters, digits and `*-._` as they are,
/// a space as a plus sign, anything else percent-encoded.
pub open spec fn form_byte(b: u8) -> Seq<char> {
    if is_alphanumeric(b) || b == 42 || b == 45 || b == 46 || b == 95 {
        seq![b as char]
    } else if b == 32 {
        seq!['+']
    } else {
        percent_byte(b)
    }
}

/// Bytes as a form body holds them.
pub open spec fn form_encoded(bytes: Seq<u8>) -> Seq<char>
    decreases bytes.len(),
{
    if bytes.len() == 0 {
        Seq::empty()
    } else {
        form_encoded(bytes.drop_last()) + form_byte(bytes.last())
    }
}

/// A form body with one more pair: an ampersand if the body holds a pair
/// already, then the encoded name, an equals sign and the encoded value.
pub open spec fn with_pair(body: Seq<char>, name: Seq<char>, value: Seq<char>) -> Seq<char> {
    (if body.len() > 0 {
        body.push('&')
    } else {
        body
    }) + form_encoded(encode_utf8(name)).push('=') + form_encoded(encode_utf8(value))
}

/// The number that an upper-case hexadecimal digit stands for.
pub open spec fn hex_value(c: char) -> int {
    let n = c as u32;
    if 48 <= n <= 57 {
        n - 48
    } else {
        n - 55
    }
}

/// The bytes that a form body stands for: a plus sign is a space, a percent
/// sign with two hexadecimal digits is the byte that they write, and
/// anything else is itself.
pub open spec fn form_decoded(text: Seq<char>) -> Seq<u8>
    decreases text.len(),
{
    if text.len() == 0 {
        Seq::empty()
    } else if text[0] == '%' && text.len() >= 3 {
        seq![(hex_value(text[1]) * 16 + hex_value(text[2])) as u8] + form_decoded(text.skip(3))
    } else if text[0] == '+' {
        seq![32u8] + form_decoded(text.skip(1))
    } else {
        seq![text[0] as u8] + form_decoded(text.skip(1))
    }
}

/// Decoding what stands for one byte gives that byte, whatever follows.
proof fn lemma_decode_one(b: u8, rest: Seq<char>)
    ensures
        form_decoded(form_byte(b) + rest) == seq![b] + form_decoded(rest),
{
    let text = form_byte(b) + rest;
    if is_alphanumeric(b) || b == 42 || b == 45 || b == 46 || b == 95 {
        assert(text[0] == b as char);
        assert(text.skip(1) =~= rest);
    } else if b == 32 {
        assert(text[0] == '+');
        assert(text.skip(1) =~= rest);
    } else {
        let high: u8 = b / 16;
        let low: u8 = b % 16;
        assert(text[0] == '%' && text[1] == hex_digit(high) && text[2] == hex_digit(low));
        assert(hex_value(hex_digit(high)) == high);
        assert(hex_value(hex_digit(low)) == low);
        assert(high * 16 + low == b);
        assert(text.skip(3) =~= rest);
    }
}

/// The encoding of bytes begins with what stands for the first byte.
proof fn lemma_encoded_front(bytes: Seq<u8>)
    requires
        bytes.len() > 0,
    ensures
        form_encoded(bytes) == form_byte(bytes[0]) + form_encoded(bytes.skip(1)),
    decreases bytes.len(),
{
    let init = bytes.drop_last();
    if bytes.len() == 1 {
        assert(form_encoded(init) =~= Seq::empty());
        assert(form_encoded(bytes.skip(1)) =~= Seq::empty());
        assert(form_encoded(bytes) =~= form_byte(bytes[0]) + form_encoded(bytes.skip(1)));
    } else {
        lemma_encoded_front(init);
        assert(init.skip(1) =~= bytes.skip(1).drop_last());
        assert(bytes.skip(1).last() == bytes.last());
        assert(form_encoded(bytes) =~= form_byte(bytes[0]) + form_encoded(bytes.skip(1)));
    }
}

/// A form body loses nothing: decoding the encoding of bytes gives the bytes.
pub proof fn form_encoding_round_trips(bytes: Seq<u8>)
    ensures
        form_decoded(form_encoded(bytes)) == bytes,
    decreases bytes.len(),
{
    if bytes.len() > 0 {
        lemma_encoded_front(bytes);
        lemma_decode_one(bytes[0], form_encoded(bytes.skip(1)));
        form_encoding_round_trips(bytes.skip(1));
        assert(seq![bytes[0]] + bytes.skip(1) =~= bytes);
    }
}

/// The value of a field can be read back from the body of a form: decoding
/// the encoded value and reading the bytes as UTF-8 gives the text that was
/// set.
pub proof fn form_value_round_trips(value: Seq<char>)
    ensures
        decode_utf8(form_decoded(form_encoded(encode_utf8(value)))) == value,
{
    form_encoding_round_trips(encode_utf8(value));
    encode_utf8_decode_utf8(value);
}

/// Calls `percent_encoding::percent_encode` with the set `NON_ALPHANUMERIC`,
/// which leaves ASCII letters and digits as they are and writes every other
/// byte as a percent sign and two upper-case hexadecimal digits.
#[verifier::external_body]
fn percent_encode_value(value: &str) -> (r: String)
    ensures
        r@ == percent_encoded(encode_utf8(value@)),
{
    percent_encoding::percent_encode(value.as_bytes(), percent_encoding::NON_ALPHANUMERIC).to_string()
}

/// Calls `url::form_urlencoded::Serializer::append_pair` on a serializer
/// that continues `body`, and finishes it: the pair is appended in the
/// `application/x-www-form-urlencoded` syntax, after an ampersand if the body
/// is not empty.
#[verifier::external_body]
fn append_form_pair(body: String, name: &str, value: &str) -> (r: String)
    ensures
        r@ == with_pair(body@, name@, value@),
{
    url::form_urlencoded::Serializer::new(body).append_pair(name, value).finish()
}

/// Whether `http::Uri` accepts the text.
pub uninterp spec fn parses_as_uri(url: Seq<char>) -> bool;

/// Parses the text with `http::Uri`'s `FromStr` and says whether it was accepted.
#[verifier::external_body]
fn uri_is_valid(url: &str) -> (r: bool)
    ensures
        r == parses_as_uri(url@),
{
    url.parse::<http::Uri>().is_ok()
}

/// What `serde_json::to_string` makes of an optional integer: the JSON text,
/// or the text of its error.
pub uninterp spec fn json_of_int(v: Option<i64>) -> Result<Seq<char>, Seq<char>>;

/// The texts of the outcome of a serialisation.
pub open spec fn json_view(r: Result<String, String>) -> Result<Seq<char>, Seq<char>> {
    match r {
        Ok(s) => Ok(s@),
        Err(e) => Err(e@),
    }
}

/// Calls `serde_json::to_string` on an optional integer. An absent value is
/// written as `null`.
#[verifier::external_body]
pub(crate) fn int_to_json(v: Option<i64>) -> (r: Result<String, String>)
    ensures
        json_view(r) == json_of_int(v),
        v is None ==> r is Ok && r->Ok_0@ == "null"@,
{
    match serde_json::to_string(&v) {
        Ok(s) => Ok(s),
        Err(e) => Err(e.to_string()),
    }
}

/// The body of a form as it grows.
#[derive(Debug)]
pub struct Form {
    pub body: String,
}

impl View for Form {
    type V = Seq<char>;

    open spec fn view(&self) -> Seq<char> {
        self.body@
    }
}

/// The value that a form sends for a JSON text: nothing for `null`.
pub open spec fn form_value(json: Seq<char>) -> Seq<char> {
    if json == "null"@ {
        Seq::empty()
    } else {
        json
    }
}

/// The error of a value that could not be serialised.
pub open spec fn serialize_failure(name: Seq<char>, detail: Seq<char>) -> ErrorView {
    ErrorView::Serialize("serialize json("@ + name + ") fail: "@ + detail)
}

impl Form {
    pub fn new() -> (form: Form)
        ensures
            form@ == Seq::<char>::empty(),
    {
        Form { body: String::new() }
    }

    /// Adds a field whose value was serialised to JSON: `json` is the JSON
    /// text, or the text of the error that serialising gave. A value that is
    /// `null` in JSON is sent as an empty value.
    pub fn set(&mut self, name: &str, json: Result<String, String>) -> (r: Result<(), Error>)
        ensures
            match json {
                Ok(data) => r is Ok && final(self)@ == with_pair(
                    old(self)@,
                    name@,
                    form_value(data@),
                ),
                Err(detail) => r is Err && r->Err_0@ == serialize_failure(name@, detail@)
                    && final(self)@ == old(self)@,
            },
    {
        match json {
            Ok(data) => {
                let value = if text_is(&data, "null") {
                    String::new()
                } else {
                    data
                };
                let mut body = String::new();
                std::mem::swap(&mut body, &mut self.body);
                self.body = append_form_pair(body, name, value.as_str());
                Ok(())
            },
            Err(detail) => {
                let mut msg = String::from_str("serialize json(");
                msg.append(name);
                msg.append(") fail: ");
                msg.append(detail.as_str());
                Err(Error::Serialize(msg))
            },
        }
    }

    /// Adds a field that holds an optional integer.
    pub fn set_int(&mut self, name: &str, v: Option<i64>) -> (r: Result<(), Error>)
        ensures
            match json_of_int(v) {
                Ok(data) => r is Ok && final(self)@ == with_pair(
                    old(self)@,
                    name@,
                    form_value(data),
                ),
                Err(detail) => r is Err && r->Err_0@ == serialize_failure(name@, detail)
                    && final(self)@ == old(self)@,
            },
            v is None ==> r is Ok && final(self)@ == with_pair(
                old(self)@,
                name@,
                Seq::empty(),
            ),
    {
        self.set(name, int_to_json(v))
    }

    /// The finished body.
    pub fn finish(self) -> (body: String)
        ensures
            body@ == self@,
    {
        self.body
    }
}

/// How the registry names a failure.
#[derive(Debug, PartialEq, Eq)]
pub struct RespError {
    pub code: String,
    pub message: Option<String>,
    pub keys: Option<Vec<String>>,
}

/// The envelope of every answer of the registry.
#[derive(Debug)]
pub struct Response<T> {
    pub ok: bool,
    pub result: Option<T>,
    pub error: Option<RespError>,
}

/// The text of an optional message: empty where there is none.
pub open spec fn message_text(message: Option<String>) -> Seq<char> {
    match message {
        Some(m) => m@,
        None => Seq::empty(),
    }
}

/// The error that a failure named by the registry stands for.
pub open spec fn converted(error: Option<RespError>) -> ErrorView {
    match error {
        Some(err) => if err.code@ == "NOT_PERMITTED"@ {
            ErrorView::NotPermitted(
                message_text(err.message),
                match err.keys {
                    Some(keys) => texts(keys@),
                    None => Seq::empty(),
                },
            )
        } else {
            ErrorView::Request(err.code@, message_text(err.message))
        },
        None => ErrorView::Other("missing error"@),
    }
}

impl<T> Response<T> {
    /// Success without a value, or the error of the envelope.
    pub fn get_ok(self) -> (r: Result<(), Error>)
        ensures
            self.ok ==> r is Ok,
            !self.ok ==> r is Err && r->Err_0@ == converted(self.error),
    {
        if self.ok {
            Ok(())
        } else {
            Err(Self::convert_err(self.error))
        }
    }

    /// The error that the envelope's `error` stands for.
    pub fn convert_err(error: Option<RespError>) -> (e: Error)
        ensures
            e@ == converted(error),
    {
        match error {
            Some(err) => {
                let message = match err.message {
                    Some(m) => m,
                    None => String::new(),
                };
                if text_is(&err.code, "NOT_PERMITTED") {
                    let keys = match err.keys {
                        Some(k) => k,
                        None => Vec::new(),
                    };
                    assert(err.keys is None ==> texts(keys@) =~= Seq::empty());
                    Error::NotPermitted(message, keys)
                } else {
                    Error::Request(err.code, message)
                }
            },
            None => Error::other("missing error"),
        }
    }

    /// The value of the envelope, which a successful one must hold.
    pub fn get(self) -> (r: Result<T, Error>)
        ensures
            match r {
                Ok(t) => self.ok && self.result == Some(t),
                Err(e) => if self.ok {
                    self.result is None && e@ == ErrorView::Other("missing result"@)
                } else {
                    e@ == converted(self.error)
                },
            },
    {
        if self.ok {
            match self.result {
                Some(t) => Ok(t),
                None => Err(Error::other("missing result")),
            }
        } else {
            Err(Self::convert_err(self.error))
        }
    }

    /// The value of the envelope, which a successful one may lack.
    pub fn get_option(self) -> (r: Result<Option<T>, Error>)
        ensures
            match r {
                Ok(t) => self.ok && self.result == t,
                Err(e) => !self.ok && e@ == converted(self.error),
            },
    {
        if self.ok {
            Ok(self.result)
        } else {
            Err(Self::convert_err(self.error))
        }
    }
}

/// The error of an answer whose HTTP status is no success.
pub fn status_failure(status: &str, body: &str) -> (e: Error)
    ensures
        e@ == ErrorView::Other("["@ + status@ + "]: "@ + body@),
{
    let mut msg = String::from_str("[");
    msg.append(status);
    msg.append("]: ");
    msg.append(body);
    Error::Other(msg)
}

#[derive(Debug, Clone, Copy, PartialEq, Eq, Structural)]
pub enum Method {
    Get,
    Post,
    Delete,
}

/// A request as it is put together.
#[derive(Debug)]
pub struct RequestBuilder {
    pub endpoint: String,
    pub path: String,
    pub method: Method,
    /// The query parameters, each name once.
    pub params: Vec<(String, String)>,
    pub headers: Vec<(String, String)>,
    pub body: Option<String>,
    /// The deadline of the request.
    pub timeout: Option<Timeout>,
    /// The first error met while the request was put together.
    pub pending_err: Option<Error>,
}

/// A request that is ready to be sent.
#[derive(Debug, PartialEq, Eq, Clone)]
pub struct Request {
    pub method: Method,
    pub url: String,
    pub headers: Vec<(String, String)>,
    pub body: Option<String>,
    pub timeout: Option<Timeout>,
}

/// Names with their values as plain texts.
pub type Pairs = Seq<(Seq<char>, Seq<char>)>;

/// The texts of a list of pairs of strings.
pub open spec fn pairs_text(pairs: Seq<(String, String)>) -> Pairs {
    Seq::new(pairs.len(), |i: int| (pairs[i].0@, pairs[i].1@))
}

/// The text of an optional string.
pub open spec fn body_text(body: Option<String>) -> Option<Seq<char>> {
    match body {
        Some(b) => Some(b@),
        None => None,
    }
}

/// The test that keeps every parameter but the one of this name.
pub open spec fn other_param(name: Seq<char>) -> spec_fn((Seq<char>, Seq<char>)) -> bool {
    |p: (Seq<char>, Seq<char>)| p.0 != name
}

/// The relation of two parameters of one name.
pub open spec fn same_name() -> spec_fn((Seq<char>, Seq<char>), (Seq<char>, Seq<char>)) -> bool {
    |a: (Seq<char>, Seq<char>), b: (Seq<char>, Seq<char>)| a.0 == b.0
}

/// A request under construction as a plain value.
pub struct BuilderView {
    pub endpoint: Seq<char>,
    pub path: Seq<char>,
    pub method: Method,
    pub params: Pairs,
    pub headers: Pairs,
    pub body: Option<Seq<char>>,
    pub timeout: Option<Timeout>,
    pub pending_err: Option<ErrorView>,
}

impl BuilderView {
    /// Each query parameter is named once.
    pub open spec fn wf(self) -> bool {
        pairwise_distinct(self.params, same_name())
    }

    /// A request with nothing but its target.
    pub open spec fn start(
        endpoint: Seq<char>,
        method: Method,
        path: Seq<char>,
        timeout: Option<Timeout>,
    ) -> BuilderView {
        BuilderView {
            endpoint,
            path,
            method,
            params: Seq::empty(),
            headers: Seq::empty(),
            body: None,
            timeout,
            pending_err: None,
        }
    }

    /// The parameter is set, in place of one of the same name.
    pub open spec fn param(self, name: Seq<char>, value: Seq<char>) -> BuilderView {
        BuilderView { params: self.params.filter(other_param(name)).push((name, value)), ..self }
    }

    /// The parameter is set if it has a value.
    pub open spec fn param_opt(self, name: Seq<char>, value: Option<Seq<char>>) -> BuilderView {
        match value {
            Some(v) => self.param(name, v),
            None => self,
        }
    }

    /// The header is added.
    pub open spec fn header(self, name: Seq<char>, value: Seq<char>) -> BuilderView {
        BuilderView { headers: self.headers.push((name, value)), ..self }
    }

    /// The body is set.
    pub open spec fn body(self, body: Seq<char>) -> BuilderView {
        BuilderView { body: Some(body), ..self }
    }

    /// A form is set as the body, with its content type.
    pub open spec fn form(self, form: Seq<char>) -> BuilderView {
        self.header("Content-Type"@, "application/x-www-form-urlencoded"@).body(form)
    }

    /// An error is remembered, unless one is remembered already.
    pub open spec fn failed(self, e: ErrorView) -> BuilderView {
        BuilderView {
            pending_err: if self.pending_err is None {
                Some(e)
            } else {
                self.pending_err
            },
            ..self
        }
    }

    /// A form is set as the body, or the error of making it is remembered.
    pub open spec fn form_result(self, form: Result<Seq<char>, ErrorView>) -> BuilderView {
        match form {
            Ok(f) => self.form(f),
            Err(e) => self.failed(e),
        }
    }

    /// The URL of the request: endpoint and path, then the query if there is one.
    pub open spec fn url(self) -> Seq<char> {
        self.endpoint + self.path + if self.params.len() > 0 {
            seq!['?'] + query_text(self.params)
        } else {
            Seq::empty()
        }
    }
}

impl View for RequestBuilder {
    type V = BuilderView;

    open spec fn view(&self) -> BuilderView {
        BuilderView {
            endpoint: self.endpoint@,
            path: self.path@,
            method: self.method,
            params: pairs_text(self.params@),
            headers: pairs_text(self.headers@),
            body: body_text(self.body),
            timeout: self.timeout,
            pending_err: match self.pending_err {
                Some(e) => Some(e@),
                None => None,
            },
        }
    }
}

/// The query of a URL: the parameters as `name=value` with the value
/// percent-encoded, joined by ampersands.
pub open spec fn query_text(params: Pairs) -> Seq<char>
    decreases params.len(),
{
    if params.len() == 0 {
        Seq::empty()
    } else {
        let rest = query_text(params.drop_last());
        (if params.len() > 1 {
            rest.push('&')
        } else {
            rest
        }) + params.last().0.push('=') + percent_encoded(encode_utf8(params.last().1))
    }
}

/// Whether a request holds what was put together.
pub open spec fn holds(request: Request, b: BuilderView) -> bool {
    &&& request.method == b.method
    &&& request.url@ == b.url()
    &&& pairs_text(request.headers@) == b.headers
    &&& body_text(request.body) == b.body
    &&& request.timeout == b.timeout
}

/// What putting a request together gives: the error met on the way, or the
/// request.
pub open spec fn assembled(b: BuilderView, r: Result<Request, Error>) -> bool {
    match b.pending_err {
        Some(e) => r is Err && r->Err_0@ == e,
        None => r matches Ok(request) && holds(request, b),
    }
}

/// What building makes of a request under construction: the error met
/// before, or the error of a URL that is none, or the request.
pub open spec fn built(b: BuilderView, r: Result<Request, Error>) -> bool {
    match b.pending_err {
        Some(e) => r is Err && r->Err_0@ == e,
        None => if parses_as_uri(b.url()) {
            r matches Ok(request) && holds(request, b)
        } else {
            r is Err && r->Err_0@ == ErrorView::Other("invalid url: "@ + b.url())
        },
    }
}

/// Setting a parameter leaves each parameter named once, and the parameter
/// that was set is the last of them.
pub proof fn param_keeps_names_distinct(b: BuilderView, name: Seq<char>, value: Seq<char>)
    requires
        b.wf(),
    ensures
        b.param(name, value).wf(),
        b.param(name, value).params.last() == (name, value),
        forall|i: int|
            0 <= i < b.param(name, value).params.len() - 1 ==> (
            #[trigger] b.param(name, value).params[i]).0 != name,
{
    lemma_filter_distinct(b.params, other_param(name), same_name());
    lemma_filter_origin(b.params, other_param(name));
}

fn params_without(params: &Vec<(String, String)>, name: &str) -> (kept: Vec<(String, String)>)
    ensures
        pairs_text(kept@) == pairs_text(params@).filter(other_param(name@)),
{
    let mut kept: Vec<(String, String)> = Vec::new();
    let wanted = String::from_str(name);
    let mut i: usize = 0;
    assert(pairs_text(params@).subrange(0, 0).filter(other_param(name@)) =~= pairs_text(kept@))
        by {
        reveal(Seq::filter);
    }
    while i < params.len()
        invariant
            i <= params.len(),
            wanted@ == name@,
            pairs_text(kept@) == pairs_text(params@).subrange(0, i as int).filter(
                other_param(name@),
            ),
        decreases params.len() - i,
    {
        proof {
            lemma_filter_next(pairs_text(params@), other_param(name@), i as int);
        }
        let ghost before = pairs_text(kept@);
        if params[i].0 != wanted {
            kept.push((params[i].0.clone(), params[i].1.clone()));
            assert(pairs_text(kept@) =~= before.push(pairs_text(params@)[i as int]));
        }
        i += 1;
    }
    assert(pairs_text(params@).subrange(0, params.len() as int) =~= pairs_text(params@));
    kept
}

fn build_query(params: &Vec<(String, String)>) -> (query: String)
    ensures
        query@ == query_text(pairs_text(params@)),
{
    let mut query = String::new();
    let mut i: usize = 0;
    let ghost all = pairs_text(params@);
    assert(all.subrange(0, 0) =~= Seq::empty());
    while i < params.len()
        invariant
            i <= params.len(),
            all == pairs_text(params@),
            query@ == query_text(all.subrange(0, i as int)),
        decreases params.len() - i,
    {
        let ghost before = all.subrange(0, i as int);
        let ghost after = all.subrange(0, i + 1);
        assert(after.drop_last() =~= before);
        assert(after.last() == all[i as int]);
        if i > 0 {
            query.append("&");
            proof {
                reveal_strlit("&");
                assert("&"@ =~= seq!['&']);
            }
        }
        query.append(params[i].0.as_str());
        query.append("=");
        proof {
            reveal_strlit("=");
            assert("="@ =~= seq!['=']);
        }
        let encoded = percent_encode_value(params[i].1.as_str());
        query.append(encoded.as_str());
        assert(query@ =~= query_text(after));
        i += 1;
    }
    assert(all.subrange(0, params.len() as int) =~= all);
    query
}

impl RequestBuilder {
    pub fn new(endpoint: &str, method: Method, path: &str, timeout: Option<Timeout>) -> (b:
        RequestBuilder)
        ensures
            b@ == BuilderView::start(endpoint@, method, path@, timeout),
            b@.wf(),
    {
        let b = RequestBuilder {
            endpoint: String::from_str(endpoint),
            path: String::from_str(path),
            method,
            params: Vec::new(),
            headers: Vec::new(),
            body: None,
            timeout,
            pending_err: None,
        };
        assert(pairs_text(b.params@) =~= Seq::empty());
        assert(pairs_text(b.headers@) =~= Seq::empty());
        b
    }

    /// Sets a query parameter, in place of one of the same name.
    pub fn param(self, name: &str, value: &str) -> (b: RequestBuilder)
        ensures
            b@ == self@.param(name@, value@),
            self@.wf() ==> b@.wf(),
    {
        proof {
            if self@.wf() {
                param_keeps_names_distinct(self@, name@, value@);
            }
        }
        let mut b = self;
        let mut params = params_without(&b.params, name);
        let ghost kept = pairs_text(params@);
        params.push((String::from_str(name), String::from_str(value)));
        assert(pairs_text(params@) =~= kept.push((name@, value@)));
        b.params = params;
        b
    }

    /// Sets a query parameter if it has a value.
    pub fn param_opt(self, name: &str, value: Option<&str>) -> (b: RequestBuilder)
        ensures
            b@ == self@.param_opt(
                name@,
                match value {
                    Some(v) => Some(v@),
                    None => None,
                },
            ),
            self@.wf() ==> b@.wf(),
    {
        match value {
            Some(v) => self.param(name, v),
            None => self,
        }
    }

    /// Adds a header.
    pub fn header(self, name: &str, value: &str) -> (b: RequestBuilder)
        ensures
            b@ == self@.header(name@, value@),
    {
        let mut b = self;
        b.headers.push((String::from_str(name), String::from_str(value)));
        assert(pairs_text(b.headers@) =~= pairs_text(self.headers@).push((name@, value@)));
        b
    }

    /// Sets the body.
    pub fn body(self, body: String) -> (b: RequestBuilder)
        ensures
            b@ == self@.body(body@),
    {
        let mut b = self;
        b.body = Some(body);
        b
    }

    /// Sets a form as the body, with its content type.
    pub fn form(self, form: Form) -> (b: RequestBuilder)
        ensures
            b@ == self@.form(form@),
    {
        self.header("Content-Type", "application/x-www-form-urlencoded").body(form.finish())
    }

    /// Sets a form as the body, or remembers the error that making the form
    /// gave, unless an earlier error is remembered already.
    pub fn form_result(self, form: Result<Form, Error>) -> (b: RequestBuilder)
        ensures
            b@ == self@.form_result(
                match form {
                    Ok(f) => Ok(f@),
                    Err(e) => Err(e@),
                },
            ),
    {
        match form {
            Ok(f) => self.form(f),
            Err(e) => {
                let mut b = self;
                if b.pending_err.is_none() {
                    b.pending_err = Some(e);
                }
                b
            },
        }
    }

    /// Puts the request together, with its URL as it stands: the error met
    /// on the way comes in its place.
    pub fn assemble(self) -> (r: Result<Request, Error>)
        ensures
            assembled(self@, r),
    {
        if let Some(err) = self.pending_err {
            return Err(err);
        }
        let mut url = self.endpoint;
        url.append(self.path.as_str());
        if self.params.len() > 0 {
            url.append("?");
            proof {
                reveal_strlit("?");
                assert("?"@ =~= seq!['?']);
            }
            let query = build_query(&self.params);
            url.append(query.as_str());
        }
        assert(url@ =~= self@.url());
        Ok(
            Request {
                method: self.method,
                url,
                headers: self.headers,
                body: self.body,
                timeout: self.timeout,
            },
        )
    }

    /// Makes the request ready to be sent: the error met while it was put
    /// together comes first, then the URL is formed and must be one.
    pub fn build(self) -> (r: Result<Request, Error>)
        ensures
            built(self@, r),
    {
        match self.assemble() {
            Ok(request) => {
                let valid = uri_is_valid(request.url.as_str());
                request.accept(valid)
            },
            Err(e) => Err(e),
        }
    }
}

impl Request {
    /// Hands the request on if its URL was found valid, and refuses it with
    /// the URL in the error if not.
    pub fn accept(self, valid: bool) -> (r: Result<Request, Error>)
        ensures
            valid ==> r == Ok::<Request, Error>(self),
            !valid ==> r is Err && r->Err_0@ == ErrorView::Other("invalid url: "@ + self.url@),
    {
        if valid {
            Ok(self)
        } else {
            let mut msg = String::from_str("invalid url: ");
            msg.append(self.url.as_str());
            Err(Error::Other(msg))
        }
    }
}

} // verus!
