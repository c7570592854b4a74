//! A generic HTTP request builder shared by the tools: method, URL with query parameters, headers
//! and body. The request is sent where I/O is done.

use crate::text::{chars_of, eq_ignore_ascii_case, eq_ignoring_ascii_case, push_str};
use crate::tools::tool_core::{ToolError, ToolResult};
use vstd::prelude::*;
use vstd::string::StringSliceAdditionalSpecFns;
use vstd::utf8::encode_utf8;

verus! {

/// Whether a byte is left as it is by URL encoding: ASCII letters and digits, `-`, `.`, `_`, `~`.
pub open spec fn is_unreserved(b: u8) -> bool {
    (0x30 <= b <= 0x39) || (0x41 <= b <= 0x5a) || (0x61 <= b <= 0x7a) || b == 0x2d || b == 0x2e || b
        == 0x5f || b == 0x7e
}

/// Upper-case hexadecimal digit of a value below 16.
pub open spec fn hex_upper(d: int) -> char {
    if d < 10 {
        ((d + 0x30) as u32) as char
    } else {
        ((d - 10 + 0x41) as u32) as char
    }
}

/// The percent-encoding of bytes: unreserved bytes stand for themselves, every other byte is
/// written `%XY` with upper-case hexadecimal digits.
pub open spec fn percent_encoded(bytes: Seq<u8>) -> Seq<char>
    decreases bytes.len(),
{
    if bytes.len() == 0 {
        Seq::empty()
    } else {
        let b = bytes.last();
        percent_encoded(bytes.drop_last()) + if is_unreserved(b) {
            seq![(b as u32) as char]
        } else {
            seq!['%', hex_upper(b as int / 16), hex_upper(b as int % 16)]
        }
    }
}

/// URL-encodes a text with `urlencoding::encode`, which percent-encodes every byte of its UTF-8
/// form except ASCII letters, digits, `-`, `.`, `_` and `~`, with upper-case hexadecimal digits.
#[verifier::external_body]
pub(crate) fn url_encode(s: &str) -> (r: String)
    ensures
        r@ == percent_encoded(s.spec_bytes()),
{
    urlencoding::encode(s).into_owned()
}

/// The upper-case form of a text, as `str::to_uppercase` computes it by Unicode's rules.
pub uninterp spec fn upper_case_text(s: Seq<char>) -> Seq<char>;

/// The ASCII upper-case form of a character; other characters are kept.
pub open spec fn ascii_upper(c: char) -> char {
    if 'a' <= c && c <= 'z' {
        ((c as u32) - 32) as char
    } else {
        c
    }
}

/// Whether every character of a text is ASCII.
pub open spec fn all_ascii(s: Seq<char>) -> bool {
    forall|i: int| 0 <= i < s.len() ==> (#[trigger] s[i] as u32) < 128
}

/// The ASCII upper-case form of a text.
pub open spec fn ascii_upper_text(s: Seq<char>) -> Seq<char> {
    s.map_values(|c: char| ascii_upper(c))
}

/// Upper-cases a text with `str::to_uppercase`. The result is named; Unicode's mapping is left to
/// std. Unicode maps each ASCII character to one character, its ASCII upper-case form, so an
/// ASCII text is upper-cased letter by letter.
#[verifier::external_body]
pub(crate) fn to_upper_case(s: &str) -> (r: String)
    ensures
        r@ == upper_case_text(s@),
        all_ascii(s@) ==> r@ == ascii_upper_text(s@),
{
    s.to_uppercase()
}

/// HTTP methods that requests can be sent with.
#[derive(Debug, Clone, Copy, PartialEq, Eq, Structural)]
pub enum HttpMethod {
    Get,
    Post,
    Put,
    Delete,
    Patch,
}

/// The method named by an (upper-case) method name, if it is supported.
pub open spec fn method_named(m: Seq<char>) -> Option<HttpMethod> {
    if m == "GET"@ {
        Some(HttpMethod::Get)
    } else if m == "POST"@ {
        Some(HttpMethod::Post)
    } else if m == "PUT"@ {
        Some(HttpMethod::Put)
    } else if m == "DELETE"@ {
        Some(HttpMethod::Delete)
    } else if m == "PATCH"@ {
        Some(HttpMethod::Patch)
    } else {
        None
    }
}

/// Generic HTTP request builder that can be reused across tools. Header names and values are
/// checked where the request is sent; a later header replaces an earlier one of the same name.
#[derive(Debug)]
pub struct HttpRequestBuilder {
    pub method: String,
    pub url: String,
    pub headers: Vec<(String, String)>,
    pub body: Option<String>,
}

/// The pairs of a header list, with texts taken by their characters.
pub open spec fn headers_view(hs: Seq<(String, String)>) -> Seq<(Seq<char>, Seq<char>)> {
    hs.map_values(|h: (String, String)| (h.0@, h.1@))
}

/// The URL with one more query parameter: `?` starts the query unless the URL already has one,
/// `&` separates parameters, and key and value are URL-encoded.
pub open spec fn with_query_param(url: Seq<char>, key: Seq<char>, value: Seq<char>) -> Seq<char> {
    url + (if url.contains('?') {
        "&"@
    } else {
        "?"@
    }) + percent_encoded(encode_utf8(key)) + "="@ + percent_encoded(encode_utf8(value))
}

/// Whether query parameters send a value under a name: with a value, some parameter is that
/// name and value and every parameter of that name has that value; without, no parameter has the
/// name.
pub open spec fn param_sent(params: Seq<(Seq<char>, Seq<char>)>, name: Seq<char>, value: Option<Seq<char>>) -> bool {
    match value {
        Some(v) => {
            &&& exists|i: int| 0 <= i < params.len() && #[trigger] params[i] == (name, v)
            &&& forall|i: int| 0 <= i < params.len() && (#[trigger] params[i]).0 == name ==> params[i].1 == v
        },
        None => forall|i: int| 0 <= i < params.len() ==> (#[trigger] params[i]).0 != name,
    }
}

/// The URL with query parameters added in order.
pub open spec fn with_query_params(url: Seq<char>, params: Seq<(Seq<char>, Seq<char>)>) -> Seq<char>
    decreases params.len(),
{
    if params.len() == 0 {
        url
    } else {
        with_query_param(with_query_params(url, params.drop_last()), params.last().0, params.last().1)
    }
}

/// Whether a text contains a character.
pub fn contains_char(s: &str, c: char) -> (r: bool)
    ensures
        r == s@.contains(c),
{
    let cs = chars_of(s);
    for i in 0..cs.len()
        invariant
            cs@ == s@,
            forall|j: int| 0 <= j < i ==> cs@[j] != c,
    {
        if cs[i] == c {
            return true;
        }
    }
    false
}

/// The position of the first header whose name equals `name` without regard to ASCII case, or
/// -1 when there is none.
pub open spec fn header_index(hs: Seq<(Seq<char>, Seq<char>)>, name: Seq<char>) -> int
    decreases hs.len(),
{
    if hs.len() == 0 {
        -1
    } else {
        let k = header_index(hs.drop_last(), name);
        if k >= 0 {
            k
        } else if eq_ignoring_ascii_case(hs.last().0, name) {
            hs.len() - 1
        } else {
            -1
        }
    }
}

/// The headers with one header set, as a header map sets it: header names are compared without
/// regard to ASCII case, and a header of the same name has its value replaced (its name and
/// position are kept); otherwise the header is added at the end.
pub open spec fn set_header(hs: Seq<(Seq<char>, Seq<char>)>, name: Seq<char>, value: Seq<char>) -> Seq<
    (Seq<char>, Seq<char>),
> {
    let i = header_index(hs, name);
    if i >= 0 {
        hs.update(i, (hs[i].0, value))
    } else {
        hs.push((name, value))
    }
}

/// The headers with several headers set, in order.
pub open spec fn set_headers(hs: Seq<(Seq<char>, Seq<char>)>, extra: Seq<(Seq<char>, Seq<char>)>) -> Seq<
    (Seq<char>, Seq<char>),
>
    decreases extra.len(),
{
    if extra.len() == 0 {
        hs
    } else {
        let prev = set_headers(hs, extra.drop_last());
        set_header(prev, extra.last().0, extra.last().1)
    }
}

/// Whether a character may stand in a header name: an ASCII letter or digit, or one of
/// `` ! # $ % & ' * + - . ^ _ ` | ~ `` (the token characters of HTTP).
pub open spec fn is_header_name_char(c: char) -> bool {
    ||| ('a' <= c && c <= 'z') || ('A' <= c && c <= 'Z') || ('0' <= c && c <= '9')
    ||| c == '!' || c == '#' || c == '$' || c == '%' || c == '&' || c == '\'' || c == '*'
    ||| c == '+' || c == '-' || c == '.' || c == '^' || c == '_' || c == '`' || c == '|' || c == '~'
}

/// Whether a text is a valid header name: 1 to 65535 token characters.
pub open spec fn valid_header_name(name: Seq<char>) -> bool {
    1 <= name.len() <= 65535 && forall|i: int| 0 <= i < name.len() ==> is_header_name_char(#[trigger] name[i])
}

/// Whether a text is a valid header value: no control character but the tab (every character is
/// a tab, or at least a space and not DEL; characters past ASCII are allowed).
pub open spec fn valid_header_value(value: Seq<char>) -> bool {
    forall|i: int|
        0 <= i < value.len() ==> (#[trigger] value[i] == '\t' || (value[i] as u32 >= 32 && value[i] as u32 != 127))
}

/// Checks a header name with `reqwest::header::HeaderName::from_str`. Its source (`http`'s
/// `HeaderName::from_bytes`) accepts 1 to 65535 bytes, each a token character after mapping ASCII
/// letters to lower case; any byte of a character past ASCII is refused.
#[verifier::external_body]
fn header_name_accepted(name: &str) -> (r: bool)
    ensures
        r == valid_header_name(name@),
{
    <reqwest::header::HeaderName as std::str::FromStr>::from_str(name).is_ok()
}

/// Checks a header value with `reqwest::header::HeaderValue::from_str`. Its source accepts a
/// text exactly when every byte is a tab, or at least 32 and not 127; the bytes of characters
/// past ASCII are all at least 128.
#[verifier::external_body]
fn header_value_accepted(value: &str) -> (r: bool)
    ensures
        r == valid_header_value(value@),
{
    reqwest::header::HeaderValue::from_str(value).is_ok()
}

/// What setting a header gives: an error for an invalid name, then for an invalid value, else the
/// headers with that header set.
pub open spec fn header_outcome(hs: Seq<(Seq<char>, Seq<char>)>, key: Seq<char>, value: Seq<char>) -> Result<
    Seq<(Seq<char>, Seq<char>)>,
    Seq<char>,
> {
    if !valid_header_name(key) {
        Err("Invalid header name: "@ + key)
    } else if !valid_header_value(value) {
        Err("Invalid header value: "@ + value)
    } else {
        Ok(set_header(hs, key, value))
    }
}

/// Setting a header whose name differs (without regard to ASCII case) from every name in the
/// list adds it at the end.
pub proof fn lemma_set_new_header(hs: Seq<(Seq<char>, Seq<char>)>, name: Seq<char>, value: Seq<char>)
    requires
        forall|i: int| 0 <= i < hs.len() ==> hs[i].0.len() != name.len(),
    ensures
        set_header(hs, name, value) == hs.push((name, value)),
    decreases hs.len(),
{
    lemma_no_header_index(hs, name);
}

proof fn lemma_no_header_index(hs: Seq<(Seq<char>, Seq<char>)>, name: Seq<char>)
    requires
        forall|i: int| 0 <= i < hs.len() ==> hs[i].0.len() != name.len(),
    ensures
        header_index(hs, name) == -1,
    decreases hs.len(),
{
    if hs.len() > 0 {
        lemma_no_header_index(hs.drop_last(), name);
    }
}

proof fn lemma_header_index_prefix(hs: Seq<(Seq<char>, Seq<char>)>, j: int, name: Seq<char>)
    requires
        0 <= j <= hs.len(),
        header_index(hs.take(j), name) >= 0,
    ensures
        header_index(hs, name) == header_index(hs.take(j), name),
    decreases hs.len(),
{
    if j == hs.len() {
        assert(hs.take(j) =~= hs);
    } else {
        assert(hs.drop_last().take(j) =~= hs.take(j));
        lemma_header_index_prefix(hs.drop_last(), j, name);
    }
}

/// Sets a header in a header list, as `set_header` says.
pub fn insert_header(headers: &mut Vec<(String, String)>, name: String, value: String)
    ensures
        headers_view(final(headers)@) == set_header(headers_view(old(headers)@), name@, value@),
{
    let ghost hv = headers_view(headers@);
    let mut i: usize = 0;
    while i < headers.len()
        invariant
            hv == headers_view(headers@),
            headers@ == old(headers)@,
            i <= headers@.len(),
            header_index(hv.take(i as int), name@) == -1,
        decreases headers.len() - i,
    {
        assert(hv.take(i + 1).drop_last() =~= hv.take(i as int));
        assert(hv[i as int] == (headers@[i as int].0@, headers@[i as int].1@));
        if eq_ignore_ascii_case(headers[i].0.as_str(), name.as_str()) {
            proof {
                assert(header_index(hv.take(i + 1), name@) == i);
                lemma_header_index_prefix(hv, i + 1, name@);
            }
            let kept = headers[i].0.clone();
            let ghost v = value@;
            headers.set(i, (kept, value));
            assert(headers_view(headers@) =~= hv.update(i as int, (hv[i as int].0, v)));
            assert(set_header(hv, name@, v) == hv.update(i as int, (hv[i as int].0, v)));
            return;
        }
        i = i + 1;
    }
    assert(hv.take(i as int) =~= hv);
    let ghost before = headers@;
    headers.push((name, value));
    assert(headers_view(headers@) =~= headers_view(before).push((name@, value@)));
}

/// Sets headers in a header list, in order.
pub fn insert_headers(headers: &mut Vec<(String, String)>, extra: Vec<(String, String)>)
    ensures
        headers_view(final(headers)@) == set_headers(headers_view(old(headers)@), headers_view(extra@)),
{
    let ghost start = headers_view(headers@);
    let ghost ev = headers_view(extra@);
    let n = extra.len();
    let mut extra = extra;
    let mut rest: Vec<(String, String)> = Vec::new();
    // Take the extra headers in order: reverse them, then pop from the end.
    while extra.len() > 0
        invariant
            ev == headers_view(extra@) + headers_view(rest@).reverse(),
        decreases extra.len(),
    {
        let ghost e0 = extra@;
        let ghost r0 = rest@;
        let h = extra.pop().unwrap();
        rest.push(h);
        assert(headers_view(e0) =~= headers_view(extra@).push((h.0@, h.1@)));
        assert(headers_view(rest@).reverse() =~= seq![(h.0@, h.1@)] + headers_view(r0).reverse());
        assert(ev =~= headers_view(extra@) + headers_view(rest@).reverse());
    }
    assert(ev =~= headers_view(rest@).reverse());
    let mut k: usize = 0;
    while rest.len() > 0
        invariant
            headers_view(headers@) == set_headers(start, ev.take(k as int)),
            ev == ev.take(k as int) + headers_view(rest@).reverse(),
            k + rest@.len() == ev.len(),
            ev.len() == n,
        decreases rest.len(),
    {
        let ghost r0 = rest@;
        let h = rest.pop().unwrap();
        assert(headers_view(r0).reverse() =~= seq![(h.0@, h.1@)] + headers_view(rest@).reverse());
        assert(ev[k as int] == (h.0@, h.1@));
        assert(ev.take(k + 1).drop_last() =~= ev.take(k as int));
        insert_header(headers, h.0, h.1);
        k = k + 1;
        assert(ev =~= ev.take(k as int) + headers_view(rest@).reverse());
    }
    assert(ev.take(k as int) =~= ev);
}

impl HttpRequestBuilder {
    /// A request with the method in upper case and the JSON content type.
    pub fn new(method: &str, url: &str) -> (r: Self)
        ensures
            r.method@ == upper_case_text(method@),
            all_ascii(method@) ==> r.method@ == ascii_upper_text(method@),
            r.url@ == url@,
            headers_view(r.headers@) == seq![("content-type"@, "application/json"@)],
            r.body is None,
    {
        let mut headers: Vec<(String, String)> = Vec::new();
        headers.push(("content-type".to_string(), "application/json".to_string()));
        let r = HttpRequestBuilder { method: to_upper_case(method), url: url.to_string(), headers, body: None };
        assert(headers_view(r.headers@) =~= seq![("content-type"@, "application/json"@)]);
        r
    }

    /// Sets a header after checking its name and value: a header of the same name (without
    /// regard to ASCII case) gets the new value; otherwise the header is added. An invalid name
    /// or value is a formatting error.
    pub fn header(self, key: &str, value: &str) -> (r: ToolResult<Self>)
        ensures
            match header_outcome(headers_view(self.headers@), key@, value@) {
                Ok(h) => r matches Ok(b) && b.method == self.method && b.url == self.url && b.body
                    == self.body && headers_view(b.headers@) == h,
                Err(m) => r matches Err(ToolError::FormattingError(msg)) && msg@ == m,
            },
    {
        if !header_name_accepted(key) {
            let mut m = "Invalid header name: ".to_string();
            push_str(&mut m, key);
            return Err(ToolError::FormattingError(m));
        }
        if !header_value_accepted(value) {
            let mut m = "Invalid header value: ".to_string();
            push_str(&mut m, value);
            return Err(ToolError::FormattingError(m));
        }
        let mut b = self;
        insert_header(&mut b.headers, key.to_string(), value.to_string());
        Ok(b)
    }

    /// Sets headers, in order, each as `header` does.
    pub fn headers(self, headers: Vec<(String, String)>) -> (r: Self)
        ensures
            r.method == self.method,
            r.url == self.url,
            headers_view(r.headers@) == set_headers(headers_view(self.headers@), headers_view(headers@)),
            r.body == self.body,
    {
        let mut b = self;
        insert_headers(&mut b.headers, headers);
        b
    }

    /// Sets the body.
    pub fn body(self, body: String) -> (r: Self)
        ensures
            r.method == self.method,
            r.url == self.url,
            r.headers == self.headers,
            r.body == Some(body),
    {
        let mut b = self;
        b.body = Some(body);
        b
    }

    /// Adds a URL-encoded query parameter to the URL.
    pub fn _query_param(self, key: &str, value: &str) -> (r: Self)
        ensures
            r.method == self.method,
            r.url@ == with_query_param(self.url@, key@, value@),
            r.headers == self.headers,
            r.body == self.body,
    {
        proof {
            reveal_strlit("&");
            reveal_strlit("?");
            reveal_strlit("=");
        }
        let mut b = self;
        let separator = if contains_char(b.url.as_str(), '?') {
            "&"
        } else {
            "?"
        };
        push_str(&mut b.url, separator);
        let k = url_encode(key);
        push_str(&mut b.url, k.as_str());
        push_str(&mut b.url, "=");
        let v = url_encode(value);
        push_str(&mut b.url, v.as_str());
        b
    }

    /// The method to send the request with; an unsupported method is an error.
    pub fn send_method(&self) -> (r: ToolResult<HttpMethod>)
        ensures
            match method_named(self.method@) {
                Some(m) => r matches Ok(rm) && rm == m,
                None => r matches Err(ToolError::FormattingError(msg)) && msg@
                    == "Unsupported HTTP method: "@ + self.method@,
            },
    {
        let m = self.method.as_str();
        proof {
            reveal_strlit("GET");
            reveal_strlit("POST");
            reveal_strlit("PUT");
            reveal_strlit("DELETE");
            reveal_strlit("PATCH");
        }
        if crate::text::str_eq(m, "GET") {
            Ok(HttpMethod::Get)
        } else if crate::text::str_eq(m, "POST") {
            Ok(HttpMethod::Post)
        } else if crate::text::str_eq(m, "PUT") {
            Ok(HttpMethod::Put)
        } else if crate::text::str_eq(m, "DELETE") {
            Ok(HttpMethod::Delete)
        } else if crate::text::str_eq(m, "PATCH") {
            Ok(HttpMethod::Patch)
        } else {
            let mut msg = "Unsupported HTTP method: ".to_string();
            push_str(&mut msg, m);
            Err(ToolError::FormattingError(msg))
        }
    }
}

/// The outcome of a sent request: the response text when the status is a success, else an
/// execution error that gives the status and the text.
pub fn response_outcome(success: bool, status: &str, text: String) -> (r: ToolResult<String>)
    ensures
        success ==> (r matches Ok(t) && t == text),
        !success ==> (r matches Err(ToolError::ToolExecutionError(msg)) && msg@ == "Request failed with status "@
            + status@ + ": "@ + text@),
{
    if success {
        Ok(text)
    } else {
        let mut msg = "Request failed with status ".to_string();
        push_str(&mut msg, status);
        push_str(&mut msg, ": ");
        push_str(&mut msg, text.as_str());
        Err(ToolError::ToolExecutionError(msg))
    }
}

} // verus!
