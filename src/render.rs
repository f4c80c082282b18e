use vstd::prelude::*;
use vstd::string::*;

use crate::highlight::{highlight_json, highlighted};

verus! {

/// One response header, as the server sent it.
#[derive(Debug)]
pub struct Header {
    pub name: String,
    pub value: String,
}

/// A received response, prepared for display.
#[derive(Debug)]
pub struct RenderedResponse {
    /// The protocol version, such as `HTTP/1.1`.
    pub version: String,
    /// The numeric status code.
    pub status: u16,
    /// The headers, in the order the server sent them.
    pub headers: Vec<Header>,
    /// The raw body text.
    pub body: String,
}

/// How a response body is shown.
#[derive(Debug, Clone, Copy, PartialEq, Eq, Structural)]
pub enum BodyRenderer {
    /// The body verbatim.
    PlainText,
    /// The body pretty-printed and highlighted as JSON.
    HighlightedJson,
}

/// The decimal digit for `d < 10`.
pub open spec fn digit_text(d: nat) -> Seq<char> {
    if d == 0 { "0"@ } else if d == 1 { "1"@ } else if d == 2 { "2"@ } else if d == 3 { "3"@ }
    else if d == 4 { "4"@ } else if d == 5 { "5"@ } else if d == 6 { "6"@ } else if d == 7 { "7"@ }
    else if d == 8 { "8"@ } else { "9"@ }
}

/// The decimal digits of `n`, without leading zeros.
pub open spec fn decimal(n: nat) -> Seq<char>
    decreases n,
{
    if n < 10 {
        digit_text(n)
    } else {
        decimal(n / 10) + digit_text(n % 10)
    }
}

fn digit(d: u16) -> (r: &'static str)
    requires
        d < 10,
    ensures
        r@ == digit_text(d as nat),
{
    if d == 0 { "0" } else if d == 1 { "1" } else if d == 2 { "2" } else if d == 3 { "3" }
    else if d == 4 { "4" } else if d == 5 { "5" } else if d == 6 { "6" } else if d == 7 { "7" }
    else if d == 8 { "8" } else { "9" }
}

/// Appends the decimal digits of `n` to `out`.
fn push_decimal(out: &mut String, n: u16)
    ensures
        final(out)@ == old(out)@ + decimal(n as nat),
    decreases n,
{
    if n >= 10 {
        push_decimal(out, n / 10);
    }
    out.append(digit(n % 10));
    assert(final(out)@ =~= old(out)@ + decimal(n as nat));
}

/// The first line shown: protocol version, a space, the status code.
pub open spec fn status_text(version: Seq<char>, status: u16) -> Seq<char> {
    version + seq![' '] + decimal(status as nat)
}

/// A header as shown: `name: value`.
pub open spec fn header_text(h: Header) -> Seq<char> {
    h.name@ + seq![':', ' '] + h.value@
}

/// The status line of a response.
pub fn status_line(resp: &RenderedResponse) -> (r: String)
    ensures
        r@ == status_text(resp.version@, resp.status),
{
    let mut out = String::new();
    out.append(resp.version.as_str());
    proof {
        reveal_strlit(" ");
    }
    out.append(" ");
    push_decimal(&mut out, resp.status);
    assert(out@ =~= status_text(resp.version@, resp.status));
    out
}

/// A header line, `name: value`.
pub fn header_line(h: &Header) -> (r: String)
    ensures
        r@ == header_text(*h),
{
    let mut out = String::new();
    out.append(h.name.as_str());
    proof {
        reveal_strlit(": ");
    }
    out.append(": ");
    out.append(h.value.as_str());
    assert(out@ =~= header_text(*h));
    out
}

/// The lines shown before the body: the status line, then each header in
/// the order the server sent them.
pub fn render_head(resp: &RenderedResponse) -> (r: Vec<String>)
    ensures
        r@.len() == resp.headers@.len() + 1,
        r@[0]@ == status_text(resp.version@, resp.status),
        forall|i: int| 0 <= i < resp.headers@.len() ==> #[trigger] r@[i + 1]@ == header_text(resp.headers@[i]),
{
    let mut lines: Vec<String> = Vec::new();
    lines.push(status_line(resp));
    let mut i: usize = 0;
    while i < resp.headers.len()
        invariant
            i <= resp.headers@.len(),
            lines@.len() == i + 1,
            lines@[0]@ == status_text(resp.version@, resp.status),
            forall|j: int| 0 <= j < i ==> #[trigger] lines@[j + 1]@ == header_text(resp.headers@[j]),
        decreases resp.headers@.len() - i,
    {
        lines.push(header_line(&resp.headers[i]));
        i = i + 1;
    }
    lines
}

/// `t` spells `low` with each character as in `low` or as in `up`: a match
/// that ignores ASCII case when `up` is `low` in capitals.
pub open spec fn matches_either_case(t: Seq<char>, low: Seq<char>, up: Seq<char>) -> bool {
    &&& t.len() == low.len()
    &&& forall|i: int| 0 <= i < t.len() ==> t[i] == low[i] || t[i] == up[i]
}

/// `content-type`.
pub open spec fn content_type_lower() -> Seq<char> {
    seq!['c', 'o', 'n', 't', 'e', 'n', 't', '-', 't', 'y', 'p', 'e']
}

/// `CONTENT-TYPE`.
pub open spec fn content_type_upper() -> Seq<char> {
    seq!['C', 'O', 'N', 'T', 'E', 'N', 'T', '-', 'T', 'Y', 'P', 'E']
}

/// `application/json`.
pub open spec fn json_lower() -> Seq<char> {
    seq!['a', 'p', 'p', 'l', 'i', 'c', 'a', 't', 'i', 'o', 'n', '/', 'j', 's', 'o', 'n']
}

/// `APPLICATION/JSON`.
pub open spec fn json_upper() -> Seq<char> {
    seq!['A', 'P', 'P', 'L', 'I', 'C', 'A', 'T', 'I', 'O', 'N', '/', 'J', 'S', 'O', 'N']
}

/// A header name that is `Content-Type`, in any ASCII case.
pub open spec fn is_content_type_name(name: Seq<char>) -> bool {
    matches_either_case(name, content_type_lower(), content_type_upper())
}

/// Blank space inside a header value.
pub open spec fn is_blank(c: char) -> bool {
    c == ' ' || c == '\t'
}

/// A media type that is `application/json` (in any ASCII case), with blanks
/// around it allowed and any parameters after a `;` ignored.
pub open spec fn is_json_media_type(s: Seq<char>) -> bool {
    exists|a: int, c: int| is_json_media_at(s, a, c)
}

/// `s` holds blanks before `a`, `application/json` from `a`, blanks up to
/// `c`, and then either its end or a `;`.
pub open spec fn is_json_media_at(s: Seq<char>, a: int, c: int) -> bool {
    &&& 0 <= a
    &&& a + 16 <= c <= s.len()
    &&& forall|i: int| 0 <= i < a ==> is_blank(#[trigger] s[i])
    &&& matches_either_case(s.subrange(a, a + 16), json_lower(), json_upper())
    &&& forall|i: int| a + 16 <= i < c ==> is_blank(#[trigger] s[i])
    &&& (c == s.len() || s[c] == ';')
}

/// Whether `s` spells `low`, each character as in `low` or as in `up`.
fn spells_either_case(s: &str, from: usize, low: &str, up: &str) -> (r: bool)
    requires
        low@.len() == up@.len(),
        from + low@.len() <= s@.len(),
    ensures
        r == matches_either_case(s@.subrange(from as int, from + low@.len()), low@, up@),
{
    let total = s.unicode_len();
    let n = low.unicode_len();
    let mut i: usize = 0;
    while i < n
        invariant
            n == low@.len(),
            n == up@.len(),
            total == s@.len(),
            from + n <= s@.len(),
            i <= n,
            forall|j: int| 0 <= j < i ==> s@[from + j] == low@[j] || s@[from + j] == up@[j],
        decreases n - i,
    {
        let c = s.get_char(from + i);
        if c != low.get_char(i) && c != up.get_char(i) {
            assert(!(s@.subrange(from as int, from + n)[i as int] == low@[i as int]
                || s@.subrange(from as int, from + n)[i as int] == up@[i as int]));
            return false;
        }
        i = i + 1;
    }
    true
}

/// Whether a header name is `Content-Type`, in any ASCII case.
pub fn is_content_type_header(name: &str) -> (r: bool)
    ensures
        r == is_content_type_name(name@),
{
    let low = "content-type";
    let up = "CONTENT-TYPE";
    proof {
        reveal_strlit("content-type");
        reveal_strlit("CONTENT-TYPE");
        assert(low@ =~= content_type_lower());
        assert(up@ =~= content_type_upper());
    }
    if name.unicode_len() != 12 {
        return false;
    }
    let r = spells_either_case(name, 0, low, up);
    assert(name@.subrange(0, 12) =~= name@);
    r
}

/// Whether a `Content-Type` value names JSON: `application/json`, in any
/// ASCII case, with blanks around it and parameters after `;` ignored.
pub fn is_json_content_type(s: &str) -> (r: bool)
    ensures
        r == is_json_media_type(s@),
{
    let n = s.unicode_len();
    let mut a: usize = 0;
    while a < n && (s.get_char(a) == ' ' || s.get_char(a) == '\t')
        invariant
            n == s@.len(),
            a <= n,
            forall|i: int| 0 <= i < a ==> is_blank(#[trigger] s@[i]),
        decreases n - a,
    {
        a = a + 1;
    }
    if n - a < 16 {
        proof {
            lemma_not_json_start(s@, a as int);
        }
        return false;
    }
    let low = "application/json";
    let up = "APPLICATION/JSON";
    proof {
        reveal_strlit("application/json");
        reveal_strlit("APPLICATION/JSON");
        assert(low@ =~= json_lower());
        assert(up@ =~= json_upper());
    }
    if !spells_either_case(s, a, low, up) {
        proof {
            lemma_not_json_start(s@, a as int);
        }
        return false;
    }
    let mut c: usize = a + 16;
    while c < n && (s.get_char(c) == ' ' || s.get_char(c) == '\t')
        invariant
            n == s@.len(),
            a + 16 <= c <= n,
            forall|i: int| a + 16 <= i < c ==> is_blank(#[trigger] s@[i]),
        decreases n - c,
    {
        c = c + 1;
    }
    let r = c == n || s.get_char(c) == ';';
    proof {
        if r {
            assert(is_json_media_at(s@, a as int, c as int));
        } else {
            lemma_not_json_end(s@, a as int, c as int);
        }
    }
    r
}

/// Where every character before `a` is blank and `s[a]` is not, a JSON media
/// type can only start at `a`.
proof fn lemma_start_is_first_non_blank(s: Seq<char>, a: int, a2: int, c2: int)
    requires
        0 <= a <= s.len(),
        forall|i: int| 0 <= i < a ==> is_blank(#[trigger] s[i]),
        a < s.len() ==> !is_blank(s[a]),
        is_json_media_at(s, a2, c2),
    ensures
        a2 == a,
{
    let t = s.subrange(a2, a2 + 16);
    assert(t[0] == json_lower()[0] || t[0] == json_upper()[0]);
    assert(!is_blank(s[a2]));
    if a2 > a {
        assert(is_blank(s[a]));
    }
}

proof fn lemma_not_json_start(s: Seq<char>, a: int)
    requires
        0 <= a <= s.len(),
        forall|i: int| 0 <= i < a ==> is_blank(#[trigger] s[i]),
        a < s.len() ==> !is_blank(s[a]),
        a + 16 > s.len() || !matches_either_case(s.subrange(a, a + 16), json_lower(), json_upper()),
    ensures
        !is_json_media_type(s),
{
    if is_json_media_type(s) {
        let (a2, c2) = choose|a2: int, c2: int| is_json_media_at(s, a2, c2);
        lemma_start_is_first_non_blank(s, a, a2, c2);
    }
}

proof fn lemma_not_json_end(s: Seq<char>, a: int, c: int)
    requires
        0 <= a,
        a + 16 <= c < s.len(),
        forall|i: int| 0 <= i < a ==> is_blank(#[trigger] s[i]),
        !is_blank(s[a]),
        forall|i: int| a + 16 <= i < c ==> is_blank(#[trigger] s[i]),
        !is_blank(s[c]),
        s[c] != ';',
    ensures
        !is_json_media_type(s),
{
    if is_json_media_type(s) {
        let (a2, c2) = choose|a2: int, c2: int| is_json_media_at(s, a2, c2);
        lemma_start_is_first_non_blank(s, a, a2, c2);
        if c2 < c {
            assert(is_blank(s[c2]));
        } else if c2 > c {
            assert(is_blank(s[c]));
        }
    }
}

/// The renderer for a response whose `Content-Type` header, if any, is `ct`.
pub open spec fn renderer_for(ct: Option<Seq<char>>) -> BodyRenderer {
    match ct {
        Some(v) => if is_json_media_type(v) { BodyRenderer::HighlightedJson } else { BodyRenderer::PlainText },
        None => BodyRenderer::PlainText,
    }
}

/// The value of the first `Content-Type` header, if there is one.
pub open spec fn content_type_of(hs: Seq<Header>) -> Option<Seq<char>>
    decreases hs.len(),
{
    if hs.len() == 0 {
        None
    } else if is_content_type_name(hs[0].name@) {
        Some(hs[0].value@)
    } else {
        content_type_of(hs.drop_first())
    }
}

/// The value of the first `Content-Type` header, if there is one.
pub fn content_type(headers: &Vec<Header>) -> (r: Option<&String>)
    ensures
        r matches Some(v) ==> content_type_of(headers@) == Some(v@),
        r is None ==> content_type_of(headers@) is None,
{
    let mut i: usize = 0;
    assert(headers@.skip(0) =~= headers@);
    while i < headers.len()
        invariant
            i <= headers@.len(),
            content_type_of(headers@) == content_type_of(headers@.skip(i as int)),
        decreases headers@.len() - i,
    {
        assert(headers@.skip(i as int).drop_first() =~= headers@.skip(i + 1));
        if is_content_type_header(headers[i].name.as_str()) {
            return Some(&headers[i].value);
        }
        i = i + 1;
    }
    None
}

/// Chooses how to show the body: as highlighted JSON when the response's
/// `Content-Type` is `application/json` (parameters ignored), else verbatim.
pub fn choose_renderer(resp: &RenderedResponse) -> (r: BodyRenderer)
    ensures
        r == renderer_for(content_type_of(resp.headers@)),
{
    match content_type(&resp.headers) {
        Some(v) => if is_json_content_type(v.as_str()) {
            BodyRenderer::HighlightedJson
        } else {
            BodyRenderer::PlainText
        },
        None => BodyRenderer::PlainText,
    }
}

/// Whether serde_json reads the text as a JSON value.
pub uninterp spec fn json_parses(s: Seq<char>) -> bool;

/// serde_json's pretty-printed form of the JSON value the text holds.
pub uninterp spec fn json_pretty_text(s: Seq<char>) -> Seq<char>;

/// Relies on `serde_json::from_str` into a `serde_json::Value`, which fails
/// on text that is not JSON, and on `serde_json::to_string_pretty`, which
/// prints that value with indentation. The result depends on the text alone.
#[verifier::external_body]
fn pretty_json(s: &str) -> (r: Option<String>)
    ensures
        r is Some <==> json_parses(s@),
        r matches Some(p) ==> p@ == json_pretty_text(s@),
{
    match serde_json::from_str::<serde_json::Value>(s) {
        Ok(v) => serde_json::to_string_pretty(&v).ok(),
        Err(_) => None,
    }
}

/// The body as shown by a renderer, given what pretty-printing the body as
/// JSON gave (`None` where it is not JSON): highlighted JSON falls back to
/// the raw body when pretty-printing failed.
pub open spec fn shown_body(renderer: BodyRenderer, body: Seq<char>, pretty: Option<Seq<char>>) -> Seq<char> {
    match renderer {
        BodyRenderer::PlainText => body,
        BodyRenderer::HighlightedJson => match pretty {
            Some(p) => highlighted(p),
            None => body,
        },
    }
}

/// The body as shown by `renderer`, given the body's pretty-printed JSON
/// form where there is one.
pub fn body_text(renderer: BodyRenderer, body: &str, pretty: Option<&str>) -> (r: String)
    ensures
        r@ == shown_body(renderer, body@, match pretty { Some(p) => Some(p@), None => None }),
{
    match renderer {
        BodyRenderer::PlainText => String::from_str(body),
        BodyRenderer::HighlightedJson => match pretty {
            Some(p) => highlight_json(p),
            None => String::from_str(body),
        },
    }
}

/// What pretty-printing a body as JSON gives.
pub open spec fn pretty_of(body: Seq<char>) -> Option<Seq<char>> {
    if json_parses(body) { Some(json_pretty_text(body)) } else { None }
}

/// The body of a response as shown: highlighted, pretty-printed JSON when
/// the content type is JSON and the body parses, else the raw body.
pub fn render_body(resp: &RenderedResponse) -> (r: String)
    ensures
        r@ == shown_body(renderer_for(content_type_of(resp.headers@)), resp.body@, pretty_of(resp.body@)),
{
    let renderer = choose_renderer(resp);
    match renderer {
        BodyRenderer::PlainText => body_text(renderer, resp.body.as_str(), None),
        BodyRenderer::HighlightedJson => {
            let pretty = pretty_json(resp.body.as_str());
            match pretty {
                Some(p) => body_text(renderer, resp.body.as_str(), Some(p.as_str())),
                None => body_text(renderer, resp.body.as_str(), None),
            }
        },
    }
}

/// A response whose `Content-Type` is absent or not JSON has its body shown
/// verbatim, whatever pretty-printing would give.
pub proof fn lemma_non_json_body_verbatim(headers: Seq<Header>, body: Seq<char>, pretty: Option<Seq<char>>)
    requires
        match content_type_of(headers) {
            Some(v) => !is_json_media_type(v),
            None => true,
        },
    ensures
        shown_body(renderer_for(content_type_of(headers)), body, pretty) == body,
{
}

/// A response whose `Content-Type` is JSON and whose body parses as JSON has
/// the pretty-printed body shown, highlighted.
pub proof fn lemma_json_body_highlighted(headers: Seq<Header>, body: Seq<char>)
    requires
        content_type_of(headers) matches Some(v) && is_json_media_type(v),
        json_parses(body),
    ensures
        shown_body(renderer_for(content_type_of(headers)), body, pretty_of(body))
            == highlighted(json_pretty_text(body)),
{
}

/// Everything shown for a response: the status line, the headers in the
/// order the server sent them, then the body.
pub fn render(resp: &RenderedResponse) -> (r: Vec<String>)
    ensures
        r@.len() == resp.headers@.len() + 2,
        r@[0]@ == status_text(resp.version@, resp.status),
        forall|i: int| 0 <= i < resp.headers@.len() ==> #[trigger] r@[i + 1]@ == header_text(resp.headers@[i]),
        r@[resp.headers@.len() as int + 1]@ == shown_body(
            renderer_for(content_type_of(resp.headers@)),
            resp.body@,
            pretty_of(resp.body@),
        ),
{
    let mut lines = render_head(resp);
    lines.push(render_body(resp));
    lines
}

} // verus!
