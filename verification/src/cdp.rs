//! Talking to the Chrome DevTools Protocol (CDP) endpoint of Codex: the HTTP
//! request that is sent, how the reply is read, and how the browser id is
//! taken out of the `/json/version` document.

use vstd::prelude::*;
use crate::json::{json_error_text, json_member_str, json_parse_error, json_str_member};
use crate::text::{
    chars_of, decimal, matches_at, decimal_text, find_first, find_from, find_from_exec, last_index_of,
    last_index_of_exec, lemma_find_from, lemma_last_index_of, rest_after, slice_text,
    occurs_in, starts_with, starts_with_text, lemma_find_from_at, lemma_match_starts_with,
};

verus! {

broadcast use vstd::string::group_string_axioms;

/// The blank line that ends the header of an HTTP response.
pub open spec fn header_terminator() -> Seq<char> {
    seq!['\r', '\n', '\r', '\n']
}

/// The quoted key under which the version document names the WebSocket URL.
pub open spec fn ws_url_key() -> Seq<char> {
    "\"webSocketDebuggerUrl\""@
}

/// Names what `char::is_alphanumeric` returns for `c` (Unicode alphabetic or numeric).
pub uninterp spec fn unicode_alphanumeric(c: char) -> bool;

/// An ASCII letter or digit.
pub open spec fn ascii_alphanumeric(c: char) -> bool {
    ('a' <= c <= 'z') || ('A' <= c <= 'Z') || ('0' <= c <= '9')
}

/// Calls `char::is_alphanumeric`. The contract claims that the answer is a
/// function of the character, and that among ASCII characters exactly the
/// letters and digits are alphanumeric; which other characters Unicode counts
/// is left unsaid.
#[verifier::external_body]
fn is_alphanumeric(c: char) -> (r: bool)
    ensures
        r == unicode_alphanumeric(c),
        (c as u32) < 128 ==> (r <==> ascii_alphanumeric(c)),
{
    c.is_alphanumeric()
}

/// A character that may stand in a browser id.
pub open spec fn browser_id_char(c: char) -> bool {
    unicode_alphanumeric(c) || c == '.' || c == '_' || c == '-'
}

/// An ASCII character that may stand in a browser id.
pub open spec fn ascii_id_char(c: char) -> bool {
    ascii_alphanumeric(c) || c == '.' || c == '_' || c == '-'
}

/// The text of `GET <path>` sent to the CDP endpoint on local port `port`.
pub open spec fn http_get_request_text(path: Seq<char>, port: u16) -> Seq<char> {
    "GET "@ + path + " HTTP/1.1\r\nHost: 127.0.0.1:"@ + decimal(port as nat)
        + "\r\nConnection: close\r\n\r\n"@
}

/// Builds the HTTP/1.1 request for `path` on `127.0.0.1:port`.
pub fn http_get_request(path: &str, port: u16) -> (r: String)
    ensures
        r@ == http_get_request_text(path@, port),
{
    let mut r = String::from_str("GET ");
    r.append(path);
    r.append(" HTTP/1.1\r\nHost: 127.0.0.1:");
    let p = decimal_text(port as u64);
    r.append(p.as_str());
    r.append("\r\nConnection: close\r\n\r\n");
    r
}

/// The response starts with a `200` status line of HTTP/1.1 or HTTP/1.0.
pub open spec fn http_ok_status(response: Seq<char>) -> bool {
    starts_with(response, "HTTP/1.1 200"@) || starts_with(response, "HTTP/1.0 200"@)
}

/// Whether a raw HTTP response reports status 200.
pub fn is_http_ok_status(response: &str) -> (r: bool)
    ensures
        r == http_ok_status(response@),
{
    starts_with_text(response, "HTTP/1.1 200") || starts_with_text(response, "HTTP/1.0 200")
}

/// The error text for a response without a header terminator.
pub open spec fn unparsable_response_text() -> Seq<char> {
    "无法解析 HTTP 响应"@
}

/// The body of a raw HTTP response: everything after the first blank line.
pub open spec fn http_body(response: Seq<char>) -> Option<Seq<char>> {
    match find_first(response, header_terminator()) {
        Some(b) => Some(rest_after(response, b, 4)),
        None => None,
    }
}

/// Splits the body off a raw HTTP response; fails when no blank line ends the header.
pub fn http_response_body(response: &str) -> (r: Result<String, String>)
    ensures
        match http_body(response@) {
            Some(body) => r matches Ok(b) && b@ == body,
            None => r matches Err(e) && e@ == unparsable_response_text(),
        },
{
    let rv = chars_of(response);
    let sep = vec!['\r', '\n', '\r', '\n'];
    assert(sep@ =~= header_terminator());
    assert(sep@.len() == 4);
    match find_from_exec(&rv, &sep, 0) {
        Some(b) => {
            proof {
                lemma_find_from(rv@, sep@, 0);
                assert(matches_at(rv@, sep@, b as int));
                assert(b + 4 <= rv.len());
            }
            Ok(slice_text(response, b + 4, rv.len()))
        },
        None => Err(String::from_str("无法解析 HTTP 响应")),
    }
}

/// The part of `url` after its last `/`, or all of it when there is none.
pub open spec fn after_last_slash(url: Seq<char>) -> Seq<char> {
    match last_index_of(url, '/') {
        Some(k) => rest_after(url, k, 1),
        None => url,
    }
}

/// The part of a WebSocket URL after its last `/`: the id in
/// `ws://127.0.0.1:9335/devtools/browser/<id>`.
pub fn browser_id_from_ws_url(url: &str) -> (r: String)
    ensures
        r@ == after_last_slash(url@),
{
    let uv = chars_of(url);
    match last_index_of_exec(&uv, '/') {
        Some(k) => {
            proof {
                lemma_last_index_of(uv@, '/');
            }
            slice_text(url, k + 1, uv.len())
        },
        None => String::from_str(url),
    }
}

/// The id after the last `/` of a URL is what follows that slash.
pub proof fn lemma_after_last_slash(prefix: Seq<char>, id: Seq<char>)
    requires
        !id.contains('/'),
    ensures
        after_last_slash(prefix + seq!['/'] + id) == id,
{
    let url = prefix + seq!['/'] + id;
    lemma_last_index_of(url, '/');
    assert(url[prefix.len() as int] == '/');
    match last_index_of(url, '/') {
        Some(k) => {
            if k > prefix.len() {
                assert(url[k] == id[k - prefix.len() - 1]);
            }
            assert(k == prefix.len());
            assert(rest_after(url, k, 1) =~= id);
        },
        None => {},
    }
}

/// The body of a response is what follows the first blank line, when the header
/// and the blank line hold no earlier one.
pub proof fn lemma_http_body(head: Seq<char>, body: Seq<char>)
    requires
        !occurs_in(head + seq!['\r', '\n', '\r'], header_terminator()),
    ensures
        http_body(head + header_terminator() + body) == Some(body),
{
    let t = header_terminator();
    let r = head + t + body;
    let n = head.len() as int;
    let h3 = head + seq!['\r', '\n', '\r'];
    assert(h3 =~= r.subrange(0, n + 3));
    assert(r.subrange(n, n + 4) =~= t);
    assert(matches_at(r, t, n));
    lemma_find_from(r, t, 0);
    assert(find_first(r, t) is Some);
    let k = find_first(r, t)->0;
    assert(0 <= k && matches_at(r, t, k));
    if k < n {
        assert(h3.len() == n + 3);
        assert(r.subrange(k, k + 4) =~= h3.subrange(k, k + 4));
        assert(matches_at(h3, t, k));
        assert(false);
    }
    assert(k == n);
    assert(rest_after(r, k, 4) =~= body);
}

/// The first blank line of a response with a header free of blank lines is the
/// one after the header.
proof fn lemma_first_header_end(head: Seq<char>, tail: Seq<char>)
    requires
        !occurs_in(head + seq!['\r', '\n', '\r'], header_terminator()),
    ensures
        find_from(head + header_terminator() + tail, header_terminator(), 0) == Some(
            head.len() as int,
        ),
{
    let t = header_terminator();
    let r = head + t + tail;
    lemma_http_body(head, tail);
    lemma_find_from(r, t, 0);
    match find_first(r, t) {
        Some(b) => {
            assert(matches_at(r, t, b));
            assert(rest_after(r, b, 4) == tail);
            assert(rest_after(r, b, 4).len() == r.len() - b - 4);
            assert(r.len() == head.len() + 4 + tail.len());
        },
        None => {},
    }
}

/// The start-up reading of the browser id: when, after the first blank line of
/// the reply, the key `"webSocketDebuggerUrl"` is followed by a quoted URL whose
/// text after the last `/` is non-empty and made only of alphanumeric
/// characters, `.`, `_` and `-`, the id read is exactly that text, whatever its
/// length.
pub proof fn lemma_raw_browser_id_of_parts(
    head: Seq<char>,
    before: Seq<char>,
    sep: Seq<char>,
    prefix: Seq<char>,
    id: Seq<char>,
    rest: Seq<char>,
)
    requires
        !occurs_in(head + seq!['\r', '\n', '\r'], seq!['\r', '\n', '\r', '\n']),
        !before.contains('"'),
        !sep.contains('"'),
        !prefix.contains('"'),
        !id.contains('"'),
        !id.contains('/'),
        id.len() > 0,
        forall|i: int|
            0 <= i < id.len() ==> unicode_alphanumeric(#[trigger] id[i]) || id[i] == '.' || id[i]
                == '_' || id[i] == '-',
    ensures
        raw_browser_id(
            head + seq!['\r', '\n', '\r', '\n'] + before + "\"webSocketDebuggerUrl\""@ + sep
                + seq!['"'] + prefix + seq!['/'] + id + seq!['"'] + rest,
        ) == Some(id),
{
    reveal_strlit("\"webSocketDebuggerUrl\"");
    let t = header_terminator();
    let key = ws_url_key();
    let q = seq!['"'];
    let p1 = head + t;
    let p2 = p1 + before;
    let p3 = p2 + key;
    let p4 = p3 + sep;
    let p5 = p4 + q;
    let p6 = p5 + prefix;
    let p7 = p6 + seq!['/'];
    let p8 = p7 + id;
    let p9 = p8 + q;
    let r = p9 + rest;
    assert(key.len() == 22 && key[0] == '"');
    let n0 = head.len() as int;
    let v = p2.len() as int;
    let w = p3.len() as int;
    let q1 = p4.len() as int;
    let q2 = p8.len() as int;
    assert(p1.len() == n0 + 4);

    // the header ends at the first blank line
    let tail = before + key + sep + q + prefix + seq!['/'] + id + q + rest;
    assert(r =~= head + t + tail);
    lemma_first_header_end(head, tail);

    // the key is first found right after `before`
    assert(r.subrange(v, v + 22) =~= key);
    assert(r.subrange(n0 + 4, v) =~= before);
    assert forall|j: int| n0 + 4 <= j < v implies !matches_at(r, key, j) by {
        if matches_at(r, key, j) {
            lemma_match_starts_with(r, key, j);
            assert(r[j] == before[j - (n0 + 4)]);
        }
    }
    lemma_find_from_at(r, key, n0 + 4, v);

    // the opening quote follows `sep`
    assert(r.subrange(w, q1) =~= sep);
    assert(r.subrange(q1, q1 + 1) =~= q);
    assert forall|j: int| w <= j < q1 implies !matches_at(r, q, j) by {
        if matches_at(r, q, j) {
            lemma_match_starts_with(r, q, j);
            assert(r[j] == sep[j - w]);
        }
    }
    lemma_find_from_at(r, q, w, q1);

    // the closing quote follows the URL
    let url = prefix + seq!['/'] + id;
    assert(r.subrange(q1 + 1, q2) =~= url);
    assert(r.subrange(q2, q2 + 1) =~= q);
    assert forall|j: int| q1 + 1 <= j < q2 implies !matches_at(r, q, j) by {
        if matches_at(r, q, j) {
            lemma_match_starts_with(r, q, j);
            assert(r[j] == url[j - (q1 + 1)]);
            if j - (q1 + 1) < prefix.len() {
                assert(url[j - (q1 + 1)] == prefix[j - (q1 + 1)]);
            } else if j - (q1 + 1) > prefix.len() {
                assert(url[j - (q1 + 1)] == id[j - (q1 + 1) - prefix.len() - 1]);
            }
        }
    }
    lemma_find_from_at(r, q, q1 + 1, q2);

    // the id is what follows the last slash of the URL
    lemma_last_index_of(url, '/');
    assert(url[prefix.len() as int] == '/');
    lemma_after_last_slash(prefix, id);
    assert(raw_browser_id_candidate(r) == Some(id));
    assert forall|i: int| 0 <= i < id.len() implies #[trigger] browser_id_char(id[i]) by {}
}

/// What the CDP endpoint answered to a `/json/version` query.
pub enum CdpVersionReply {
    /// The HTTP exchange failed, with this error text.
    QueryFailed(String),
    /// The body was not a JSON document; the parser said this.
    Unparsable(String),
    /// The body was JSON; `web_socket_debugger_url` is its string member
    /// `webSocketDebuggerUrl`, if it has one.
    Parsed { web_socket_debugger_url: Option<String> },
}

/// The reply that the body of a `/json/version` answer makes.
pub open spec fn version_reply_of(body: Seq<char>, reply: CdpVersionReply) -> bool {
    match json_parse_error(body) {
        Some(e) => reply matches CdpVersionReply::Unparsable(m) && m@ == e,
        None => reply matches CdpVersionReply::Parsed { web_socket_debugger_url: u } && match json_str_member(
            body,
            "webSocketDebuggerUrl"@,
        ) {
            Some(url) => u matches Some(s) && s@ == url,
            None => u is None,
        },
    }
}

/// Reads the body of a `/json/version` answer as JSON.
pub fn version_reply_of_body(body: &str) -> (r: CdpVersionReply)
    ensures
        version_reply_of(body@, r),
{
    match json_error_text(body) {
        Some(e) => CdpVersionReply::Unparsable(e),
        None => CdpVersionReply::Parsed {
            web_socket_debugger_url: json_member_str(body, "webSocketDebuggerUrl"),
        },
    }
}

/// The browser id, or the error text, that a CDP version reply yields.
pub open spec fn browser_id_of_reply(reply: CdpVersionReply) -> Result<Seq<char>, Seq<char>> {
    match reply {
        CdpVersionReply::QueryFailed(e) => Err("查询 CDP version 失败: "@ + e@),
        CdpVersionReply::Unparsable(e) => Err("解析 CDP version 失败: "@ + e@),
        CdpVersionReply::Parsed { web_socket_debugger_url: None } => Err(
            "CDP 响应中缺少 webSocketDebuggerUrl"@,
        ),
        CdpVersionReply::Parsed { web_socket_debugger_url: Some(u) } => Ok(after_last_slash(u@)),
    }
}

/// The id of a parsed version reply is the text after the last `/` of its
/// WebSocket URL, whole; a URL without `/` is the id itself.
pub proof fn lemma_reply_id_after_last_slash(reply: CdpVersionReply, prefix: Seq<char>, id: Seq<char>)
    requires
        reply matches CdpVersionReply::Parsed { web_socket_debugger_url: Some(u) } && (u@ == prefix
            + seq!['/'] + id || (u@ == id && prefix.len() == 0 && !u@.contains('/'))),
        !id.contains('/'),
    ensures
        browser_id_of_reply(reply) == Ok::<Seq<char>, Seq<char>>(id),
{
    let u = reply->web_socket_debugger_url->0;
    if u@ == prefix + seq!['/'] + id {
        lemma_after_last_slash(prefix, id);
    } else {
        lemma_last_index_of(u@, '/');
        if last_index_of(u@, '/') is Some {
            let k = last_index_of(u@, '/')->0;
            assert(u@.contains('/')) by {
                assert(u@[k] == '/');
            }
        }
    }
}

/// Whatever id a parsed version reply yields holds no `/` and ends its URL.
pub proof fn lemma_reply_id_sound(reply: CdpVersionReply)
    ensures
        browser_id_of_reply(reply) matches Ok(id) ==> !id.contains('/') && (reply matches CdpVersionReply::Parsed {
            web_socket_debugger_url: Some(u),
        } && u@.len() >= id.len() && u@.subrange(u@.len() - id.len(), u@.len() as int) == id),
{
    if let CdpVersionReply::Parsed { web_socket_debugger_url: Some(u) } = reply {
        let url = u@;
        lemma_last_index_of(url, '/');
        let id = after_last_slash(url);
        match last_index_of(url, '/') {
            Some(k) => {
                assert forall|i: int| 0 <= i < id.len() implies id[i] != '/' by {
                    assert(id[i] == url[k + 1 + i]);
                }
                assert(url.subrange(url.len() - id.len(), url.len() as int) =~= id);
            },
            None => {
                assert(url.subrange(0, url.len() as int) =~= url);
            },
        }
    }
}

/// Takes the browser id out of the answer to `/json/version`.
pub fn fetch_cdp_browser_id(reply: CdpVersionReply) -> (r: Result<String, String>)
    ensures
        match browser_id_of_reply(reply) {
            Ok(id) => r matches Ok(s) && s@ == id,
            Err(e) => r matches Err(s) && s@ == e,
        },
{
    match reply {
        CdpVersionReply::QueryFailed(e) => {
            let mut m = String::from_str("查询 CDP version 失败: ");
            m.append(e.as_str());
            Err(m)
        },
        CdpVersionReply::Unparsable(e) => {
            let mut m = String::from_str("解析 CDP version 失败: ");
            m.append(e.as_str());
            Err(m)
        },
        CdpVersionReply::Parsed { web_socket_debugger_url: None } => Err(
            String::from_str("CDP 响应中缺少 webSocketDebuggerUrl"),
        ),
        CdpVersionReply::Parsed { web_socket_debugger_url: Some(u) } => Ok(
            browser_id_from_ws_url(u.as_str()),
        ),
    }
}

/// The candidate browser id in a raw `/json/version` response, read without a
/// JSON parser: after the header, the first `"webSocketDebuggerUrl"` key is
/// followed by a quoted URL; the candidate is what follows its last `/`.
pub open spec fn raw_browser_id_candidate(r: Seq<char>) -> Option<Seq<char>> {
    match find_from(r, header_terminator(), 0) {
        None => None,
        Some(b) => match find_from(r, ws_url_key(), b + 4) {
            None => None,
            Some(v) => match find_from(r, seq!['"'], v + ws_url_key().len()) {
                None => None,
                Some(q1) => match find_from(r, seq!['"'], q1 + 1) {
                    None => None,
                    Some(q2) => {
                        let url = r.subrange(q1 + 1, q2);
                        match last_index_of(url, '/') {
                            None => None,
                            Some(k) => Some(rest_after(url, k, 1)),
                        }
                    },
                },
            },
        },
    }
}

/// The browser id in a raw `/json/version` response: the candidate, when it is a
/// non-empty run of alphanumeric characters, `.`, `_` and `-`.
pub open spec fn raw_browser_id(r: Seq<char>) -> Option<Seq<char>> {
    match raw_browser_id_candidate(r) {
        Some(id) => if id.len() > 0 && forall|i: int|
            0 <= i < id.len() ==> #[trigger] browser_id_char(id[i]) {
            Some(id)
        } else {
            None
        },
        None => None,
    }
}

/// Whatever id the start-up reading accepts is a non-empty run of alphanumeric
/// characters, `.`, `_` and `-`, holds no `/` or `"`, and stands in the reply
/// right before a closing quote.
pub proof fn lemma_raw_browser_id_sound(r: Seq<char>)
    ensures
        raw_browser_id(r) matches Some(id) ==> {
            &&& id.len() > 0
            &&& forall|i: int|
                0 <= i < id.len() ==> unicode_alphanumeric(#[trigger] id[i]) || id[i] == '.'
                    || id[i] == '_' || id[i] == '-'
            &&& !id.contains('/')
            &&& !id.contains('"')
            &&& occurs_in(r, id + seq!['"'])
        },
{
    if raw_browser_id(r) is Some {
        let id = raw_browser_id(r)->0;
        let t = header_terminator();
        let key = ws_url_key();
        let q = seq!['"'];
        let b = find_from(r, t, 0)->0;
        lemma_find_from(r, t, 0);
        let v = find_from(r, key, b + 4)->0;
        lemma_find_from(r, key, b + 4);
        let q1 = find_from(r, q, v + key.len())->0;
        lemma_find_from(r, q, v + key.len());
        let q2 = find_from(r, q, q1 + 1)->0;
        lemma_find_from(r, q, q1 + 1);
        let url = r.subrange(q1 + 1, q2);
        lemma_last_index_of(url, '/');
        let k = last_index_of(url, '/')->0;
        assert(id == rest_after(url, k, 1));
        assert forall|i: int| 0 <= i < id.len() implies id[i] != '/' by {
            assert(id[i] == url[k + 1 + i]);
        }
        assert forall|i: int| 0 <= i < id.len() implies id[i] != '"' by {
            let j = q1 + 1 + k + 1 + i;
            assert(id[i] == r[j]);
            if r[j] == '"' {
                assert(r.subrange(j, j + 1) =~= q);
                assert(matches_at(r, q, j));
            }
        }
        assert forall|i: int| 0 <= i < id.len() implies unicode_alphanumeric(#[trigger] id[i])
            || id[i] == '.' || id[i] == '_' || id[i] == '-' by {
            assert(browser_id_char(id[i]));
        }
        let start = q1 + 1 + k + 1;
        assert(r.subrange(start, q2 + 1) =~= id + q) by {
            assert(matches_at(r, q, q2));
            assert(r.subrange(q2, q2 + 1) == q);
        }
        assert(matches_at(r, id + q, start));
    }
}

/// The last index of `c` in `s[lo..hi]`, counted from `lo`.
fn last_index_in(s: &Vec<char>, c: char, lo: usize, hi: usize) -> (r: Option<usize>)
    requires
        lo <= hi <= s.len(),
    ensures
        r matches Some(k) ==> last_index_of(s@.subrange(lo as int, hi as int), c) == Some(
            k as int,
        ),
        r is None ==> last_index_of(s@.subrange(lo as int, hi as int), c) is None,
{
    let mut i: usize = hi;
    while i > lo
        invariant
            lo <= i <= hi <= s.len(),
            last_index_of(s@.subrange(lo as int, hi as int), c) == last_index_of(
                s@.subrange(lo as int, i as int),
                c,
            ),
        decreases i,
    {
        assert(s@.subrange(lo as int, i as int).drop_last() =~= s@.subrange(
            lo as int,
            i - 1,
        ));
        if s[i - 1] == c {
            return Some(i - 1 - lo);
        }
        i = i - 1;
    }
    None
}

/// Whether every character of `s[lo..hi]` may stand in a browser id.
fn all_browser_id_chars(s: &Vec<char>, lo: usize, hi: usize) -> (r: bool)
    requires
        lo <= hi <= s.len(),
    ensures
        r == forall|i: int| lo <= i < hi ==> #[trigger] browser_id_char(s@[i]),
        (forall|i: int| lo <= i < hi ==> #[trigger] ascii_id_char(s@[i])) ==> r,
{
    let mut i: usize = lo;
    while i < hi
        invariant
            lo <= i <= hi <= s.len(),
            forall|j: int| lo <= j < i ==> #[trigger] browser_id_char(s@[j]),
        decreases hi - i,
    {
        proof {
            if ascii_id_char(s@[i as int]) {
                assert((s@[i as int] as u32) < 128);
            }
        }
        let c = s[i];
        if !(is_alphanumeric(c) || c == '.' || c == '_' || c == '-') {
            assert(!browser_id_char(s@[i as int]));
            return false;
        }
        i = i + 1;
    }
    true
}

/// Reads the browser id out of a raw `/json/version` HTTP response; a candidate
/// made of ASCII letters, digits, `.`, `_` and `-` is always accepted.
pub fn browser_id_from_cdp_response(response: &str) -> (r: Option<String>)
    ensures
        match raw_browser_id(response@) {
            Some(id) => r matches Some(s) && s@ == id,
            None => r is None,
        },
        raw_browser_id_candidate(response@) matches Some(id) ==> (id.len() > 0 && (forall|i: int|
            0 <= i < id.len() ==> #[trigger] ascii_id_char(id[i])) ==> (r matches Some(s) && s@
            == id)),
{
    let rv = chars_of(response);
    let sep = vec!['\r', '\n', '\r', '\n'];
    assert(sep@ =~= header_terminator());
    assert(sep@.len() == 4);
    let key = chars_of("\"webSocketDebuggerUrl\"");
    let quote = vec!['"'];
    assert(quote@ =~= seq!['"']);
    let b = match find_from_exec(&rv, &sep, 0) {
        Some(b) => b,
        None => return None,
    };
    proof {
        lemma_find_from(rv@, sep@, 0);
        assert(matches_at(rv@, sep@, b as int));
        assert(b + 4 <= rv.len());
    }
    let v = match find_from_exec(&rv, &key, b + 4) {
        Some(v) => v,
        None => return None,
    };
    proof {
        lemma_find_from(rv@, key@, b + 4);
        assert(matches_at(rv@, key@, v as int));
        assert(v + key.len() <= rv.len());
    }
    let q1 = match find_from_exec(&rv, &quote, v + key.len()) {
        Some(q) => q,
        None => return None,
    };
    proof {
        lemma_find_from(rv@, quote@, v + key@.len());
        assert(matches_at(rv@, quote@, q1 as int));
        assert(q1 + 1 <= rv.len());
    }
    let q2 = match find_from_exec(&rv, &quote, q1 + 1) {
        Some(q) => q,
        None => return None,
    };
    proof {
        lemma_find_from(rv@, quote@, q1 + 1);
        assert(matches_at(rv@, quote@, q2 as int));
        assert(q1 + 1 <= q2 < rv@.len());
    }
    let k = match last_index_in(&rv, '/', q1 + 1, q2) {
        Some(k) => k,
        None => return None,
    };
    let ghost url = rv@.subrange(q1 + 1, q2 as int);
    proof {
        lemma_last_index_of(url, '/');
    }
    let start = q1 + 1 + k + 1;
    let ghost id = rest_after(url, k as int, 1);
    assert(id =~= rv@.subrange(start as int, q2 as int));
    if start < q2 && all_browser_id_chars(&rv, start, q2) {
        proof {
            assert forall|i: int| 0 <= i < id.len() implies #[trigger] browser_id_char(id[i]) by {
                assert(id[i] == rv@[start + i]);
            }
        }
        Some(slice_text(response, start, q2))
    } else {
        proof {
            if id.len() > 0 {
                let i = choose|i: int| start <= i < q2 && !browser_id_char(#[trigger] rv@[i]);
                assert(id[i - start] == rv@[i]);
                if forall|j: int| 0 <= j < id.len() ==> #[trigger] ascii_id_char(id[j]) {
                    assert forall|j: int| start <= j < q2 implies #[trigger] ascii_id_char(rv@[j]) by {
                        assert(id[j - start] == rv@[j]);
                    }
                }
            }
        }
        None
    }
}

/// Milliseconds between two probes of the CDP endpoint while a start waits for it.
pub const CDP_POLL_MILLIS: u64 = 500;

/// What happened while a start waits for the CDP endpoint.
pub enum CdpWaitEvent {
    /// The clock was read: `before_deadline` when time is left.
    Clock { before_deadline: bool },
    /// The endpoint was probed: the raw response, or `None` when the exchange failed.
    Answered { response: Option<String> },
}

/// What the wait for the CDP endpoint does next.
#[derive(Debug, Clone, Copy, PartialEq, Eq, Structural)]
pub enum CdpWaitAction {
    /// Probe `/json/version`.
    Probe,
    /// Sleep, then read the clock.
    Pause { millis: u64 },
    /// Stop waiting; `ready` when the endpoint answered 200.
    Finish { ready: bool },
}

/// The wait probes while time is left, ends ready on a 200 answer, pauses after
/// any other answer, and ends not ready once the time is up.
pub open spec fn cdp_wait_action(e: CdpWaitEvent) -> CdpWaitAction {
    match e {
        CdpWaitEvent::Clock { before_deadline } => if before_deadline {
            CdpWaitAction::Probe
        } else {
            CdpWaitAction::Finish { ready: false }
        },
        CdpWaitEvent::Answered { response } => if response matches Some(r) && http_ok_status(r@) {
            CdpWaitAction::Finish { ready: true }
        } else {
            CdpWaitAction::Pause { millis: CDP_POLL_MILLIS }
        },
    }
}

/// Decides the next step of the wait for the CDP endpoint.
pub fn cdp_wait_step(e: &CdpWaitEvent) -> (r: CdpWaitAction)
    ensures
        r == cdp_wait_action(*e),
{
    match e {
        CdpWaitEvent::Clock { before_deadline } => if *before_deadline {
            CdpWaitAction::Probe
        } else {
            CdpWaitAction::Finish { ready: false }
        },
        CdpWaitEvent::Answered { response } => {
            let ok = match response {
                Some(r) => is_http_ok_status(r.as_str()),
                None => false,
            };
            if ok {
                CdpWaitAction::Finish { ready: true }
            } else {
                CdpWaitAction::Pause { millis: CDP_POLL_MILLIS }
            }
        },
    }
}

/// How many times the manager tries, at start-up, to read the browser id.
pub const BROWSER_ID_ATTEMPTS: u32 = 60;

/// Milliseconds between two tries to read the browser id.
pub const BROWSER_ID_RETRY_MILLIS: u64 = 1000;

/// The outcome of one try to read the browser id from the raw reply.
pub enum SearchOutcome {
    /// No connection could be made.
    ConnectFailed,
    /// The request could not be sent.
    SendFailed,
    /// The reply that was read (empty when nothing was read).
    Replied(String),
}

/// What the search for the browser id does next.
#[derive(Debug, Clone, PartialEq, Eq)]
pub enum SearchAction {
    /// Connect and ask `/json/version`.
    Attempt,
    /// Sleep, then ask what to do next.
    Pause { millis: u64 },
    /// The browser id was read.
    Found(String),
    /// All tries failed.
    GiveUp,
}

/// The start-up search for the browser id: it tries at most
/// `BROWSER_ID_ATTEMPTS` times, pausing after each failed try.
#[derive(Debug)]
pub struct BrowserIdSearch {
    failed: u32,
}

impl BrowserIdSearch {
    /// The number of tries that failed so far.
    pub closed spec fn failed_tries(&self) -> nat {
        self.failed as nat
    }

    /// A search that has not tried yet.
    pub fn new() -> (s: BrowserIdSearch)
        ensures
            s.failed_tries() == 0,
    {
        BrowserIdSearch { failed: 0 }
    }

    /// Tries again while fewer than `BROWSER_ID_ATTEMPTS` tries failed; gives up after.
    pub fn next(&self) -> (r: SearchAction)
        ensures
            self.failed_tries() < BROWSER_ID_ATTEMPTS ==> r == SearchAction::Attempt,
            self.failed_tries() >= BROWSER_ID_ATTEMPTS ==> r == SearchAction::GiveUp,
    {
        if self.failed < BROWSER_ID_ATTEMPTS {
            SearchAction::Attempt
        } else {
            SearchAction::GiveUp
        }
    }

    /// Takes the outcome of a try: a reply holding a browser id ends the search,
    /// anything else counts as a failed try and pauses.
    pub fn on_outcome(&mut self, outcome: SearchOutcome) -> (r: SearchAction)
        ensures
            match outcome {
                SearchOutcome::Replied(reply) => match raw_browser_id(reply@) {
                    Some(id) => (r matches SearchAction::Found(s) && s@ == id)
                        && final(self).failed_tries() == old(self).failed_tries(),
                    None => r == (SearchAction::Pause { millis: BROWSER_ID_RETRY_MILLIS })
                        && final(self).failed_tries() == counted_failure(old(self).failed_tries()),
                },
                _ => r == (SearchAction::Pause { millis: BROWSER_ID_RETRY_MILLIS })
                    && final(self).failed_tries() == counted_failure(old(self).failed_tries()),
            },
    {
        let found = match &outcome {
            SearchOutcome::Replied(reply) => browser_id_from_cdp_response(reply.as_str()),
            _ => None,
        };
        match found {
            Some(id) => SearchAction::Found(id),
            None => {
                if self.failed < BROWSER_ID_ATTEMPTS {
                    self.failed = self.failed + 1;
                }
                SearchAction::Pause { millis: BROWSER_ID_RETRY_MILLIS }
            },
        }
    }
}

/// The count of failed tries after one more failure; it stops at the limit.
pub open spec fn counted_failure(failed: nat) -> nat {
    if failed < BROWSER_ID_ATTEMPTS {
        failed + 1
    } else {
        failed
    }
}

} // verus!
