//! Recognizing the loopback Web URL that the harness runtime prints, such as
//! `dsh web: http://127.0.0.1:3080 (LAN: http://192.168.1.5:3080)`.

use vstd::prelude::*;

use crate::text::{chars_of, is_ascii_alnum, split_whitespace, whitespace_tokens};
use crate::web_url::{opt_url_view, parsed_url, WebUrl, WebUrlView};

verus! {

/// `http://`
pub open spec fn http_prefix() -> Seq<char> {
    seq!['h', 't', 't', 'p', ':', '/', '/']
}

/// The characters that may end a URL candidate: ASCII letters and digits,
/// `.`, `:`, `-` and `/`.
pub open spec fn is_url_tail_char(c: char) -> bool {
    is_ascii_alnum(c) || c == '.' || c == ':' || c == '-' || c == '/'
}

/// `s` without its trailing run of characters that may not end a URL
/// (closing parentheses, commas, quotes and the like).
pub open spec fn trim_url_tail(s: Seq<char>) -> Seq<char>
    decreases s.len(),
{
    if s.len() > 0 && !is_url_tail_char(s.last()) {
        trim_url_tail(s.drop_last())
    } else {
        s
    }
}

/// The text handed to the URL parser for `token`: `http://` and the rest of
/// the token with its trailing punctuation removed, when the token starts
/// with `http://`.
pub open spec fn loopback_candidate(token: Seq<char>) -> Option<Seq<char>> {
    if token.len() >= 7 && token.take(7) == http_prefix() {
        Some(http_prefix() + trim_url_tail(token.skip(7)))
    } else {
        None
    }
}

/// The loopback host names: `127.0.0.1`, `localhost` and `[::1]`.
pub open spec fn is_loopback_host(host: Seq<char>) -> bool {
    ||| host == seq!['1', '2', '7', '.', '0', '.', '0', '.', '1']
    ||| host == seq!['l', 'o', 'c', 'a', 'l', 'h', 'o', 's', 't']
    ||| host == seq!['[', ':', ':', '1', ']']
}

/// A parsed URL that names a loopback host and an explicit, non-default port.
pub open spec fn is_loopback_with_port(u: WebUrlView) -> bool {
    &&& u.host matches Some(h) && is_loopback_host(h)
    &&& u.port is Some
}

/// The loopback URL that `token` denotes, if any.
pub open spec fn loopback_url(token: Seq<char>) -> Option<WebUrlView> {
    match loopback_candidate(token) {
        None => None,
        Some(candidate) => match parsed_url(candidate) {
            Some(u) => if is_loopback_with_port(u) {
                Some(u)
            } else {
                None
            },
            None => None,
        },
    }
}

/// The loopback URL of the first token that denotes one.
pub open spec fn first_loopback_url(tokens: Seq<Seq<char>>) -> Option<WebUrlView>
    decreases tokens.len(),
{
    if tokens.len() == 0 {
        None
    } else {
        match loopback_url(tokens[0]) {
            Some(u) => Some(u),
            None => first_loopback_url(tokens.drop_first()),
        }
    }
}

fn url_tail_char(c: char) -> (res: bool)
    ensures
        res == is_url_tail_char(c),
{
    ('a' <= c && c <= 'z') || ('A' <= c && c <= 'Z') || ('0' <= c && c <= '9') || c == '.'
        || c == ':' || c == '-' || c == '/'
}

fn starts_with_http(chars: &Vec<char>) -> (res: bool)
    ensures
        res == (chars@.len() >= 7 && chars@.take(7) == http_prefix()),
{
    if chars.len() < 7 {
        return false;
    }
    let res = chars[0] == 'h' && chars[1] == 't' && chars[2] == 't' && chars[3] == 'p'
        && chars[4] == ':' && chars[5] == '/' && chars[6] == '/';
    proof {
        if res {
            assert(chars@.take(7) =~= http_prefix());
        } else {
            if chars@.take(7) == http_prefix() {
                assert(chars@.take(7)[0] == chars@[0]);
                assert(chars@.take(7)[1] == chars@[1]);
                assert(chars@.take(7)[2] == chars@[2]);
                assert(chars@.take(7)[3] == chars@[3]);
                assert(chars@.take(7)[4] == chars@[4]);
                assert(chars@.take(7)[5] == chars@[5]);
                assert(chars@.take(7)[6] == chars@[6]);
            }
        }
    }
    res
}

fn loopback_host(host: &String) -> (res: bool)
    ensures
        res == is_loopback_host(host@),
{
    let ipv4 = "127.0.0.1".to_owned();
    let name = "localhost".to_owned();
    let ipv6 = "[::1]".to_owned();
    proof {
        reveal_strlit("127.0.0.1");
        reveal_strlit("localhost");
        reveal_strlit("[::1]");
        assert(ipv4@ =~= seq!['1', '2', '7', '.', '0', '.', '0', '.', '1']);
        assert(name@ =~= seq!['l', 'o', 'c', 'a', 'l', 'h', 'o', 's', 't']);
        assert(ipv6@ =~= seq!['[', ':', ':', '1', ']']);
    }
    *host == ipv4 || *host == name || *host == ipv6
}

/// Trimming a prefix that ends in a URL character leaves it unchanged; each
/// trailing character that may not end a URL is dropped.
proof fn lemma_trim_prefix(s: Seq<char>, k: int)
    requires
        0 < k <= s.len(),
        !is_url_tail_char(s[k - 1]),
    ensures
        trim_url_tail(s.take(k)) == trim_url_tail(s.take(k - 1)),
{
    assert(s.take(k).drop_last() =~= s.take(k - 1));
}

/// Parses one whitespace token as a loopback http URL with a port, stripping
/// trailing punctuation, e.g. `http://127.0.0.1:3080`.
pub fn parse_loopback_url(token: &str) -> (res: Option<WebUrl>)
    ensures
        opt_url_view(res) == loopback_url(token@),
{
    let chars = chars_of(token);
    if !starts_with_http(&chars) {
        return None;
    }
    let ghost rest = token@.skip(7);
    let mut end: usize = chars.len();
    assert(rest.take(end - 7) =~= rest);
    while end > 7 && !url_tail_char(chars[end - 1])
        invariant
            chars@ == token@,
            rest == token@.skip(7),
            7 <= end <= token@.len(),
            trim_url_tail(rest) == trim_url_tail(rest.take(end - 7)),
        decreases end,
    {
        proof {
            assert(rest[end - 8] == token@[end - 1]);
            lemma_trim_prefix(rest, end - 7);
        }
        end = end - 1;
    }
    proof {
        let kept = rest.take(end - 7);
        if end > 7 {
            assert(kept.last() == token@[end - 1]);
        }
        assert(trim_url_tail(kept) == kept);
        assert(kept =~= token@.subrange(7, end as int));
    }
    let mut candidate = "http://".to_owned();
    proof {
        reveal_strlit("http://");
        assert(candidate@ =~= http_prefix());
    }
    candidate.append(token.substring_char(7, end));
    assert(candidate@ == loopback_candidate(token@)->0);
    let url = match WebUrl::parse(candidate.as_str()) {
        Some(url) => url,
        None => return None,
    };
    let host_ok = match &url.host {
        Some(host) => loopback_host(host),
        None => false,
    };
    if host_ok && url.port.is_some() {
        Some(url)
    } else {
        None
    }
}

/// Extracts the first loopback URL with a port from a printed line, e.g.
/// `dsh web: http://127.0.0.1:3080 (LAN: http://192.168.1.5:3080)`: the
/// result of [`parse_loopback_url`] on the first whitespace-separated token
/// for which it gives one.
pub fn scan_loopback_url(line: &str) -> (res: Option<WebUrl>)
    ensures
        opt_url_view(res) == first_loopback_url(whitespace_tokens(line@)),
{
    let tokens = split_whitespace(line);
    let ghost views = tokens@.map_values(|t: String| t@);
    let mut i: usize = 0;
    assert(views.skip(0) =~= views);
    while i < tokens.len()
        invariant
            views == tokens@.map_values(|t: String| t@),
            views == whitespace_tokens(line@),
            i <= tokens.len(),
            first_loopback_url(views.skip(i as int)) == first_loopback_url(views),
        decreases tokens.len() - i,
    {
        assert(views.skip(i as int)[0] == tokens@[i as int]@);
        assert(views.skip(i as int).drop_first() =~= views.skip(i + 1));
        let found = parse_loopback_url(tokens[i].as_str());
        if found.is_some() {
            return found;
        }
        i = i + 1;
    }
    None
}

/// Whatever a line yields is a loopback URL with an explicit port, parsed
/// from one of the line's tokens.
pub proof fn scanned_url_is_loopback(line: Seq<char>)
    ensures
        first_loopback_url(whitespace_tokens(line)) matches Some(u) ==> {
            &&& is_loopback_with_port(u)
            &&& exists|i: int|
                0 <= i < whitespace_tokens(line).len() && loopback_url(
                    #[trigger] whitespace_tokens(line)[i],
                ) == Some(u)
        },
{
    lemma_first_loopback_url_found(whitespace_tokens(line));
}

proof fn lemma_first_loopback_url_found(tokens: Seq<Seq<char>>)
    ensures
        first_loopback_url(tokens) matches Some(u) ==> {
            &&& is_loopback_with_port(u)
            &&& exists|i: int| 0 <= i < tokens.len() && loopback_url(#[trigger] tokens[i]) == Some(u)
        },
    decreases tokens.len(),
{
    if tokens.len() > 0 {
        let rest = tokens.drop_first();
        lemma_first_loopback_url_found(rest);
        if loopback_url(tokens[0]) is None {
            if let Some(u) = first_loopback_url(rest) {
                let i = choose|i: int| 0 <= i < rest.len() && loopback_url(#[trigger] rest[i]) == Some(u);
                assert(tokens[i + 1] == rest[i]);
            }
        }
    }
}

/// A token that does not start with `http://` never denotes a loopback URL.
pub proof fn token_without_http_prefix_is_ignored(token: Seq<char>)
    requires
        !(token.len() >= 7 && token.take(7) == http_prefix()),
    ensures
        loopback_url(token) is None,
{
}

proof fn lemma_first_none(tokens: Seq<Seq<char>>)
    ensures
        first_loopback_url(tokens) is None <==> forall|i: int|
            0 <= i < tokens.len() ==> (#[trigger] loopback_url(tokens[i])) is None,
    decreases tokens.len(),
{
    if tokens.len() > 0 {
        let rest = tokens.drop_first();
        lemma_first_none(rest);
        if first_loopback_url(tokens) is None {
            assert forall|i: int| 0 <= i < tokens.len() implies (#[trigger] loopback_url(
                tokens[i],
            )) is None by {
                if i > 0 {
                    assert(tokens[i] == rest[i - 1]);
                }
            }
        } else if loopback_url(tokens[0]) is None {
            let i = choose|i: int| 0 <= i < rest.len() && (#[trigger] loopback_url(rest[i])) is Some;
            assert(rest[i] == tokens[i + 1]);
        }
    }
}

proof fn lemma_first_earliest(tokens: Seq<Seq<char>>, k: int)
    requires
        0 <= k < tokens.len(),
        loopback_url(tokens[k]) is Some,
        forall|j: int| 0 <= j < k ==> (#[trigger] loopback_url(tokens[j])) is None,
    ensures
        first_loopback_url(tokens) == loopback_url(tokens[k]),
    decreases k,
{
    if k > 0 {
        let rest = tokens.drop_first();
        assert(loopback_url(tokens[0]) is None);
        assert forall|j: int| 0 <= j < k - 1 implies (#[trigger] loopback_url(rest[j])) is None by {
            assert(rest[j] == tokens[j + 1]);
        }
        assert(rest[k - 1] == tokens[k]);
        lemma_first_earliest(rest, k - 1);
    }
}

/// The scan is complete: it gives nothing only when no token denotes a
/// loopback URL, and otherwise exactly the URL of the earliest token that
/// denotes one, however late in the line that token stands.
pub proof fn scan_is_the_earliest_loopback_token(tokens: Seq<Seq<char>>)
    ensures
        first_loopback_url(tokens) is None <==> forall|i: int|
            0 <= i < tokens.len() ==> (#[trigger] loopback_url(tokens[i])) is None,
        forall|k: int|
            0 <= k < tokens.len() && (#[trigger] loopback_url(tokens[k])) is Some && (forall|j: int|
                0 <= j < k ==> (#[trigger] loopback_url(tokens[j])) is None) ==> first_loopback_url(
                tokens,
            ) == loopback_url(tokens[k]),
{
    lemma_first_none(tokens);
    assert forall|k: int|
        0 <= k < tokens.len() && (#[trigger] loopback_url(tokens[k])) is Some && (forall|j: int|
            0 <= j < k ==> (#[trigger] loopback_url(tokens[j])) is None) implies first_loopback_url(
        tokens,
    ) == loopback_url(tokens[k]) by {
        lemma_first_earliest(tokens, k);
    }
}

/// The same, stated of a printed line: if any whitespace-separated token of
/// the line denotes a loopback URL with a port, the line yields one.
pub proof fn scan_misses_no_token(line: Seq<char>, i: int)
    requires
        0 <= i < whitespace_tokens(line).len(),
        loopback_url(whitespace_tokens(line)[i]) is Some,
    ensures
        first_loopback_url(whitespace_tokens(line)) is Some,
{
    scan_is_the_earliest_loopback_token(whitespace_tokens(line));
}

/// Trimming removes exactly the maximal trailing run of characters that may
/// not end a URL: what remains is a prefix of `s`, everything after it is
/// such a character, and it is empty or ends in a URL character.
pub proof fn trim_removes_only_the_trailing_run(s: Seq<char>)
    ensures
        trim_url_tail(s).len() <= s.len(),
        trim_url_tail(s) == s.take(trim_url_tail(s).len() as int),
        forall|j: int| trim_url_tail(s).len() <= j < s.len() ==> !is_url_tail_char(#[trigger] s[j]),
        trim_url_tail(s).len() == 0 || is_url_tail_char(trim_url_tail(s).last()),
    decreases s.len(),
{
    if s.len() > 0 && !is_url_tail_char(s.last()) {
        let d = s.drop_last();
        trim_removes_only_the_trailing_run(d);
        let t = trim_url_tail(d);
        assert(t == s.take(t.len() as int)) by {
            assert(t =~= s.take(t.len() as int));
        }
        assert forall|j: int| t.len() <= j < s.len() implies !is_url_tail_char(#[trigger] s[j]) by {
            if j < d.len() {
                assert(s[j] == d[j]);
            }
        }
    } else {
        assert(s.take(s.len() as int) =~= s);
    }
}

/// The text handed to the URL parser is the token itself with only its
/// trailing punctuation removed: a prefix of the token, at least
/// `http://`, followed in the token by nothing but characters that may not
/// end a URL, and itself ending in a URL character (or being bare
/// `http://`). Queries, fragments and any other inner character are kept.
pub proof fn candidate_is_token_without_trailing_punctuation(token: Seq<char>)
    ensures
        loopback_candidate(token) is Some <==> (token.len() >= 7 && token.take(7) == seq![
            'h',
            't',
            't',
            'p',
            ':',
            '/',
            '/',
        ]),
        loopback_candidate(token) matches Some(c) ==> {
            &&& 7 <= c.len() <= token.len()
            &&& c == token.take(c.len() as int)
            &&& forall|j: int| c.len() <= j < token.len() ==> !is_url_tail_char(#[trigger] token[j])
            &&& c.len() == 7 || is_url_tail_char(c.last())
        },
{
    if token.len() >= 7 && token.take(7) == http_prefix() {
        let r = token.skip(7);
        trim_removes_only_the_trailing_run(r);
        let t = trim_url_tail(r);
        let c = http_prefix() + t;
        assert(c =~= token.take(c.len() as int)) by {
            assert forall|j: int| 0 <= j < c.len() implies c[j] == token[j] by {
                if j < 7 {
                    assert(token.take(7)[j] == token[j]);
                } else {
                    assert(t[j - 7] == r[j - 7]);
                }
            }
        }
        assert forall|j: int| c.len() <= j < token.len() implies !is_url_tail_char(
            #[trigger] token[j],
        ) by {
            assert(r[j - 7] == token[j]);
        }
        if t.len() > 0 {
            assert(c.last() == t.last());
        }
    }
}

/// A token yields a URL exactly when the parser accepts its candidate and
/// the result names `127.0.0.1`, `localhost` or `[::1]` with an explicit
/// port; the URL yielded is the parsed one, unchanged.
pub proof fn loopback_url_is_the_parsed_candidate(token: Seq<char>)
    ensures
        loopback_url(token) matches Some(u) ==> {
            &&& loopback_candidate(token) matches Some(c) && parsed_url(c) == Some(u)
            &&& u.port is Some
            &&& (u.host == Some(seq!['1', '2', '7', '.', '0', '.', '0', '.', '1']) || u.host == Some(
                seq!['l', 'o', 'c', 'a', 'l', 'h', 'o', 's', 't'],
            ) || u.host == Some(seq!['[', ':', ':', '1', ']']))
        },
        loopback_candidate(token) matches Some(c) ==> (parsed_url(c) matches Some(u) ==> (
        u.port is Some && (u.host == Some(seq!['1', '2', '7', '.', '0', '.', '0', '.', '1'])
            || u.host == Some(seq!['l', 'o', 'c', 'a', 'l', 'h', 'o', 's', 't']) || u.host == Some(
            seq!['[', ':', ':', '1', ']'],
        ))) ==> loopback_url(token) == Some(u)),
{
}

} // verus!
