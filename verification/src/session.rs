//! The session transport: carries a token to the browser in a cookie and
//! finds it again among the cookies of a request.
//!
//! The `cookie` crate writes the cookie and reads each `name=value` entry.
//! Which headers are looked at, how a header falls into entries and which
//! entry counts is decided here.

use vstd::prelude::*;
use vstd::string::*;
use crate::decimal::decimal_digits;
use crate::text::{same_text, text_view};

verus! {

/// The name of the session cookie.
pub const COOKIE_NAME: &'static str = "ear7h-token";

/// The flags that every session cookie carries: hidden from page scripts,
/// never sent on cross-site requests, valid for the whole site.
pub const COOKIE_FLAGS: &'static str = "; HttpOnly; SameSite=Strict; Path=/";

/// Whether `c` may stand in the text of a header: visible ASCII, space or tab.
pub open spec fn is_header_char(c: char) -> bool {
    (' ' <= c && c <= '~') || c == '\t'
}

/// Whether `s` can be the text of a header.
pub open spec fn is_header_text(s: Seq<char>) -> bool {
    forall|i: int| 0 <= i < s.len() ==> is_header_char(#[trigger] s[i])
}

/// Space or tab: the white space that the text of a header can hold.
pub open spec fn is_blank(c: char) -> bool {
    c == ' ' || c == '\t'
}

/// `s` without the blanks at its start.
pub open spec fn trim_start(s: Seq<char>) -> Seq<char>
    decreases s.len(),
{
    if s.len() > 0 && is_blank(s[0]) {
        trim_start(s.drop_first())
    } else {
        s
    }
}

/// `s` without the blanks at its end.
pub open spec fn trim_end(s: Seq<char>) -> Seq<char>
    decreases s.len(),
{
    if s.len() > 0 && is_blank(s.last()) {
        trim_end(s.drop_last())
    } else {
        s
    }
}

/// `s` without the blanks at its start and at its end.
pub open spec fn trim(s: Seq<char>) -> Seq<char> {
    trim_end(trim_start(s))
}

/// `s` without the pair of double quotes around it, if it has one.
pub open spec fn unquote(s: Seq<char>) -> Seq<char> {
    if s.len() >= 2 && s[0] == '"' && s.last() == '"' {
        s.subrange(1, s.len() - 1)
    } else {
        s
    }
}

/// The place of the first `c` in `s`, or the length of `s` if it holds none.
pub open spec fn index_of(s: Seq<char>, c: char) -> int
    decreases s.len(),
{
    if s.len() == 0 {
        0
    } else if s[0] == c {
        0
    } else {
        1 + index_of(s.drop_first(), c)
    }
}

/// The name and the value of one cookie entry: what stands before and after
/// its first `=`, each without blanks around it, the value also without a
/// pair of quotes around it. `None` where there is no `=` or no name.
pub open spec fn pair_of(entry: Seq<char>) -> Option<(Seq<char>, Seq<char>)> {
    let i = index_of(entry, '=');
    if i >= entry.len() {
        None
    } else {
        let name = trim(entry.subrange(0, i));
        let value = trim(unquote(trim(entry.subrange(i + 1, entry.len() as int))));
        if name.len() == 0 {
            None
        } else {
            Some((name, value))
        }
    }
}

/// The value of `entry` if it is a cookie named `name`.
pub open spec fn entry_value(entry: Seq<char>, name: Seq<char>) -> Option<Seq<char>> {
    match pair_of(entry) {
        Some((n, v)) => if n == name {
            Some(v)
        } else {
            None
        },
        None => None,
    }
}

/// The value of the first entry of `header` that is a cookie named `name`,
/// the entries being what stands between the `;` of the header.
pub open spec fn find_in_header(header: Seq<char>, name: Seq<char>) -> Option<Seq<char>>
    decreases header.len(),
{
    let end = index_of(header, ';');
    if end < 0 || end > header.len() {
        None
    } else {
        match entry_value(header.subrange(0, end), name) {
            Some(v) => Some(v),
            None => if end >= header.len() {
                None
            } else {
                find_in_header(header.subrange(end + 1, header.len() as int), name)
            },
        }
    }
}

/// The value of the first cookie named `name` in `headers`, taken in order;
/// a header that is no header text is passed over.
pub open spec fn find_in_headers(headers: Seq<Seq<char>>, name: Seq<char>) -> Option<Seq<char>>
    decreases headers.len(),
{
    if headers.len() == 0 {
        None
    } else {
        let first = if is_header_text(headers[0]) {
            find_in_header(headers[0], name)
        } else {
            None
        };
        match first {
            Some(v) => Some(v),
            None => find_in_headers(headers.drop_first(), name),
        }
    }
}

/// The text of a cookie with the session flags, and with a lifetime in
/// seconds if one is given.
pub open spec fn cookie_text(name: Seq<char>, value: Seq<char>, max_age: Option<i64>) -> Seq<char> {
    let base = name + seq!['='] + value + COOKIE_FLAGS@;
    match max_age {
        Some(n) => base + "; Max-Age="@ + decimal_digits(n as nat),
        None => base,
    }
}

/// `index_of` is within the text, nothing before it is `c`, and `c` stands
/// at it unless it is the length.
pub proof fn lemma_index_of(s: Seq<char>, c: char)
    ensures
        0 <= index_of(s, c) <= s.len(),
        forall|k: int| 0 <= k < index_of(s, c) ==> s[k] != c,
        index_of(s, c) < s.len() ==> s[index_of(s, c)] == c,
    decreases s.len(),
{
    if s.len() > 0 && s[0] != c {
        let rest = s.drop_first();
        lemma_index_of(rest, c);
        assert forall|k: int| 0 <= k < index_of(s, c) implies s[k] != c by {
            if k > 0 {
                assert(rest[k - 1] == s[k]);
            }
        }
        assert(index_of(rest, c) < rest.len() ==> rest[index_of(rest, c)] == s[index_of(s, c)]);
    }
}

/// The place `k` is `index_of` when nothing before it is `c` and `c` stands
/// at it, or it is the length.
pub proof fn lemma_index_of_is(s: Seq<char>, c: char, k: int)
    requires
        0 <= k <= s.len(),
        forall|j: int| 0 <= j < k ==> s[j] != c,
        k < s.len() ==> s[k] == c,
    ensures
        index_of(s, c) == k,
{
    lemma_index_of(s, c);
    let i = index_of(s, c);
    if i < k {
        assert(s[i] == c);
    } else if i > k {
        assert(s[k] != c);
    }
}

/// An optional name and value as plain values.
pub open spec fn pair_view(p: Option<(String, String)>) -> Option<(Seq<char>, Seq<char>)> {
    match p {
        Some((n, v)) => Some((n@, v@)),
        None => None,
    }
}

/// Calls `Cookie::parse` of the `cookie` crate on one entry and hands back
/// the cookie's name and value. For header text without `;` the call comes
/// down to this: cut at the first `=`, trim both sides, take a pair of quotes
/// off the value and trim it again; an error where there is no `=` or the
/// name is empty. The contract says exactly that.
#[verifier::external_body]
fn parse_pair(entry: &str) -> (r: Option<(String, String)>)
    requires
        is_header_text(entry@),
        forall|i: int| 0 <= i < entry@.len() ==> entry@[i] != ';',
    ensures
        pair_view(r) == pair_of(entry@),
{
    match cookie::Cookie::parse(entry) {
        Ok(c) => Some((c.name().to_string(), c.value().to_string())),
        Err(_) => None,
    }
}

/// Builds a cookie with the `cookie` crate (`HttpOnly`, `SameSite=Strict`,
/// `Path=/`, and `Max-Age` if one is given) and writes it with the crate's
/// `Display`: name, `=`, value, then each set attribute after `; `, in that
/// order, the lifetime as a decimal number of seconds.
#[verifier::external_body]
fn cookie_line(name: &str, value: &str, max_age: Option<i64>) -> (r: String)
    requires
        max_age matches Some(n) ==> n >= 0,
    ensures
        r@ == cookie_text(name@, value@, max_age),
{
    let mut c = cookie::Cookie::build(name, value)
        .http_only(true)
        .same_site(cookie::SameSite::Strict)
        .path("/")
        .finish();
    c.set_max_age(max_age.map(time::Duration::seconds));
    c.to_string()
}

/// Whether `s` can be the text of a header.
pub fn is_header(s: &str) -> (r: bool)
    ensures
        r == is_header_text(s@),
{
    if !s.is_ascii() {
        proof {
            let j = choose|j: int| 0 <= j < s@.len() && !('\0' <= #[trigger] s@[j] <= '\u{7f}');
            assert(!is_header_char(s@[j]));
        }
        return false;
    }
    let bytes = s.as_bytes();
    proof {
        is_ascii_spec_bytes(s);
    }
    let n: usize = bytes.len();
    let mut i: usize = 0;
    while i < n
        invariant
            i <= n,
            n == s@.len(),
            vstd::utf8::is_ascii_chars(s@),
            bytes@ == Seq::new(s@.len(), |k: int| s@[k] as u8),
            forall|k: int| 0 <= k < i ==> is_header_char(#[trigger] s@[k]),
        decreases n - i,
    {
        let b: u8 = bytes[i];
        let ghost c = s@[i as int];
        assert(b == c as u8);
        assert('\0' <= c <= '\u{7f}');
        if !((32 <= b && b <= 126) || b == 9) {
            assert(!is_header_char(c));
            return false;
        }
        assert(is_header_char(c));
        i = i + 1;
    }
    true
}

/// Finds the first cookie named `name` in one `Cookie` header: see
/// `find_in_header`. A header that is no header text holds none.
pub fn find_cookie(header: &str, name: &str) -> (r: Option<String>)
    ensures
        text_view(r) == if is_header_text(header@) {
            find_in_header(header@, name@)
        } else {
            None
        },
{
    if !is_header(header) {
        return None;
    }
    assert(vstd::utf8::is_ascii_chars(header@)) by {
        assert forall|i: int| 0 <= i < header@.len() implies '\0' <= #[trigger] header@[i]
            <= '\u{7f}' by {
            assert(is_header_char(header@[i]));
        }
    }
    let bytes = header.as_bytes();
    proof {
        is_ascii_spec_bytes(header);
    }
    let n: usize = bytes.len();
    let mut pos: usize = 0;
    assert(header@.subrange(0, n as int) =~= header@);
    loop
        invariant
            pos <= n,
            n == header@.len(),
            is_header_text(header@),
            header.is_ascii(),
            bytes@ == Seq::new(header@.len(), |k: int| header@[k] as u8),
            find_in_header(header@, name@) == find_in_header(
                header@.subrange(pos as int, n as int),
                name@,
            ),
        decreases n - pos,
    {
        let ghost rest = header@.subrange(pos as int, n as int);
        let mut end: usize = pos;
        while end < n && bytes[end] != 59
            invariant
                pos <= end <= n,
                n == header@.len(),
                is_header_text(header@),
                bytes@ == Seq::new(header@.len(), |k: int| header@[k] as u8),
                forall|k: int| pos <= k < end ==> header@[k] != ';',
            decreases n - end,
        {
            assert(bytes@[end as int] == header@[end as int] as u8);
            assert(is_header_char(header@[end as int]));
            end = end + 1;
        }
        proof {
            if end < n {
                assert(bytes@[end as int] == header@[end as int] as u8);
                assert(is_header_char(header@[end as int]));
                assert(header@[end as int] == ';');
            }
            assert forall|j: int| 0 <= j < end - pos implies rest[j] != ';' by {
                assert(rest[j] == header@[pos + j]);
            }
            lemma_index_of_is(rest, ';', end - pos);
        }
        let entry = header.substring_ascii(pos, end);
        assert(entry@ =~= rest.subrange(0, end - pos));
        assert forall|i: int| 0 <= i < entry@.len() implies is_header_char(#[trigger] entry@[i])
            && entry@[i] != ';' by {
            assert(entry@[i] == header@[pos + i]);
        }
        match parse_pair(entry) {
            Some((k, v)) => {
                if same_text(k.as_str(), name) {
                    return Some(v);
                }
            },
            None => {},
        }
        assert(entry_value(entry@, name@) is None);
        if end >= n {
            return None;
        }
        assert(rest.subrange(end - pos + 1, rest.len() as int) =~= header@.subrange(
            end + 1,
            n as int,
        ));
        pos = end + 1;
    }
}

/// Finds the session token among the `Cookie` headers of a request: the
/// value of the first cookie named `COOKIE_NAME`, the headers taken in order
/// and each header entry by entry. `None` where no header holds one.
pub fn decode(headers: &[String]) -> (r: Option<String>)
    ensures
        text_view(r) == find_in_headers(headers@.map_values(|h: String| h@), COOKIE_NAME@),
{
    let ghost texts = headers@.map_values(|h: String| h@);
    let n: usize = headers.len();
    let mut i: usize = 0;
    assert(texts.subrange(0, n as int) =~= texts);
    while i < n
        invariant
            i <= n,
            n == headers@.len(),
            texts == headers@.map_values(|h: String| h@),
            find_in_headers(texts, COOKIE_NAME@) == find_in_headers(
                texts.subrange(i as int, n as int),
                COOKIE_NAME@,
            ),
        decreases n - i,
    {
        let ghost rest = texts.subrange(i as int, n as int);
        assert(rest[0] == headers@[i as int]@);
        match find_cookie(headers[i].as_str(), COOKIE_NAME) {
            Some(v) => {
                return Some(v);
            },
            None => {},
        }
        assert(rest.drop_first() =~= texts.subrange(i + 1, n as int));
        i = i + 1;
    }
    None
}

/// Writes the session cookie that carries `token`: named `COOKIE_NAME`, with
/// the flags `COOKIE_FLAGS`.
pub fn encode(token: &str) -> (r: String)
    ensures
        r@ == cookie_text(COOKIE_NAME@, token@, None),
{
    cookie_line(COOKIE_NAME, token, None)
}

/// Writes the cookie that makes the browser drop its session cookie: the
/// same name and flags, an empty value and a lifetime of no seconds.
pub fn clear() -> (r: String)
    ensures
        r@ == cookie_text(COOKIE_NAME@, Seq::<char>::empty(), Some(0i64)),
{
    let r = cookie_line(COOKIE_NAME, "", Some(0));
    proof {
        reveal_strlit("");
        assert(""@ =~= Seq::<char>::empty());
    }
    r
}

/// The entries of a header: what stands between its `;`.
pub open spec fn entries(header: Seq<char>) -> Seq<Seq<char>>
    decreases header.len(),
{
    let end = index_of(header, ';');
    if end < 0 || end >= header.len() {
        seq![header]
    } else {
        seq![header.subrange(0, end)] + entries(header.subrange(end + 1, header.len() as int))
    }
}

/// Whether some entry of `header` is a cookie named `name`.
pub open spec fn header_has(header: Seq<char>, name: Seq<char>) -> bool {
    exists|j: int|
        0 <= j < entries(header).len() && entry_value(#[trigger] entries(header)[j], name) is Some
}

/// Whether some header among `headers` is header text and holds a cookie
/// named `name`.
pub open spec fn headers_have(headers: Seq<Seq<char>>, name: Seq<char>) -> bool {
    exists|i: int|
        0 <= i < headers.len() && is_header_text(#[trigger] headers[i]) && header_has(
            headers[i],
            name,
        )
}

/// Whether a token comes back unchanged from a cookie: it is header text,
/// holds no `;`, has no blanks at its ends and no pair of quotes around it.
pub open spec fn round_trips(token: Seq<char>) -> bool {
    &&& is_header_text(token)
    &&& forall|i: int| 0 <= i < token.len() ==> token[i] != ';'
    &&& trim(token) == token
    &&& unquote(token) == token
}

/// A cookie is found in a header exactly when one of the header's entries is
/// a cookie of that name.
pub proof fn lemma_find_in_header(header: Seq<char>, name: Seq<char>)
    ensures
        find_in_header(header, name) is Some <==> header_has(header, name),
    decreases header.len(),
{
    lemma_index_of(header, ';');
    let end = index_of(header, ';');
    let first = header.subrange(0, end);
    let all = entries(header);
    if end >= header.len() {
        assert(first =~= header);
        assert(all[0] == first);
        if entry_value(first, name) is None {
            assert forall|j: int| 0 <= j < all.len() implies entry_value(
                #[trigger] all[j],
                name,
            ) is None by {
                assert(j == 0);
            }
        }
    } else {
        let rest = header.subrange(end + 1, header.len() as int);
        lemma_find_in_header(rest, name);
        assert(all == seq![first] + entries(rest));
        assert(all[0] == first);
        if entry_value(first, name) is None {
            if header_has(rest, name) {
                let j = choose|j: int|
                    0 <= j < entries(rest).len() && entry_value(
                        #[trigger] entries(rest)[j],
                        name,
                    ) is Some;
                assert(all[j + 1] == entries(rest)[j]);
            }
            if header_has(header, name) {
                let j = choose|j: int|
                    0 <= j < all.len() && entry_value(#[trigger] all[j], name) is Some;
                assert(j > 0);
                assert(entries(rest)[j - 1] == all[j]);
            }
        }
    }
}

/// Among the headers of a request a session cookie is found exactly when
/// one of them holds it: where none does, the answer is `None`.
pub proof fn lemma_find_in_headers(headers: Seq<Seq<char>>, name: Seq<char>)
    ensures
        find_in_headers(headers, name) is Some <==> headers_have(headers, name),
    decreases headers.len(),
{
    if headers.len() > 0 {
        let rest = headers.drop_first();
        lemma_find_in_headers(rest, name);
        lemma_find_in_header(headers[0], name);
        if headers_have(rest, name) {
            let i = choose|i: int|
                0 <= i < rest.len() && is_header_text(#[trigger] rest[i]) && header_has(
                    rest[i],
                    name,
                );
            assert(headers[i + 1] == rest[i]);
        }
        if headers_have(headers, name) {
            let i = choose|i: int|
                0 <= i < headers.len() && is_header_text(#[trigger] headers[i]) && header_has(
                    headers[i],
                    name,
                );
            if i > 0 {
                assert(rest[i - 1] == headers[i]);
            }
        }
    }
}

/// The token that `encode` put into a cookie is the token that `decode`
/// finds in a request that presents this cookie, for every token that
/// `round_trips`.
pub proof fn lemma_cookie_round_trip(token: Seq<char>)
    requires
        round_trips(token),
    ensures
        find_in_headers(seq![cookie_text(COOKIE_NAME@, token, None)], COOKIE_NAME@) == Some(
            token,
        ),
{
    reveal_strlit("ear7h-token");
    reveal_strlit("; HttpOnly; SameSite=Strict; Path=/");
    let name = COOKIE_NAME@;
    let line = cookie_text(name, token, None);
    let cut = name.len() + 1 + token.len();
    assert(is_header_text(line));
    lemma_index_of_is(line, ';', cut as int);
    let entry = line.subrange(0, cut as int);
    assert(entry =~= name + seq!['='] + token);
    lemma_index_of_is(entry, '=', name.len() as int);
    assert(entry.subrange(0, name.len() as int) =~= name);
    assert(entry.subrange(name.len() as int + 1, entry.len() as int) =~= token);
    assert(trim_start(name) == name);
    assert(trim_end(name) == name);
    assert(pair_of(entry) == Some((name, token)));
    assert(find_in_header(line, name) == Some(token));
    let headers = seq![line];
    assert(headers[0] == line);
}

} // verus!
