//! The bodies of the two forms that the archive takes. The
//! `serde_urlencoded` crate decodes a body into its pairs; which pairs make a
//! form is decided here.

use vstd::prelude::*;
use crate::error::Error;
use crate::text::same_text;

verus! {

/// The pairs of a form, as plain values.
pub type Pairs = Seq<(Seq<char>, Seq<char>)>;

/// The pairs that `serde_urlencoded::from_bytes` decodes a form body into, in
/// their order; `None` where it reports an error.
pub uninterp spec fn urlencoded_pairs(body: Seq<u8>) -> Option<Pairs>;

/// Decoded pairs as plain values.
pub open spec fn pairs_view(pairs: Seq<(String, String)>) -> Pairs {
    pairs.map_values(|p: (String, String)| (p.0@, p.1@))
}

/// Optional decoded pairs as plain values.
pub open spec fn decoded_view(r: Option<Vec<(String, String)>>) -> Option<Pairs> {
    match r {
        Some(pairs) => Some(pairs_view(pairs@)),
        None => None,
    }
}

/// Calls `serde_urlencoded::from_bytes` for a list of pairs of strings. The
/// contract names the outcome and claims nothing else of it.
#[verifier::external_body]
fn form_pairs(body: &[u8]) -> (r: Option<Vec<(String, String)>>)
    ensures
        decoded_view(r) == urlencoded_pairs(body@),
{
    serde_urlencoded::from_bytes::<Vec<(String, String)>>(body).ok()
}

/// The values of the pairs named `key`, in their order.
pub open spec fn occurrences(pairs: Pairs, key: Seq<char>) -> Seq<Seq<char>>
    decreases pairs.len(),
{
    if pairs.len() == 0 {
        Seq::empty()
    } else {
        let before = occurrences(pairs.drop_last(), key);
        if pairs.last().0 == key {
            before.push(pairs.last().1)
        } else {
            before
        }
    }
}

/// The value of the field `key` of a form: there if exactly one pair has
/// that name. A field that is missing or given twice is no field.
pub open spec fn field_of(pairs: Pairs, key: Seq<char>) -> Option<Seq<char>> {
    let values = occurrences(pairs, key);
    if values.len() == 1 {
        Some(values[0])
    } else {
        None
    }
}

/// Takes the field `key` out of the pairs of a form: see `field_of`.
pub fn field(pairs: &Vec<(String, String)>, key: &str) -> (r: Option<String>)
    ensures
        match r {
            Some(v) => field_of(pairs_view(pairs@), key@) == Some(v@),
            None => field_of(pairs_view(pairs@), key@) is None,
        },
{
    let ghost all = pairs_view(pairs@);
    let n: usize = pairs.len();
    let mut first: Option<String> = None;
    let mut count: usize = 0;
    let mut i: usize = 0;
    while i < n
        invariant
            i <= n,
            n == pairs@.len(),
            all == pairs_view(pairs@),
            count <= i,
            count == occurrences(all.subrange(0, i as int), key@).len(),
            count > 0 ==> first is Some && first->0@ == occurrences(
                all.subrange(0, i as int),
                key@,
            )[0],
        decreases n - i,
    {
        let ghost longer = all.subrange(0, i + 1);
        assert(longer.drop_last() =~= all.subrange(0, i as int));
        assert(longer.last() == (pairs@[i as int].0@, pairs@[i as int].1@));
        if same_text(pairs[i].0.as_str(), key) {
            if count == 0 {
                first = Some(pairs[i].1.clone());
            }
            count = count + 1;
        }
        i = i + 1;
    }
    assert(all.subrange(0, n as int) =~= all);
    if count == 1 {
        first
    } else {
        None
    }
}

/// What a login form holds.
pub struct Credentials {
    pub username: String,
    pub password: String,
}

/// The name and the password that a login form gives, or `BadRequest` where
/// the body is no form or lacks one of the two.
pub open spec fn login_form_of(decoded: Option<Pairs>) -> Result<(Seq<char>, Seq<char>), Error> {
    match decoded {
        None => Err(Error::BadRequest),
        Some(pairs) => match (field_of(pairs, "username"@), field_of(pairs, "password"@)) {
            (Some(username), Some(password)) => Ok((username, password)),
            _ => Err(Error::BadRequest),
        },
    }
}

/// The text that a form for new links gives, or `BadRequest` where the body
/// is no form or has no field `links`.
pub open spec fn links_form_of(decoded: Option<Pairs>) -> Result<Seq<char>, Error> {
    match decoded {
        None => Err(Error::BadRequest),
        Some(pairs) => match field_of(pairs, "links"@) {
            Some(links) => Ok(links),
            None => Err(Error::BadRequest),
        },
    }
}

/// Reads a login form out of decoded pairs: see `login_form_of`.
pub fn read_login_form(decoded: Option<Vec<(String, String)>>) -> (r: Result<Credentials, Error>)
    ensures
        match r {
            Ok(c) => login_form_of(decoded_view(decoded)) == Ok::<(Seq<char>, Seq<char>), Error>(
                (c.username@, c.password@),
            ),
            Err(e) => login_form_of(decoded_view(decoded)) == Err::<(Seq<char>, Seq<char>), Error>(
                e,
            ),
        },
{
    let pairs = match decoded {
        Some(pairs) => pairs,
        None => {
            return Err(Error::BadRequest);
        },
    };
    match (field(&pairs, "username"), field(&pairs, "password")) {
        (Some(username), Some(password)) => Ok(Credentials { username, password }),
        _ => Err(Error::BadRequest),
    }
}

/// Reads a form for new links out of decoded pairs: see `links_form_of`.
pub fn read_links_form(decoded: Option<Vec<(String, String)>>) -> (r: Result<String, Error>)
    ensures
        match r {
            Ok(links) => links_form_of(decoded_view(decoded)) == Ok::<Seq<char>, Error>(links@),
            Err(e) => links_form_of(decoded_view(decoded)) == Err::<Seq<char>, Error>(e),
        },
{
    let pairs = match decoded {
        Some(pairs) => pairs,
        None => {
            return Err(Error::BadRequest);
        },
    };
    match field(&pairs, "links") {
        Some(links) => Ok(links),
        None => Err(Error::BadRequest),
    }
}

/// Reads the body of a login request: `read_login_form` on what the decoder
/// makes of `body`.
pub fn login_form(body: &[u8]) -> (r: Result<Credentials, Error>)
    ensures
        match r {
            Ok(c) => login_form_of(urlencoded_pairs(body@)) == Ok::<(Seq<char>, Seq<char>), Error>(
                (c.username@, c.password@),
            ),
            Err(e) => login_form_of(urlencoded_pairs(body@)) == Err::<(Seq<char>, Seq<char>), Error>(
                e,
            ),
        },
{
    read_login_form(form_pairs(body))
}

/// Reads the body of a request for new links: `read_links_form` on what the
/// decoder makes of `body`.
pub fn links_form(body: &[u8]) -> (r: Result<String, Error>)
    ensures
        match r {
            Ok(links) => links_form_of(urlencoded_pairs(body@)) == Ok::<Seq<char>, Error>(links@),
            Err(e) => links_form_of(urlencoded_pairs(body@)) == Err::<Seq<char>, Error>(e),
        },
{
    read_links_form(form_pairs(body))
}

} // verus!
