//! Taking in new links: a text with one URL on each line becomes the list of
//! links to store. The `url` crate says what a URL is and writes it in its
//! normal form.

use vstd::prelude::*;
use crate::error::Error;
use crate::session::index_of;
use crate::text::text_view;

verus! {

/// The normal form that `Url::parse` of the `url` crate gives a line as an
/// absolute URL; `None` where it reports an error.
pub uninterp spec fn url_normalized(line: Seq<char>) -> Option<Seq<char>>;

/// Calls `Url::parse` and hands back the URL as `Url::as_str` writes it. The
/// contract names the outcome and claims nothing else of it.
#[verifier::external_body]
fn normalize_url(line: &str) -> (r: Option<String>)
    ensures
        text_view(r) == url_normalized(line@),
{
    match url::Url::parse(line) {
        Ok(u) => Some(u.as_str().to_string()),
        Err(_) => None,
    }
}

/// The lines of a text: what stands between its line feeds, each without the
/// carriage return before its line feed. A text that ends in a line feed has
/// no empty last line; the empty text has no line.
pub open spec fn lines_of(text: Seq<char>) -> Seq<Seq<char>>
    decreases text.len(),
{
    if text.len() == 0 {
        Seq::empty()
    } else {
        let end = index_of(text, '\n');
        if end < 0 || end >= text.len() {
            seq![text]
        } else {
            let piece = text.subrange(0, end);
            let line = if piece.len() > 0 && piece.last() == '\r' {
                piece.drop_last()
            } else {
                piece
            };
            seq![line] + lines_of(text.subrange(end + 1, text.len() as int))
        }
    }
}

/// The texts of a list of strings.
pub open spec fn texts(lines: Seq<String>) -> Seq<Seq<char>> {
    lines.map_values(|l: String| l@)
}

/// Collects what `str::lines` of the standard library yields. As its
/// documentation says: lines end at a line feed or at a carriage return
/// followed by a line feed, the ending is not part of the line, a carriage
/// return that no line feed follows stays, and the last line needs no ending.
#[verifier::external_body]
fn split_lines(text: &str) -> (r: Vec<String>)
    ensures
        texts(r@) == lines_of(text@),
{
    text.lines().map(String::from).collect()
}

/// The URLs to store for the given lines, in their order: the normal form of
/// each line up to the first line that is no URL.
pub open spec fn plan_urls(lines: Seq<Seq<char>>) -> Seq<Seq<char>>
    decreases lines.len(),
{
    if lines.len() == 0 {
        Seq::empty()
    } else {
        match url_normalized(lines[0]) {
            None => Seq::empty(),
            Some(u) => seq![u] + plan_urls(lines.drop_first()),
        }
    }
}

/// The first of the given lines that is no URL, if there is one.
pub open spec fn plan_rejected(lines: Seq<Seq<char>>) -> Option<Seq<char>>
    decreases lines.len(),
{
    if lines.len() == 0 {
        None
    } else {
        match url_normalized(lines[0]) {
            None => Some(lines[0]),
            Some(_) => plan_rejected(lines.drop_first()),
        }
    }
}

/// What to do with a text of new links: store `urls` one after the other,
/// then report `rejected` as an invalid URL if it is there.
pub struct ImportPlan {
    pub urls: Vec<String>,
    pub rejected: Option<String>,
}

/// Plans the import of the given lines: see `plan_urls` and `plan_rejected`.
/// Nothing after the first line that is no URL is stored.
pub fn plan_lines(lines: &Vec<String>) -> (plan: ImportPlan)
    ensures
        texts(plan.urls@) == plan_urls(texts(lines@)),
        text_view(plan.rejected) == plan_rejected(texts(lines@)),
{
    let ghost all = texts(lines@);
    let n: usize = lines.len();
    let mut urls: Vec<String> = Vec::new();
    let mut i: usize = 0;
    assert(all.subrange(0, n as int) =~= all);
    assert(texts(urls@) =~= Seq::<Seq<char>>::empty());
    while i < n
        invariant
            i <= n,
            n == lines@.len(),
            all == texts(lines@),
            plan_urls(all) == texts(urls@) + plan_urls(all.subrange(i as int, n as int)),
            plan_rejected(all) == plan_rejected(all.subrange(i as int, n as int)),
        decreases n - i,
    {
        let ghost rest = all.subrange(i as int, n as int);
        assert(rest[0] == lines@[i as int]@);
        assert(rest.drop_first() =~= all.subrange(i + 1, n as int));
        match normalize_url(lines[i].as_str()) {
            Some(u) => {
                let ghost before = texts(urls@);
                urls.push(u);
                assert(texts(urls@) =~= before + seq![u@]);
                assert(before + (seq![u@] + plan_urls(rest.drop_first())) =~= (before + seq![u@])
                    + plan_urls(rest.drop_first()));
            },
            None => {
                assert(texts(urls@) + Seq::<Seq<char>>::empty() =~= texts(urls@));
                return ImportPlan { urls, rejected: Some(lines[i].clone()) };
            },
        }
        i = i + 1;
    }
    assert(texts(urls@) + Seq::<Seq<char>>::empty() =~= texts(urls@));
    ImportPlan { urls, rejected: None }
}

/// Plans the import of a text of new links, one URL on each line.
pub fn import_plan(text: &str) -> (plan: ImportPlan)
    ensures
        texts(plan.urls@) == plan_urls(lines_of(text@)),
        text_view(plan.rejected) == plan_rejected(lines_of(text@)),
{
    let lines = split_lines(text);
    plan_lines(&lines)
}

/// What the outcome of storing one link means for the import: a link that
/// is stored already counts as stored; any other error ends the import.
pub open spec fn stored(outcome: Result<(), Error>) -> Result<(), Error> {
    match outcome {
        Ok(()) => Ok(()),
        Err(e) => if e is DuplicateUrl {
            Ok(())
        } else {
            Err(e)
        },
    }
}

/// Decides whether the import goes on after the store's answer to one
/// insert: see `stored`.
pub fn after_insert(outcome: Result<(), Error>) -> (r: Result<(), Error>)
    ensures
        r == stored(outcome),
{
    match outcome {
        Ok(()) => Ok(()),
        Err(Error::DuplicateUrl(_)) => Ok(()),
        Err(e) => Err(e),
    }
}

impl ImportPlan {
    /// How the import ends once every URL of the plan is stored: with
    /// `InvalidUrl` for the rejected line, if there is one.
    pub fn finish(self) -> (r: Result<(), Error>)
        ensures
            r == match self.rejected {
                Some(line) => Err::<(), Error>(Error::InvalidUrl(line)),
                None => Ok(()),
            },
    {
        match self.rejected {
            Some(line) => Err(Error::InvalidUrl(line)),
            None => Ok(()),
        }
    }
}

/// A plan stops at the first line that is no URL: it rejects a line exactly
/// when some line is no URL, the rejected line is the first such line, and
/// the URLs to store are those of the lines before it, one for each.
pub proof fn lemma_plan_stops_at_first_invalid(lines: Seq<Seq<char>>)
    ensures
        plan_urls(lines).len() <= lines.len(),
        forall|k: int|
            0 <= k < plan_urls(lines).len() ==> url_normalized(#[trigger] lines[k]) == Some(
                plan_urls(lines)[k],
            ),
        plan_rejected(lines) is None ==> plan_urls(lines).len() == lines.len(),
        plan_rejected(lines) is Some ==> plan_urls(lines).len() < lines.len() && plan_rejected(
            lines,
        ) == Some(lines[plan_urls(lines).len() as int]) && url_normalized(
            lines[plan_urls(lines).len() as int],
        ) is None,
    decreases lines.len(),
{
    if lines.len() > 0 {
        let rest = lines.drop_first();
        lemma_plan_stops_at_first_invalid(rest);
        match url_normalized(lines[0]) {
            None => {},
            Some(u) => {
                let urls = plan_urls(lines);
                assert(urls == seq![u] + plan_urls(rest));
                assert forall|k: int| 0 <= k < urls.len() implies url_normalized(
                    #[trigger] lines[k],
                ) == Some(urls[k]) by {
                    if k > 0 {
                        assert(lines[k] == rest[k - 1]);
                        assert(urls[k] == plan_urls(rest)[k - 1]);
                    }
                }
                if plan_rejected(lines) is Some {
                    assert(lines[urls.len() as int] == rest[plan_urls(rest).len() as int]);
                }
            },
        }
    }
}

} // verus!
