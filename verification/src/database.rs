//! What the archive reads out of the answers of its SQL store: which failed
//! insert means "already there", and where a field stands in a row. The
//! store itself is asked by the program around this library.

use vstd::prelude::*;
use crate::error::Error;
use crate::text::same_text;

verus! {

/// SQLite's result code for a constraint that does not hold.
pub const CONSTRAINT_VIOLATION: i32 = 19;

/// SQLite's extended result code for a broken `UNIQUE` constraint.
pub const CONSTRAINT_UNIQUE: i64 = 2067;

/// SQLite's extended result code for a broken `PRIMARY KEY` constraint.
pub const CONSTRAINT_PRIMARYKEY: i64 = 1555;

/// What SQLite says of a statement that failed: its result code and its
/// extended result code.
#[derive(Clone, Copy, Debug, PartialEq, Eq, Structural)]
pub struct SqliteFailure {
    pub code: i32,
    pub extended_code: i32,
}

/// An error of the store: a failure that SQLite reports, or anything else.
#[derive(Clone, Copy, Debug, PartialEq, Eq, Structural)]
pub enum StoreError {
    SqliteFailure(SqliteFailure),
    Other,
}

/// Whether `err` is a failure of SQLite with this code and extended code.
pub open spec fn code_matches(err: StoreError, code: i32, ext: i64) -> bool {
    err matches StoreError::SqliteFailure(f) && f.code == code && f.extended_code as i64 == ext
}

/// Whether `err` is a failure of SQLite with this code and extended code.
pub fn error_code_match(err: &StoreError, code: i32, ext: i64) -> (r: bool)
    ensures
        r == code_matches(*err, code, ext),
{
    match err {
        StoreError::SqliteFailure(f) => f.code == code && f.extended_code as i64 == ext,
        StoreError::Other => false,
    }
}

/// The error of an insert of a user that the store refused: the name is
/// taken where a `UNIQUE` constraint broke, else the store failed.
pub fn insert_user_error(err: StoreError, name: &str) -> (e: Error)
    ensures
        code_matches(err, CONSTRAINT_VIOLATION, CONSTRAINT_UNIQUE) ==> (e matches Error::DuplicateName(
            n,
        ) && n@ == name@),
        !code_matches(err, CONSTRAINT_VIOLATION, CONSTRAINT_UNIQUE) ==> e == Error::Internal,
{
    if error_code_match(&err, CONSTRAINT_VIOLATION, CONSTRAINT_UNIQUE) {
        Error::DuplicateName(name.to_owned())
    } else {
        Error::Internal
    }
}

/// The error of an insert of a link that the store refused: the link is
/// there already where the `PRIMARY KEY` constraint broke, else the store
/// failed.
pub fn insert_link_error(err: StoreError, link: &str) -> (e: Error)
    ensures
        code_matches(err, CONSTRAINT_VIOLATION, CONSTRAINT_PRIMARYKEY) ==> (e matches Error::DuplicateUrl(
            u,
        ) && u@ == link@),
        !code_matches(err, CONSTRAINT_VIOLATION, CONSTRAINT_PRIMARYKEY) ==> e == Error::Internal,
{
    if error_code_match(&err, CONSTRAINT_VIOLATION, CONSTRAINT_PRIMARYKEY) {
        Error::DuplicateUrl(link.to_owned())
    } else {
        Error::Internal
    }
}

/// The place of the first column named `name`, if there is one.
pub open spec fn column_of(cols: Seq<Seq<char>>, name: Seq<char>) -> Option<int>
    decreases cols.len(),
{
    if cols.len() == 0 {
        None
    } else if cols[0] == name {
        Some(0)
    } else {
        match column_of(cols.drop_first(), name) {
            Some(i) => Some(i + 1),
            None => None,
        }
    }
}

/// The columns of a row of a query, and where in the row the record that is
/// read next begins.
pub struct Row {
    pub off: usize,
    pub cols: Vec<String>,
}

impl Row {
    /// The names of the columns.
    pub open spec fn names(&self) -> Seq<Seq<char>> {
        self.cols@.map_values(|c: String| c@)
    }

    /// A row with these columns, read from its start.
    pub fn new(cols: Vec<String>) -> (row: Row)
        ensures
            row.off == 0,
            row.cols == cols,
    {
        Row { off: 0, cols }
    }

    /// Finds the first column named `name`: see `column_of`.
    pub fn find(&self, name: &str) -> (r: Option<usize>)
        ensures
            match r {
                Some(i) => column_of(self.names(), name@) == Some(i as int),
                None => column_of(self.names(), name@) is None,
            },
    {
        let ghost all = self.names();
        let n: usize = self.cols.len();
        let mut i: usize = 0;
        assert(all.subrange(0, n as int) =~= all);
        while i < n
            invariant
                i <= n,
                n == self.cols@.len(),
                all == self.names(),
                column_of(all, name@) == match column_of(all.subrange(i as int, n as int), name@) {
                    Some(k) => Some(k + i),
                    None => None,
                },
            decreases n - i,
        {
            let ghost rest = all.subrange(i as int, n as int);
            assert(rest[0] == self.cols@[i as int]@);
            assert(rest.drop_first() =~= all.subrange(i + 1, n as int));
            if same_text(self.cols[i].as_str(), name) {
                return Some(i);
            }
            i = i + 1;
        }
        None
    }

    /// The place in the whole row of the field `name` of the record that is
    /// read next: the place of its column, moved by where the record begins.
    /// `None` where there is no such column, or no such place.
    pub fn index(&self, name: &str) -> (r: Option<usize>)
        ensures
            r == match column_of(self.names(), name@) {
                Some(i) => if i + self.off <= usize::MAX {
                    Some((i + self.off) as usize)
                } else {
                    None
                },
                None => None,
            },
    {
        match self.find(name) {
            Some(i) => i.checked_add(self.off),
            None => None,
        }
    }

    /// Moves the start of the next record `n` columns on.
    pub fn advance(&mut self, n: usize)
        requires
            old(self).off + n <= usize::MAX,
        ensures
            final(self).off == old(self).off + n,
            final(self).cols == old(self).cols,
    {
        self.off = self.off + n;
    }
}

} // verus!
