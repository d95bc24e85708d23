//! The capability store: the table of issues, found by token.

use vstd::prelude::*;
use crate::issue::{Issue, IssueView};
use crate::text::{at_most, lemma_at_most_transitive, lemma_before_irreflexive};
use crate::token::Token;

verus! {

/// No two rows share a token, and no two share an id.
pub open spec fn distinct(rows: Seq<IssueView>) -> bool {
    forall|i: int, j: int|
        0 <= i < j < rows.len() ==> rows[i].token != rows[j].token && rows[i].id != rows[j].id
}

/// Some row carries `token`.
pub open spec fn has_token(rows: Seq<IssueView>, token: Token) -> bool {
    exists|i: int| 0 <= i < rows.len() && rows[i].token == token
}

/// Some row carries `id`.
pub open spec fn has_id(rows: Seq<IssueView>, id: i64) -> bool {
    exists|i: int| 0 <= i < rows.len() && rows[i].id == id
}

/// The row that carries `token`: the first such row, which in a table with
/// distinct tokens is the only one.
pub open spec fn found(rows: Seq<IssueView>, token: Token) -> Option<IssueView>
    decreases rows.len(),
{
    if rows.len() == 0 {
        None
    } else if rows[0].token == token {
        Some(rows[0])
    } else {
        found(rows.drop_first(), token)
    }
}

/// `row` with its subscription flag set to `value`.
pub open spec fn subscribed_as(row: IssueView, value: bool) -> IssueView {
    IssueView { subscribed: value, ..row }
}

/// `row` with its watermark set to `value`.
pub open spec fn marked_at(row: IssueView, value: Seq<char>) -> IssueView {
    IssueView { watermark: value, ..row }
}

/// The table after the subscription flag of every row with `token` is set to
/// `value`.
pub open spec fn with_subscribed(rows: Seq<IssueView>, token: Token, value: bool) -> Seq<
    IssueView,
> {
    Seq::new(
        rows.len(),
        |i: int|
            if rows[i].token == token {
                subscribed_as(rows[i], value)
            } else {
                rows[i]
            },
    )
}

/// The table after the watermark of every row with `id` is set to `value`.
pub open spec fn with_watermark(rows: Seq<IssueView>, id: i64, value: Seq<char>) -> Seq<
    IssueView,
> {
    Seq::new(
        rows.len(),
        |i: int|
            if rows[i].id == id {
                marked_at(rows[i], value)
            } else {
                rows[i]
            },
    )
}

/// The views of `issues`, in order.
pub open spec fn issue_views(issues: Seq<Issue>) -> Seq<IssueView> {
    Seq::new(issues.len(), |i: int| issues[i]@)
}

/// `found` finds a row exactly where some row carries the token, and the row
/// it finds carries the token and stands in the table.
pub proof fn lemma_found(rows: Seq<IssueView>, token: Token)
    ensures
        found(rows, token) is Some <==> has_token(rows, token),
        found(rows, token) matches Some(row) ==> row.token == token && rows.contains(row),
    decreases rows.len(),
{
    if rows.len() > 0 {
        let rest = rows.drop_first();
        lemma_found(rest, token);
        if rows[0].token == token {
            assert(rows.contains(rows[0]));
        } else {
            if has_token(rest, token) {
                let i = choose|i: int| 0 <= i < rest.len() && rest[i].token == token;
                assert(rows[i + 1].token == token);
            }
            if has_token(rows, token) {
                let i = choose|i: int| 0 <= i < rows.len() && rows[i].token == token;
                assert(rest[i - 1].token == token);
            }
            if found(rest, token) is Some {
                let row = found(rest, token)->0;
                let i = choose|i: int| 0 <= i < rest.len() && rest[i] == row;
                assert(rows[i + 1] == row);
            }
        }
    }
}

/// The number of the row that `found` finds is the number of a row.
pub proof fn lemma_found_id(rows: Seq<IssueView>, token: Token)
    ensures
        found(rows, token) matches Some(row) ==> has_id(rows, row.id),
{
    lemma_found(rows, token);
    if let Some(row) = found(rows, token) {
        let i = choose|i: int| 0 <= i < rows.len() && rows[i] == row;
        assert(rows[i].id == row.id);
    }
}

/// In a table with distinct tokens, `found` finds each row by its token.
pub proof fn lemma_found_row(rows: Seq<IssueView>, i: int)
    requires
        distinct(rows),
        0 <= i < rows.len(),
    ensures
        found(rows, rows[i].token) == Some(rows[i]),
    decreases rows.len(),
{
    if i > 0 {
        let rest = rows.drop_first();
        assert(rows[0].token != rows[i].token);
        assert forall|a: int, b: int| 0 <= a < b < rest.len() implies rest[a].token
            != rest[b].token && rest[a].id != rest[b].id by {
            assert(rows[a + 1].token != rows[b + 1].token && rows[a + 1].id != rows[b + 1].id);
        }
        lemma_found_row(rest, i - 1);
    }
}

/// Setting the flag by token changes the one row that carries the token.
pub proof fn lemma_with_subscribed(rows: Seq<IssueView>, i: int, value: bool)
    requires
        distinct(rows),
        0 <= i < rows.len(),
    ensures
        with_subscribed(rows, rows[i].token, value) == rows.update(
            i,
            subscribed_as(rows[i], value),
        ),
        distinct(with_subscribed(rows, rows[i].token, value)),
        has_token(rows, rows[i].token),
{
    let after = with_subscribed(rows, rows[i].token, value);
    assert forall|k: int| 0 <= k < rows.len() && k != i implies rows[k].token != rows[i].token by {
        if k < i {
            assert(rows[k].token != rows[i].token);
        } else {
            assert(rows[i].token != rows[k].token);
        }
    }
    assert(after =~= rows.update(i, subscribed_as(rows[i], value)));
    assert forall|a: int, b: int| 0 <= a < b < after.len() implies after[a].token != after[b].token
        && after[a].id != after[b].id by {
        assert(rows[a].token != rows[b].token && rows[a].id != rows[b].id);
    }
}

/// Setting the watermark by id changes the one row that has the id.
pub proof fn lemma_with_watermark(rows: Seq<IssueView>, i: int, value: Seq<char>)
    requires
        distinct(rows),
        0 <= i < rows.len(),
    ensures
        with_watermark(rows, rows[i].id, value) == rows.update(i, marked_at(rows[i], value)),
        distinct(with_watermark(rows, rows[i].id, value)),
        has_id(rows, rows[i].id),
{
    let after = with_watermark(rows, rows[i].id, value);
    assert forall|k: int| 0 <= k < rows.len() && k != i implies rows[k].id != rows[i].id by {
        if k < i {
            assert(rows[k].id != rows[i].id);
        } else {
            assert(rows[i].id != rows[k].id);
        }
    }
    assert(after =~= rows.update(i, marked_at(rows[i], value)));
    assert forall|a: int, b: int| 0 <= a < b < after.len() implies after[a].token != after[b].token
        && after[a].id != after[b].id by {
        assert(rows[a].token != rows[b].token && rows[a].id != rows[b].id);
    }
}

/// `later` holds the rows of `earlier` in their places, each under its token
/// and number, and none with a watermark that went back.
pub open spec fn never_back(earlier: Seq<IssueView>, later: Seq<IssueView>) -> bool {
    &&& earlier.len() <= later.len()
    &&& forall|i: int|
        0 <= i < earlier.len() ==> {
            &&& (#[trigger] later[i]).token == earlier[i].token
            &&& later[i].id == earlier[i].id
            &&& at_most(earlier[i].watermark, later[i].watermark)
        }
}

/// A table's watermarks have not gone back against the table itself.
pub proof fn law_never_back_reflexive(rows: Seq<IssueView>)
    ensures
        never_back(rows, rows),
{
    assert forall|i: int| 0 <= i < rows.len() implies at_most(
        rows[i].watermark,
        (#[trigger] rows[i]).watermark,
    ) by {
        lemma_before_irreflexive(rows[i].watermark);
    }
}

/// Where watermarks have not gone back from `a` to `b` nor from `b` to `c`,
/// they have not gone back from `a` to `c`.
pub proof fn law_never_back_transitive(a: Seq<IssueView>, b: Seq<IssueView>, c: Seq<IssueView>)
    requires
        never_back(a, b),
        never_back(b, c),
    ensures
        never_back(a, c),
{
    assert forall|i: int| 0 <= i < a.len() implies {
        &&& (#[trigger] c[i]).token == a[i].token
        &&& c[i].id == a[i].id
        &&& at_most(a[i].watermark, c[i].watermark)
    } by {
        assert(b[i].token == a[i].token);
        lemma_at_most_transitive(a[i].watermark, b[i].watermark, c[i].watermark);
    }
}

/// Over any sequence of tables in which no step takes a watermark back, no
/// watermark is ever behind an earlier value of its own.
pub proof fn law_watermarks_monotonic(tables: Seq<Seq<IssueView>>, i: int, j: int)
    requires
        forall|k: int| 0 <= k < tables.len() - 1 ==> never_back(#[trigger] tables[k], tables[k + 1]),
        0 <= i <= j < tables.len(),
    ensures
        never_back(tables[i], tables[j]),
    decreases j - i,
{
    if i == j {
        law_never_back_reflexive(tables[i]);
    } else {
        law_watermarks_monotonic(tables, i, j - 1);
        assert(never_back(tables[j - 1], tables[j - 1 + 1]));
        law_never_back_transitive(tables[i], tables[j - 1], tables[j]);
    }
}

/// Setting a watermark that is not behind the one it replaces takes no
/// watermark back.
pub proof fn lemma_with_watermark_forward(rows: Seq<IssueView>, id: i64, value: Seq<char>)
    requires
        forall|i: int|
            0 <= i < rows.len() && (#[trigger] rows[i]).id == id ==> at_most(
                rows[i].watermark,
                value,
            ),
    ensures
        never_back(rows, with_watermark(rows, id, value)),
{
    let after = with_watermark(rows, id, value);
    assert forall|i: int| 0 <= i < rows.len() implies {
        &&& (#[trigger] after[i]).token == rows[i].token
        &&& after[i].id == rows[i].id
        &&& at_most(rows[i].watermark, after[i].watermark)
    } by {
        if rows[i].id != id {
            lemma_before_irreflexive(rows[i].watermark);
        }
    }
}

/// A change of subscription takes no watermark back.
pub proof fn lemma_with_subscribed_forward(rows: Seq<IssueView>, token: Token, value: bool)
    ensures
        never_back(rows, with_subscribed(rows, token, value)),
{
    let after = with_subscribed(rows, token, value);
    assert forall|i: int| 0 <= i < rows.len() implies {
        &&& (#[trigger] after[i]).token == rows[i].token
        &&& after[i].id == rows[i].id
        &&& at_most(rows[i].watermark, after[i].watermark)
    } by {
        lemma_before_irreflexive(rows[i].watermark);
    }
}

/// A new row takes no watermark back.
pub proof fn lemma_push_forward(rows: Seq<IssueView>, row: IssueView)
    ensures
        never_back(rows, rows.push(row)),
{
    let after = rows.push(row);
    assert forall|i: int| 0 <= i < rows.len() implies {
        &&& (#[trigger] after[i]).token == rows[i].token
        &&& after[i].id == rows[i].id
        &&& at_most(rows[i].watermark, after[i].watermark)
    } by {
        lemma_before_irreflexive(rows[i].watermark);
    }
}

/// The table of issues. Its rows stand in the order they were inserted in.
pub struct Store {
    issues: Vec<Issue>,
}

impl View for Store {
    type V = Seq<IssueView>;

    closed spec fn view(&self) -> Seq<IssueView> {
        issue_views(self.issues@)
    }
}

impl Store {
    /// What holds of every store: tokens and ids are unique.
    #[verifier::type_invariant]
    pub open spec fn inv(&self) -> bool {
        distinct(self@)
    }

    /// The empty table.
    pub fn new() -> (r: Store)
        ensures
            r@ == Seq::<IssueView>::empty(),
    {
        let r = Store { issues: Vec::new() };
        assert(r@ =~= Seq::<IssueView>::empty());
        r
    }

    /// The number of rows.
    pub fn len(&self) -> (n: usize)
        ensures
            n == self@.len(),
            distinct(self@),
    {
        proof {
            use_type_invariant(self);
        }
        self.issues.len()
    }

    /// Adds `issue` as the last row, unless a row has its token or its id
    /// already: then the table stays as it is. Says whether the row was added.
    pub fn insert(&mut self, issue: Issue) -> (added: bool)
        ensures
            distinct(old(self)@),
            distinct(final(self)@),
            added == (!has_token(old(self)@, issue.token) && !has_id(old(self)@, issue.id)),
            added ==> final(self)@ == old(self)@.push(issue@),
            !added ==> final(self)@ == old(self)@,
    {
        proof {
            use_type_invariant(&*self);
        }
        let mut i: usize = 0;
        while i < self.issues.len()
            invariant
                i <= self.issues@.len(),
                *self == *old(self),
                distinct(self@),
                forall|k: int|
                    0 <= k < i ==> self@[k].token != issue.token && self@[k].id != issue.id,
            decreases self.issues@.len() - i,
        {
            if self.issues[i].token == issue.token || self.issues[i].id == issue.id {
                assert(self@[i as int].token == issue.token || self@[i as int].id == issue.id);
                return false;
            }
            i = i + 1;
        }
        let ghost before = self@;
        let ghost row = issue@;
        let mut rows: Vec<Issue> = Vec::new();
        assert(issue_views(rows@) =~= Seq::<IssueView>::empty());
        std::mem::swap(&mut self.issues, &mut rows);
        rows.push(issue);
        assert(issue_views(rows@) =~= before.push(row));
        self.issues = rows;
        true
    }

    /// The issue that carries `token`, if there is one.
    pub fn find_by_token(&self, token: Token) -> (r: Option<&Issue>)
        ensures
            distinct(self@),
            match r {
                Some(issue) => found(self@, token) == Some(issue@),
                None => found(self@, token) is None,
            },
    {
        proof {
            use_type_invariant(self);
        }
        let mut i: usize = 0;
        while i < self.issues.len()
            invariant
                i <= self.issues@.len(),
                distinct(self@),
                forall|k: int| 0 <= k < i ==> self@[k].token != token,
            decreases self.issues@.len() - i,
        {
            if self.issues[i].token == token {
                proof {
                    lemma_found_row(self@, i as int);
                }
                return Some(&self.issues[i]);
            }
            i = i + 1;
        }
        proof {
            lemma_found(self@, token);
        }
        None
    }

    /// Sets the subscription flag of the issue that carries `token`, and says
    /// how many rows that changed: one, or none where no row carries `token`.
    pub fn set_subscribed(&mut self, token: Token, value: bool) -> (rows: usize)
        ensures
            distinct(old(self)@),
            distinct(final(self)@),
            final(self)@ == with_subscribed(old(self)@, token, value),
            rows == if has_token(old(self)@, token) { 1usize } else { 0usize },
    {
        proof {
            use_type_invariant(&*self);
        }
        let mut i: usize = 0;
        while i < self.issues.len()
            invariant
                i <= self.issues@.len(),
                *self == *old(self),
                distinct(self@),
                forall|k: int| 0 <= k < i ==> self@[k].token != token,
            decreases self.issues@.len() - i,
        {
            if self.issues[i].token == token {
                let ghost before = self@;
                let mut rows: Vec<Issue> = Vec::new();
                assert(issue_views(rows@) =~= Seq::<IssueView>::empty());
                std::mem::swap(&mut self.issues, &mut rows);
                rows[i].subscribed = value;
                proof {
                    lemma_with_subscribed(before, i as int, value);
                    assert(issue_views(rows@) =~= before.update(
                        i as int,
                        subscribed_as(before[i as int], value),
                    ));
                }
                self.issues = rows;
                return 1;
            }
            i = i + 1;
        }
        assert(self@ =~= with_subscribed(self@, token, value));
        assert(!has_token(self@, token));
        0
    }

    /// Sets the watermark of the issue with the number `id`, and says how many
    /// rows that changed: one, or none where no row has that number.
    pub fn set_watermark(&mut self, id: i64, value: String) -> (rows: usize)
        ensures
            distinct(old(self)@),
            distinct(final(self)@),
            final(self)@ == with_watermark(old(self)@, id, value@),
            rows == if has_id(old(self)@, id) { 1usize } else { 0usize },
    {
        proof {
            use_type_invariant(&*self);
        }
        let mut i: usize = 0;
        while i < self.issues.len()
            invariant
                i <= self.issues@.len(),
                *self == *old(self),
                distinct(self@),
                forall|k: int| 0 <= k < i ==> self@[k].id != id,
            decreases self.issues@.len() - i,
        {
            if self.issues[i].id == id {
                let ghost before = self@;
                let ghost mark = value@;
                let mut rows: Vec<Issue> = Vec::new();
                assert(issue_views(rows@) =~= Seq::<IssueView>::empty());
                std::mem::swap(&mut self.issues, &mut rows);
                rows[i].watermark = value;
                proof {
                    lemma_with_watermark(before, i as int, mark);
                    assert(issue_views(rows@) =~= before.update(
                        i as int,
                        marked_at(before[i as int], mark),
                    ));
                }
                self.issues = rows;
                return 1;
            }
            i = i + 1;
        }
        assert(self@ =~= with_watermark(self@, id, value@));
        assert(!has_id(self@, id));
        0
    }

    /// All issues, in the order of the table.
    pub fn list_all(&self) -> (r: Vec<Issue>)
        ensures
            distinct(self@),
            issue_views(r@) == self@,
    {
        proof {
            use_type_invariant(self);
        }
        let mut r: Vec<Issue> = Vec::new();
        let mut i: usize = 0;
        while i < self.issues.len()
            invariant
                i <= self.issues@.len(),
                r@.len() == i,
                forall|k: int| 0 <= k < i ==> r@[k]@ == self@[k],
            decreases self.issues@.len() - i,
        {
            r.push(self.issues[i].clone());
            i = i + 1;
        }
        assert(issue_views(r@) =~= self@);
        r
    }
}

} // verus!
