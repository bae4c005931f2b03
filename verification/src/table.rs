//! The table of quotes as the handlers assume it: what it holds, how it
//! answers each statement when nothing goes wrong on the way, and what a
//! whole request does to it. All of this is specification; the table itself
//! lives in a database.

use crate::handler::StepView;
use crate::model::{PartialContent, QuoteModelView};
use crate::response::ApiResponseView;
use crate::storage::{StatementView, StorageErrorView};
use crate::text::has_substring;
use vstd::prelude::*;

verus! {

/// The rows of the table: the texts of each row, by its id.
#[verifier::ext_equal]
pub ghost struct Table {
    pub rows: Map<int, PartialContent>,
}

/// A failure by which storage refuses a write that would store the same
/// four texts twice.
pub open spec fn is_duplicate_failure(e: StorageErrorView) -> bool {
    !e.row_not_found && has_substring(e.display, "Duplicate entry"@)
}

impl Table {
    /// A row has this id.
    pub open spec fn has(self, id: int) -> bool {
        self.rows.dom().contains(id)
    }

    /// The row with this id.
    pub open spec fn row(self, id: int) -> QuoteModelView
        recommends
            self.has(id),
    {
        QuoteModelView { id, content: self.rows[id] }
    }

    /// There is no row.
    pub open spec fn is_empty(self) -> bool {
        forall|id: int| !self.has(id)
    }

    /// Some row has these four texts.
    pub open spec fn holds(self, content: PartialContent) -> bool {
        exists|id: int| self.has(id) && #[trigger] self.rows[id] == content
    }

    /// Some row other than `id` has these four texts.
    pub open spec fn holds_elsewhere(self, content: PartialContent, id: int) -> bool {
        exists|other: int| other != id && self.has(other) && #[trigger] self.rows[other] == content
    }

    /// The row with this id is the newest: no row has a higher id.
    pub open spec fn is_newest(self, id: int) -> bool {
        self.has(id) && forall|other: int| self.has(other) ==> other <= id
    }

    /// An id that storage may assign to a new row: above the id of every
    /// row that is there.
    pub open spec fn is_fresh(self, id: int) -> bool {
        i32::MIN <= id <= i32::MAX && forall|other: int| self.has(other) ==> other < id
    }

    /// What storage keeps true of the table: the rows are finitely many,
    /// every id is a 32-bit number, and no two rows have the same four
    /// texts.
    pub open spec fn wf(self) -> bool {
        &&& self.rows.dom().finite()
        &&& forall|id: int| self.has(id) ==> i32::MIN <= id <= i32::MAX
        &&& forall|a: int, b: int|
            self.has(a) && self.has(b) && #[trigger] self.rows[a] == #[trigger] self.rows[b] ==> a
                == b
    }

    /// What the handlers keep true of the table: no row has an absent text.
    pub open spec fn is_complete(self) -> bool {
        forall|id: int| self.has(id) ==> (#[trigger] self.rows[id]).is_complete()
    }

    /// `row` is an answer of the table to a statement that returns a row.
    /// A read by id finds the row or reports that there is none. The read of
    /// the newest row likewise. A random read may report that there is none
    /// though there are rows: the draw can reject all of them.
    pub open spec fn fetches(
        self,
        statement: StatementView,
        row: Result<QuoteModelView, StorageErrorView>,
    ) -> bool {
        match statement {
            StatementView::SelectById { id } => match row {
                Ok(q) => self.has(id) && q == self.row(id),
                Err(e) => !self.has(id) && e.row_not_found,
            },
            StatementView::SelectLatest => match row {
                Ok(q) => self.is_newest(q.id) && q == self.row(q.id),
                Err(e) => self.is_empty() && e.row_not_found,
            },
            StatementView::SelectRandom => match row {
                Ok(q) => self.has(q.id) && q == self.row(q.id),
                Err(e) => e.row_not_found,
            },
            _ => false,
        }
    }

    /// `count` is an answer of the table to a statement that changes rows,
    /// and `after` is the table then. An insert adds one row under a fresh
    /// id, an update replaces the texts of the row with the id, a removal
    /// takes that row away; a write for an id that no row has changes
    /// nothing and counts no row, and one that would store the same four
    /// texts twice is refused.
    pub open spec fn executes(
        self,
        statement: StatementView,
        count: Result<int, StorageErrorView>,
        after: Table,
    ) -> bool {
        match statement {
            StatementView::Insert { content } => if self.holds(content.as_partial()) {
                after == self && count is Err && is_duplicate_failure(count->Err_0)
            } else {
                count == Ok::<int, StorageErrorView>(1) && exists|id: int|
                    self.is_fresh(id) && #[trigger] self.rows.insert(id, content.as_partial())
                        == after.rows
            },
            StatementView::Update { id, content } => if !self.has(id) {
                after == self && count == Ok::<int, StorageErrorView>(0)
            } else if self.holds_elsewhere(content.as_partial(), id) {
                after == self && count is Err && is_duplicate_failure(count->Err_0)
            } else {
                count == Ok::<int, StorageErrorView>(1) && after.rows == self.rows.insert(
                    id,
                    content.as_partial(),
                )
            },
            StatementView::Delete { id } => if self.has(id) {
                count == Ok::<int, StorageErrorView>(1) && after.rows == self.rows.remove(id)
            } else {
                after == self && count == Ok::<int, StorageErrorView>(0)
            },
            _ => false,
        }
    }
}

/// One exchange between a handler and the table: the table answers the
/// statement that `step` names, which takes the handler to `next` and the
/// table to `after`.
pub open spec fn exchange(step: StepView, before: Table, next: StepView, after: Table) -> bool {
    match step {
        StepView::Fetch(statement, awaited) => after == before && exists|
            row: Result<QuoteModelView, StorageErrorView>,
        |
            before.fetches(statement, row) && next == #[trigger] awaited.arrived(row),
        StepView::Execute(statement, awaited) => exists|count: Result<int, StorageErrorView>|
            before.executes(statement, count, after) && next == #[trigger] awaited.arrived(count),
        StepView::Reply(_) => false,
    }
}

/// A request that stands at `step` with the table `before` ends after
/// exactly `exchanges` exchanges with the answer `reply` and the table
/// `after`.
pub open spec fn ends(
    step: StepView,
    before: Table,
    exchanges: nat,
    reply: ApiResponseView,
    after: Table,
) -> bool
    decreases exchanges,
{
    match step {
        StepView::Reply(r) => exchanges == 0 && r == reply && after == before,
        _ => exchanges > 0 && exists|next: StepView, mid: Table|
            #[trigger] exchange(step, before, next, mid) && ends(
                next,
                mid,
                (exchanges - 1) as nat,
                reply,
                after,
            ),
    }
}

} // verus!
