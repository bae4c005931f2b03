//! What holds of every request that runs against a table that answers as
//! `Table` says.

use crate::handler::{merged, shown, AwaitedCountView, AwaitedRowView, StepView};
use crate::model::{Content, PartialContent, QuoteModelResponseView, QuoteModelView};
use crate::response::{not_found_text, ApiResponseView, EnvelopeView};
use crate::storage::{StatementView, StorageErrorView};
use crate::table::{ends, exchange, is_duplicate_failure, Table};
use crate::text::{decimal, has_substring, lemma_decimal_nonempty, occurs_at};
use vstd::prelude::*;

verus! {

/// Takes the first exchange out of a request that starts with a statement
/// that returns a row.
proof fn lemma_after_fetch(
    statement: StatementView,
    awaited: AwaitedRowView,
    before: Table,
    n: nat,
    reply: ApiResponseView,
    after: Table,
) -> (row: Result<QuoteModelView, StorageErrorView>)
    requires
        ends(StepView::Fetch(statement, awaited), before, n, reply, after),
    ensures
        n > 0,
        before.fetches(statement, row),
        ends(awaited.arrived(row), before, (n - 1) as nat, reply, after),
{
    let step = StepView::Fetch(statement, awaited);
    let (next, mid) = choose|next: StepView, mid: Table|
        #[trigger] exchange(step, before, next, mid) && ends(
            next,
            mid,
            (n - 1) as nat,
            reply,
            after,
        );
    choose|row: Result<QuoteModelView, StorageErrorView>|
        before.fetches(statement, row) && next == #[trigger] awaited.arrived(row)
}

/// Takes the first exchange out of a request that starts with a statement
/// that changes rows.
proof fn lemma_after_execute(
    statement: StatementView,
    awaited: AwaitedCountView,
    before: Table,
    n: nat,
    reply: ApiResponseView,
    after: Table,
) -> (r: (Result<int, StorageErrorView>, Table))
    requires
        ends(StepView::Execute(statement, awaited), before, n, reply, after),
    ensures
        n > 0,
        before.executes(statement, r.0, r.1),
        ends(awaited.arrived(r.0), r.1, (n - 1) as nat, reply, after),
{
    let step = StepView::Execute(statement, awaited);
    let (next, mid) = choose|next: StepView, mid: Table|
        #[trigger] exchange(step, before, next, mid) && ends(
            next,
            mid,
            (n - 1) as nat,
            reply,
            after,
        );
    let count = choose|count: Result<int, StorageErrorView>|
        before.executes(statement, count, mid) && next == #[trigger] awaited.arrived(count);
    (count, mid)
}

/// Puts an exchange in front of a request that starts with its outcome: a
/// statement that returns a row.
proof fn lemma_fetch_then(
    statement: StatementView,
    awaited: AwaitedRowView,
    before: Table,
    row: Result<QuoteModelView, StorageErrorView>,
    n: nat,
    reply: ApiResponseView,
    after: Table,
)
    requires
        before.fetches(statement, row),
        ends(awaited.arrived(row), before, n, reply, after),
    ensures
        ends(StepView::Fetch(statement, awaited), before, n + 1, reply, after),
{
    let step = StepView::Fetch(statement, awaited);
    assert(exchange(step, before, awaited.arrived(row), before));
}

/// Puts an exchange in front of a request that starts with its outcome: a
/// statement that changes rows.
proof fn lemma_execute_then(
    statement: StatementView,
    awaited: AwaitedCountView,
    before: Table,
    count: Result<int, StorageErrorView>,
    mid: Table,
    n: nat,
    reply: ApiResponseView,
    after: Table,
)
    requires
        before.executes(statement, count, mid),
        ends(awaited.arrived(count), mid, n, reply, after),
    ensures
        ends(StepView::Execute(statement, awaited), before, n + 1, reply, after),
{
    let step = StepView::Execute(statement, awaited);
    assert(exchange(step, before, awaited.arrived(count), mid));
}

/// A failure by which storage reports a row as missing.
spec fn a_missing_row() -> StorageErrorView {
    StorageErrorView { row_not_found: true, display: Seq::empty(), debug: Seq::empty() }
}

/// A failure by which storage refuses a duplicate.
spec fn a_duplicate() -> StorageErrorView {
    StorageErrorView { row_not_found: false, display: "Duplicate entry"@, debug: Seq::empty() }
}

proof fn lemma_a_duplicate_is_one()
    ensures
        is_duplicate_failure(a_duplicate()),
{
    let text = "Duplicate entry"@;
    assert(text.subrange(0, 0 + text.len() as int) =~= text);
    assert(occurs_at(text, text, 0));
}

/// The table is one that a request can run against: against a table that
/// has room for another row, every request has a run that ends.
pub proof fn law_every_request_can_end(first: StepView, before: Table) -> (r: (
    nat,
    ApiResponseView,
    Table,
))
    requires
        first.starts_request(),
        exists|id: int| before.is_fresh(id),
    ensures
        ends(first, before, r.0, r.1, r.2),
{
    lemma_a_duplicate_is_one();
    match first {
        StepView::Fetch(StatementView::SelectRandom, awaited) => {
            let row = Err::<QuoteModelView, StorageErrorView>(a_missing_row());
            let reply = shown(row);
            lemma_fetch_then(StatementView::SelectRandom, awaited, before, row, 0, reply, before);
            (1, reply, before)
        },
        StepView::Fetch(StatementView::SelectById { id }, awaited) => {
            let read = StatementView::SelectById { id };
            if !before.has(id) {
                let row = Err::<QuoteModelView, StorageErrorView>(a_missing_row());
                let reply = ApiResponseView::not_found(id);
                lemma_fetch_then(read, awaited, before, row, 0, reply, before);
                (1, reply, before)
            } else {
                let row = Ok::<QuoteModelView, StorageErrorView>(before.row(id));
                match awaited.arrived(row) {
                    StepView::Execute(write, awaited_count) => {
                        let content = write->Update_content;
                        if before.holds_elsewhere(content.as_partial(), id) {
                            let count = Err::<int, StorageErrorView>(a_duplicate());
                            let reply = awaited_count.arrived(count)->Reply_0;
                            lemma_execute_then(
                                write,
                                awaited_count,
                                before,
                                count,
                                before,
                                0,
                                reply,
                                before,
                            );
                            lemma_fetch_then(read, awaited, before, row, 1, reply, before);
                            (2, reply, before)
                        } else {
                            let count = Ok::<int, StorageErrorView>(1);
                            let mid = Table { rows: before.rows.insert(id, content.as_partial()) };
                            let again = Ok::<QuoteModelView, StorageErrorView>(mid.row(id));
                            let reply = shown(again);
                            assert(mid.has(id));
                            lemma_fetch_then(
                                read,
                                AwaitedRowView::Answer,
                                mid,
                                again,
                                0,
                                reply,
                                mid,
                            );
                            lemma_execute_then(
                                write,
                                awaited_count,
                                before,
                                count,
                                mid,
                                1,
                                reply,
                                mid,
                            );
                            lemma_fetch_then(read, awaited, before, row, 2, reply, mid);
                            (3, reply, mid)
                        }
                    },
                    StepView::Reply(reply) => {
                        lemma_fetch_then(read, awaited, before, row, 0, reply, before);
                        (1, reply, before)
                    },
                    StepView::Fetch(_, _) => {
                        assert(false);
                        (0, ApiResponseView::no_content(), before)
                    },
                }
            }
        },
        StepView::Execute(StatementView::Insert { content }, awaited) => {
            let write = StatementView::Insert { content };
            if before.holds(content.as_partial()) {
                let count = Err::<int, StorageErrorView>(a_duplicate());
                let reply = awaited.arrived(count)->Reply_0;
                lemma_execute_then(write, awaited, before, count, before, 0, reply, before);
                (1, reply, before)
            } else {
                let id = choose|id: int| before.is_fresh(id);
                let count = Ok::<int, StorageErrorView>(1);
                let mid = Table { rows: before.rows.insert(id, content.as_partial()) };
                let row = Ok::<QuoteModelView, StorageErrorView>(mid.row(id));
                let reply = shown(row);
                assert(mid.has(id));
                assert forall|other: int| mid.has(other) implies other <= id by {
                    assert(other == id || before.has(other));
                }
                lemma_fetch_then(
                    StatementView::SelectLatest,
                    AwaitedRowView::Answer,
                    mid,
                    row,
                    0,
                    reply,
                    mid,
                );
                assert(before.rows.insert(id, content.as_partial()) == mid.rows);
                lemma_execute_then(write, awaited, before, count, mid, 1, reply, mid);
                (2, reply, mid)
            }
        },
        StepView::Execute(StatementView::Delete { id }, awaited) => {
            let write = StatementView::Delete { id };
            if before.has(id) {
                let count = Ok::<int, StorageErrorView>(1);
                let mid = Table { rows: before.rows.remove(id) };
                let reply = ApiResponseView::no_content();
                lemma_execute_then(write, awaited, before, count, mid, 0, reply, mid);
                (1, reply, mid)
            } else {
                let count = Ok::<int, StorageErrorView>(0);
                let reply = ApiResponseView::not_found(id);
                lemma_execute_then(write, awaited, before, count, before, 0, reply, before);
                (1, reply, before)
            }
        },
        _ => {
            assert(false);
            (0, ApiResponseView::no_content(), before)
        },
    }
}

/// Every step that a handler takes names a statement of the kind that the
/// step runs.
pub proof fn law_steps_suit_their_statements(
    awaited_row: AwaitedRowView,
    row: Result<QuoteModelView, StorageErrorView>,
    awaited_count: AwaitedCountView,
    count: Result<int, StorageErrorView>,
    first: StepView,
)
    requires
        first.starts_request(),
    ensures
        first.suits_its_statement(),
        awaited_row.arrived(row).suits_its_statement(),
        awaited_count.arrived(count).suits_its_statement(),
{
}

/// A request takes at least one exchange with the table and at most three.
pub proof fn law_requests_are_short(
    first: StepView,
    before: Table,
    n: nat,
    reply: ApiResponseView,
    after: Table,
)
    requires
        first.starts_request(),
        ends(first, before, n, reply, after),
    ensures
        1 <= n <= 3,
{
    match first {
        StepView::Fetch(statement, awaited) => {
            let row = lemma_after_fetch(statement, awaited, before, n, reply, after);
            match awaited.arrived(row) {
                StepView::Execute(write, awaited_count) => {
                    let (count, mid) = lemma_after_execute(
                        write,
                        awaited_count,
                        before,
                        (n - 1) as nat,
                        reply,
                        after,
                    );
                    match awaited_count.arrived(count) {
                        StepView::Fetch(read, awaited_again) => {
                            let again = lemma_after_fetch(
                                read,
                                awaited_again,
                                mid,
                                (n - 2) as nat,
                                reply,
                                after,
                            );
                        },
                        _ => {},
                    }
                },
                _ => {},
            }
        },
        StepView::Execute(statement, awaited) => {
            let (count, mid) = lemma_after_execute(statement, awaited, before, n, reply, after);
            match awaited.arrived(count) {
                StepView::Fetch(read, awaited_row) => {
                    let row = lemma_after_fetch(
                        read,
                        awaited_row,
                        mid,
                        (n - 1) as nat,
                        reply,
                        after,
                    );
                },
                _ => {},
            }
        },
        StepView::Reply(_) => {},
    }
}

/// The message of a 404 names the id: its decimal form stands in the text.
pub proof fn law_not_found_names_the_id(id: int)
    ensures
        has_substring(not_found_text(id), decimal(id)),
{
    let at = "Quote with ID: "@.len() as int;
    assert(not_found_text(id).subrange(at, at + decimal(id).len()) =~= decimal(id));
    assert(occurs_at(not_found_text(id), decimal(id), at));
}

/// Writing texts that no other row has under an id keeps the table as
/// storage keeps it.
proof fn lemma_write_keeps_valid(before: Table, id: int, texts: PartialContent, after: Table)
    requires
        before.wf(),
        i32::MIN <= id <= i32::MAX,
        !before.holds_elsewhere(texts, id),
        after.rows == before.rows.insert(id, texts),
    ensures
        after.wf(),
        before.is_complete() && texts.is_complete() ==> after.is_complete(),
{
    assert forall|other: int| after.has(other) implies i32::MIN <= other <= i32::MAX by {
        assert(other == id || before.has(other));
    }
    assert forall|a: int, b: int|
        after.has(a) && after.has(b) && #[trigger] after.rows[a] == #[trigger] after.rows[b]
        implies a == b by {
        assert(a == id || before.has(a));
        assert(b == id || before.has(b));
        if a != b {
            if a == id {
                assert(before.has(b) && before.rows[b] == texts);
            } else if b == id {
                assert(before.has(a) && before.rows[a] == texts);
            } else {
                assert(before.rows[a] == before.rows[b]);
            }
        }
    }
    if before.is_complete() && texts.is_complete() {
        assert forall|other: int| after.has(other) implies (#[trigger] after.rows[other]).is_complete() by {
            if other != id {
                assert(before.has(other));
                assert(before.rows[other].is_complete());
            }
        }
    }
}

/// Taking a row away keeps the table as storage keeps it.
proof fn lemma_remove_keeps_valid(before: Table, id: int, after: Table)
    requires
        before.wf(),
        after.rows == before.rows.remove(id),
    ensures
        after.wf(),
        before.is_complete() ==> after.is_complete(),
{
    assert forall|other: int| after.has(other) implies i32::MIN <= other <= i32::MAX by {
        assert(before.has(other));
    }
    assert forall|a: int, b: int|
        after.has(a) && after.has(b) && #[trigger] after.rows[a] == #[trigger] after.rows[b]
        implies a == b by {
        assert(before.has(a) && before.has(b));
        assert(before.rows[a] == before.rows[b]);
    }
    if before.is_complete() {
        assert forall|other: int| after.has(other) implies (#[trigger] after.rows[other]).is_complete() by {
            assert(before.has(other));
            assert(before.rows[other].is_complete());
        }
    }
}

/// Whatever a request does, the table stays as storage keeps it, and where
/// no row had an absent text before, none has one after: the statements
/// that write carry all four texts.
pub proof fn law_table_stays_valid(
    step: StepView,
    before: Table,
    n: nat,
    reply: ApiResponseView,
    after: Table,
)
    requires
        before.wf(),
        ends(step, before, n, reply, after),
    ensures
        after.wf(),
        before.is_complete() ==> after.is_complete(),
    decreases n,
{
    match step {
        StepView::Reply(_) => {},
        StepView::Fetch(statement, awaited) => {
            let row = lemma_after_fetch(statement, awaited, before, n, reply, after);
            law_table_stays_valid(awaited.arrived(row), before, (n - 1) as nat, reply, after);
        },
        StepView::Execute(statement, awaited) => {
            let (count, mid) = lemma_after_execute(statement, awaited, before, n, reply, after);
            match statement {
                StatementView::Insert { content } => {
                    if !before.holds(content.as_partial()) {
                        let id = choose|id: int|
                            before.is_fresh(id) && #[trigger] before.rows.insert(
                                id,
                                content.as_partial(),
                            ) == mid.rows;
                        lemma_write_keeps_valid(before, id, content.as_partial(), mid);
                    }
                },
                StatementView::Update { id, content } => {
                    if before.has(id) && !before.holds_elsewhere(content.as_partial(), id) {
                        lemma_write_keeps_valid(before, id, content.as_partial(), mid);
                    }
                },
                StatementView::Delete { id } => {
                    if before.has(id) {
                        lemma_remove_keeps_valid(before, id, mid);
                    }
                },
                _ => {},
            }
            law_table_stays_valid(awaited.arrived(count), mid, (n - 1) as nat, reply, after);
        },
    }
}

/// A random read on an empty table is answered with 500, and a random read
/// never changes the table.
pub proof fn law_random_read(before: Table, n: nat, reply: ApiResponseView, after: Table)
    requires
        ends(StepView::random(), before, n, reply, after),
    ensures
        after == before,
        n == 1,
        reply.code == 200 || reply.code == 500,
        before.is_empty() ==> reply.code == 500 && reply.body is Error,
        before.is_complete() && reply.code == 200 ==> exists|id: int|
            #![trigger before.row(id)]
            before.has(id) && shown(Ok(before.row(id))) == reply,
{
    let row = lemma_after_fetch(
        StatementView::SelectRandom,
        AwaitedRowView::Answer,
        before,
        n,
        reply,
        after,
    );
    match row {
        Ok(q) => {
            assert(before.has(q.id));
            assert(q == before.row(q.id));
        },
        Err(e) => {},
    }
}

/// A quote whose four texts no row has is created under a fresh id and
/// shown with that id, which is not empty, and with the texts of the
/// request. Afterwards any read that finds the row with this id shows the
/// same record.
pub proof fn law_create_then_read(
    before: Table,
    body: Content,
    n: nat,
    reply: ApiResponseView,
    after: Table,
) -> (id: int)
    requires
        before.wf(),
        !before.holds(body.as_partial()),
        ends(StepView::create(body), before, n, reply, after),
    ensures
        n == 2,
        !before.has(id),
        after.rows == before.rows.insert(id, body.as_partial()),
        reply == ApiResponseView::quote(QuoteModelResponseView { id: decimal(id), content: body }),
        decimal(id).len() > 0,
        forall|statement: StatementView, row: Result<QuoteModelView, StorageErrorView>|
            #![trigger after.fetches(statement, row)]
            after.fetches(statement, row) && row is Ok && row->Ok_0.id == id ==> shown(row)
                == reply,
{
    let (count, mid) = lemma_after_execute(
        StatementView::Insert { content: body },
        AwaitedCountView::Insert,
        before,
        n,
        reply,
        after,
    );
    let id = choose|id: int|
        before.is_fresh(id) && #[trigger] before.rows.insert(id, body.as_partial()) == mid.rows;
    assert(mid.has(id));
    let row = lemma_after_fetch(
        StatementView::SelectLatest,
        AwaitedRowView::Answer,
        mid,
        (n - 1) as nat,
        reply,
        after,
    );
    assert(row->Ok_0.id == id) by {
        assert(mid.has(row->Ok_0.id));
        assert(before.has(row->Ok_0.id) || row->Ok_0.id == id);
    }
    assert(body.as_partial().complete() == body);
    lemma_decimal_nonempty(id);
    id
}

/// Creating a quote whose four texts a row has already is answered with
/// 400 and changes nothing.
pub proof fn law_create_of_known_quote(
    before: Table,
    body: Content,
    n: nat,
    reply: ApiResponseView,
    after: Table,
)
    requires
        before.holds(body.as_partial()),
        ends(StepView::create(body), before, n, reply, after),
    ensures
        n == 1,
        reply == ApiResponseView::conflict(),
        after == before,
{
    let (count, mid) = lemma_after_execute(
        StatementView::Insert { content: body },
        AwaitedCountView::Insert,
        before,
        n,
        reply,
        after,
    );
}

/// Creating the same quote twice: the second request is answered with 400,
/// and the table has as many rows after it as before it.
pub proof fn law_second_create_is_rejected(
    before: Table,
    body: Content,
    n1: nat,
    reply1: ApiResponseView,
    between: Table,
    n2: nat,
    reply2: ApiResponseView,
    after: Table,
)
    requires
        before.wf(),
        ends(StepView::create(body), before, n1, reply1, between),
        ends(StepView::create(body), between, n2, reply2, after),
    ensures
        reply2 == ApiResponseView::conflict(),
        after == between,
        after.rows.dom().len() == between.rows.dom().len(),
{
    if before.holds(body.as_partial()) {
        law_create_of_known_quote(before, body, n1, reply1, between);
    } else {
        let id = law_create_then_read(before, body, n1, reply1, between);
        assert(between.has(id) && between.rows[id] == body.as_partial());
    }
    law_create_of_known_quote(between, body, n2, reply2, after);
}

/// Updating an id that no row has is answered with 404, in a message that
/// names the id, and changes nothing.
pub proof fn law_update_of_unknown_id(
    before: Table,
    id: int,
    body: PartialContent,
    n: nat,
    reply: ApiResponseView,
    after: Table,
)
    requires
        !before.has(id),
        ends(StepView::update(id, body), before, n, reply, after),
    ensures
        n == 1,
        reply == ApiResponseView::not_found(id),
        reply.body == EnvelopeView::Fail(not_found_text(id)),
        has_substring(not_found_text(id), decimal(id)),
        after == before,
{
    let row = lemma_after_fetch(
        StatementView::SelectById { id },
        AwaitedRowView::Current { id, body },
        before,
        n,
        reply,
        after,
    );
    law_not_found_names_the_id(id);
}

/// An update leaves every row but the one with its id as it was, however
/// it ends.
pub proof fn law_update_touches_one_row(
    before: Table,
    id: int,
    body: PartialContent,
    n: nat,
    reply: ApiResponseView,
    after: Table,
)
    requires
        ends(StepView::update(id, body), before, n, reply, after),
    ensures
        after.has(id) == before.has(id),
        forall|other: int|
            other != id ==> after.has(other) == before.has(other) && #[trigger] after.rows[other]
                == before.rows[other],
{
    let row = lemma_after_fetch(
        StatementView::SelectById { id },
        AwaitedRowView::Current { id, body },
        before,
        n,
        reply,
        after,
    );
    if let Ok(current) = row {
        if let Ok(statement) = merged(id, body, current) {
            let (count, mid) = lemma_after_execute(
                statement,
                AwaitedCountView::Update { id },
                before,
                (n - 1) as nat,
                reply,
                after,
            );
            if count is Ok && count->Ok_0 != 0 {
                let again = lemma_after_fetch(
                    StatementView::SelectById { id },
                    AwaitedRowView::Answer,
                    mid,
                    (n - 2) as nat,
                    reply,
                    after,
                );
            }
        }
    }
}

/// A partial update: the row gets the texts of the request where the
/// request has them and keeps its own where not, and is shown so. This
/// holds where the texts that result are all present and no other row has
/// the same four.
pub proof fn law_partial_update(
    before: Table,
    id: int,
    body: PartialContent,
    n: nat,
    reply: ApiResponseView,
    after: Table,
)
    requires
        before.has(id),
        body.or(before.rows[id]).is_complete(),
        !before.holds_elsewhere(body.or(before.rows[id]), id),
        ends(StepView::update(id, body), before, n, reply, after),
    ensures
        n == 3,
        after.rows == before.rows.insert(id, body.or(before.rows[id])),
        reply == ApiResponseView::quote(
            QuoteModelResponseView {
                id: decimal(id),
                content: body.or(before.rows[id]).complete(),
            },
        ),
{
    let texts = body.or(before.rows[id]);
    let row = lemma_after_fetch(
        StatementView::SelectById { id },
        AwaitedRowView::Current { id, body },
        before,
        n,
        reply,
        after,
    );
    assert(row == Ok::<QuoteModelView, StorageErrorView>(before.row(id)));
    let statement = StatementView::Update { id, content: texts.complete() };
    assert(texts.complete().as_partial() == texts);
    let (count, mid) = lemma_after_execute(
        statement,
        AwaitedCountView::Update { id },
        before,
        (n - 1) as nat,
        reply,
        after,
    );
    assert(mid.has(id));
    let again = lemma_after_fetch(
        StatementView::SelectById { id },
        AwaitedRowView::Answer,
        mid,
        (n - 2) as nat,
        reply,
        after,
    );
}

/// Deleting an id that no row has is answered with 404 and changes nothing.
pub proof fn law_delete_of_unknown_id(
    before: Table,
    id: int,
    n: nat,
    reply: ApiResponseView,
    after: Table,
)
    requires
        !before.has(id),
        ends(StepView::delete(id), before, n, reply, after),
    ensures
        n == 1,
        reply == ApiResponseView::not_found(id),
        after == before,
{
    let (count, mid) = lemma_after_execute(
        StatementView::Delete { id },
        AwaitedCountView::Delete { id },
        before,
        n,
        reply,
        after,
    );
}

/// Deleting a row is answered with 204 and takes that row, and no other,
/// out of the table; a read of its id then finds nothing.
pub proof fn law_delete_removes_the_row(
    before: Table,
    id: int,
    n: nat,
    reply: ApiResponseView,
    after: Table,
)
    requires
        before.has(id),
        ends(StepView::delete(id), before, n, reply, after),
    ensures
        n == 1,
        reply == ApiResponseView::no_content(),
        after.rows == before.rows.remove(id),
        !after.has(id),
        forall|row: Result<QuoteModelView, StorageErrorView>|
            #![trigger after.fetches(StatementView::SelectById { id }, row)]
            after.fetches(StatementView::SelectById { id }, row) ==> row is Err
                && row->Err_0.row_not_found,
{
    let (count, mid) = lemma_after_execute(
        StatementView::Delete { id },
        AwaitedCountView::Delete { id },
        before,
        n,
        reply,
        after,
    );
}

/// After a row was deleted, a request for its id is answered with 404, be
/// it a second delete or an update.
pub proof fn law_deleted_id_is_unknown(
    before: Table,
    id: int,
    n1: nat,
    reply1: ApiResponseView,
    between: Table,
    body: PartialContent,
    n2: nat,
    reply2: ApiResponseView,
    after: Table,
)
    requires
        before.has(id),
        ends(StepView::delete(id), before, n1, reply1, between),
        ends(StepView::delete(id), between, n2, reply2, after) || ends(
            StepView::update(id, body),
            between,
            n2,
            reply2,
            after,
        ),
    ensures
        reply1 == ApiResponseView::no_content(),
        reply2 == ApiResponseView::not_found(id),
        after == between,
{
    law_delete_removes_the_row(before, id, n1, reply1, between);
    if ends(StepView::delete(id), between, n2, reply2, after) {
        law_delete_of_unknown_id(between, id, n2, reply2, after);
    } else {
        law_update_of_unknown_id(between, id, body, n2, reply2, after);
    }
}

} // verus!
