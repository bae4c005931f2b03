//! The handlers. Each one is a small machine: it names the statement that
//! storage is to run next, takes what storage answered, and goes on until it
//! has the answer for the client. Running the statements is the caller's
//! part; every decision is taken here.

use crate::model::{
    text_of, PartialContent, QuoteField, QuoteModel, QuoteModelResponse, QuoteModelResponseView,
    QuoteModelView,
};
use crate::response::{write_failure_text, ApiResponse, ApiResponseView};
use crate::schema::{CreateQuoteSchema, UpdateQuoteSchema};
use crate::storage::{
    count_view, row_view, Statement, StatementView, StorageError, StorageErrorView,
};
use crate::text::{contains_text, debug_form, debug_string, decimal, decimal_string, has_substring};
use vstd::prelude::*;

verus! {

/// A row that cannot be shown to a client: one of its texts is absent.
#[derive(Debug, Clone, PartialEq, Eq)]
pub struct DataIntegrityError {
    /// The id of the row.
    pub id: i32,
    /// The first text, in column order, that is absent.
    pub field: QuoteField,
}

/// What a handler waits for after a statement that returns a row.
#[derive(Debug, Clone, PartialEq, Eq)]
pub enum AwaitedRow {
    /// The row that is the answer to the client.
    Answer,
    /// The row that an update request is about.
    Current { id: i32, body: UpdateQuoteSchema },
}

/// What a handler waits for after a statement that changes rows.
#[derive(Debug, Clone, PartialEq, Eq)]
pub enum AwaitedCount {
    /// The outcome of the insert of a create request.
    Insert,
    /// The outcome of the update of the row with this id.
    Update { id: i32 },
    /// The outcome of the removal of the row with this id.
    Delete { id: i32 },
}

/// What a handler does next.
#[derive(Debug, Clone, PartialEq, Eq)]
pub enum Step {
    /// Storage is to run the statement, which returns a row; the handler
    /// goes on from the outcome with `AwaitedRow::arrived`.
    Fetch(Statement, AwaitedRow),
    /// Storage is to run the statement, which changes rows; the handler goes
    /// on from the outcome with `AwaitedCount::arrived`.
    Execute(Statement, AwaitedCount),
    /// The request is done: this is the answer.
    Reply(ApiResponse),
}

/// What a data integrity error means.
pub ghost struct DataIntegrityErrorView {
    pub id: int,
    pub field: QuoteField,
}

/// What an awaited row means.
pub ghost enum AwaitedRowView {
    Answer,
    Current { id: int, body: PartialContent },
}

/// What an awaited count means.
pub ghost enum AwaitedCountView {
    Insert,
    Update { id: int },
    Delete { id: int },
}

/// What a step means.
pub ghost enum StepView {
    Fetch(StatementView, AwaitedRowView),
    Execute(StatementView, AwaitedCountView),
    Reply(ApiResponseView),
}

impl View for DataIntegrityError {
    type V = DataIntegrityErrorView;

    open spec fn view(&self) -> DataIntegrityErrorView {
        DataIntegrityErrorView { id: self.id as int, field: self.field }
    }
}

impl View for AwaitedRow {
    type V = AwaitedRowView;

    open spec fn view(&self) -> AwaitedRowView {
        match self {
            AwaitedRow::Answer => AwaitedRowView::Answer,
            AwaitedRow::Current { id, body } => AwaitedRowView::Current {
                id: *id as int,
                body: body@,
            },
        }
    }
}

impl View for AwaitedCount {
    type V = AwaitedCountView;

    open spec fn view(&self) -> AwaitedCountView {
        match self {
            AwaitedCount::Insert => AwaitedCountView::Insert,
            AwaitedCount::Update { id } => AwaitedCountView::Update { id: *id as int },
            AwaitedCount::Delete { id } => AwaitedCountView::Delete { id: *id as int },
        }
    }
}

impl View for Step {
    type V = StepView;

    open spec fn view(&self) -> StepView {
        match self {
            Step::Fetch(statement, awaited) => StepView::Fetch(statement@, awaited@),
            Step::Execute(statement, awaited) => StepView::Execute(statement@, awaited@),
            Step::Reply(response) => StepView::Reply(response@),
        }
    }
}

/// The name of a text column.
pub open spec fn field_name(field: QuoteField) -> Seq<char> {
    match field {
        QuoteField::Quote => "quote"@,
        QuoteField::Category => "category"@,
        QuoteField::Anime => "anime"@,
        QuoteField::Character => "character"@,
    }
}

impl DataIntegrityErrorView {
    /// The error in words: the id of the row and the name of the column.
    pub open spec fn message(self) -> Seq<char> {
        "Quote with ID: "@ + decimal(self.id) + " has no "@ + field_name(self.field)
    }
}

/// The wire record of a row: the id in decimal and the four texts. A row
/// with an absent text has none; the error names the first such text.
pub open spec fn wire_form(q: QuoteModelView) -> Result<
    QuoteModelResponseView,
    DataIntegrityErrorView,
> {
    match q.content.first_missing() {
        Some(field) => Err(DataIntegrityErrorView { id: q.id, field }),
        None => Ok(QuoteModelResponseView { id: decimal(q.id), content: q.content.complete() }),
    }
}

/// The answer that shows a fetched row: 200 with its wire record; 500 where
/// the row has an absent text or storage failed, a missing row included.
pub open spec fn shown(row: Result<QuoteModelView, StorageErrorView>) -> ApiResponseView {
    match row {
        Ok(q) => match wire_form(q) {
            Ok(wire) => ApiResponseView::quote(wire),
            Err(e) => ApiResponseView::internal_error(e.message()),
        },
        Err(e) => ApiResponseView::internal_error(e.debug),
    }
}

/// The statement that writes an update: each text of the request where it
/// is present, and the stored text where not, for the row `id` alone. Where
/// neither has a text there is no statement; the error names the first such
/// text.
pub open spec fn merged(id: int, body: PartialContent, current: QuoteModelView) -> Result<
    StatementView,
    DataIntegrityErrorView,
> {
    let texts = body.or(current.content);
    match texts.first_missing() {
        Some(field) => Err(DataIntegrityErrorView { id, field }),
        None => Ok(StatementView::Update { id, content: texts.complete() }),
    }
}

/// The answer to a create request whose insert failed, from the failure in
/// words and the same words in quoted form: 400 where storage complains of
/// a duplicate entry, else 500 with the quoted words.
pub open spec fn insert_failure(display: Seq<char>, quoted: Seq<char>) -> ApiResponseView {
    if has_substring(display, "Duplicate entry"@) {
        ApiResponseView::conflict()
    } else {
        ApiResponseView::internal_error(quoted)
    }
}

impl AwaitedRowView {
    /// The step after the row, or the failure to get one, has arrived.
    pub open spec fn arrived(self, row: Result<QuoteModelView, StorageErrorView>) -> StepView {
        match self {
            AwaitedRowView::Answer => StepView::Reply(shown(row)),
            AwaitedRowView::Current { id, body } => match row {
                Ok(current) => match merged(id, body, current) {
                    Ok(statement) => StepView::Execute(
                        statement,
                        AwaitedCountView::Update { id },
                    ),
                    Err(e) => StepView::Reply(ApiResponseView::internal_error(e.message())),
                },
                Err(e) => if e.row_not_found {
                    StepView::Reply(ApiResponseView::not_found(id))
                } else {
                    StepView::Reply(ApiResponseView::internal_error(e.debug))
                },
            },
        }
    }
}

impl AwaitedCountView {
    /// The step after the number of changed rows, or the failure to change
    /// any, has arrived.
    pub open spec fn arrived(self, count: Result<int, StorageErrorView>) -> StepView {
        match self {
            AwaitedCountView::Insert => match count {
                Ok(_) => StepView::Fetch(StatementView::SelectLatest, AwaitedRowView::Answer),
                Err(e) => StepView::Reply(insert_failure(e.display, debug_form(e.display))),
            },
            AwaitedCountView::Update { id } => match count {
                Ok(n) => if n == 0 {
                    StepView::Reply(ApiResponseView::not_found(id))
                } else {
                    StepView::Fetch(StatementView::SelectById { id }, AwaitedRowView::Answer)
                },
                Err(e) => StepView::Reply(
                    ApiResponseView::internal_error(write_failure_text(e.display)),
                ),
            },
            AwaitedCountView::Delete { id } => match count {
                Ok(n) => if n == 0 {
                    StepView::Reply(ApiResponseView::not_found(id))
                } else {
                    StepView::Reply(ApiResponseView::no_content())
                },
                Err(e) => StepView::Reply(
                    ApiResponseView::internal_error(write_failure_text(e.display)),
                ),
            },
        }
    }
}

impl StepView {
    /// The first step of a random read.
    pub open spec fn random() -> StepView {
        StepView::Fetch(StatementView::SelectRandom, AwaitedRowView::Answer)
    }

    /// The first step of a create request.
    pub open spec fn create(body: crate::model::Content) -> StepView {
        StepView::Execute(StatementView::Insert { content: body }, AwaitedCountView::Insert)
    }

    /// The first step of an update request.
    pub open spec fn update(id: int, body: PartialContent) -> StepView {
        StepView::Fetch(StatementView::SelectById { id }, AwaitedRowView::Current { id, body })
    }

    /// The first step of a delete request.
    pub open spec fn delete(id: int) -> StepView {
        StepView::Execute(StatementView::Delete { id }, AwaitedCountView::Delete { id })
    }

    /// The step is the first of some request.
    pub open spec fn starts_request(self) -> bool {
        match self {
            StepView::Fetch(StatementView::SelectRandom, AwaitedRowView::Answer) => true,
            StepView::Execute(StatementView::Insert { .. }, AwaitedCountView::Insert) => true,
            StepView::Fetch(
                StatementView::SelectById { id },
                AwaitedRowView::Current { id: awaited, .. },
            ) => id == awaited,
            StepView::Execute(
                StatementView::Delete { id },
                AwaitedCountView::Delete { id: awaited },
            ) => id == awaited,
            _ => false,
        }
    }

    /// The statement of the step is of the kind that the step runs: one
    /// that returns a row where a row is awaited, one that changes rows
    /// where a count is.
    pub open spec fn suits_its_statement(self) -> bool {
        match self {
            StepView::Fetch(statement, _) => statement.returns_row(),
            StepView::Execute(statement, _) => !statement.returns_row(),
            StepView::Reply(_) => true,
        }
    }
}

impl DataIntegrityError {
    /// The error in words: the id of the row and the name of the column.
    pub fn message(&self) -> (text: String)
        ensures
            text@ == self@.message(),
    {
        let mut text = String::from_str("Quote with ID: ");
        let number = decimal_string(self.id);
        text.append(number.as_str());
        text.append(" has no ");
        match self.field {
            QuoteField::Quote => text.append("quote"),
            QuoteField::Category => text.append("category"),
            QuoteField::Anime => text.append("anime"),
            QuoteField::Character => text.append("character"),
        }
        text
    }
}

/// Turns a row into the record that is sent to clients: the id in decimal
/// and the four texts. A row with an absent text is not converted; the
/// error names the first such text.
pub fn convert_db_record(q: &QuoteModel) -> (r: Result<QuoteModelResponse, DataIntegrityError>)
    ensures
        match r {
            Ok(wire) => wire_form(q@) == Ok::<QuoteModelResponseView, DataIntegrityErrorView>(wire@),
            Err(e) => wire_form(q@) == Err::<QuoteModelResponseView, DataIntegrityErrorView>(e@),
        },
{
    let quote = match &q.quote {
        Some(text) => text.clone(),
        None => {
            return Err(DataIntegrityError { id: q.id, field: QuoteField::Quote });
        },
    };
    let category = match &q.category {
        Some(text) => text.clone(),
        None => {
            return Err(DataIntegrityError { id: q.id, field: QuoteField::Category });
        },
    };
    let anime = match &q.anime {
        Some(text) => text.clone(),
        None => {
            return Err(DataIntegrityError { id: q.id, field: QuoteField::Anime });
        },
    };
    let character = match &q.character {
        Some(text) => text.clone(),
        None => {
            return Err(DataIntegrityError { id: q.id, field: QuoteField::Character });
        },
    };
    Ok(QuoteModelResponse { id: decimal_string(q.id), quote, category, anime, character })
}

/// The answer that shows a fetched row: 200 with its wire record; 500 where
/// the row has an absent text or storage failed, a missing row included.
pub fn show_row(row: Result<QuoteModel, StorageError>) -> (r: ApiResponse)
    ensures
        r@ == shown(row_view(row)),
{
    match row {
        Ok(q) => match convert_db_record(&q) {
            Ok(wire) => ApiResponse::quote(wire),
            Err(e) => ApiResponse::internal_error(e.message()),
        },
        Err(e) => ApiResponse::internal_error(e.debug),
    }
}

fn pick(request: &Option<String>, stored: &Option<String>) -> (r: Option<String>)
    ensures
        text_of(r) == if request is Some {
            text_of(*request)
        } else {
            text_of(*stored)
        },
{
    match request {
        Some(text) => Some(text.clone()),
        None => match stored {
            Some(text) => Some(text.clone()),
            None => None,
        },
    }
}

/// Builds the statement that writes an update: each text of the request
/// where it is present, and the stored text where not, for the row `id`
/// alone. Where neither has a text there is no statement; the error names
/// the first such text.
pub fn merge_update(id: i32, body: &UpdateQuoteSchema, current: &QuoteModel) -> (r: Result<
    Statement,
    DataIntegrityError,
>)
    ensures
        match r {
            Ok(statement) => merged(id as int, body@, current@) == Ok::<
                StatementView,
                DataIntegrityErrorView,
            >(statement@),
            Err(e) => merged(id as int, body@, current@) == Err::<
                StatementView,
                DataIntegrityErrorView,
            >(e@),
        },
{
    let quote = match pick(&body.quote, &current.quote) {
        Some(text) => text,
        None => {
            return Err(DataIntegrityError { id, field: QuoteField::Quote });
        },
    };
    let category = match pick(&body.category, &current.category) {
        Some(text) => text,
        None => {
            return Err(DataIntegrityError { id, field: QuoteField::Category });
        },
    };
    let anime = match pick(&body.anime, &current.anime) {
        Some(text) => text,
        None => {
            return Err(DataIntegrityError { id, field: QuoteField::Anime });
        },
    };
    let character = match pick(&body.character, &current.character) {
        Some(text) => text,
        None => {
            return Err(DataIntegrityError { id, field: QuoteField::Character });
        },
    };
    Ok(Statement::Update { id, quote, category, anime, character })
}

/// The answer to a create request whose insert failed, from the failure in
/// words and the same words in quoted form: 400 where storage complains of
/// a duplicate entry, else 500 with the quoted words.
pub fn insert_failure_reply(display: &str, quoted: String) -> (r: ApiResponse)
    ensures
        r@ == insert_failure(display@, quoted@),
{
    if contains_text(display, "Duplicate entry") {
        ApiResponse::conflict()
    } else {
        ApiResponse::internal_error(quoted)
    }
}

impl AwaitedRow {
    /// Goes on after the row, or the failure to get one, has arrived.
    pub fn arrived(self, row: Result<QuoteModel, StorageError>) -> (step: Step)
        ensures
            step@ == self@.arrived(row_view(row)),
    {
        match self {
            AwaitedRow::Answer => Step::Reply(show_row(row)),
            AwaitedRow::Current { id, body } => match row {
                Ok(current) => match merge_update(id, &body, &current) {
                    Ok(statement) => Step::Execute(statement, AwaitedCount::Update { id }),
                    Err(e) => Step::Reply(ApiResponse::internal_error(e.message())),
                },
                Err(e) => if e.row_not_found {
                    Step::Reply(ApiResponse::not_found(id))
                } else {
                    Step::Reply(ApiResponse::internal_error(e.debug))
                },
            },
        }
    }
}

impl AwaitedCount {
    /// Goes on after the number of changed rows, or the failure to change
    /// any, has arrived.
    pub fn arrived(self, count: Result<u64, StorageError>) -> (step: Step)
        ensures
            step@ == self@.arrived(count_view(count)),
    {
        match self {
            AwaitedCount::Insert => match count {
                Ok(_) => Step::Fetch(Statement::SelectLatest, AwaitedRow::Answer),
                Err(e) => {
                    let quoted = debug_string(e.display.as_str());
                    Step::Reply(insert_failure_reply(e.display.as_str(), quoted))
                },
            },
            AwaitedCount::Update { id } => match count {
                Ok(n) => if n == 0 {
                    Step::Reply(ApiResponse::not_found(id))
                } else {
                    Step::Fetch(Statement::SelectById { id }, AwaitedRow::Answer)
                },
                Err(e) => Step::Reply(ApiResponse::write_failure(e.display.as_str())),
            },
            AwaitedCount::Delete { id } => match count {
                Ok(n) => if n == 0 {
                    Step::Reply(ApiResponse::not_found(id))
                } else {
                    Step::Reply(ApiResponse::no_content())
                },
                Err(e) => Step::Reply(ApiResponse::write_failure(e.display.as_str())),
            },
        }
    }
}

/// Reports that the service is up.
pub fn healthcheck_handler() -> (r: ApiResponse)
    ensures
        r@ == ApiResponseView::text("This is the runime API reporting back in full health!"@),
{
    ApiResponse::text(String::from_str("This is the runime API reporting back in full health!"))
}

/// Starts a random read: one row is fetched by chance and shown.
pub fn random_quote_handler() -> (step: Step)
    ensures
        step@ == StepView::random(),
{
    Step::Fetch(Statement::SelectRandom, AwaitedRow::Answer)
}

/// Starts a create request: the four texts are inserted as a new row, then
/// the newest row is fetched and shown.
pub fn create_quote_handler(body: &CreateQuoteSchema) -> (step: Step)
    ensures
        step@ == StepView::create(body@),
{
    Step::Execute(
        Statement::Insert {
            quote: body.quote.clone(),
            category: body.category.clone(),
            anime: body.anime.clone(),
            character: body.character.clone(),
        },
        AwaitedCount::Insert,
    )
}

/// Starts an update request: the row is fetched, the request's texts are
/// merged over it and written back to that row, and the row is fetched
/// again and shown.
pub fn update_quote_handler(id: i32, body: UpdateQuoteSchema) -> (step: Step)
    ensures
        step@ == StepView::update(id as int, body@),
{
    Step::Fetch(Statement::SelectById { id }, AwaitedRow::Current { id, body })
}

/// Starts a delete request: the row is removed.
pub fn delete_quote_handler(id: i32) -> (step: Step)
    ensures
        step@ == StepView::delete(id as int),
{
    Step::Execute(Statement::Delete { id }, AwaitedCount::Delete { id })
}

} // verus!
