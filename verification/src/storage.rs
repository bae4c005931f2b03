//! The statements the handlers send to storage, and what comes back.

use crate::model::{Content, QuoteModel, QuoteModelView};
use vstd::prelude::*;

verus! {

/// `sqlx::Error`, the failure of a statement. Nothing is known of what a
/// value holds; it is only handed to the functions that read it.
#[verifier::external_type_specification]
#[verifier::external_body]
pub struct ExSqlxError(sqlx::Error);

/// `sqlx::mysql::MySqlQueryResult`, what the server reports of a statement
/// that changes rows. Nothing is known of what a value holds.
#[verifier::external_type_specification]
#[verifier::external_body]
pub struct ExMySqlQueryResult(sqlx::mysql::MySqlQueryResult);

/// What the handlers read of a failure of the storage layer.
#[derive(Debug, Clone, PartialEq, Eq)]
pub struct StorageError {
    /// The statement was to return a row and there was none.
    pub row_not_found: bool,
    /// The failure in the storage layer's words for users.
    pub display: String,
    /// The failure in the storage layer's words for developers.
    pub debug: String,
}

/// A statement for the table of quotes.
#[derive(Debug, Clone, PartialEq, Eq)]
pub enum Statement {
    /// One row picked by chance, if any passes the draw.
    SelectRandom,
    /// The row with the highest id.
    SelectLatest,
    /// The row with this id.
    SelectById { id: i32 },
    /// A new row with these texts; storage assigns the id.
    Insert { quote: String, category: String, anime: String, character: String },
    /// New texts for the row with this id, and for no other.
    Update { id: i32, quote: String, category: String, anime: String, character: String },
    /// Removes the row with this id.
    Delete { id: i32 },
}

/// A value for a placeholder of a statement.
#[derive(Debug, Clone, PartialEq, Eq)]
pub enum Bind {
    Text(String),
    Id(i32),
}

/// What a storage failure means.
pub ghost struct StorageErrorView {
    pub row_not_found: bool,
    pub display: Seq<char>,
    pub debug: Seq<char>,
}

/// What a statement means.
pub ghost enum StatementView {
    SelectRandom,
    SelectLatest,
    SelectById { id: int },
    Insert { content: Content },
    Update { id: int, content: Content },
    Delete { id: int },
}

/// What a bound value means.
pub ghost enum BindView {
    Text(Seq<char>),
    Id(int),
}

impl View for StorageError {
    type V = StorageErrorView;

    open spec fn view(&self) -> StorageErrorView {
        StorageErrorView {
            row_not_found: self.row_not_found,
            display: self.display@,
            debug: self.debug@,
        }
    }
}

impl View for Statement {
    type V = StatementView;

    open spec fn view(&self) -> StatementView {
        match self {
            Statement::SelectRandom => StatementView::SelectRandom,
            Statement::SelectLatest => StatementView::SelectLatest,
            Statement::SelectById { id } => StatementView::SelectById { id: *id as int },
            Statement::Insert { quote, category, anime, character } => StatementView::Insert {
                content: Content {
                    quote: quote@,
                    category: category@,
                    anime: anime@,
                    character: character@,
                },
            },
            Statement::Update { id, quote, category, anime, character } => StatementView::Update {
                id: *id as int,
                content: Content {
                    quote: quote@,
                    category: category@,
                    anime: anime@,
                    character: character@,
                },
            },
            Statement::Delete { id } => StatementView::Delete { id: *id as int },
        }
    }
}

impl View for Bind {
    type V = BindView;

    open spec fn view(&self) -> BindView {
        match self {
            Bind::Text(t) => BindView::Text(t@),
            Bind::Id(id) => BindView::Id(*id as int),
        }
    }
}

/// What the answer to a statement that returns a row means.
pub open spec fn row_view(r: Result<QuoteModel, StorageError>) -> Result<
    QuoteModelView,
    StorageErrorView,
> {
    match r {
        Ok(q) => Ok(q@),
        Err(e) => Err(e@),
    }
}

/// What the answer to a statement that changes rows means.
pub open spec fn count_view(r: Result<u64, StorageError>) -> Result<int, StorageErrorView> {
    match r {
        Ok(n) => Ok(n as int),
        Err(e) => Err(e@),
    }
}

/// The four texts as placeholder values, in column order.
pub open spec fn content_binds(c: Content) -> Seq<BindView> {
    seq![
        BindView::Text(c.quote),
        BindView::Text(c.category),
        BindView::Text(c.anime),
        BindView::Text(c.character),
    ]
}

impl StatementView {
    /// The statement returns a row; the others return a count of rows.
    pub open spec fn returns_row(self) -> bool {
        self is SelectRandom || self is SelectLatest || self is SelectById
    }

    /// The statement in SQL, with `?` for each value that is bound.
    pub open spec fn sql(self) -> Seq<char> {
        match self {
            StatementView::SelectRandom => "SELECT * FROM runime.quotes WHERE rand() <= .3 LIMIT 1"@,
            StatementView::SelectLatest => "SELECT * FROM runime.quotes ORDER BY id DESC LIMIT 1"@,
            StatementView::SelectById { .. } => "SELECT * FROM runime.quotes WHERE id = ?"@,
            StatementView::Insert { .. } =>
                "INSERT INTO runime.quotes (quote, category, anime, character) VALUES (?, ?, ?, ?)"@,
            StatementView::Update { .. } =>
                "UPDATE runime.quotes SET quote = ?, category = ?, anime = ?, character = ? WHERE id = ?"@,
            StatementView::Delete { .. } => "DELETE FROM runime.quotes WHERE id = ?"@,
        }
    }

    /// The values for the placeholders, in the order of the placeholders.
    pub open spec fn binds(self) -> Seq<BindView> {
        match self {
            StatementView::SelectRandom => seq![],
            StatementView::SelectLatest => seq![],
            StatementView::SelectById { id } => seq![BindView::Id(id)],
            StatementView::Insert { content } => content_binds(content),
            StatementView::Update { id, content } => content_binds(content).push(BindView::Id(id)),
            StatementView::Delete { id } => seq![BindView::Id(id)],
        }
    }
}

/// What a list of bound values means.
pub open spec fn binds_view(binds: Seq<Bind>) -> Seq<BindView> {
    binds.map_values(|b: Bind| b@)
}

impl Statement {
    /// Tells whether the statement returns a row; the others return a count
    /// of rows.
    pub fn returns_row(&self) -> (b: bool)
        ensures
            b == self@.returns_row(),
    {
        match self {
            Statement::SelectRandom => true,
            Statement::SelectLatest => true,
            Statement::SelectById { .. } => true,
            _ => false,
        }
    }

    /// The statement in SQL, with `?` for each value that is bound.
    pub fn sql(&self) -> (text: &'static str)
        ensures
            text@ == self@.sql(),
    {
        match self {
            Statement::SelectRandom => "SELECT * FROM runime.quotes WHERE rand() <= .3 LIMIT 1",
            Statement::SelectLatest => "SELECT * FROM runime.quotes ORDER BY id DESC LIMIT 1",
            Statement::SelectById { .. } => "SELECT * FROM runime.quotes WHERE id = ?",
            Statement::Insert { .. } =>
                "INSERT INTO runime.quotes (quote, category, anime, character) VALUES (?, ?, ?, ?)",
            Statement::Update { .. } =>
                "UPDATE runime.quotes SET quote = ?, category = ?, anime = ?, character = ? WHERE id = ?",
            Statement::Delete { .. } => "DELETE FROM runime.quotes WHERE id = ?",
        }
    }

    /// The values for the placeholders, in the order of the placeholders.
    pub fn binds(&self) -> (binds: Vec<Bind>)
        ensures
            binds_view(binds@) == self@.binds(),
    {
        let mut binds: Vec<Bind> = Vec::new();
        match self {
            Statement::SelectRandom => {},
            Statement::SelectLatest => {},
            Statement::SelectById { id } => {
                binds.push(Bind::Id(*id));
            },
            Statement::Insert { quote, category, anime, character } => {
                binds.push(Bind::Text(quote.clone()));
                binds.push(Bind::Text(category.clone()));
                binds.push(Bind::Text(anime.clone()));
                binds.push(Bind::Text(character.clone()));
            },
            Statement::Update { id, quote, category, anime, character } => {
                binds.push(Bind::Text(quote.clone()));
                binds.push(Bind::Text(category.clone()));
                binds.push(Bind::Text(anime.clone()));
                binds.push(Bind::Text(character.clone()));
                binds.push(Bind::Id(*id));
            },
            Statement::Delete { id } => {
                binds.push(Bind::Id(*id));
            },
        }
        assert(binds_view(binds@) =~= self@.binds());
        binds
    }
}

/// The update in SQL ends with the predicate on the id, and the id is the
/// value for that predicate's placeholder: an update writes to one row.
pub proof fn law_update_names_its_row(id: int, content: Content)
    ensures
        ({
            let statement = StatementView::Update { id, content };
            let sql = statement.sql();
            let tail = " WHERE id = ?"@;
            &&& sql.len() >= tail.len()
            &&& sql.subrange(sql.len() - tail.len(), sql.len() as int) == tail
            &&& statement.binds().len() == 5
            &&& statement.binds().last() == BindView::Id(id)
        }),
{
    reveal_strlit(
        "UPDATE runime.quotes SET quote = ?, category = ?, anime = ?, character = ? WHERE id = ?",
    );
    reveal_strlit(" WHERE id = ?");
    let statement = StatementView::Update { id, content };
    let sql = statement.sql();
    let tail = " WHERE id = ?"@;
    assert(sql.subrange(sql.len() - tail.len(), sql.len() as int) =~= tail);
}

/// Tells a `sqlx::Error` that is the variant `RowNotFound` from the others.
/// Nothing is claimed of the answer.
#[verifier::external_body]
fn is_row_not_found(e: &sqlx::Error) -> bool {
    matches!(e, sqlx::Error::RowNotFound)
}

/// Calls `<sqlx::Error as Display>::fmt`: the failure in words for users.
/// Nothing is claimed of the text.
#[verifier::external_body]
fn display_text(e: &sqlx::Error) -> String {
    e.to_string()
}

/// Calls `<sqlx::Error as Debug>::fmt`: the failure in words for developers.
/// Nothing is claimed of the text.
#[verifier::external_body]
fn debug_text(e: &sqlx::Error) -> String {
    format!("{:?}", e)
}

/// Calls `MySqlQueryResult::rows_affected`: the number of rows that a
/// statement changed, as the server reported it. Nothing is claimed of the
/// number.
#[verifier::external_body]
fn rows_affected(done: &sqlx::mysql::MySqlQueryResult) -> u64 {
    done.rows_affected()
}

impl StorageError {
    /// Reads from a failure of the storage layer what the handlers need:
    /// whether it says that a row is missing, and its words for users and
    /// for developers. All three are the storage layer's own answers about
    /// a value that only it can look into, so nothing is proved of them;
    /// what the handlers make of each value of them is.
    pub fn read(e: &sqlx::Error) -> StorageError {
        StorageError {
            row_not_found: is_row_not_found(e),
            display: display_text(e),
            debug: debug_text(e),
        }
    }
}

/// Turns the outcome of a statement that returns a row into the event for
/// the handler: the row as it came, or the failure as the handlers read it.
pub fn row_event(outcome: Result<QuoteModel, sqlx::Error>) -> (event: Result<
    QuoteModel,
    StorageError,
>)
    ensures
        outcome matches Ok(q) ==> event == Ok::<QuoteModel, StorageError>(q),
        outcome is Err ==> event is Err,
{
    match outcome {
        Ok(q) => Ok(q),
        Err(e) => Err(StorageError::read(&e)),
    }
}

/// Turns the outcome of a statement that changes rows into the event for the
/// handler: the number of rows, or the failure as the handlers read it.
pub fn count_event(outcome: Result<sqlx::mysql::MySqlQueryResult, sqlx::Error>) -> (event: Result<
    u64,
    StorageError,
>)
    ensures
        outcome is Ok <==> event is Ok,
{
    match outcome {
        Ok(done) => Ok(rows_affected(&done)),
        Err(e) => Err(StorageError::read(&e)),
    }
}

} // verus!
