use runime::handler::{
    create_quote_handler, delete_quote_handler, insert_failure_reply, merge_update,
    random_quote_handler, show_row, update_quote_handler, AwaitedCount, AwaitedRow,
    DataIntegrityError, Step,
};
use runime::model::{QuoteField, QuoteModel, QuoteModelResponse};
use runime::response::{ApiResponse, Envelope};
use runime::schema::{CreateQuoteSchema, UpdateQuoteSchema};
use runime::storage::{Statement, StorageError};

/// A table in memory that answers the statements as the database would.
struct Table {
    rows: Vec<QuoteModel>,
    next_id: i32,
    /// Whether the draw of a random read lets a row pass.
    lucky: bool,
    /// The statements that were run, in order.
    log: Vec<Statement>,
}

fn missing() -> StorageError {
    StorageError {
        row_not_found: true,
        display: "no rows returned by a query that expected to return at least one row"
            .to_string(),
        debug: "RowNotFound".to_string(),
    }
}

fn duplicate() -> StorageError {
    StorageError {
        row_not_found: false,
        display: "error returned from database: 1062 (23000): Duplicate entry 'x' for key 'u'"
            .to_string(),
        debug: "Database(MySqlDatabaseError { code: Some(\"23000\"), number: 1062 })".to_string(),
    }
}

fn broken() -> StorageError {
    StorageError {
        row_not_found: false,
        display: "pool timed out while waiting for an open connection".to_string(),
        debug: "PoolTimedOut".to_string(),
    }
}

impl Table {
    fn new() -> Table {
        Table { rows: Vec::new(), next_id: 1, lucky: true, log: Vec::new() }
    }

    fn same_texts(row: &QuoteModel, texts: [&String; 4]) -> bool {
        row.quote.as_ref() == Some(texts[0])
            && row.category.as_ref() == Some(texts[1])
            && row.anime.as_ref() == Some(texts[2])
            && row.character.as_ref() == Some(texts[3])
    }

    fn fetch(&mut self, statement: &Statement) -> Result<QuoteModel, StorageError> {
        self.log.push(statement.clone());
        let found = match statement {
            Statement::SelectById { id } => self.rows.iter().find(|r| r.id == *id),
            Statement::SelectLatest => self.rows.iter().max_by_key(|r| r.id),
            Statement::SelectRandom => {
                if self.lucky {
                    self.rows.first()
                } else {
                    None
                }
            }
            _ => panic!("not a read: {:?}", statement),
        };
        found.cloned().ok_or_else(missing)
    }

    fn execute(&mut self, statement: &Statement) -> Result<u64, StorageError> {
        self.log.push(statement.clone());
        match statement {
            Statement::Insert { quote, category, anime, character } => {
                let texts = [quote, category, anime, character];
                if self.rows.iter().any(|r| Table::same_texts(r, texts)) {
                    return Err(duplicate());
                }
                self.rows.push(QuoteModel {
                    id: self.next_id,
                    quote: Some(quote.clone()),
                    category: Some(category.clone()),
                    anime: Some(anime.clone()),
                    character: Some(character.clone()),
                });
                self.next_id += 1;
                Ok(1)
            }
            Statement::Update { id, quote, category, anime, character } => {
                let texts = [quote, category, anime, character];
                if !self.rows.iter().any(|r| r.id == *id) {
                    return Ok(0);
                }
                if self.rows.iter().any(|r| r.id != *id && Table::same_texts(r, texts)) {
                    return Err(duplicate());
                }
                for r in self.rows.iter_mut() {
                    if r.id == *id {
                        r.quote = Some(quote.clone());
                        r.category = Some(category.clone());
                        r.anime = Some(anime.clone());
                        r.character = Some(character.clone());
                    }
                }
                Ok(1)
            }
            Statement::Delete { id } => {
                let before = self.rows.len();
                self.rows.retain(|r| r.id != *id);
                Ok((before - self.rows.len()) as u64)
            }
            _ => panic!("not a write: {:?}", statement),
        }
    }

    /// Runs a request to its end, as the service does.
    fn run(&mut self, first: Step) -> ApiResponse {
        let mut step = first;
        loop {
            step = match step {
                Step::Reply(response) => return response,
                Step::Fetch(statement, awaited) => {
                    assert!(statement.returns_row());
                    let row = self.fetch(&statement);
                    awaited.arrived(row)
                }
                Step::Execute(statement, awaited) => {
                    assert!(!statement.returns_row());
                    let count = self.execute(&statement);
                    awaited.arrived(count)
                }
            }
        }
    }
}

fn create(quote: &str, category: &str, anime: &str, character: &str) -> CreateQuoteSchema {
    CreateQuoteSchema {
        quote: quote.to_string(),
        category: category.to_string(),
        anime: anime.to_string(),
        character: character.to_string(),
    }
}

fn wire(id: &str, quote: &str, category: &str, anime: &str, character: &str) -> QuoteModelResponse {
    QuoteModelResponse {
        id: id.to_string(),
        quote: quote.to_string(),
        category: category.to_string(),
        anime: anime.to_string(),
        character: character.to_string(),
    }
}

fn nothing() -> UpdateQuoteSchema {
    UpdateQuoteSchema { quote: None, category: None, anime: None, character: None }
}

fn abcd() -> Table {
    let mut table = Table::new();
    table.run(create_quote_handler(&create("first", "x", "y", "z")));
    table.run(create_quote_handler(&create("A", "B", "C", "D")));
    table.run(create_quote_handler(&create("last", "x", "y", "z")));
    table.log.clear();
    table
}

#[test]
fn create_then_lookup_shows_the_new_quote() {
    let mut table = Table::new();
    let reply = table.run(create_quote_handler(&create("Believe it!", "resolve", "Naruto", "Naruto")));
    assert_eq!(
        reply,
        ApiResponse {
            code: 200,
            body: Envelope::Quote(wire("1", "Believe it!", "resolve", "Naruto", "Naruto")),
        }
    );
    let row = table.fetch(&Statement::SelectById { id: 1 });
    assert_eq!(show_row(row), reply);
    let reply = table.run(random_quote_handler());
    assert_eq!(reply.body, Envelope::Quote(wire("1", "Believe it!", "resolve", "Naruto", "Naruto")));
}

#[test]
fn create_assigns_a_fresh_id_each_time() {
    let mut table = Table::new();
    let first = table.run(create_quote_handler(&create("a", "b", "c", "d")));
    let second = table.run(create_quote_handler(&create("e", "f", "g", "h")));
    let (first, second) = match (first.body, second.body) {
        (Envelope::Quote(f), Envelope::Quote(s)) => (f, s),
        other => panic!("{:?}", other),
    };
    assert!(!first.id.is_empty());
    assert!(!second.id.is_empty());
    assert_ne!(first.id, second.id);
    assert_eq!(second, wire("2", "e", "f", "g", "h"));
}

#[test]
fn create_runs_an_insert_and_reads_the_newest_row() {
    let mut table = Table::new();
    table.run(create_quote_handler(&create("a", "b", "c", "d")));
    assert_eq!(
        table.log,
        vec![
            Statement::Insert {
                quote: "a".to_string(),
                category: "b".to_string(),
                anime: "c".to_string(),
                character: "d".to_string(),
            },
            Statement::SelectLatest,
        ]
    );
}

#[test]
fn creating_the_same_quote_twice_is_refused() {
    let mut table = Table::new();
    let body = create("a", "b", "c", "d");
    assert_eq!(table.run(create_quote_handler(&body)).code, 200);
    let rows = table.rows.clone();
    table.log.clear();
    let reply = table.run(create_quote_handler(&body));
    assert_eq!(
        reply,
        ApiResponse { code: 400, body: Envelope::Fail("Quote already exists".to_string()) }
    );
    assert_eq!(reply.body.status(), Some("fail"));
    assert_eq!(table.rows.len(), 1);
    assert_eq!(table.rows, rows);
    assert_eq!(table.log.len(), 1);
}

#[test]
fn a_create_that_storage_fails_is_500_with_the_quoted_words() {
    let step = AwaitedCount::Insert.arrived(Err(broken()));
    assert_eq!(
        step,
        Step::Reply(ApiResponse {
            code: 500,
            body: Envelope::Error(
                "\"pool timed out while waiting for an open connection\"".to_string()
            ),
        })
    );
}

#[test]
fn the_quoted_words_are_escaped() {
    let failure = StorageError {
        row_not_found: false,
        display: "bad \"value\"\n".to_string(),
        debug: "unused".to_string(),
    };
    let step = AwaitedCount::Insert.arrived(Err(failure));
    assert_eq!(
        step,
        Step::Reply(ApiResponse {
            code: 500,
            body: Envelope::Error("\"bad \\\"value\\\"\\n\"".to_string()),
        })
    );
}

#[test]
fn insert_failure_tells_duplicates_from_the_rest() {
    assert_eq!(
        insert_failure_reply("1062: Duplicate entry 'x'", "ignored".to_string()),
        ApiResponse::conflict()
    );
    assert_eq!(
        insert_failure_reply("duplicate entry", "\"duplicate entry\"".to_string()),
        ApiResponse { code: 500, body: Envelope::Error("\"duplicate entry\"".to_string()) }
    );
    assert_eq!(
        insert_failure_reply("", "\"\"".to_string()),
        ApiResponse { code: 500, body: Envelope::Error("\"\"".to_string()) }
    );
}

#[test]
fn a_create_whose_row_cannot_be_read_back_is_500() {
    let step = AwaitedCount::Insert.arrived(Ok(1));
    let awaited = match step {
        Step::Fetch(Statement::SelectLatest, awaited) => awaited,
        other => panic!("{:?}", other),
    };
    assert_eq!(awaited, AwaitedRow::Answer);
    assert_eq!(
        awaited.arrived(Err(broken())),
        Step::Reply(ApiResponse { code: 500, body: Envelope::Error("PoolTimedOut".to_string()) })
    );
}

#[test]
fn updating_an_unknown_id_is_404() {
    let mut table = abcd();
    let rows = table.rows.clone();
    let body = UpdateQuoteSchema { quote: Some("Z".to_string()), ..nothing() };
    let reply = table.run(update_quote_handler(999999, body));
    assert_eq!(
        reply,
        ApiResponse {
            code: 404,
            body: Envelope::Fail("Quote with ID: 999999 not found".to_string()),
        }
    );
    match reply.body {
        Envelope::Fail(message) => assert!(message.contains("999999")),
        other => panic!("{:?}", other),
    }
    assert_eq!(table.rows, rows);
    assert_eq!(table.log, vec![Statement::SelectById { id: 999999 }]);
}

#[test]
fn a_partial_update_changes_what_it_names() {
    let mut table = abcd();
    let body = UpdateQuoteSchema { quote: Some("Z".to_string()), ..nothing() };
    let reply = table.run(update_quote_handler(2, body));
    assert_eq!(
        reply,
        ApiResponse { code: 200, body: Envelope::Quote(wire("2", "Z", "B", "C", "D")) }
    );
    assert_eq!(show_row(table.fetch(&Statement::SelectById { id: 2 })), reply);
}

#[test]
fn an_update_leaves_the_other_rows_alone() {
    let mut table = abcd();
    let before = table.rows.clone();
    let body = UpdateQuoteSchema { quote: Some("Z".to_string()), ..nothing() };
    table.run(update_quote_handler(2, body));
    assert_eq!(table.rows.len(), 3);
    assert_eq!(table.rows[0], before[0]);
    assert_eq!(table.rows[2], before[2]);
    assert_ne!(table.rows[1], before[1]);
}

#[test]
fn an_update_reads_writes_and_reads_again() {
    let mut table = abcd();
    let body = UpdateQuoteSchema { anime: Some("N".to_string()), ..nothing() };
    table.run(update_quote_handler(2, body));
    assert_eq!(
        table.log,
        vec![
            Statement::SelectById { id: 2 },
            Statement::Update {
                id: 2,
                quote: "A".to_string(),
                category: "B".to_string(),
                anime: "N".to_string(),
                character: "D".to_string(),
            },
            Statement::SelectById { id: 2 },
        ]
    );
}

#[test]
fn an_update_with_every_field_replaces_every_text() {
    let mut table = abcd();
    let body = UpdateQuoteSchema {
        quote: Some("1".to_string()),
        category: Some("2".to_string()),
        anime: Some("3".to_string()),
        character: Some("4".to_string()),
    };
    let reply = table.run(update_quote_handler(3, body));
    assert_eq!(reply.body, Envelope::Quote(wire("3", "1", "2", "3", "4")));
}

#[test]
fn an_update_without_fields_keeps_every_text() {
    let mut table = abcd();
    let reply = table.run(update_quote_handler(2, nothing()));
    assert_eq!(
        reply,
        ApiResponse { code: 200, body: Envelope::Quote(wire("2", "A", "B", "C", "D")) }
    );
}

#[test]
fn an_empty_string_overwrites() {
    let mut table = abcd();
    let body = UpdateQuoteSchema { category: Some(String::new()), ..nothing() };
    let reply = table.run(update_quote_handler(2, body));
    assert_eq!(reply.body, Envelope::Quote(wire("2", "A", "", "C", "D")));
}

#[test]
fn an_update_onto_the_texts_of_another_row_is_500() {
    let mut table = abcd();
    let before = table.rows.clone();
    let body = UpdateQuoteSchema {
        quote: Some("A".to_string()),
        category: Some("B".to_string()),
        anime: Some("C".to_string()),
        character: Some("D".to_string()),
    };
    let reply = table.run(update_quote_handler(1, body));
    assert_eq!(
        reply,
        ApiResponse {
            code: 500,
            body: Envelope::Error(
                "Internal server error: error returned from database: 1062 (23000): Duplicate entry 'x' for key 'u'"
                    .to_string()
            ),
        }
    );
    assert_eq!(table.rows, before);
}

#[test]
fn an_update_whose_first_read_fails_is_500() {
    let awaited = AwaitedRow::Current { id: 2, body: nothing() };
    assert_eq!(
        awaited.arrived(Err(broken())),
        Step::Reply(ApiResponse { code: 500, body: Envelope::Error("PoolTimedOut".to_string()) })
    );
}

#[test]
fn an_update_that_changes_no_row_is_404() {
    assert_eq!(
        AwaitedCount::Update { id: 5 }.arrived(Ok(0)),
        Step::Reply(ApiResponse {
            code: 404,
            body: Envelope::Fail("Quote with ID: 5 not found".to_string()),
        })
    );
}

#[test]
fn an_update_that_changed_rows_reads_its_row_again() {
    assert_eq!(
        AwaitedCount::Update { id: 5 }.arrived(Ok(1)),
        Step::Fetch(Statement::SelectById { id: 5 }, AwaitedRow::Answer)
    );
    assert_eq!(
        AwaitedCount::Update { id: 5 }.arrived(Ok(u64::MAX)),
        Step::Fetch(Statement::SelectById { id: 5 }, AwaitedRow::Answer)
    );
}

#[test]
fn an_update_whose_row_vanished_before_the_last_read_is_500() {
    assert_eq!(
        AwaitedRow::Answer.arrived(Err(missing())),
        Step::Reply(ApiResponse { code: 500, body: Envelope::Error("RowNotFound".to_string()) })
    );
}

#[test]
fn merge_takes_the_request_first_and_the_row_second() {
    let current = QuoteModel {
        id: 2,
        quote: Some("A".to_string()),
        category: Some("B".to_string()),
        anime: Some("C".to_string()),
        character: Some("D".to_string()),
    };
    let body = UpdateQuoteSchema {
        quote: Some("Z".to_string()),
        character: Some("Y".to_string()),
        ..nothing()
    };
    assert_eq!(
        merge_update(2, &body, &current),
        Ok(Statement::Update {
            id: 2,
            quote: "Z".to_string(),
            category: "B".to_string(),
            anime: "C".to_string(),
            character: "Y".to_string(),
        })
    );
}

#[test]
fn merge_writes_to_the_id_of_the_request() {
    let current = QuoteModel {
        id: 77,
        quote: Some("A".to_string()),
        category: Some("B".to_string()),
        anime: Some("C".to_string()),
        character: Some("D".to_string()),
    };
    match merge_update(2, &nothing(), &current) {
        Ok(Statement::Update { id, .. }) => assert_eq!(id, 2),
        other => panic!("{:?}", other),
    }
}

#[test]
fn merge_fails_where_neither_side_has_a_text() {
    let current = QuoteModel {
        id: 2,
        quote: Some("A".to_string()),
        category: None,
        anime: None,
        character: Some("D".to_string()),
    };
    assert_eq!(
        merge_update(2, &nothing(), &current),
        Err(DataIntegrityError { id: 2, field: QuoteField::Category })
    );
    let body = UpdateQuoteSchema { category: Some("B".to_string()), ..nothing() };
    assert_eq!(
        merge_update(2, &body, &current),
        Err(DataIntegrityError { id: 2, field: QuoteField::Anime })
    );
    let body = UpdateQuoteSchema {
        category: Some("B".to_string()),
        anime: Some("C".to_string()),
        ..nothing()
    };
    assert!(merge_update(2, &body, &current).is_ok());
}

#[test]
fn an_update_of_a_row_with_an_absent_text_is_500() {
    let mut table = Table::new();
    table.rows.push(QuoteModel {
        id: 1,
        quote: Some("A".to_string()),
        category: None,
        anime: Some("C".to_string()),
        character: Some("D".to_string()),
    });
    let before = table.rows.clone();
    let body = UpdateQuoteSchema { quote: Some("Z".to_string()), ..nothing() };
    let reply = table.run(update_quote_handler(1, body));
    assert_eq!(
        reply,
        ApiResponse {
            code: 500,
            body: Envelope::Error("Quote with ID: 1 has no category".to_string()),
        }
    );
    assert_eq!(table.rows, before);
}

#[test]
fn deleting_a_row_is_204_and_then_it_is_gone() {
    let mut table = abcd();
    let reply = table.run(delete_quote_handler(2));
    assert_eq!(reply, ApiResponse { code: 204, body: Envelope::Empty });
    assert_eq!(reply.body.status(), None);
    assert_eq!(table.rows.len(), 2);
    assert!(table.fetch(&Statement::SelectById { id: 2 }).unwrap_err().row_not_found);
    let body = UpdateQuoteSchema { quote: Some("Z".to_string()), ..nothing() };
    assert_eq!(table.run(update_quote_handler(2, body)).code, 404);
}

#[test]
fn deleting_twice_is_404_the_second_time() {
    let mut table = abcd();
    assert_eq!(table.run(delete_quote_handler(2)).code, 204);
    let rows = table.rows.clone();
    let reply = table.run(delete_quote_handler(2));
    assert_eq!(
        reply,
        ApiResponse { code: 404, body: Envelope::Fail("Quote with ID: 2 not found".to_string()) }
    );
    assert_eq!(table.rows, rows);
}

#[test]
fn deleting_leaves_the_other_rows_alone() {
    let mut table = abcd();
    let before = table.rows.clone();
    table.run(delete_quote_handler(2));
    assert_eq!(table.rows, vec![before[0].clone(), before[2].clone()]);
    assert_eq!(table.log, vec![Statement::Delete { id: 2 }]);
}

#[test]
fn a_delete_that_storage_fails_is_500() {
    assert_eq!(
        AwaitedCount::Delete { id: 2 }.arrived(Err(broken())),
        Step::Reply(ApiResponse {
            code: 500,
            body: Envelope::Error(
                "Internal server error: pool timed out while waiting for an open connection"
                    .to_string()
            ),
        })
    );
}

#[test]
fn an_update_that_storage_fails_is_500() {
    assert_eq!(
        AwaitedCount::Update { id: 2 }.arrived(Err(broken())),
        Step::Reply(ApiResponse {
            code: 500,
            body: Envelope::Error(
                "Internal server error: pool timed out while waiting for an open connection"
                    .to_string()
            ),
        })
    );
}

#[test]
fn a_random_read_on_an_empty_table_is_500() {
    let mut table = Table::new();
    let reply = table.run(random_quote_handler());
    assert_eq!(
        reply,
        ApiResponse { code: 500, body: Envelope::Error("RowNotFound".to_string()) }
    );
    assert_eq!(reply.body.status(), Some("error"));
    assert_eq!(table.log, vec![Statement::SelectRandom]);
}

#[test]
fn a_random_read_whose_draw_rejects_every_row_is_500() {
    let mut table = abcd();
    table.lucky = false;
    assert_eq!(table.run(random_quote_handler()).code, 500);
}

#[test]
fn a_random_read_shows_a_row_of_the_table() {
    let mut table = abcd();
    let before = table.rows.clone();
    let reply = table.run(random_quote_handler());
    assert_eq!(
        reply,
        ApiResponse { code: 200, body: Envelope::Quote(wire("1", "first", "x", "y", "z")) }
    );
    assert_eq!(table.rows, before);
}

#[test]
fn a_random_read_of_a_row_with_an_absent_text_is_500() {
    let row = QuoteModel {
        id: 3,
        quote: Some("A".to_string()),
        category: Some("B".to_string()),
        anime: Some("C".to_string()),
        character: None,
    };
    assert_eq!(
        show_row(Ok(row)),
        ApiResponse {
            code: 500,
            body: Envelope::Error("Quote with ID: 3 has no character".to_string()),
        }
    );
}

#[test]
fn the_first_steps_name_their_statements() {
    assert_eq!(random_quote_handler(), Step::Fetch(Statement::SelectRandom, AwaitedRow::Answer));
    assert_eq!(
        create_quote_handler(&create("a", "b", "c", "d")),
        Step::Execute(
            Statement::Insert {
                quote: "a".to_string(),
                category: "b".to_string(),
                anime: "c".to_string(),
                character: "d".to_string(),
            },
            AwaitedCount::Insert,
        )
    );
    let body = UpdateQuoteSchema { quote: Some("Z".to_string()), ..nothing() };
    assert_eq!(
        update_quote_handler(4, body.clone()),
        Step::Fetch(Statement::SelectById { id: 4 }, AwaitedRow::Current { id: 4, body })
    );
    assert_eq!(
        delete_quote_handler(4),
        Step::Execute(Statement::Delete { id: 4 }, AwaitedCount::Delete { id: 4 })
    );
}

#[test]
fn no_request_takes_more_than_three_statements() {
    let mut table = abcd();
    table.run(random_quote_handler());
    assert!(table.log.len() <= 3);
    table.log.clear();
    table.run(create_quote_handler(&create("n", "e", "w", "!")));
    assert!(table.log.len() <= 3);
    table.log.clear();
    table.run(update_quote_handler(1, nothing()));
    assert!(table.log.len() <= 3);
    table.log.clear();
    table.run(delete_quote_handler(1));
    assert!(table.log.len() <= 3);
}
