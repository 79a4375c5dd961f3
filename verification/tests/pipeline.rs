use poe_indexer::crawler::{build_new_url, get_next_id, park_time};
use poe_indexer::pipeline::{LogAction, Logger, Parser};
use poe_indexer::records::ItemType;
use poe_indexer::storage::{
    insert_item_statement, item_lookup_statement, item_write, stash_statement, table_name,
    next_writer_action, ItemWrite, WriterAction, INSERT_STASH_STATEMENT, UPDATE_STASH_STATEMENT,
};
use std::sync::mpsc;

#[test]
fn build_new_url_appends_the_change_id() {
    assert_eq!(
        build_new_url(&"7222850-7781124-7106063-8472575-7898327".to_string()),
        "http://api.pathofexile.com/public-stash-tabs?id=7222850-7781124-7106063-8472575-7898327"
    );
}

#[test]
fn get_next_id_finds_the_change_id() {
    let head = "{\"next_change_id\":\"7222850-7781124-7106063-8472575-7898327\",\"stashes\":[".to_string();
    assert_eq!(get_next_id(&head), Some("7222850-7781124-7106063-8472575-7898327".to_string()));
    assert_eq!(get_next_id(&"no id here".to_string()), None);
}

#[test]
fn logger_actions() {
    let (_send, recv) = mpsc::channel::<String>();
    let _logger = Logger::new(recv);
    assert!(matches!(Logger::action(None), LogAction::ReportError));
    assert!(matches!(Logger::action(Some("stop".to_string())), LogAction::Stop));
    match Logger::action(Some("hello".to_string())) {
        LogAction::Print(p) => assert_eq!(p, "hello"),
        _ => panic!("expected a message to print"),
    }
}

#[test]
fn parser_new_keeps_its_channels() {
    let (to_db, from_parser) = mpsc::channel();
    let (to_parser, from_deser) = mpsc::channel();
    let (to_logger, _logs) = mpsc::channel();
    let parser = Parser::new(to_db, from_deser, to_logger);
    to_parser
        .send(poe_indexer::input::JsonSite { next_change_id: "1".to_string(), stashes: Vec::new() })
        .unwrap();
    assert_eq!(parser.receive_from_deser.recv().unwrap().next_change_id, "1");
    drop(parser);
    assert!(from_parser.recv().is_err());
}

#[test]
fn statements_name_the_table_of_the_kind() {
    assert_eq!(table_name(ItemType::AtlasMap), "Map");
    assert_eq!(table_name(ItemType::ProphecyCard), "Prophecy");
    assert_eq!(insert_item_statement(ItemType::Ring), "INSERT INTO Ring VALUES ($1)");
    assert_eq!(item_lookup_statement(ItemType::Body), "SELECT id FROM Body WHERE id = $1");
    assert_eq!(stash_statement(true), UPDATE_STASH_STATEMENT);
    assert_eq!(stash_statement(false), INSERT_STASH_STATEMENT);
}

#[test]
fn item_write_decisions() {
    assert_eq!(item_write(false, true), ItemWrite::Insert);
    assert_eq!(item_write(false, false), ItemWrite::Update);
    assert_eq!(item_write(true, false), ItemWrite::Insert);
    assert_eq!(item_write(true, true), ItemWrite::Insert);
}

#[test]
fn park_time_waits_out_the_second() {
    assert_eq!(park_time(0), Some(1_000_000_000));
    assert_eq!(park_time(400_000_000), Some(600_000_000));
    assert_eq!(park_time(1_000_000_000), None);
    assert_eq!(park_time(5_000_000_000), None);
}

#[test]
fn writer_steps() {
    assert_eq!(next_writer_action(false, true, None, false), WriterAction::LookUpItem);
    assert_eq!(next_writer_action(false, true, Some(true), false), WriterAction::Write(ItemWrite::Insert));
    assert_eq!(next_writer_action(false, true, Some(false), false), WriterAction::Write(ItemWrite::Update));
    assert_eq!(next_writer_action(true, true, None, false), WriterAction::Write(ItemWrite::Insert));
    assert_eq!(next_writer_action(true, true, None, true), WriterAction::RollBack);
    assert_eq!(next_writer_action(true, false, None, false), WriterAction::Commit);
}
