use gocrud::parser::{ParseError, ParserState};
use gocrud::schema::GoStruct;

fn words(line: &str) -> Vec<String> {
    line.split_whitespace().map(|w| w.to_string()).collect()
}

fn feed(lines: &[&str]) -> (ParserState, Vec<GoStruct>) {
    let mut state = ParserState::new();
    let mut out = Vec::new();
    for line in lines {
        let (next, emitted) = state.step(words(line)).expect("well-formed input");
        state = next;
        if let Some(g) = emitted {
            out.push(g);
        }
    }
    (state, out)
}

#[test]
fn one_block_is_parsed_and_closed() {
    let (state, blocks) = feed(&[
        "CREATE TABLE users (",
        "id bigserial",
        "name text",
        "version int",
        ");",
    ]);
    assert_eq!(blocks.len(), 1);
    let g = &blocks[0];
    assert_eq!(g.sql_type_name, "users");
    assert_eq!(g.go_type_name, "User");
    assert_eq!(g.members.len(), 3);
    assert_eq!(g.members[0].gokey, "ID");
    assert_eq!(g.members[1].gokey, "Name");
    assert_eq!(g.members[2].gokey, "Version");
    assert!(!state.started);
    assert_eq!(state.pairs.len(), 0);
}

#[test]
fn table_name_is_second_to_last_token() {
    let (_, blocks) = feed(&["CREATE TABLE IF NOT EXISTS boxes (", ");"]);
    assert_eq!(blocks[0].sql_type_name, "boxes");
    assert_eq!(blocks[0].go_type_name, "Boxe");
}

#[test]
fn extra_column_tokens_are_ignored() {
    let (_, blocks) = feed(&["CREATE TABLE users (", "name text NOT NULL", ");"]);
    assert_eq!(blocks[0].members.len(), 1);
    assert_eq!(blocks[0].members[0].key, "name");
    assert_eq!(blocks[0].members[0].value, "text");
}

#[test]
fn lines_outside_a_block_are_ignored() {
    let (state, blocks) = feed(&["stray words here", "name text"]);
    assert!(!state.started);
    assert_eq!(blocks.len(), 0);
    assert_eq!(state.pairs.len(), 0);
}

#[test]
fn close_without_open_block_is_ignored() {
    let (state, blocks) = feed(&[");", ");"]);
    assert!(!state.started);
    assert_eq!(blocks.len(), 0);
}

#[test]
fn two_blocks_are_independent() {
    let (_, blocks) = feed(&[
        "CREATE TABLE users (",
        "id bigserial",
        ");",
        "CREATE TABLE orders (",
        "total int",
        ");",
    ]);
    assert_eq!(blocks.len(), 2);
    assert_eq!(blocks[0].go_type_name, "User");
    assert_eq!(blocks[0].members.len(), 1);
    assert_eq!(blocks[1].go_type_name, "Order");
    assert_eq!(blocks[1].members.len(), 1);
    assert_eq!(blocks[1].members[0].gokey, "Total");
}

#[test]
fn malformed_column_line_is_fatal() {
    let state = ParserState::new();
    let (state, _) = state.step(words("CREATE TABLE users (")).unwrap();
    let r = state.step(words("name"));
    assert!(matches!(r, Err(ParseError::MalformedColumnLine)));
}

#[test]
fn create_line_without_table_name_is_fatal() {
    let state = ParserState::new();
    let r = state.step(words("CREATE"));
    assert!(matches!(r, Err(ParseError::MalformedCreateLine)));
}

#[test]
fn single_token_line_outside_block_is_ignored() {
    let state = ParserState::new();
    let (state, emitted) = state.step(words("name")).unwrap();
    assert!(emitted.is_none());
    assert!(!state.started);
}

#[test]
fn parsed_block_renders_like_a_built_model() {
    let (_, blocks) = feed(&["CREATE TABLE users (", "id bigserial", "name text", ");"]);
    let direct = GoStruct::build(
        "users",
        vec![
            gocrud::mapper::Pair {
                key: "id".to_string(),
                value: "bigserial".to_string(),
                gokey: String::new(),
                govalue: String::new(),
            },
            gocrud::mapper::Pair {
                key: "name".to_string(),
                value: "text".to_string(),
                gokey: String::new(),
                govalue: String::new(),
            },
        ],
    );
    assert_eq!(blocks[0].make_go_type(), direct.make_go_type());
    assert_eq!(blocks[0].make_go_create(), direct.make_go_create());
    assert_eq!(blocks[0].make_go_get(), direct.make_go_get());
    assert_eq!(blocks[0].make_go_update(), direct.make_go_update());
    assert_eq!(blocks[0].make_go_delete(), direct.make_go_delete());
}
