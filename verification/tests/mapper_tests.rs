use gocrud::mapper::Pair;
use gocrud::schema::{should_create, GoStruct};

fn pair(key: &str, value: &str) -> Pair {
    Pair {
        key: key.to_string(),
        value: value.to_string(),
        gokey: String::new(),
        govalue: String::new(),
    }
}

fn mapped(key: &str, value: &str) -> Pair {
    let mut p = pair(key, value);
    p.to_godb();
    p
}

#[test]
fn mapper_is_deterministic() {
    let a = mapped("valid_until", "timestamp(0)");
    let b = mapped("valid_until", "timestamp(0)");
    assert_eq!(a.gokey, b.gokey);
    assert_eq!(a.govalue, b.govalue);
    let c = mapped("widget", "text");
    let d = mapped("widget", "text");
    assert_eq!(c.gokey, d.gokey);
    assert_eq!(c.govalue, d.govalue);
}

#[test]
fn identifier_column_is_uppercased() {
    let p = mapped("id", "bigserial");
    assert_eq!(p.gokey, "ID");
    assert_eq!(p.govalue, "int64");
    assert_eq!(p.key, "id");
    assert_eq!(p.value, "bigserial");
}

#[test]
fn ordinary_columns_take_pascal_form() {
    let p = mapped("valid_until", "timestamp(0)");
    assert_eq!(p.gokey, "ValidUntil");
    assert_eq!(p.govalue, "time.Time");
    let q = mapped("widget", "text");
    assert_eq!(q.gokey, "Widget");
    assert_eq!(q.govalue, "string");
}

#[test]
fn id_substring_rewrite_fires_mid_word() {
    let p = mapped("identity", "text");
    assert_eq!(p.gokey, "IDentity");
    let q = mapped("user_id", "bigint");
    assert_eq!(q.gokey, "UserID");
    let r = mapped("ids_kept", "text");
    assert_eq!(r.gokey, "IDsKept");
}

#[test]
fn type_tokens_map_to_scalar_types() {
    assert_eq!(mapped("a", "bigserial").govalue, "int64");
    assert_eq!(mapped("a", "bigint").govalue, "int64");
    assert_eq!(mapped("a", "int").govalue, "int32");
    assert_eq!(mapped("a", "text").govalue, "string");
    assert_eq!(mapped("a", "timestamp(0)").govalue, "time.Time");
    assert_eq!(mapped("a", "uuid").govalue, "pgxuuid.uuid");
    assert_eq!(mapped("a", "float").govalue, "float32");
}

#[test]
fn unrecognized_type_tokens_pass_through() {
    assert_eq!(mapped("flag", "bool").govalue, "bool");
    assert_eq!(mapped("blob", "bytea").govalue, "bytea");
}

#[test]
fn reserved_names_are_refused_in_both_spellings() {
    assert!(!should_create("id"));
    assert!(!should_create("ID"));
    assert!(!should_create("version"));
    assert!(!should_create("Version"));
    assert!(!should_create("create_time"));
    assert!(!should_create("CreateTime"));
    assert!(!should_create("edit_time"));
    assert!(!should_create("EditTime"));
    assert!(should_create("name"));
    assert!(should_create("Id"));
}

#[test]
fn id_type_finds_the_identifier_member() {
    let g = GoStruct::build("users", vec![pair("id", "bigserial"), pair("name", "text")]);
    assert_eq!(g.id_type(), "int64");
}

#[test]
fn id_type_is_empty_without_identifier_member() {
    let g = GoStruct::build("users", vec![pair("name", "text")]);
    assert_eq!(g.id_type(), "");
}

#[test]
fn build_derives_names_and_maps_columns() {
    let g = GoStruct::build("users", vec![pair("id", "bigserial"), pair("name", "text")]);
    assert_eq!(g.sql_type_name, "users");
    assert_eq!(g.go_type_name, "User");
    assert_eq!(g.members.len(), 2);
    assert_eq!(g.members[0].gokey, "ID");
    assert_eq!(g.members[0].govalue, "int64");
    assert_eq!(g.members[1].gokey, "Name");
    assert_eq!(g.members[1].govalue, "string");
}

#[test]
fn type_name_strips_one_trailing_plural_only() {
    let g = GoStruct::build("address", vec![]);
    assert_eq!(g.go_type_name, "Addres");
    let h = GoStruct::build("order_items", vec![]);
    assert_eq!(h.go_type_name, "OrderItem");
    let k = GoStruct::build("data", vec![]);
    assert_eq!(k.go_type_name, "Data");
}
