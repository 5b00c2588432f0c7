use gocrud::mapper::Pair;
use gocrud::schema::GoStruct;

fn pair(key: &str, value: &str) -> Pair {
    Pair {
        key: key.to_string(),
        value: value.to_string(),
        gokey: String::new(),
        govalue: String::new(),
    }
}

fn users_model() -> GoStruct {
    GoStruct::build(
        "users",
        vec![pair("id", "bigserial"), pair("name", "text"), pair("version", "int")],
    )
}

#[test]
fn end_to_end_type_definition() {
    let g = users_model();
    assert_eq!(g.go_type_name, "User");
    assert_eq!(
        g.make_go_type(),
        "type User struct {\n\tID int64 `db:\"id\"`\n\tName string `db:\"name\"`\n\tVersion int32 `db:\"version\"`\n}\n"
    );
}

#[test]
fn end_to_end_create_routine() {
    let g = users_model();
    assert_eq!(
        g.make_go_create(),
        "func CreateUser(user *User, db DB) error {\n\
         \tq := `INSERT INTO users (name)\n\
         VALUES ($1)\n\
         RETURNING id, version`\n\n\
         \tctx, cancel := context.WithTimeout(context.Background(), time.Second*3)\n\
         \tdefer cancel()\n\n\
         \terr := db.QueryRow(ctx, q, user.Name).Scan(&user.ID, &user.Version)\n\n\
         \tif err != nil {\n\
         \t\treturn err\n\
         \t}\n\n\
         \treturn nil\n\
         }\n"
    );
}

#[test]
fn end_to_end_get_routine() {
    let g = users_model();
    assert_eq!(
        g.make_go_get(),
        "func GetUser(id int64, db DB) (*User, error) {\n\
         \tq := `SELECT * FROM users WHERE id = $1`\n\n\
         \tctx, cancel := context.WithTimeout(context.Background(), time.Second*3)\n\
         \tdefer cancel()\n\n\
         \trows, err := db.Query(ctx, q, id)\n\
         \tif err != nil {\n\
         \t\treturn nil, err\n\
         \t}\n\n\
         \tuser, err := pgx.CollectOneRow(rows, pgx.RowToStructByName[User])\n\
         \tif err != nil {\n\
         \t\treturn nil, err\n\
         \t}\n\n\
         \treturn &user, nil\n\
         }\n"
    );
}

#[test]
fn end_to_end_update_routine() {
    let g = users_model();
    assert_eq!(
        g.make_go_update(),
        "func UpdateUser(user *User, db DB) error {\n\
         \tq := `UPDATE users\n\
         SET name = $1, version = version + 1\n\
         WHERE id = $2 AND version = $3\n\
         RETURNING version`\n\n\
         \tctx, cancel := context.WithTimeout(context.Background(), time.Second*3)\n\
         \tdefer cancel()\n\n\
         \terr := db.QueryRow(ctx, q, user.Name, user.ID, user.Version).Scan(&user.Version)\n\n\
         \tif err != nil {\n\
         \t\treturn err\n\
         \t}\n\n\
         \treturn nil\n\
         }\n"
    );
}

#[test]
fn end_to_end_delete_routine() {
    let g = users_model();
    assert_eq!(
        g.make_go_delete(),
        "func DeleteUser(id int64, db DB) error {\n\
         \tq := `DELETE FROM users WHERE id = $1`\n\n\
         \tctx, cancel := context.WithTimeout(context.Background(), time.Second*3)\n\
         \tdefer cancel()\n\n\
         \tresult, err := db.Exec(ctx, q, id)\n\
         \tif err != nil {\n\
         \t\treturn err\n\
         \t}\n\n\
         \trowsAffected := result.RowsAffected()\n\n\
         \tif rowsAffected == 0 {\n\
         \t\treturn pgx.ErrNoRows\n\
         \t}\n\n\
         \treturn nil\n\
         }\n"
    );
}

#[test]
fn reserved_columns_never_bound_in_create_or_update() {
    let g = GoStruct::build(
        "accounts",
        vec![
            pair("id", "bigserial"),
            pair("version", "int"),
            pair("create_time", "timestamp(0)"),
            pair("edit_time", "timestamp(0)"),
            pair("name", "text"),
        ],
    );
    let create = g.make_go_create();
    assert!(create.contains("INSERT INTO users (name)"));
    assert!(create.contains("VALUES ($1)"));
    assert!(create.contains("QueryRow(ctx, q, account.Name)"));
    let update = g.make_go_update();
    assert!(update.contains("SET name = $1, version = version + 1"));
    assert!(update.contains("WHERE id = $2 AND version = $3"));
    assert!(!update.contains("create_time = "));
    assert!(!update.contains("edit_time = "));
    assert!(!update.contains("id = $1"));
}

#[test]
fn update_where_numbering_continues_past_set_clause() {
    let g = GoStruct::build(
        "boxes",
        vec![pair("id", "bigserial"), pair("name", "text"), pair("age", "int")],
    );
    let update = g.make_go_update();
    assert!(update.contains("SET name = $1, age = $2, version = version + 1"));
    assert!(update.contains("WHERE id = $3 AND version = $4"));
    assert!(update.contains("RETURNING version`"));
}

#[test]
fn update_numbering_reaches_two_digits() {
    let mut cols = vec![pair("id", "bigserial")];
    for name in [
        "c1", "c2", "c3", "c4", "c5", "c6", "c7", "c8", "c9", "c10",
    ] {
        cols.push(pair(name, "int"));
    }
    let g = GoStruct::build("rows_kept", vec![]);
    assert_eq!(g.go_type_name, "RowsKept");
    let h = GoStruct::build("items", cols);
    let create = h.make_go_create();
    assert!(create.contains("VALUES ($1, $2, $3, $4, $5, $6, $7, $8, $9, $10)"));
    let update = h.make_go_update();
    assert!(update.contains("WHERE id = $11 AND version = $12"));
}

#[test]
fn zero_column_table_still_renders() {
    let g = GoStruct::build("things", vec![]);
    assert_eq!(g.make_go_type(), "type Thing struct {\n}\n");
    let create = g.make_go_create();
    assert!(create.starts_with("func CreateThing(thing *Thing, db DB) error {\n"));
    assert!(create.contains("INSERT INTO users ()\nVALUES ()\nRETURNING id, version`"));
    assert!(create.contains("QueryRow(ctx, q, ).Scan(&thing.ID, &thing.Version)"));
    let get = g.make_go_get();
    assert!(get.starts_with("func GetThing(id , db DB) (*Thing, error) {\n"));
    let update = g.make_go_update();
    assert!(update.contains("SET version = version + 1\nWHERE id = $2 AND version = $3"));
    assert!(update.contains("QueryRow(ctx, q, , thing.ID, thing.Version).Scan(&thing.Version)"));
    let delete = g.make_go_delete();
    assert!(delete.starts_with("func DeleteThing(id , db DB) error {\n"));
}
