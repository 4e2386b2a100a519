use auth_service::models::{Authentication, User, UserBackupCode, UserToken};
use auth_service::operations::{
    collect_rows, delete_query, delete_query_at, find_all_query, find_one_query, first_row, id_condition,
    insert_query, insert_query_at, join_query, update_query, update_query_at,
};
use auth_service::query::{ArchiveFilter, QueryError};
use auth_service::resource::ResourceDescriptor;
use auth_service::values::DatabaseValue;

const EPOCH: &str = "1970-01-01T00:00:00.000000000Z";
const EPOCH_PLUS_30_DAYS: &str = "1970-01-31T00:00:00.000000000Z";

fn s(text: &str) -> DatabaseValue {
    DatabaseValue::String(text.to_string())
}

fn field(name: &str, v: DatabaseValue) -> (String, DatabaseValue) {
    (name.to_string(), v)
}

#[test]
fn insert_adds_automatic_fields_and_casts() {
    let params = vec![field("user_id", s("u1")), field("token", s("t1"))];
    let q = insert_query_at(&Authentication::resource(), &params, "ID", 0).unwrap();
    assert_eq!(
        q.sql,
        "INSERT INTO authentications (user_id, token, id, created_at, updated_at, expires_at) \
         VALUES (CAST($1 AS VARCHAR), CAST($2 AS VARCHAR), CAST($3 AS VARCHAR), \
         CAST($4 AS TIMESTAMP), CAST($5 AS TIMESTAMP), CAST($6 AS TIMESTAMP)) RETURNING *"
    );
    assert_eq!(
        q.binds,
        vec![
            s("u1"),
            s("t1"),
            s("ID"),
            DatabaseValue::DateTime(EPOCH.to_string()),
            DatabaseValue::DateTime(EPOCH.to_string()),
            DatabaseValue::DateTime(EPOCH_PLUS_30_DAYS.to_string()),
        ]
    );
}

#[test]
fn insert_writes_null_literally_and_numbers_bound_values() {
    let params = vec![
        field("a", DatabaseValue::Int("1".to_string())),
        field("b", DatabaseValue::Null),
        field("c", DatabaseValue::Text("long".to_string())),
    ];
    let q = insert_query_at(&UserToken::resource(), &params, "ID", 0).unwrap();
    assert_eq!(
        q.sql,
        "INSERT INTO user_tokens (a, b, c, id, created_at) VALUES (CAST($1 AS INTEGER), NULL, \
         CAST($2 AS TEXT), CAST($3 AS VARCHAR), CAST($4 AS TIMESTAMP)) RETURNING *"
    );
    assert_eq!(q.binds.len(), 4);
    assert_eq!(q.binds[1], DatabaseValue::Text("long".to_string()));
}

#[test]
fn insert_replaces_caller_timestamp_fields() {
    let params = vec![field("my_created_at", s("mine")), field("name", s("n"))];
    let q = insert_query_at(&User::resource(), &params, "ID", 0).unwrap();
    assert_eq!(
        q.sql,
        "INSERT INTO users (created_at, name, id, updated_at) VALUES (CAST($1 AS TIMESTAMP), \
         CAST($2 AS VARCHAR), CAST($3 AS VARCHAR), CAST($4 AS TIMESTAMP)) RETURNING *"
    );
    assert_eq!(q.binds[0], DatabaseValue::DateTime(EPOCH.to_string()));
}

#[test]
fn insert_refuses_unwritable_instant() {
    let params = vec![field("name", s("n"))];
    let r = insert_query_at(&User::resource(), &params, "ID", i128::MAX);
    assert_eq!(r.err(), Some(QueryError::TimestampOutOfRange));
}

#[test]
fn created_at_is_the_instant_of_the_insert() {
    let params = vec![field("username", s("alice"))];
    let q = insert_query_at(&User::resource(), &params, "ID", 86_400_000_000_000).unwrap();
    assert_eq!(q.binds[2], DatabaseValue::DateTime("1970-01-02T00:00:00.000000000Z".to_string()));
}

#[test]
fn two_inserts_get_distinct_ids() {
    let params = vec![field("username", s("alice"))];
    let first = insert_query(&User::resource(), &params).unwrap();
    let second = insert_query(&User::resource(), &params).unwrap();
    let id_of = |q: &auth_service::query::Query| q.binds[1].text().unwrap();
    assert_eq!(id_of(&first).len(), 36);
    assert_ne!(id_of(&first), id_of(&second));
}

#[test]
fn round_trip_fields_are_bound_unchanged() {
    let params = vec![
        field("text_a", s("x")),
        field("int32_b", DatabaseValue::Int("5".to_string())),
        field("bool_c", DatabaseValue::Boolean("true".to_string())),
    ];
    let q = insert_query_at(&UserToken::resource(), &params, "ID", 0).unwrap();
    assert_eq!(
        q.sql,
        "INSERT INTO user_tokens (text_a, int32_b, bool_c, id, created_at) VALUES \
         (CAST($1 AS VARCHAR), CAST($2 AS INTEGER), CAST($3 AS BOOLEAN), CAST($4 AS VARCHAR), \
         CAST($5 AS TIMESTAMP)) RETURNING *"
    );
    assert_eq!(q.binds[..3].to_vec(), vec![
        s("x"),
        DatabaseValue::Int("5".to_string()),
        DatabaseValue::Boolean("true".to_string()),
    ]);
    let find = find_one_query(&UserToken::resource(), ArchiveFilter::Any, &id_condition("ID"));
    assert_eq!(find.sql, "SELECT * FROM user_tokens WHERE id = $1 LIMIT 1");
    assert_eq!(find.binds, vec![s("ID")]);
}

#[test]
fn update_sets_fields_then_binds_id_last() {
    let params = vec![field("used", DatabaseValue::Boolean("true".to_string()))];
    let q = update_query_at(&UserBackupCode::resource(), "C1", &params, 0).unwrap();
    assert_eq!(
        q.sql,
        "UPDATE user_backup_codes SET used = CAST($1 AS BOOLEAN), updated_at = \
         CAST($2 AS TIMESTAMP) WHERE id = $3 RETURNING *"
    );
    assert_eq!(
        q.binds,
        vec![
            DatabaseValue::Boolean("true".to_string()),
            DatabaseValue::DateTime(EPOCH.to_string()),
            s("C1"),
        ]
    );
}

#[test]
fn update_writes_null_in_set_clause() {
    let params = vec![field("first_name", DatabaseValue::Null), field("last_name", s("L"))];
    let q = update_query_at(&UserToken::resource(), "U1", &params, 0).unwrap();
    assert_eq!(
        q.sql,
        "UPDATE user_tokens SET first_name = NULL, last_name = CAST($1 AS VARCHAR) WHERE id = $2 \
         RETURNING *"
    );
    assert_eq!(q.binds, vec![s("L"), s("U1")]);
}

#[test]
fn update_of_expirable_type_renews_expiry() {
    let params = vec![field("expires_at", DatabaseValue::DateTime("old".to_string()))];
    let q = update_query_at(&Authentication::resource(), "A1", &params, 0).unwrap();
    assert_eq!(
        q.sql,
        "UPDATE authentications SET expires_at = CAST($1 AS TIMESTAMP), updated_at = \
         CAST($2 AS TIMESTAMP) WHERE id = $3 RETURNING *"
    );
    assert_eq!(q.binds[0], DatabaseValue::DateTime(EPOCH_PLUS_30_DAYS.to_string()));
}

#[test]
fn finds_apply_archive_filters() {
    let conds = vec![field("username", s("bob")), field("active", DatabaseValue::Boolean("true".to_string()))];
    let desc = User::resource();
    assert_eq!(
        find_one_query(&desc, ArchiveFilter::Any, &conds).sql,
        "SELECT * FROM users WHERE username = $1 AND active = $2 LIMIT 1"
    );
    assert_eq!(
        find_all_query(&desc, ArchiveFilter::Unarchived, &conds).sql,
        "SELECT * FROM users WHERE archived_at IS NULL AND username = $1 AND active = $2"
    );
    assert_eq!(
        find_one_query(&desc, ArchiveFilter::Archived, &conds).sql,
        "SELECT * FROM users WHERE archived_at IS NOT NULL AND username = $1 AND active = $2 LIMIT 1"
    );
    assert_eq!(find_all_query(&desc, ArchiveFilter::Any, &conds).binds, conds.iter().map(|c| c.1.clone()).collect::<Vec<_>>());
}

#[test]
fn delete_removes_rows_of_plain_types() {
    let conds = vec![field("token", s("t1"))];
    let q = delete_query_at(&Authentication::resource(), &conds, 0).unwrap();
    assert_eq!(q.sql, "DELETE FROM authentications WHERE token = $1");
    assert_eq!(q.binds, vec![s("t1")]);
}

#[test]
fn delete_archives_rows_of_archivable_types() {
    let conds = vec![field("code", s("abc")), field("user_id", s("u"))];
    let q = delete_query_at(&UserBackupCode::resource(), &conds, 0).unwrap();
    assert_eq!(
        q.sql,
        "UPDATE user_backup_codes SET archived_at = CAST($3 AS TIMESTAMP) WHERE code = $1 AND \
         user_id = $2"
    );
    assert_eq!(q.binds, vec![s("abc"), s("u"), DatabaseValue::DateTime(EPOCH.to_string())]);
    let r = delete_query_at(&UserBackupCode::resource(), &conds, i128::MAX);
    assert_eq!(r.err(), Some(QueryError::TimestampOutOfRange));
}

#[test]
fn join_uses_naming_convention() {
    let conds = vec![field("user_backup_codes.used", DatabaseValue::Boolean("false".to_string()))];
    let q = join_query(&UserBackupCode::resource(), &User::resource(), &conds);
    assert_eq!(
        q.sql,
        "SELECT * FROM user_backup_codes JOIN users ON users.user_id = \
         user_backup_codes.user_backup_code_id WHERE user_backup_codes.used = $1"
    );
    assert_eq!(q.binds.len(), 1);
}

#[test]
fn find_one_without_rows_is_not_found() {
    let rows: Vec<u32> = vec![];
    assert_eq!(first_row(rows), Err(QueryError::NotFound));
    assert_eq!(first_row(vec![7u32, 8]), Ok(7));
}

#[test]
fn find_all_without_rows_is_empty() {
    let rows: Vec<Result<u32, QueryError>> = vec![];
    assert_eq!(collect_rows(rows), Ok(vec![]));
}

#[test]
fn find_all_fails_on_first_mapping_error() {
    let rows = vec![Ok(1u32), Err(QueryError::MappingError), Err(QueryError::ConnectionError)];
    assert_eq!(collect_rows(rows), Err(QueryError::MappingError));
    assert_eq!(collect_rows(vec![Ok::<u32, QueryError>(1), Ok(2)]), Ok(vec![1, 2]));
}

#[test]
fn alice_is_inserted_then_deleted() {
    let desc = User::resource();
    let insert = insert_query_at(&desc, &vec![field("username", s("alice"))], "ALICE-ID", 0).unwrap();
    assert_eq!(
        insert.sql,
        "INSERT INTO users (username, id, created_at, updated_at) VALUES (CAST($1 AS VARCHAR), \
         CAST($2 AS VARCHAR), CAST($3 AS TIMESTAMP), CAST($4 AS TIMESTAMP)) RETURNING *"
    );
    assert_eq!(insert.binds[0], s("alice"));
    assert_eq!(insert.binds[1], s("ALICE-ID"));
    assert_eq!(insert.binds[2], DatabaseValue::DateTime(EPOCH.to_string()));
    let conds = id_condition("ALICE-ID");
    let delete = delete_query_at(&desc, &conds, 0).unwrap();
    assert_eq!(delete.sql, "DELETE FROM users WHERE id = $1");
    let find = find_one_query(&desc, ArchiveFilter::Any, &conds);
    assert_eq!(find.sql, "SELECT * FROM users WHERE id = $1 LIMIT 1");
    let after_delete: Vec<User> = vec![];
    assert_eq!(first_row(after_delete).err(), Some(QueryError::NotFound));
}

fn is_uuid_v4_text(s: &str) -> bool {
    let chars: Vec<char> = s.chars().collect();
    chars.len() == 36
        && chars.iter().enumerate().all(|(i, c)| {
            if [8, 13, 18, 23].contains(&i) {
                *c == '-'
            } else {
                c.is_ascii_digit() || ('a'..='f').contains(c)
            }
        })
        && chars[14] == '4'
        && ['8', '9', 'a', 'b'].contains(&chars[19])
}

#[test]
fn generated_ids_are_v4_uuid_text() {
    let q = insert_query(&User::resource(), &vec![field("username", s("alice"))]).unwrap();
    assert!(is_uuid_v4_text(&q.binds[1].text().unwrap()));
}

#[test]
fn statements_without_conditions_have_no_where() {
    let none: Vec<(String, DatabaseValue)> = vec![];
    let users = User::resource();
    assert_eq!(find_all_query(&users, ArchiveFilter::Any, &none).sql, "SELECT * FROM users");
    assert_eq!(
        find_one_query(&users, ArchiveFilter::Unarchived, &none).sql,
        "SELECT * FROM users WHERE archived_at IS NULL LIMIT 1"
    );
    assert_eq!(
        find_all_query(&users, ArchiveFilter::Archived, &none).sql,
        "SELECT * FROM users WHERE archived_at IS NOT NULL"
    );
    assert_eq!(delete_query_at(&Authentication::resource(), &none, 0).unwrap().sql, "DELETE FROM authentications");
    assert_eq!(
        delete_query_at(&UserBackupCode::resource(), &none, 0).unwrap().sql,
        "UPDATE user_backup_codes SET archived_at = CAST($1 AS TIMESTAMP)"
    );
    assert_eq!(
        join_query(&UserBackupCode::resource(), &User::resource(), &none).sql,
        "SELECT * FROM user_backup_codes JOIN users ON users.user_id = user_backup_codes.user_backup_code_id"
    );
}

#[test]
fn builders_without_timestamps_always_succeed() {
    let plain = ResourceDescriptor {
        name: "Widget",
        has_id: false,
        is_creatable: false,
        is_updatable: false,
        is_expirable: false,
        is_archivable: false,
        is_verifiable: false,
    };
    let fields = vec![field("size", DatabaseValue::Int("3".to_string()))];
    assert_eq!(
        insert_query(&plain, &fields).unwrap().sql,
        "INSERT INTO widgets (size) VALUES (CAST($1 AS INTEGER)) RETURNING *"
    );
    assert_eq!(
        update_query(&plain, "w1", &fields).unwrap().sql,
        "UPDATE widgets SET size = CAST($1 AS INTEGER) WHERE id = $2 RETURNING *"
    );
    assert_eq!(delete_query(&plain, &fields).unwrap().sql, "DELETE FROM widgets WHERE size = $1");
    assert_eq!(delete_query(&Authentication::resource(), &fields).unwrap().binds.len(), 1);
}
