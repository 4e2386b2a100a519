use auth_service::fields::set_auto_field;
use auth_service::naming::{camel_to_snake_case, join_key, table_name};
use auth_service::values::DatabaseValue;

#[test]
fn snake_case_splits_words() {
    assert_eq!(camel_to_snake_case("UserBackupCode"), "user_backup_code");
    assert_eq!(camel_to_snake_case("User"), "user");
    assert_eq!(camel_to_snake_case("already_snake"), "already_snake");
    assert_eq!(camel_to_snake_case(""), "");
}

#[test]
fn table_names_are_plural_snake_case() {
    assert_eq!(table_name("Authentication"), "authentications");
    assert_eq!(table_name("UserBackupCode"), "user_backup_codes");
    assert_eq!(table_name("UserToken"), "user_tokens");
    assert_eq!(table_name("User"), "users");
    assert_eq!(table_name("UserRole"), "user_roles");
    assert_eq!(table_name("UserRole"), table_name("UserRole"));
}

#[test]
fn join_key_is_qualified_by_table() {
    assert_eq!(join_key("UserRole"), "user_roles.user_role_id");
    assert_eq!(join_key("User"), "users.user_id");
}

#[test]
fn auto_field_replaces_first_containing_name() {
    let mut p = vec![
        ("name".to_string(), DatabaseValue::String("a".to_string())),
        ("x_created_at_y".to_string(), DatabaseValue::String("old".to_string())),
        ("created_at".to_string(), DatabaseValue::String("older".to_string())),
    ];
    set_auto_field(&mut p, "created_at", DatabaseValue::DateTime("now".to_string()));
    assert_eq!(p.len(), 3);
    assert_eq!(p[1], ("created_at".to_string(), DatabaseValue::DateTime("now".to_string())));
    assert_eq!(p[2], ("created_at".to_string(), DatabaseValue::String("older".to_string())));
}

#[test]
fn auto_field_is_appended_when_absent() {
    let mut p = vec![("name".to_string(), DatabaseValue::String("a".to_string()))];
    set_auto_field(&mut p, "updated_at", DatabaseValue::DateTime("now".to_string()));
    assert_eq!(p.len(), 2);
    assert_eq!(p[1], ("updated_at".to_string(), DatabaseValue::DateTime("now".to_string())));
}
