use api_core::command::{is_blank, CommandType, SqlParam, SqlRepo};

fn no_params() -> Vec<SqlParam> {
    Vec::new()
}

fn params(n: usize) -> Vec<SqlParam> {
    let mut v = Vec::new();
    for i in 0..n {
        v.push(SqlParam::Int(i as i64));
    }
    v
}

#[test]
fn text_command_passes_through() {
    let q = SqlRepo::build_query_with_params(
        "SELECT 1",
        CommandType::Text,
        &params(3),
    );
    assert_eq!(q, "SELECT 1");
}

#[test]
fn table_direct_renders_select() {
    let q = SqlRepo::build_query_with_params("Users", CommandType::TableDirect, &no_params());
    assert_eq!(q, "SELECT * FROM Users");
}

#[test]
fn stored_procedure_without_params_has_no_placeholders() {
    let q = SqlRepo::build_query_with_params(
        "[dbo].[select_users]",
        CommandType::StoreProcedure,
        &no_params(),
    );
    assert_eq!(q, "EXEC [dbo].[select_users]");
}

#[test]
fn stored_procedure_with_one_param() {
    let q = SqlRepo::build_query_with_params(
        "[dbo].[select_user]",
        CommandType::StoreProcedure,
        &params(1),
    );
    assert_eq!(q, "EXEC [dbo].[select_user] @P1");
}

#[test]
fn stored_procedure_with_three_params() {
    let q = SqlRepo::build_query_with_params(
        "[dbo].[create_role]",
        CommandType::StoreProcedure,
        &params(3),
    );
    assert_eq!(q, "EXEC [dbo].[create_role] @P1, @P2, @P3");
}

#[test]
fn placeholders_are_numbered_in_parameter_order_regardless_of_types() {
    let mixed = vec![
        SqlParam::Str("a".to_string()),
        SqlParam::Int(7),
        SqlParam::Bool(true),
        SqlParam::Null,
    ];
    let q = SqlRepo::build_query_with_params("[dbo].[p]", CommandType::StoreProcedure, &mixed);
    assert_eq!(q, "EXEC [dbo].[p] @P1, @P2, @P3, @P4");
}

#[test]
fn placeholder_numbers_reach_two_digits() {
    let q = SqlRepo::build_query_with_params(
        "[dbo].[wide]",
        CommandType::StoreProcedure,
        &params(12),
    );
    assert_eq!(
        q,
        "EXEC [dbo].[wide] @P1, @P2, @P3, @P4, @P5, @P6, @P7, @P8, @P9, @P10, @P11, @P12"
    );
}

#[test]
fn bulk_insert_one_group_per_row_numbering_restarts() {
    let entities = vec![params(2), params(2), params(2)];
    let columns = vec!["Id".to_string(), "Name".to_string()];
    let q = SqlRepo::build_bulk_insert_query("Users", &columns, &entities);
    assert_eq!(
        q,
        "INSERT INTO Users (Id, Name) VALUES (@P1, @P2), (@P1, @P2), (@P1, @P2)"
    );
}

#[test]
fn bulk_insert_with_no_rows_has_empty_values_list() {
    let entities: Vec<Vec<SqlParam>> = Vec::new();
    let columns = vec!["Id".to_string()];
    let q = SqlRepo::build_bulk_insert_query("Users", &columns, &entities);
    assert_eq!(q, "INSERT INTO Users (Id) VALUES ");
}

#[test]
fn mapping_rows_keeps_order() {
    let rows = vec![10i32, 20, 30];
    let mapped = SqlRepo::map_rows(&rows, |r: &i32| *r + 1);
    assert_eq!(mapped, vec![11, 21, 31]);
}

#[test]
fn single_row_result_is_none_for_empty_set() {
    let rows: Vec<i32> = Vec::new();
    assert_eq!(SqlRepo::last_row(rows), None);
}

#[test]
fn single_row_result_is_last_mapped_row() {
    let rows = vec!["A".to_string(), "B".to_string()];
    assert_eq!(SqlRepo::last_row(rows), Some("B".to_string()));
}

#[test]
fn blank_command_text_is_detected() {
    assert!(is_blank(""));
    assert!(is_blank(" \t\r\n "));
    assert!(!is_blank(" SELECT 1 "));
}

#[test]
fn blank_covers_every_character_trim_removes() {
    assert!(is_blank("\u{000C}"));
    assert!(is_blank("\u{000B}\u{0085}\u{00A0}\u{1680}\u{2003}\u{2028}\u{2029}\u{202F}\u{205F}\u{3000}"));
    assert_eq!(is_blank("\u{000C}x"), false);
    assert_eq!("\u{000C}".trim().is_empty(), true);
}
