use link_archive::database::{
    error_code_match, insert_link_error, insert_user_error, Row, SqliteFailure, StoreError,
};
use link_archive::Error;

fn failure(code: i32, extended_code: i32) -> StoreError {
    StoreError::SqliteFailure(SqliteFailure { code, extended_code })
}

#[test]
fn code_match() {
    assert!(error_code_match(&failure(19, 2067), 19, 2067));
    assert!(!error_code_match(&failure(19, 1555), 19, 2067));
    assert!(!error_code_match(&failure(1, 2067), 19, 2067));
    assert!(!error_code_match(&StoreError::Other, 19, 2067));
    assert!(error_code_match(&failure(5, -1), 5, -1));
}

#[test]
fn duplicate_name_is_told_apart() {
    assert!(matches!(insert_user_error(failure(19, 2067), "alice"), Error::DuplicateName(n) if n == "alice"));
    assert!(matches!(insert_user_error(failure(19, 1555), "alice"), Error::Internal));
    assert!(matches!(insert_user_error(failure(19, 787), "alice"), Error::Internal));
    assert!(matches!(insert_user_error(StoreError::Other, "alice"), Error::Internal));
}

#[test]
fn duplicate_url_is_told_apart() {
    assert!(matches!(insert_link_error(failure(19, 1555), "http://a.example/"), Error::DuplicateUrl(u) if u == "http://a.example/"));
    assert!(matches!(insert_link_error(failure(19, 2067), "http://a.example/"), Error::Internal));
    assert!(matches!(insert_link_error(failure(14, 14), "http://a.example/"), Error::Internal));
    assert!(matches!(insert_link_error(StoreError::Other, "http://a.example/"), Error::Internal));
}

#[test]
fn row_finds_fields() {
    let cols = ["id", "name", "password", "user_id", "url", "name"];
    let mut row = Row::new(cols.iter().map(|c| c.to_string()).collect());
    assert_eq!(row.find("id"), Some(0));
    assert_eq!(row.find("name"), Some(1));
    assert_eq!(row.find("url"), Some(4));
    assert_eq!(row.find("created"), None);
    assert_eq!(row.index("url"), Some(4));
    row.advance(3);
    assert_eq!(row.off, 3);
    assert_eq!(row.index("id"), Some(3));
    assert_eq!(row.index("created"), None);
    row.advance(usize::MAX - 3);
    assert_eq!(row.index("id"), Some(usize::MAX));
    assert_eq!(row.index("name"), None);
}
