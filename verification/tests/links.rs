use link_archive::links::{after_insert, import_plan, plan_lines};
use link_archive::Error;

#[test]
fn plan_normalizes_each_line() {
    let plan = import_plan("http://a.example\nHTTPS://B.example/x y\r\nhttp://c.example/\n");
    assert_eq!(plan.urls, vec!["http://a.example/", "https://b.example/x%20y", "http://c.example/"]);
    assert_eq!(plan.rejected, None);
    assert!(matches!(plan.finish(), Ok(())));
}

#[test]
fn plan_stops_at_the_first_invalid_line() {
    let plan = import_plan("not a url\nhttp://ok.example");
    assert!(plan.urls.is_empty());
    assert_eq!(plan.rejected, Some("not a url".to_string()));
    assert!(matches!(plan.finish(), Err(Error::InvalidUrl(line)) if line == "not a url"));

    let plan = import_plan("http://a.example\nnope\nhttp://b.example\nalso nope");
    assert_eq!(plan.urls, vec!["http://a.example/"]);
    assert_eq!(plan.rejected, Some("nope".to_string()));
}

#[test]
fn plan_of_nothing() {
    let plan = import_plan("");
    assert!(plan.urls.is_empty());
    assert_eq!(plan.rejected, None);
    let plan = import_plan("\n");
    assert!(plan.urls.is_empty());
    assert_eq!(plan.rejected, Some("".to_string()));
}

#[test]
fn lines_follow_the_standard_library() {
    for text in ["", "\n", "a", "a\n", "a\nb", "a\r\nb\r\n", "a\rb", "a\r", "a\r\n\r\n", "\r\n", "a\n\nb", "\u{e9}\n\u{4e2d}"] {
        let lines: Vec<String> = text.lines().map(String::from).collect();
        let plan = plan_lines(&lines);
        let whole = import_plan(text);
        assert_eq!(plan.urls, whole.urls, "{:?}", text);
        assert_eq!(plan.rejected, whole.rejected, "{:?}", text);
    }
    assert_eq!(import_plan("x\r\nhttp://a.example").rejected, Some("x".to_string()));
    assert_eq!(import_plan("x\r").rejected, Some("x\r".to_string()));
    assert_eq!(import_plan("http://a.example\n\nhttp://b.example").rejected, Some("".to_string()));
}

#[test]
fn duplicate_is_no_error() {
    assert!(matches!(after_insert(Ok(())), Ok(())));
    assert!(matches!(after_insert(Err(Error::DuplicateUrl("http://a.example/".to_string()))), Ok(())));
    assert!(matches!(after_insert(Err(Error::Internal)), Err(Error::Internal)));
    assert!(matches!(after_insert(Err(Error::UserIdNotFound(3))), Err(Error::UserIdNotFound(3))));
}
