use issue_watcher::issues::{Base, Issue, Issues};
use issue_watcher::text::{str_has_prefix, u32_to_dec};

fn sample_issue(id: u32, subject: &str, author: &str, priority: &str, done: u8) -> Issue {
    let mut issue = Issue::default();
    issue.id = id;
    issue.subject = String::from(subject);
    issue.author = Base { id: 1, name: String::from(author) };
    issue.priority = Base { id: 2, name: String::from(priority) };
    issue.done_ratio = done;
    issue
}

#[test]
fn u32_to_dec_values() {
    assert_eq!(u32_to_dec(0), "0");
    assert_eq!(u32_to_dec(7), "7");
    assert_eq!(u32_to_dec(10), "10");
    assert_eq!(u32_to_dec(42), "42");
    assert_eq!(u32_to_dec(100), "100");
    assert_eq!(u32_to_dec(4294967295), "4294967295");
}

#[test]
fn prefix_tests() {
    assert!(str_has_prefix("!pingpong", "!ping"));
    assert!(str_has_prefix("!ping", "!ping"));
    assert!(!str_has_prefix("!pin", "!ping"));
    assert!(str_has_prefix("anything", ""));
    assert!(!str_has_prefix("", "!"));
    assert!(!str_has_prefix("?ping", "!ping"));
}

#[test]
fn single_issue_rendering() {
    let issue = sample_issue(42, "Bug", "Alice", "High", 50);
    let rendered = issue.as_message("https://rm");
    assert_eq!(
        rendered,
        "<b>Issue name:</b> <a href=\"https://rm/issues/42\">Bug</a><br>\
         <b>Author:</b> Alice<br><b>Priority:</b> High<br><b>Progress:</b> 50%"
    );
    assert!(rendered.contains("issues/42"));
    assert!(rendered.contains("Alice"));
    assert!(rendered.contains("High"));
    assert!(rendered.contains("50%"));
}

#[test]
fn issue_list_rendering() {
    let list = Issues {
        issues: vec![sample_issue(42, "Bug", "Alice", "High", 50)],
        total_count: 1,
        offset: 0,
        limit: 25,
    };
    let rendered = list.as_message("https://rm");
    assert_eq!(
        rendered,
        "<b>Issues:</b> 42<br><b>Info:</b><br><br>\
         <b>Issue name:</b> <a href=\"https://rm/issues/42\">Bug</a><br>\
         <b>Author:</b> Alice<br><b>Priority:</b> High<br><b>Progress:</b> 50%"
    );
}

#[test]
fn issue_list_ids_in_order() {
    let list = Issues {
        issues: vec![
            sample_issue(7, "a", "x", "Low", 0),
            sample_issue(42, "b", "y", "High", 10),
            sample_issue(9, "c", "z", "Low", 100),
        ],
        total_count: 3,
        offset: 0,
        limit: 25,
    };
    let rendered = list.as_message("u");
    assert!(rendered.starts_with("<b>Issues:</b> 7, 42, 9<br><b>Info:</b>"));
    let header: &str = rendered.split("<br>").next().unwrap();
    assert_eq!(header, "<b>Issues:</b> 7, 42, 9");
    assert_eq!(header.matches("42").count(), 1);
}

#[test]
fn empty_list_rendering() {
    let list = Issues::default();
    assert_eq!(list.as_message("u"), "<b>Issues:</b> <br><b>Info:</b>");
}

#[test]
fn rendering_is_repeatable() {
    let issue = sample_issue(3, "s", "a", "p", 99);
    assert_eq!(issue.as_message("base"), issue.as_message("base"));
}

#[test]
fn defaults_are_empty() {
    let base = Base::default();
    assert_eq!(base.id, 0);
    assert_eq!(base.name, "");
    let issue = Issue::default();
    assert_eq!(issue.id, 0);
    assert_eq!(issue.done_ratio, 0);
    assert!(issue.assigned_to.is_none());
    assert!(!issue.is_private);
    let list = Issues::default();
    assert_eq!(list.issues.len(), 0);
    assert_eq!(list.total_count, 0);
}
