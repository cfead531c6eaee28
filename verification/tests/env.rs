use rekcod::env::{lookup, parse, parse_line, EnvManager};
use rekcod::kvs::KvsForDb;
use rekcod::text::{lines, split_once};

fn pair(k: &str, v: &str) -> (String, String) {
    (k.to_string(), v.to_string())
}

#[test]
fn lines_split_like_text_lines() {
    assert_eq!(lines(""), Vec::<String>::new());
    assert_eq!(lines("a"), vec!["a"]);
    assert_eq!(lines("a\n"), vec!["a"]);
    assert_eq!(lines("a\n\n"), vec!["a", ""]);
    assert_eq!(lines("\n"), vec![""]);
    assert_eq!(lines("a\r\nb"), vec!["a", "b"]);
    assert_eq!(lines("a\rb\r"), vec!["a\rb\r"]);
    assert_eq!(lines("a\r\n"), vec!["a"]);
    assert_eq!(lines("é=ü\nx"), vec!["é=ü", "x"]);
    for text in ["", "a", "a\n", "\n\n", "a\r\n\r\nb\r", "x\ny\nz\n"] {
        let expected: Vec<String> = text.lines().map(|l| l.to_string()).collect();
        assert_eq!(lines(text), expected);
    }
}

#[test]
fn split_once_at_first_separator() {
    assert_eq!(split_once("a=b=c", '='), Some(pair("a", "b=c")));
    assert_eq!(split_once("=b", '='), Some(pair("", "b")));
    assert_eq!(split_once("a=", '='), Some(pair("a", "")));
    assert_eq!(split_once("abc", '='), None);
    assert_eq!(split_once("", '='), None);
}

#[test]
fn entries_comments_and_blank_lines() {
    assert_eq!(parse_line("A=1"), Some(pair("A", "1")));
    assert_eq!(parse_line("# A=1"), None);
    assert_eq!(parse_line(""), None);
    assert_eq!(parse_line("no separator"), None);
    assert_eq!(parse_line(" #x=1"), Some(pair(" #x", "1")));
}

#[test]
fn text_defines_environment() {
    let entries = parse("# global\nA=1\n\nB=two=2\nnoise\nA=3\n");
    assert_eq!(lookup(&entries, "A"), Some("3".to_string()));
    assert_eq!(lookup(&entries, "B"), Some("two=2".to_string()));
    assert_eq!(lookup(&entries, "C"), None);
    assert_eq!(lookup(&entries, "noise"), None);
}

#[test]
fn cache_is_empty_until_loaded() {
    let mut m = EnvManager::new();
    assert!(!m.is_loaded());
    assert_eq!(m.get("A"), None);
    assert!(m.get_all().is_none());
    let row = KvsForDb::new("env", "global", "", "A=1\nB=2");
    m.load(Some(&row));
    assert!(m.is_loaded());
    assert_eq!(m.get("A"), Some("1".to_string()));
    assert_eq!(m.get("missing"), None);
    // a second load keeps what is held
    let other = KvsForDb::new("env", "global", "", "A=9");
    m.load(Some(&other));
    assert_eq!(m.get("A"), Some("1".to_string()));
}

#[test]
fn missing_row_is_empty_environment() {
    let mut m = EnvManager::new();
    m.load(None);
    assert!(m.is_loaded());
    assert_eq!(m.get_all().unwrap().len(), 0);
    assert_eq!(EnvManager::get_from_db(None).len(), 0);
}

#[test]
fn write_busts_the_cache() {
    let mut m = EnvManager::new();
    m.set("A=1");
    assert_eq!(m.get("A"), Some("1".to_string()));
    m.invalidate();
    assert!(!m.is_loaded());
    let row = KvsForDb::new("env", "global", "", "A=2");
    m.load(Some(&row));
    assert_eq!(m.get("A"), Some("2".to_string()));
}

#[test]
fn set_replaces_the_environment() {
    let mut m = EnvManager::new();
    m.set("A=1\nB=2");
    m.set("B=3");
    assert_eq!(m.get("A"), None);
    assert_eq!(m.get("B"), Some("3".to_string()));
    assert_eq!(m.get_all().unwrap(), vec![pair("B", "3")]);
}
