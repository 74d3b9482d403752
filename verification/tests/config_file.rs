use arctica::config::{config_entries, read_report, update_config};
use arctica::text::split_on;

fn entries(contents: &str) -> Vec<(String, String)> {
    config_entries(contents)
}

fn pair(n: &str, v: &str) -> (String, String) {
    (n.to_string(), v.to_string())
}

#[test]
fn split_keeps_empty_pieces() {
    assert_eq!(split_on("a=b\n\nc", '\n'), vec!["a=b".to_string(), String::new(), "c".to_string()]);
    assert_eq!(split_on("", '='), vec![String::new()]);
    assert_eq!(split_on("x=y=", '='), vec!["x".to_string(), "y".to_string(), String::new()]);
}

#[test]
fn entries_need_exactly_one_equals_sign() {
    let contents = "type=sdcard\nbroken\na=b=c\n=empty\nsdNumber=2\n";
    assert_eq!(
        entries(contents),
        vec![pair("type", "sdcard"), pair("", "empty"), pair("sdNumber", "2")]
    );
}

#[test]
fn update_replaces_existing_value() {
    let contents = "type=sdcard\nsdNumber=2\n";
    assert_eq!(update_config(contents, "sdNumber", "3"), "type=sdcard\nsdNumber=3\n");
}

#[test]
fn update_appends_missing_name_without_newline() {
    assert_eq!(update_config("type=sdcard\n", "setupStep", "4"), "type=sdcard\nsetupStep=4");
    assert_eq!(update_config("", "type", "sdcard"), "type=sdcard");
}

#[test]
fn update_drops_lines_without_entries() {
    assert_eq!(update_config("junk\na=1\nb=2=3\n", "a", "9"), "a=9\n");
}

#[test]
fn update_replaces_every_value_under_the_name() {
    assert_eq!(update_config("a=1\nb=2\na=3", "a", "x"), "a=x\nb=2\na=x\n");
}

#[test]
fn written_value_reads_back() {
    let once = update_config("type=sdcard\nsdNumber=1", "sdNumber", "5");
    let found: Vec<(String, String)> = entries(&once).into_iter().filter(|e| e.0 == "sdNumber").collect();
    assert_eq!(found, vec![pair("sdNumber", "5")]);
    let fresh = update_config("type=sdcard", "setupStep", "2");
    assert_eq!(entries(&fresh), vec![pair("type", "sdcard"), pair("setupStep", "2")]);
}

#[test]
fn last_write_wins() {
    let twice = update_config(&update_config("x=0\n", "k", "first"), "k", "second");
    let once = update_config("x=0\n", "k", "second");
    assert_eq!(entries(&twice), entries(&once));
    assert_eq!(entries(&twice), vec![pair("x", "0"), pair("k", "second")]);
}

#[test]
fn read_report_lists_entries() {
    assert_eq!(
        read_report("type=sdcard\nnoise\nsdNumber=2"),
        vec!["read line: type=sdcard".to_string(), "read line: sdNumber=2".to_string()]
    );
    assert!(read_report("").is_empty());
}

#[test]
fn third_write_is_a_fixed_point() {
    let first = update_config("", "a", "1");
    let second = update_config(&first, "a", "1");
    let third = update_config(&second, "a", "1");
    assert_eq!(first, "a=1");
    assert_eq!(second, "a=1\n");
    assert_eq!(third, second);
    let messy = "junk\nb=2\na=0\n";
    let twice = update_config(&update_config(messy, "a", "7"), "a", "7");
    assert_eq!(update_config(&twice, "a", "7"), twice);
}

#[test]
fn written_line_appears_in_file() {
    let text = update_config("b=2\na=0\nx", "a", "5");
    let lines = split_on(&text, '\n');
    assert!(lines.contains(&"a=5".to_string()));
    assert!(lines.iter().filter(|l| l.starts_with("a=")).all(|l| l == "a=5"));
}
