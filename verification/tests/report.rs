use github_package_gc::packages::{Container, Metadata, Package};
use github_package_gc::report::{condensed_line, deletion_line, heading, layout, raw_record};
use github_package_gc::text::decimal;

fn record(id: i64, created_at: &str, tags: &[&str]) -> Package {
    Package {
        id,
        name: format!("sha256:{id}"),
        url: format!("https://api.github.com/users/o/packages/container/p/versions/{id}"),
        package_html_url: "https://github.com/users/o/packages/container/package/p".to_string(),
        created_at: created_at.to_string(),
        updated_at: created_at.to_string(),
        html_url: format!("https://github.com/users/o/packages/container/p/{id}"),
        metadata: Metadata {
            package_type: "container".to_string(),
            container: Container { tags: tags.iter().map(|tag| tag.to_string()).collect() },
        },
    }
}

#[test]
fn decimal_matches_display() {
    for n in [0i64, 7, 10, 42, 99, 100, 1234567890, -1, -10, -987, i64::MAX, i64::MIN, i64::MIN + 1] {
        assert_eq!(decimal(n), format!("{}", n));
    }
}

#[test]
fn decimal_of_the_smallest_integer() {
    assert_eq!(decimal(i64::MIN), "-9223372036854775808");
}

#[test]
fn heading_names_the_package() {
    assert_eq!(heading("web"), "Package: web");
}

#[test]
fn condensed_line_shows_timestamp_and_first_tag() {
    let package = record(3, "2023-01-02T03:04:05Z", &["latest", "v1"]);
    assert_eq!(condensed_line(&package), "2023-01-02T03:04:05Z latest");
}

#[test]
fn condensed_line_shows_placeholder_without_tags() {
    let package = record(3, "2023-01-02T03:04:05Z", &[]);
    assert_eq!(condensed_line(&package), "2023-01-02T03:04:05Z <Unkown>");
}

#[test]
fn condensed_line_exists_for_an_empty_record() {
    assert_eq!(condensed_line(&Package::default()), " <Unkown>");
}

#[test]
fn deletion_line_shows_identifier_and_first_tag() {
    let package = record(77, "2023-01-02T03:04:05Z", &["v1"]);
    assert_eq!(deletion_line(&package), "Deleting: 77; tag:v1");
    let untagged = record(-5, "2023-01-02T03:04:05Z", &[]);
    assert_eq!(deletion_line(&untagged), "Deleting: -5; tag:<Unkown>");
}

#[test]
fn raw_record_matches_pretty_debug() {
    let tagged = record(12, "2023-01-02T03:04:05Z", &["latest", "v\"1\"", "tab\there"]);
    assert_eq!(raw_record(&tagged), format!("{:#?}", tagged));
    let untagged = record(-12, "line\nbreak \\ and é", &[]);
    assert_eq!(raw_record(&untagged), format!("{:#?}", untagged));
    assert_eq!(raw_record(&Package::default()), format!("{:#?}", Package::default()));
}

#[test]
fn raw_record_quotes_every_text() {
    let package = record(1, "now", &["a"]);
    let text = raw_record(&package);
    assert!(text.contains("created_at: \"now\","));
    assert!(text.contains("                \"a\",\n"));
    assert_ne!(text, layout(&package));
    assert!(layout(&package).contains("created_at: now,"));
}
