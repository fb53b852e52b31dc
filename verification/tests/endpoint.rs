use github_package_gc::endpoint::{version_url, versions_url, PACKAGE_TYPE};

#[test]
fn versions_url_names_type_and_package() {
    assert_eq!(
        versions_url("container", "web"),
        "https://api.github.com/user/packages/container/web/versions"
    );
    assert_eq!(PACKAGE_TYPE, "container");
}

#[test]
fn version_url_ends_in_the_identifier() {
    assert_eq!(
        version_url("container", "web", 123456789),
        "https://api.github.com/user/packages/container/web/versions/123456789"
    );
    assert_eq!(
        version_url(PACKAGE_TYPE, "a", 5),
        "https://api.github.com/user/packages/container/a/versions/5"
    );
}

#[test]
fn urls_take_names_as_they_are() {
    assert_eq!(versions_url("", ""), "https://api.github.com/user/packages///versions");
    assert_eq!(
        version_url("npm", "org/pkg name", -1),
        "https://api.github.com/user/packages/npm/org/pkg name/versions/-1"
    );
}
