//! The lines that a run prints about packages and their versions.

use crate::packages::{Container, ContainerView, Metadata, MetadataView, Package, PackageView};
use crate::text::{decimal_text, push_decimal};
use vstd::prelude::*;
use vstd::string::StringExecFns;

verus! {

/// What precedes a package's name in the line that opens its part of the report.
pub const HEADING: &'static str = "Package: ";

/// The line that opens a listing.
pub const LISTING_NOTICE: &'static str = "Printing lists...";

/// The line that opens a collection pass.
pub const COLLECTING_NOTICE: &'static str = "Running GC...";

/// The warning about a version without tags.
pub const MISSING_TAG_WARNING: &'static str = "Tag Not Found";

/// The line that opens the report on a package.
pub open spec fn heading_text(package_name: Seq<char>) -> Seq<char> {
    HEADING@ + package_name
}

/// The condensed line of a version: when it was created, then its first tag or the
/// placeholder.
pub open spec fn condensed_text(package: PackageView) -> Seq<char> {
    package.created_at + " "@ + package.shown_tag()
}

/// The line that announces the deletion of a version: its identifier, then its first
/// tag or the placeholder.
pub open spec fn deletion_text(package: PackageView) -> Seq<char> {
    "Deleting: "@ + decimal_text(package.id as int) + "; tag:"@ + package.shown_tag()
}

/// What Rust's `Debug` writes for a string slice: the text between double quotes, with
/// the characters that need it escaped.
pub uninterp spec fn quoted_text(text: Seq<char>) -> Seq<char>;

/// The tags of a record in its layout, one to a line.
pub open spec fn tag_lines(tags: Seq<Seq<char>>) -> Seq<char>
    decreases tags.len(),
{
    if tags.len() == 0 {
        Seq::empty()
    } else {
        tag_lines(tags.drop_last()) + "                "@ + tags.last() + ",\n"@
    }
}

/// The list of tags in a record's layout.
pub open spec fn tags_layout(tags: Seq<Seq<char>>) -> Seq<char> {
    if tags.len() == 0 {
        "[]"@
    } else {
        "[\n"@ + tag_lines(tags) + "            ]"@
    }
}

/// The layout of a record: every field under its name, one to a line, nested values
/// indented by four spaces a level, each text written as it stands.
pub open spec fn layout_text(package: PackageView) -> Seq<char> {
    "Package {\n    id: "@ + decimal_text(package.id as int) + ",\n    name: "@ + package.name
        + ",\n    url: "@ + package.url + ",\n    package_html_url: "@ + package.package_html_url
        + ",\n    created_at: "@ + package.created_at + ",\n    updated_at: "@
        + package.updated_at + ",\n    html_url: "@ + package.html_url
        + ",\n    metadata: Metadata {\n        package_type: "@ + package.metadata.package_type
        + ",\n        container: Container {\n            tags: "@ + tags_layout(package.tags())
        + ",\n        },\n    },\n}"@
}

/// The record with each of its texts quoted.
pub open spec fn quoted(package: PackageView) -> PackageView {
    PackageView {
        id: package.id,
        name: quoted_text(package.name),
        url: quoted_text(package.url),
        package_html_url: quoted_text(package.package_html_url),
        created_at: quoted_text(package.created_at),
        updated_at: quoted_text(package.updated_at),
        html_url: quoted_text(package.html_url),
        metadata: MetadataView {
            package_type: quoted_text(package.metadata.package_type),
            container: ContainerView {
                tags: package.tags().map_values(|tag: Seq<char>| quoted_text(tag)),
            },
        },
    }
}

/// The full representation of a record: its layout with every text quoted.
pub open spec fn raw_text(package: PackageView) -> Seq<char> {
    layout_text(quoted(package))
}

/// The `Debug` implementation of `str`, through `format!`: the result is the quoted
/// form of the text, which depends on the text alone.
#[verifier::external_body]
fn quote(text: &str) -> (quoted: String)
    ensures
        quoted@ == quoted_text(text@),
{
    format!("{:?}", text)
}

/// The line that opens the report on a package.
pub fn heading(package_name: &str) -> (line: String)
    ensures
        line@ == heading_text(package_name@),
{
    let mut line = String::from_str(HEADING);
    line.append(package_name);
    line
}

/// The condensed line of a version. Every record has one: a version without tags shows
/// the placeholder.
pub fn condensed_line(package: &Package) -> (line: String)
    ensures
        line@ == condensed_text(package@),
{
    let mut line = String::from_str(package.created_at.as_str());
    line.append(" ");
    line.append(package.shown_tag());
    line
}

/// The line that announces the deletion of a version.
pub fn deletion_line(package: &Package) -> (line: String)
    ensures
        line@ == deletion_text(package@),
{
    let mut line = String::from_str("Deleting: ");
    push_decimal(&mut line, package.id);
    line.append("; tag:");
    line.append(package.shown_tag());
    line
}

/// The layout of a record, each text written as it stands.
pub fn layout(package: &Package) -> (text: String)
    ensures
        text@ == layout_text(package@),
{
    let mut text = String::from_str("Package {\n    id: ");
    push_decimal(&mut text, package.id);
    text.append(",\n    name: ");
    text.append(package.name.as_str());
    text.append(",\n    url: ");
    text.append(package.url.as_str());
    text.append(",\n    package_html_url: ");
    text.append(package.package_html_url.as_str());
    text.append(",\n    created_at: ");
    text.append(package.created_at.as_str());
    text.append(",\n    updated_at: ");
    text.append(package.updated_at.as_str());
    text.append(",\n    html_url: ");
    text.append(package.html_url.as_str());
    text.append(",\n    metadata: Metadata {\n        package_type: ");
    text.append(package.metadata.package_type.as_str());
    text.append(",\n        container: Container {\n            tags: ");
    let ghost before = text@;
    let tags = &package.metadata.container.tags;
    if tags.len() == 0 {
        text.append("[]");
    } else {
        text.append("[\n");
        let mut i: usize = 0;
        while i < tags.len()
            invariant
                i <= tags.len(),
                tags@.map_values(|tag: String| tag@) == package@.tags(),
                text@ == before + "[\n"@ + tag_lines(package@.tags().take(i as int)),
            decreases tags.len() - i,
        {
            proof {
                let shown = package@.tags().take(i + 1);
                assert(shown.drop_last() =~= package@.tags().take(i as int));
            }
            text.append("                ");
            text.append(tags[i].as_str());
            text.append(",\n");
            i += 1;
        }
        assert(package@.tags().take(i as int) =~= package@.tags());
        text.append("            ]");
    }
    text.append(",\n        },\n    },\n}");
    text
}

/// The record with each of its texts quoted.
pub fn quote_fields(package: &Package) -> (copy: Package)
    ensures
        copy@ == quoted(package@),
{
    let tags = &package.metadata.container.tags;
    let mut quoted_tags: Vec<String> = Vec::new();
    let mut i: usize = 0;
    while i < tags.len()
        invariant
            i <= tags.len(),
            quoted_tags@.len() == i,
            forall|k: int| 0 <= k < i ==> (#[trigger] quoted_tags@[k])@ == quoted_text(tags@[k]@),
        decreases tags.len() - i,
    {
        quoted_tags.push(quote(tags[i].as_str()));
        i += 1;
    }
    let copy = Package {
        id: package.id,
        name: quote(package.name.as_str()),
        url: quote(package.url.as_str()),
        package_html_url: quote(package.package_html_url.as_str()),
        created_at: quote(package.created_at.as_str()),
        updated_at: quote(package.updated_at.as_str()),
        html_url: quote(package.html_url.as_str()),
        metadata: Metadata {
            package_type: quote(package.metadata.package_type.as_str()),
            container: Container { tags: quoted_tags },
        },
    };
    assert(copy@.tags() =~= quoted(package@).tags());
    copy
}

/// The full representation of a record.
pub fn raw_record(package: &Package) -> (text: String)
    ensures
        text@ == raw_text(package@),
{
    layout(&quote_fields(package))
}

} // verus!
