//! Version records as the registry's list endpoint describes them.

use vstd::prelude::*;

verus! {

/// The response of the list endpoint: one record per published version, newest first.
pub type Packages = Vec<Package>;

/// What stands for a version without tags wherever its first tag is shown.
pub const UNKNOWN_TAG: &'static str = "<Unkown>";

/// One published version of a package.
#[derive(Debug, Clone, PartialEq)]
pub struct Package {
    pub id: i64,
    pub name: String,
    pub url: String,
    pub package_html_url: String,
    pub created_at: String,
    pub updated_at: String,
    pub html_url: String,
    pub metadata: Metadata,
}

/// What the registry records about a version besides its identity.
#[derive(Debug, Clone, PartialEq)]
pub struct Metadata {
    pub package_type: String,
    pub container: Container,
}

/// The container image behind a version.
#[derive(Debug, Clone, PartialEq)]
pub struct Container {
    pub tags: Vec<String>,
}

/// A container as a mathematical value.
pub struct ContainerView {
    pub tags: Seq<Seq<char>>,
}

/// Metadata as a mathematical value.
pub struct MetadataView {
    pub package_type: Seq<char>,
    pub container: ContainerView,
}

/// A version record as a mathematical value.
pub struct PackageView {
    pub id: i64,
    pub name: Seq<char>,
    pub url: Seq<char>,
    pub package_html_url: Seq<char>,
    pub created_at: Seq<char>,
    pub updated_at: Seq<char>,
    pub html_url: Seq<char>,
    pub metadata: MetadataView,
}

impl View for Container {
    type V = ContainerView;

    open spec fn view(&self) -> ContainerView {
        ContainerView { tags: self.tags@.map_values(|tag: String| tag@) }
    }
}

impl View for Metadata {
    type V = MetadataView;

    open spec fn view(&self) -> MetadataView {
        MetadataView { package_type: self.package_type@, container: self.container@ }
    }
}

impl View for Package {
    type V = PackageView;

    open spec fn view(&self) -> PackageView {
        PackageView {
            id: self.id,
            name: self.name@,
            url: self.url@,
            package_html_url: self.package_html_url@,
            created_at: self.created_at@,
            updated_at: self.updated_at@,
            html_url: self.html_url@,
            metadata: self.metadata@,
        }
    }
}

/// The records of a list as mathematical values, in the list's order.
pub open spec fn views(packages: Seq<Package>) -> Seq<PackageView> {
    packages.map_values(|package: Package| package@)
}

impl ContainerView {
    /// The first tag, or the placeholder where there is none.
    pub open spec fn shown_tag(self) -> Seq<char> {
        if self.tags.len() > 0 {
            self.tags[0]
        } else {
            UNKNOWN_TAG@
        }
    }
}

impl PackageView {
    /// The tags of the version's image, in the registry's order.
    pub open spec fn tags(self) -> Seq<Seq<char>> {
        self.metadata.container.tags
    }

    /// Whether the version carries at least one tag.
    pub open spec fn tagged(self) -> bool {
        self.tags().len() > 0
    }

    /// The first tag, or the placeholder where there is none.
    pub open spec fn shown_tag(self) -> Seq<char> {
        self.metadata.container.shown_tag()
    }
}

impl Default for Container {
    fn default() -> (container: Container)
        ensures
            container@.tags == Seq::<Seq<char>>::empty(),
    {
        Container { tags: Vec::new() }
    }
}

impl Default for Metadata {
    fn default() -> (metadata: Metadata)
        ensures
            metadata@.package_type == Seq::<char>::empty(),
            metadata@.container.tags == Seq::<Seq<char>>::empty(),
    {
        Metadata { package_type: String::new(), container: Container::default() }
    }
}

impl Default for Package {
    fn default() -> (package: Package)
        ensures
            package@.id == 0,
            package@.name == Seq::<char>::empty(),
            package@.url == Seq::<char>::empty(),
            package@.package_html_url == Seq::<char>::empty(),
            package@.created_at == Seq::<char>::empty(),
            package@.updated_at == Seq::<char>::empty(),
            package@.html_url == Seq::<char>::empty(),
            package@.metadata.package_type == Seq::<char>::empty(),
            package@.tags() == Seq::<Seq<char>>::empty(),
    {
        Package {
            id: 0,
            name: String::new(),
            url: String::new(),
            package_html_url: String::new(),
            created_at: String::new(),
            updated_at: String::new(),
            html_url: String::new(),
            metadata: Metadata::default(),
        }
    }
}

impl Container {
    /// The first tag, if the image has one.
    pub fn first_tag(&self) -> (tag: Option<&str>)
        ensures
            match tag {
                Some(text) => self@.tags.len() > 0 && text@ == self@.tags[0],
                None => self@.tags.len() == 0,
            },
    {
        if self.tags.len() > 0 {
            Some(self.tags[0].as_str())
        } else {
            None
        }
    }

    /// The first tag, or the placeholder where the image has none.
    pub fn shown_tag(&self) -> (text: &str)
        ensures
            text@ == self@.shown_tag(),
    {
        match self.first_tag() {
            Some(text) => text,
            None => UNKNOWN_TAG,
        }
    }
}

impl Package {
    /// The first tag of the version's image, if it has one.
    pub fn first_tag(&self) -> (tag: Option<&str>)
        ensures
            match tag {
                Some(text) => self@.tagged() && text@ == self@.tags()[0],
                None => !self@.tagged(),
            },
    {
        self.metadata.container.first_tag()
    }

    /// The first tag of the version's image, or the placeholder where it has none.
    pub fn shown_tag(&self) -> (text: &str)
        ensures
            text@ == self@.shown_tag(),
    {
        self.metadata.container.shown_tag()
    }
}

} // verus!
