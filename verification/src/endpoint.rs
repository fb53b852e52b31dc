//! The addresses of the registry's version endpoints.

use crate::text::{decimal_text, push_decimal};
use vstd::prelude::*;
use vstd::string::StringExecFns;

verus! {

/// The address under which the registry lists the packages of the token's user.
pub const API_ROOT: &'static str = "https://api.github.com/user/packages/";

/// The last segment of the address of a package's version list.
pub const VERSIONS: &'static str = "/versions";

/// The package type of container images, the only one that a run asks for.
pub const PACKAGE_TYPE: &'static str = "container";

/// The address of the version list of a package.
pub open spec fn versions_address(package_type: Seq<char>, package_name: Seq<char>) -> Seq<char> {
    API_ROOT@ + package_type + "/"@ + package_name + VERSIONS@
}

/// The address of one version of a package.
pub open spec fn version_address(
    package_type: Seq<char>,
    package_name: Seq<char>,
    id: i64,
) -> Seq<char> {
    versions_address(package_type, package_name) + "/"@ + decimal_text(id as int)
}

/// The address that answers a GET with the version list of a package.
pub fn versions_url(package_type: &str, package_name: &str) -> (url: String)
    ensures
        url@ == versions_address(package_type@, package_name@),
{
    let mut url = String::from_str(API_ROOT);
    url.append(package_type);
    url.append("/");
    url.append(package_name);
    url.append(VERSIONS);
    url
}

/// The address that answers a DELETE by removing one version of a package.
pub fn version_url(package_type: &str, package_name: &str, id: i64) -> (url: String)
    ensures
        url@ == version_address(package_type@, package_name@, id),
{
    let mut url = versions_url(package_type, package_name);
    url.append("/");
    push_decimal(&mut url, id);
    url
}

} // verus!
