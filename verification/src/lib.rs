//! Sans-I/O core of a garbage collector for the package versions of a registry
//! account: the version records, the retention rule, the text and the requests of
//! each command, and the session that tells its driver what to print and what to
//! ask of the registry next.

pub mod endpoint;
pub mod error;
pub mod headers;
pub mod packages;
pub mod report;
pub mod retention;
pub mod runs;
pub mod session;
pub mod text;
