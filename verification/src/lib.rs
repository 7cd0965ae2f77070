//! Extra combinators for `Option` and `Result`: fail-fast chaining, recovery, error
//! remapping and unit-discarding, each with a contract that says what comes out.

pub mod option;
pub mod result;

pub use option::OptionExt;
pub use result::IntoErr;
pub use result::IntoOk;
pub use result::Merge;
pub use result::ResultExt;
