//! Backend that lowers validated method invocations into the promise
//! agent's instruction model: a calling promise plus a generated bundle
//! carrying reporting, guarding and dry-run bracketing.

pub mod bundle;
pub mod cfengine;
pub mod cli;
pub mod condition;
pub mod dry_run_mode;
pub mod method_call;
pub mod promise;
pub mod technique;
