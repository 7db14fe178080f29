//! Validation callback dispatcher for a shared, append-only entry store.
//!
//! An incoming entry is classified by its declared type; application-defined
//! types are routed to the application module that owns validation for that
//! type, by building an invocation of the module's `validate_<type>` function
//! and interpreting the sandboxed module's response. System-reserved types are
//! short-circuited: the application descriptor always passes, the rest are not
//! delegated to application code.

pub mod call;
pub mod dispatch;
pub mod json;
pub mod laws;
pub mod registry;
pub mod types;

pub use dispatch::validate_entry;
pub use types::CallbackResult;
