//! Verified core of a minimal binding layer over a compiler
//! infrastructure's C interface: compilation-context handles and the
//! enum-form / string-form attributes created inside one.
//!
//! The foreign calls themselves live outside this library; here stand the
//! parts whose behaviour can be stated and proved: the fixed mapping
//! between symbolic attribute kinds and their bit patterns, the validation
//! of attribute strings, and the classification and read-back of
//! attribute data.

pub mod attribute;
pub mod context;
