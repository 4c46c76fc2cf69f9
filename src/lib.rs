//! Evaluation core of a JSON logic engine: operator registries, recognition
//! of operator calls, the short-circuiting control-flow operators and the
//! truthiness predicate.

pub mod error;
pub mod js_op;
pub mod op;
pub mod value;
