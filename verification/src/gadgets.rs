//! The gadget algebra: every module adds one family of constraints to a
//! constraint system, with a contract that pins the exact operation
//! sequence it appends.

pub mod boolean;
pub mod cond_select;
pub mod edwards_point;
pub mod point_addition;
pub mod point_doubling;
pub mod scalar;
pub mod sk_knowledge;
