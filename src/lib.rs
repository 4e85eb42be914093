//! A small library of language-tour pieces: the decisions of a lock-guarded
//! shared counter that notifies once it reaches its target, a first-element
//! lookup that fails with a typed error, and the lines that the ownership
//! demonstrations print.
pub mod counter;
pub mod lookup;
pub mod ownership;
pub mod text;
