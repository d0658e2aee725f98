//! A variant of the sample whose guards are calls themselves.

pub mod fun_method;
