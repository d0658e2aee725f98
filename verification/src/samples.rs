//! Small programs with interface methods, inherent methods and guarded
//! calls, for exercising the analysis.

pub mod a;
pub mod fun_method;
