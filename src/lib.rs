pub mod ast;
pub mod signature;

pub use ast::{FormalArgument, Function, Statement, Type};
pub use signature::{function_to_type, type_to_function};
