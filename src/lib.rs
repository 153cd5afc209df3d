//! Front-end argument resolution for a directory and file inspection tool.
//!
//! The invocation arguments are captured once into an
//! [`arguments_parse::ArgumentsParser`], which answers two questions: whether
//! help was asked for, and which path the rest of the program should work on.
pub mod arguments_parse;
