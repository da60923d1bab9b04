//! Windows `.reg` file parsing.

pub mod decode;
pub mod parse;
pub mod string;
pub mod value;
