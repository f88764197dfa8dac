pub mod chars;
pub mod cursor;
pub mod lexer;
pub mod scanner;
pub mod token;
