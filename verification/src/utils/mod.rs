pub mod name_conventions;
pub mod path;
pub mod statement;
pub mod text;
