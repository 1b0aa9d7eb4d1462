pub mod ast;
pub mod error;
pub mod functions;
pub mod items;
pub mod list;
pub mod utils;
pub mod walkers;
