pub mod rename;
pub mod transform;
pub mod trim_path;
