pub mod enum_item;
pub mod fn_item;
pub mod implementation_item;
pub mod item;
pub mod merge;
pub mod module_item;
pub mod other_item;
pub mod source_file;
pub mod struct_item;
pub mod use_item;
