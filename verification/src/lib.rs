pub mod atom;
pub mod codec;
pub mod data;
pub mod tree;
