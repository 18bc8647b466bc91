pub mod builder;
pub mod bytes;
pub mod class_codes;
pub mod control;
pub mod fixed_vec;
pub mod function;
pub mod laws;
pub mod request;
pub mod settings;
pub mod source;
pub mod speaker;
pub mod sync;
pub mod terminal_type;
pub mod types;
pub mod wire_laws;
