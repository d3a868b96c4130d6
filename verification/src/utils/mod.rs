pub mod bytes;
pub mod json;
pub mod text;
pub mod time;
pub mod writer;
