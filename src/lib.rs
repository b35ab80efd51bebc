pub mod declared;
pub mod descriptor;
pub mod error;
pub mod harness;
pub mod module;
pub mod native;
pub mod text;
pub mod value;
