pub mod config;
pub mod kinds;
pub mod registry;
pub mod value;
pub mod variable;
