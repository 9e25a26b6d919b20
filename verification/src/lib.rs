pub mod registry;
pub mod settings;
pub mod tree;
pub mod util;
