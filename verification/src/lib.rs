pub mod catalog;
pub mod paths;
pub mod results;
pub mod store;
