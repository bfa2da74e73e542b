pub mod elements;
pub mod rps;
pub mod three_elements;
