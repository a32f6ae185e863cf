pub mod digits;
pub mod discovery;
pub mod evaluator;
pub mod printer;
pub mod types;
