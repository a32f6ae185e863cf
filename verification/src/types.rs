pub mod result;
pub mod testcase;
