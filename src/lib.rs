pub mod graph;
pub mod repository;
pub mod git;
pub mod errors;
pub mod branches;
