pub mod scalar;
pub mod arithmetic;
pub mod two_dimension;
pub mod laws;
