pub mod borrow;
pub mod decimal;
pub mod error;
pub mod generic;
pub mod rectangle;
pub mod slices;
pub mod summary;
