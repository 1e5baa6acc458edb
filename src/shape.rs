pub mod triangle;
