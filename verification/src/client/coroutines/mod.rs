pub mod send;
