pub mod handle;
