pub mod coroutines;
