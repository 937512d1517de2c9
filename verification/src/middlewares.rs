pub mod role;
