pub mod hashing;
