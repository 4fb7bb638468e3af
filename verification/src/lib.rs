pub mod hashing;
pub mod metadata;
pub mod text;
pub mod timestamp;
pub mod utils;
