pub mod claims;
pub mod email;
pub mod error;
pub mod handlers;
pub mod hashing;
pub mod middleware;
pub mod name;
pub mod password;
pub mod responses;
pub mod secret;
pub mod storage;
pub mod text;
pub mod token;
pub mod user;
pub mod validators;
