//! Request handling for a meal-tracking service: an image-analysis gateway
//! that forwards an image to a chat-completion provider, and an upload gateway
//! that stores a base64 image under a deterministic object key.

pub mod naming;
pub mod error;
pub mod json;
pub mod request;
pub mod analysis;
pub mod storage;
pub mod response;
