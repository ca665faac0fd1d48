// Finding a GitHub repository to clone: what to ask the API for, how to read its
// answers, the listing shown in the selector, and the clone that a chosen line asks for.
pub mod error;
pub mod json;
pub mod text;
pub mod response;
pub mod render;
pub mod resolve;
pub mod selection;
pub mod session;
pub mod config;
