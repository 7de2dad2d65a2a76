//! Intake of a submitted post: the multipart fields of one request are
//! demultiplexed into text and an uploaded image, and assembled into a
//! validated post.

pub mod assemble;
pub mod demux;
pub mod error;
pub mod post;
pub mod request;
pub mod submit;
pub mod text;
pub mod upload;
pub mod user;
