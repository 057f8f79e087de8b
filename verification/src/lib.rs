//! A verified model of a minimal file-upload flow: a multipart counting
//! operation that tallies the bytes of a streamed upload, and the
//! client-side action lifecycle that submits a form and displays the
//! settled result.

pub mod action;
pub mod display;
pub mod laws;
pub mod multipart;
