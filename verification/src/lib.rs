//! Decision core of a video conversion service.
//!
//! The service receives an uploaded video, inspects it with an external
//! encoder, transcodes it to MP4 and offers the result for download. This
//! crate holds every decision of that pipeline as verified code: which
//! upload part is stored and under which name, which encoder runs are made
//! and with which arguments, how encoder diagnostics are turned into
//! messages, and which response each request ends with. Reading the request,
//! writing files and running the encoder are left to the caller, which
//! performs the actions this crate asks for and reports back what happened.

pub mod text;
pub mod ident;
pub mod classify;
pub mod outcome;
pub mod storage;
pub mod validate;
pub mod pipeline;
pub mod retrieval;
pub mod laws;
