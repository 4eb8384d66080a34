//! A publishing client that posts verses of the Quran, each followed by a
//! reply with its translation, to a social posting API.
//!
//! The library holds the content formatting, the signing of requests, the
//! two-step post/reply protocol with its classification of responses, and the
//! decisions of the posting schedule. It performs no input or output itself:
//! the caller sends the requests it is handed and reports back what came of
//! them.

pub mod api_endpoints;
pub mod quran_csv;
pub mod schedule;
pub mod tw_api;
