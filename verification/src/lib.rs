//! Verified core of a static-site development server.
//!
//! The library models the build pipeline of a small documentation site
//! generator: source documents are rendered to HTML, wrapped in a page
//! template, and written into an output tree that a file server reads.
//! Filesystem watch notifications are funnelled into ordered events, a
//! single-consumer driver applies them one at a time, and a reload
//! broadcaster fans a signal out to connected browsers.

pub mod builder;
pub mod config;
pub mod driver;
pub mod events;
pub mod server;
pub mod sse;
pub mod paths;
pub mod render;
pub mod template;
pub mod tree;
