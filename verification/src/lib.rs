//! A client core for the anonymous visitor API of Weibo and for the images of
//! its posts, without any I/O of its own.
//!
//! The library decides and computes; the caller sends and stores. A `Client`
//! walks through the two-step handshake that makes a session an authenticated
//! one, reads the image ids out of a post's page and names the file for each
//! image. A `Downloader` hands out the images of a batch so that no more than a
//! given number are fetched at one time, and adds up what was written.

pub mod client;
pub mod download;
pub mod errors;
pub mod image;
pub mod locator;
pub mod request;
pub mod response;
pub mod text;

pub use client::{Action, Client, Event, Stage};
pub use download::{Downloader, Step};
pub use errors::Error;
pub use request::{Method, Request, Settings};
pub use response::{Api, GenVisitor, Visitor};
