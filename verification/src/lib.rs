//! A client library for the LINE Notify API.
//!
//! A [`LineNotify`] value holds a bearer token together with the optional
//! payload fields of a notification: a text message, a thumbnail/full-size
//! image URL pair, and a local image file. The library validates a
//! configuration, assembles the multipart form that goes over the wire, and
//! models the response that comes back; the file read and the HTTP exchange
//! themselves are left to the embedding application.

pub mod client;
pub mod multipart;
pub mod parts;
pub mod path;
pub mod response;

pub use client::LineNotify;
pub use client::NotifyError;
pub use client::NotifyView;
pub use client::api_url;
pub use multipart::to_multipart;
pub use parts::FormPart;
pub use parts::PartView;
pub use path::basename;
pub use response::HttpResponse;
pub use response::finish_send;
