//! Files uploaded with a message.

use vstd::prelude::*;

verus! {

/// A file uploaded with a message.
#[derive(Clone, Debug)]
pub struct Attachment {
    /// The unique identifier of the attachment.
    pub id: String,
    /// The name that the uploader gave to the file.
    pub filename: String,
    /// The height of the image, if the file is one.
    pub height: Option<u64>,
    /// The address of the proxy that serves the file.
    pub proxy_url: String,
    /// The size of the file in bytes.
    pub size: u64,
    /// The address of the file.
    pub url: String,
    /// The width of the image, if the file is one.
    pub width: Option<u64>,
}

} // verus!
