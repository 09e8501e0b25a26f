//! Fetch-one-page link extraction.
//!
//! Given the URL an HTML document was served from and the document's text,
//! the library resolves every anchor's `href` into an absolute,
//! fragment-free URL and returns the links in document order. Fetching the
//! page is left to the caller; the library only decides what the fetched
//! document links to.

pub mod errors;
pub mod extract;
pub mod urls;
