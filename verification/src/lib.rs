//! A verified pipeline for Markdown documents with YAML front matter.
//!
//! A document may open with a front-matter block delimited by lines of `---`.
//! The library detects that block, parses it into a fixed [`FrontMatter`]
//! record with defaults for omitted fields, serializes the record as JSON,
//! strips the block from the document, and renders the remaining Markdown
//! body as HTML.
//!
//! Delimiter lines are recognized with LF line endings only; in a document
//! with CRLF line endings the `---` lines are not delimiters, and the whole
//! document is treated as body.

pub mod front_matter;
pub mod scan;
pub mod json;
pub mod errors;
pub mod yaml;
pub mod html;
pub mod pipeline;

pub use errors::ConvertError;
pub use front_matter::FrontMatter;
pub use pipeline::DocumentOutput;
pub use pipeline::convert_document;
pub use pipeline::decode_document;
