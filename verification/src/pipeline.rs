//! The whole conversion, from decoded text to record, JSON and HTML.

use vstd::prelude::*;
use vstd::utf8::encode_utf8;
use vstd::utf8::valid_utf8;
use crate::errors::ConvertError;
use crate::front_matter::FrontMatter;
use crate::front_matter::FrontMatterImage;
use crate::html::html_of;
use crate::html::render_markdown;
use crate::json::json_text;
use crate::json::front_matter_json;
use crate::scan::body_text;
use crate::scan::fm_content;
use crate::scan::has_front_matter;
use crate::scan::split_front_matter;
use crate::yaml::parse_front_matter;
use crate::yaml::parsed_front_matter;

verus! {

/// Everything one conversion produces.
pub struct DocumentOutput {
    /// The front-matter record, all defaults when the document has no block.
    pub front_matter: FrontMatter,
    /// The record serialized as pretty-printed JSON.
    pub front_matter_json: String,
    /// The Markdown body rendered as HTML.
    pub html: String,
}

/// The record (or failure) a whole document yields: its block parsed when it
/// has one, the all-defaults record when it has none.
pub open spec fn document_front_matter(input: Seq<char>) -> Result<
    FrontMatterImage,
    ConvertError,
> {
    if has_front_matter(input) {
        parsed_front_matter(fm_content(input))
    } else {
        Ok(FrontMatterImage::all_defaults())
    }
}

/// Convert one document: extract and parse its front matter, serialize the
/// record as JSON, and render the body, stripped of the block, as HTML.
/// A block whose content is longer than [`crate::yaml::MAX_FRONT_MATTER_LEN`]
/// characters is rejected as not valid YAML.
pub fn convert_document(input: &str) -> (r: Result<DocumentOutput, ConvertError>)
    ensures
        (match r {
            Ok(out) => {
                &&& document_front_matter(input@) == Ok::<FrontMatterImage, ConvertError>(
                    out.front_matter@,
                )
                &&& out.front_matter_json@ == json_text(out.front_matter@)
                &&& out.html@ == html_of(body_text(input@))
            },
            Err(e) => document_front_matter(input@) == Err::<FrontMatterImage, ConvertError>(e),
        }),
        !has_front_matter(input@) ==> (r matches Ok(out) && out.front_matter@
            == FrontMatterImage::all_defaults()),
{
    let split = split_front_matter(input);
    let front_matter = match split.front {
        Some(content) => match parse_front_matter(content.as_str()) {
            Ok(fm) => fm,
            Err(e) => {
                return Err(e);
            },
        },
        None => FrontMatter::default(),
    };
    let json_out = front_matter_json(&front_matter);
    let html_out = render_markdown(split.body.as_str());
    Ok(DocumentOutput { front_matter, front_matter_json: json_out, html: html_out })
}

/// Relies on core::str::from_utf8: Ok exactly when the bytes are valid
/// UTF-8, and then the string holds those bytes.
#[verifier::external_body]
fn utf8_to_string(bytes: &[u8]) -> (r: Option<String>)
    ensures
        (match r {
            Some(s) => valid_utf8(bytes@) && encode_utf8(s@) == bytes@,
            None => !valid_utf8(bytes@),
        }),
{
    match core::str::from_utf8(bytes) {
        Ok(s) => Some(s.to_owned()),
        Err(_) => None,
    }
}

/// Decode raw input bytes as UTF-8 text, the first step of a run; invalid
/// bytes are the decode failure, before anything is produced.
pub fn decode_document(bytes: &[u8]) -> (r: Result<String, ConvertError>)
    ensures
        r matches Ok(s) ==> valid_utf8(bytes@) && encode_utf8(s@) == bytes@,
        r matches Err(e) ==> !valid_utf8(bytes@) && e == ConvertError::InvalidUtf8,
        r is Ok <==> valid_utf8(bytes@),
{
    match utf8_to_string(bytes) {
        Some(s) => Ok(s),
        None => Err(ConvertError::InvalidUtf8),
    }
}

} // verus!
