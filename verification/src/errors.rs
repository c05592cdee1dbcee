//! The failures a conversion can report.

use vstd::prelude::*;
use vstd::string::StringExecFns;

verus! {

/// Why a conversion failed. Every failure is terminal: nothing is retried.
#[derive(Clone, Copy, Debug, PartialEq, Eq, Structural)]
pub enum ConvertError {
    /// The input bytes are not valid UTF-8.
    InvalidUtf8,
    /// The front-matter block is not syntactically valid YAML.
    YamlSyntax,
    /// The front-matter block is valid YAML but not key/value data.
    NotAMapping,
    /// The `title` field is present but not text.
    TitleType,
    /// The `date` field is present but not text.
    DateType,
    /// The `categories` field is present but not a list of text.
    CategoriesType,
    /// The `tags` field is present but not a list of text.
    TagsType,
}

impl ConvertError {
    /// The wording of each failure.
    pub open spec fn spec_message(self) -> Seq<char> {
        match self {
            ConvertError::InvalidUtf8 => "input is not valid UTF-8"@,
            ConvertError::YamlSyntax => "front matter is not valid YAML"@,
            ConvertError::NotAMapping => "front matter is not a key/value mapping"@,
            ConvertError::TitleType => "front matter field title must be text"@,
            ConvertError::DateType => "front matter field date must be text"@,
            ConvertError::CategoriesType => "front matter field categories must be a list of text"@,
            ConvertError::TagsType => "front matter field tags must be a list of text"@,
        }
    }

    /// A short description of the failure, for reporting.
    pub fn message(&self) -> (r: String)
        ensures
            r@ == self.spec_message(),
    {
        match self {
            ConvertError::InvalidUtf8 => String::from_str("input is not valid UTF-8"),
            ConvertError::YamlSyntax => String::from_str("front matter is not valid YAML"),
            ConvertError::NotAMapping => String::from_str("front matter is not a key/value mapping"),
            ConvertError::TitleType => String::from_str("front matter field title must be text"),
            ConvertError::DateType => String::from_str("front matter field date must be text"),
            ConvertError::CategoriesType => String::from_str(
                "front matter field categories must be a list of text",
            ),
            ConvertError::TagsType => String::from_str("front matter field tags must be a list of text"),
        }
    }
}

} // verus!
