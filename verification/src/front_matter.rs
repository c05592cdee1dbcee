//! The front-matter record and its defaults.

use vstd::prelude::*;

verus! {

/// The metadata carried by a document's front-matter block.
///
/// Every field has a default, so a document without a front-matter block
/// still yields a fully populated record.
pub struct FrontMatter {
    pub title: String,
    pub date: String,
    pub categories: Vec<String>,
    pub tags: Vec<String>,
}

/// The mathematical image of a [`FrontMatter`] record.
#[verifier::ext_equal]
pub struct FrontMatterImage {
    pub title: Seq<char>,
    pub date: Seq<char>,
    pub categories: Seq<Seq<char>>,
    pub tags: Seq<Seq<char>>,
}

impl FrontMatterImage {
    /// The record a document without front matter yields: every field empty.
    pub open spec fn all_defaults() -> FrontMatterImage {
        FrontMatterImage {
            title: Seq::empty(),
            date: Seq::empty(),
            categories: Seq::empty(),
            tags: Seq::empty(),
        }
    }
}

impl View for FrontMatter {
    type V = FrontMatterImage;

    open spec fn view(&self) -> FrontMatterImage {
        FrontMatterImage {
            title: self.title@,
            date: self.date@,
            categories: self.categories.deep_view(),
            tags: self.tags.deep_view(),
        }
    }
}

impl Default for FrontMatter {
    /// The all-defaults record: empty title, empty date, no categories, no tags.
    fn default() -> (r: FrontMatter)
        ensures
            r@ == FrontMatterImage::all_defaults(),
    {
        let r = FrontMatter {
            title: String::new(),
            date: String::new(),
            categories: Vec::new(),
            tags: Vec::new(),
        };
        proof {
            assert(r@ =~= FrontMatterImage::all_defaults());
        }
        r
    }
}

} // verus!
