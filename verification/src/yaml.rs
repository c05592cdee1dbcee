//! Parsing the front-matter content as YAML and mapping it onto the record.
//!
//! The YAML grammar itself is the business of gray_matter's YAML engine; this
//! module trusts that engine behind a small set of declared items and then
//! verifies the schema mapping: `title` and `date` must be text, `categories`
//! and `tags` lists of text, omitted fields take their defaults, unrecognized
//! keys are ignored, and a wrongly-typed field is an error.

use vstd::prelude::*;
use vstd::string::StrSliceExecFns;
use crate::errors::ConvertError;
use crate::front_matter::FrontMatter;
use crate::front_matter::FrontMatterImage;

verus! {

#[verifier::external_type_specification]
#[verifier::external_body]
pub struct ExPod(gray_matter::Pod);

/// What one element of a YAML list holds, as far as the schema reads it:
/// text, or anything else.
pub enum ItemImage {
    Text(Seq<char>),
    Other,
}

/// What one field of the top-level mapping holds, as far as the schema reads
/// it: text, a list, or anything else.
pub enum FieldImage {
    Text(Seq<char>),
    List(Seq<ItemImage>),
    Other,
}

/// What a parsed YAML document holds: a key/value mapping, nothing at all,
/// or some other value.
pub enum DocImage {
    Mapping(Map<Seq<char>, FieldImage>),
    Empty,
    Other,
}

/// The mapping of a document, empty for the other shapes.
pub open spec fn mapping_of(d: DocImage) -> Map<Seq<char>, FieldImage> {
    match d {
        DocImage::Mapping(m) => m,
        _ => Map::empty(),
    }
}

/// The largest front-matter content, in characters, that is handed to the
/// YAML engine. The engine builds, clones and converts the document tree
/// recursively, so deeply nested content — which needs at least two
/// characters per nesting level — could otherwise drive that recursion to a
/// depth that exhausts the stack. Longer content is rejected as not valid
/// YAML before the engine ever sees it.
pub const MAX_FRONT_MATTER_LEN: usize = 8192;

/// What gray_matter's YAML engine returns for a given text: None on a syntax
/// error, otherwise the image of the first document.
pub uninterp spec fn yaml_doc_of(y: Seq<char>) -> Option<DocImage>;

/// The document-level image of a parsed value.
pub uninterp spec fn pod_doc(p: gray_matter::Pod) -> DocImage;

/// The element-level image of a parsed value.
pub uninterp spec fn pod_item(p: gray_matter::Pod) -> ItemImage;

/// Relies on gray_matter's YAML engine: parsing is a pure function of the
/// text; Ok carries the first document, Err reports a syntax error. The
/// engine's tree building, cloning and conversion recurse through nested
/// collections, so the text is required to stay under
/// [`MAX_FRONT_MATTER_LEN`], which keeps that recursion shallow.
#[verifier::external_body]
fn parse_yaml_text(y: &str) -> (r: Option<gray_matter::Pod>)
    requires
        y@.len() <= MAX_FRONT_MATTER_LEN,
    ensures
        (match r {
            Some(p) => yaml_doc_of(y@) == Some(pod_doc(p)),
            None => yaml_doc_of(y@) is None,
        }),
{
    <gray_matter::engine::YAML as gray_matter::engine::Engine>::parse(y).ok()
}

/// The three document shapes the schema distinguishes.
pub enum DocKind {
    Mapping,
    Empty,
    Other,
}

/// Relies on gray_matter's Pod enum: a Hash is a mapping, a Null an empty
/// document, anything else some other value.
#[verifier::external_body]
fn doc_kind(p: &gray_matter::Pod) -> (k: DocKind)
    ensures
        (k is Mapping <==> pod_doc(*p) is Mapping),
        (k is Empty <==> pod_doc(*p) is Empty),
        (k is Other <==> pod_doc(*p) is Other),
{
    match p {
        gray_matter::Pod::Hash(_) => DocKind::Mapping,
        gray_matter::Pod::Null => DocKind::Empty,
        _ => DocKind::Other,
    }
}

/// What a mapping holds at one key.
pub enum FieldSlot {
    Absent,
    Text(String),
    List(Vec<gray_matter::Pod>),
    Other,
}

/// Relies on gray_matter's Pod enum and HashMap::get: the entry of the
/// mapping at `key`, if any, with a String as text and an Array as a list.
#[verifier::external_body]
fn mapping_field(p: &gray_matter::Pod, key: &str) -> (r: FieldSlot)
    requires
        pod_doc(*p) is Mapping,
    ensures
        ({
            let m = mapping_of(pod_doc(*p));
            match r {
                FieldSlot::Absent => !m.dom().contains(key@),
                FieldSlot::Text(s) => m.dom().contains(key@) && m[key@] == FieldImage::Text(s@),
                FieldSlot::List(v) => m.dom().contains(key@) && m[key@] == FieldImage::List(
                    v@.map_values(|q: gray_matter::Pod| pod_item(q)),
                ),
                FieldSlot::Other => m.dom().contains(key@) && m[key@] is Other,
            }
        }),
{
    match p {
        gray_matter::Pod::Hash(h) => match h.get(key) {
            None => FieldSlot::Absent,
            Some(gray_matter::Pod::String(s)) => FieldSlot::Text(s.clone()),
            Some(gray_matter::Pod::Array(v)) => FieldSlot::List(v.clone()),
            Some(_) => FieldSlot::Other,
        },
        _ => FieldSlot::Absent,
    }
}

/// Relies on gray_matter's Pod enum: whether an element is a String.
#[verifier::external_body]
fn item_text(p: &gray_matter::Pod) -> (r: Option<String>)
    ensures
        (match r {
            Some(s) => pod_item(*p) == ItemImage::Text(s@),
            None => pod_item(*p) is Other,
        }),
{
    match p {
        gray_matter::Pod::String(s) => Some(s.clone()),
        _ => None,
    }
}

/// Is every element of the list text?
pub open spec fn all_text(items: Seq<ItemImage>) -> bool {
    forall|i: int| 0 <= i < items.len() ==> items[i] is Text
}

/// The texts of a list of elements, empty text for the others.
pub open spec fn texts_of(items: Seq<ItemImage>) -> Seq<Seq<char>> {
    items.map_values(
        |it: ItemImage|
            match it {
                ItemImage::Text(t) => t,
                ItemImage::Other => Seq::empty(),
            },
    )
}

/// Does `key` hold an acceptable text field: absent, or text?
pub open spec fn text_field_ok(m: Map<Seq<char>, FieldImage>, key: Seq<char>) -> bool {
    !m.dom().contains(key) || m[key] is Text
}

/// The value of a text field, the default when absent.
pub open spec fn text_field_value(m: Map<Seq<char>, FieldImage>, key: Seq<char>) -> Seq<char> {
    if !m.dom().contains(key) {
        Seq::empty()
    } else {
        match m[key] {
            FieldImage::Text(t) => t,
            _ => Seq::empty(),
        }
    }
}

/// Does `key` hold an acceptable list field: absent, or a list of text?
pub open spec fn list_field_ok(m: Map<Seq<char>, FieldImage>, key: Seq<char>) -> bool {
    !m.dom().contains(key) || (m[key] matches FieldImage::List(items) && all_text(items))
}

/// The value of a list field, the default when absent.
pub open spec fn list_field_value(m: Map<Seq<char>, FieldImage>, key: Seq<char>) -> Seq<
    Seq<char>,
> {
    if !m.dom().contains(key) {
        Seq::empty()
    } else {
        match m[key] {
            FieldImage::List(items) => texts_of(items),
            _ => Seq::empty(),
        }
    }
}

/// The record a top-level mapping resolves to: each schema field checked in
/// order, omitted fields defaulted, unrecognized keys ignored.
pub open spec fn resolve_mapping(m: Map<Seq<char>, FieldImage>) -> Result<
    FrontMatterImage,
    ConvertError,
> {
    if !text_field_ok(m, "title"@) {
        Err(ConvertError::TitleType)
    } else if !text_field_ok(m, "date"@) {
        Err(ConvertError::DateType)
    } else if !list_field_ok(m, "categories"@) {
        Err(ConvertError::CategoriesType)
    } else if !list_field_ok(m, "tags"@) {
        Err(ConvertError::TagsType)
    } else {
        Ok(
            FrontMatterImage {
                title: text_field_value(m, "title"@),
                date: text_field_value(m, "date"@),
                categories: list_field_value(m, "categories"@),
                tags: list_field_value(m, "tags"@),
            },
        )
    }
}

/// The record (or failure) the front-matter content parses to. Content over
/// [`MAX_FRONT_MATTER_LEN`] characters is rejected as not valid YAML.
pub open spec fn parsed_front_matter(y: Seq<char>) -> Result<FrontMatterImage, ConvertError> {
    if y.len() > MAX_FRONT_MATTER_LEN {
        Err(ConvertError::YamlSyntax)
    } else {
        match yaml_doc_of(y) {
            Option::None => Err(ConvertError::YamlSyntax),
            Option::Some(d) => match d {
                DocImage::Empty => Ok(FrontMatterImage::all_defaults()),
                DocImage::Other => Err(ConvertError::NotAMapping),
                DocImage::Mapping(m) => resolve_mapping(m),
            },
        }
    }
}

fn collect_texts(v: &Vec<gray_matter::Pod>) -> (r: Option<Vec<String>>)
    ensures
        ({
            let items = v@.map_values(|q: gray_matter::Pod| pod_item(q));
            match r {
                Some(out) => all_text(items) && out.deep_view() == texts_of(items),
                None => !all_text(items),
            }
        }),
{
    let ghost items = v@.map_values(|q: gray_matter::Pod| pod_item(q));
    let mut out: Vec<String> = Vec::new();
    let mut k: usize = 0;
    proof {
        assert(out.deep_view() =~= texts_of(items.take(0)));
    }
    while k < v.len()
        invariant
            k <= v@.len(),
            items == v@.map_values(|q: gray_matter::Pod| pod_item(q)),
            items.len() == v@.len(),
            forall|j: int| 0 <= j < k ==> items[j] is Text,
            out.deep_view() == texts_of(items.take(k as int)),
        decreases v@.len() - k,
    {
        proof {
            assert(items[k as int] == pod_item(v@[k as int]));
        }
        match item_text(&v[k]) {
            Some(s) => {
                let ghost prev = out@;
                let ghost prev_dv = out.deep_view();
                out.push(s);
                proof {
                    let taken = items.take(k as int + 1);
                    assert(prev_dv == Seq::new(prev.len(), |i: int| prev[i].deep_view()));
                    assert(prev_dv.len() == texts_of(items.take(k as int)).len());
                    assert(prev.len() == k as int);
                    assert(out@ == prev.push(s));
                    assert forall|j: int| 0 <= j < taken.len() implies out.deep_view()[j]
                        == texts_of(taken)[j] by {
                        assert(taken[j] == items[j]);
                        assert(out.deep_view()[j] == out@[j].deep_view());
                        if j < k as int {
                            assert(out@[j] == prev[j]);
                            assert(prev_dv[j] == prev[j].deep_view());
                            assert(prev_dv[j] == texts_of(items.take(k as int))[j]);
                            assert(texts_of(items.take(k as int))[j] == texts_of(taken)[j]);
                        } else {
                            assert(out@[j] == s);
                            assert(items[j] == ItemImage::Text(s@));
                        }
                    }
                    assert(out.deep_view() =~= texts_of(taken));
                }
            },
            None => {
                proof {
                    assert(!(items[k as int] is Text));
                }
                return None;
            },
        }
        k = k + 1;
    }
    proof {
        assert(items.take(v@.len() as int) =~= items);
    }
    Some(out)
}

fn text_slot(p: &gray_matter::Pod, key: &str) -> (r: Result<String, ()>)
    requires
        pod_doc(*p) is Mapping,
    ensures
        ({
            let m = mapping_of(pod_doc(*p));
            match r {
                Ok(s) => text_field_ok(m, key@) && s@ == text_field_value(m, key@),
                Err(e) => !text_field_ok(m, key@),
            }
        }),
{
    match mapping_field(p, key) {
        FieldSlot::Absent => Ok(String::new()),
        FieldSlot::Text(s) => Ok(s),
        FieldSlot::List(_) => Err(()),
        FieldSlot::Other => Err(()),
    }
}

fn list_slot(p: &gray_matter::Pod, key: &str) -> (r: Result<Vec<String>, ()>)
    requires
        pod_doc(*p) is Mapping,
    ensures
        ({
            let m = mapping_of(pod_doc(*p));
            match r {
                Ok(out) => list_field_ok(m, key@) && out.deep_view() == list_field_value(m, key@),
                Err(e) => !list_field_ok(m, key@),
            }
        }),
{
    match mapping_field(p, key) {
        FieldSlot::Absent => {
            let out: Vec<String> = Vec::new();
            proof {
                assert(out.deep_view() =~= Seq::<Seq<char>>::empty());
            }
            Ok(out)
        },
        FieldSlot::Text(_) => Err(()),
        FieldSlot::List(v) => match collect_texts(&v) {
            Some(out) => Ok(out),
            None => Err(()),
        },
        FieldSlot::Other => Err(()),
    }
}

/// Parse front-matter content as YAML and map it onto the record schema.
///
/// An empty document gives the all-defaults record; a document that is not
/// key/value data, or a field of the wrong type, is an error; omitted fields
/// take their defaults and unrecognized keys are ignored. Content longer
/// than [`MAX_FRONT_MATTER_LEN`] characters is rejected as not valid YAML
/// without consulting the engine.
pub fn parse_front_matter(y: &str) -> (r: Result<FrontMatter, ConvertError>)
    ensures
        (match r {
            Ok(fm) => parsed_front_matter(y@) == Ok::<FrontMatterImage, ConvertError>(fm@),
            Err(e) => parsed_front_matter(y@) == Err::<FrontMatterImage, ConvertError>(e),
        }),
{
    if y.unicode_len() > MAX_FRONT_MATTER_LEN {
        return Err(ConvertError::YamlSyntax);
    }
    let pod = match parse_yaml_text(y) {
        Some(p) => p,
        None => {
            return Err(ConvertError::YamlSyntax);
        },
    };
    match doc_kind(&pod) {
        DocKind::Empty => {
            let fm = FrontMatter::default();
            return Ok(fm);
        },
        DocKind::Other => {
            return Err(ConvertError::NotAMapping);
        },
        DocKind::Mapping => {},
    }
    let title = match text_slot(&pod, "title") {
        Ok(s) => s,
        Err(_) => {
            return Err(ConvertError::TitleType);
        },
    };
    let date = match text_slot(&pod, "date") {
        Ok(s) => s,
        Err(_) => {
            return Err(ConvertError::DateType);
        },
    };
    let categories = match list_slot(&pod, "categories") {
        Ok(v) => v,
        Err(_) => {
            return Err(ConvertError::CategoriesType);
        },
    };
    let tags = match list_slot(&pod, "tags") {
        Ok(v) => v,
        Err(_) => {
            return Err(ConvertError::TagsType);
        },
    };
    let fm = FrontMatter { title, date, categories, tags };
    proof {
        let m = mapping_of(pod_doc(pod));
        assert(fm@ =~= FrontMatterImage {
            title: text_field_value(m, "title"@),
            date: text_field_value(m, "date"@),
            categories: list_field_value(m, "categories"@),
            tags: list_field_value(m, "tags"@),
        });
    }
    Ok(fm)
}

/// Supplied fields are kept: whatever record a mapping resolves to carries
/// exactly the text (or list of texts) the mapping holds at each schema key.
pub proof fn lemma_supplied_fields_kept(m: Map<Seq<char>, FieldImage>, v: FrontMatterImage)
    requires
        resolve_mapping(m) == Ok::<FrontMatterImage, ConvertError>(v),
    ensures
        m.dom().contains("title"@) ==> m["title"@] == FieldImage::Text(v.title),
        m.dom().contains("date"@) ==> m["date"@] == FieldImage::Text(v.date),
        m.dom().contains("categories"@) ==> (m["categories"@] matches FieldImage::List(items)
            && all_text(items) && v.categories == texts_of(items)),
        m.dom().contains("tags"@) ==> (m["tags"@] matches FieldImage::List(items) && all_text(
            items,
        ) && v.tags == texts_of(items)),
{
}

/// Omitted fields take their defaults: a key the mapping does not hold
/// contributes an empty field to any record the mapping resolves to.
pub proof fn lemma_omitted_fields_default(m: Map<Seq<char>, FieldImage>, v: FrontMatterImage)
    requires
        resolve_mapping(m) == Ok::<FrontMatterImage, ConvertError>(v),
    ensures
        !m.dom().contains("title"@) ==> v.title == Seq::<char>::empty(),
        !m.dom().contains("date"@) ==> v.date == Seq::<char>::empty(),
        !m.dom().contains("categories"@) ==> v.categories == Seq::<Seq<char>>::empty(),
        !m.dom().contains("tags"@) ==> v.tags == Seq::<Seq<char>>::empty(),
{
}

} // verus!
