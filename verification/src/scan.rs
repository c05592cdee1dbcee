//! Detection and removal of the leading front-matter block.
//!
//! A document has front matter when it opens with a line that is exactly
//! `---`, followed by any content, followed by the first later line that is
//! again exactly `---` and ends with a newline. The block (delimiters
//! included) is stripped; the rest of the document is the Markdown body.
//!
//! Delimiter lines are read with LF line endings only: a `---` line
//! terminated by CRLF ends in `\r` and so is not a delimiter, and a document
//! whose delimiter lines end that way is treated as having no front matter.

use vstd::prelude::*;
use vstd::string::StrSliceExecFns;

verus! {

/// The opening delimiter: a `---` line at the very start of the document.
pub open spec fn open_delim() -> Seq<char> {
    seq!['-', '-', '-', '\n']
}

/// The closing delimiter: a newline ending the content, then a `---` line.
pub open spec fn close_delim() -> Seq<char> {
    seq!['\n', '-', '-', '-', '\n']
}

/// Does the document open with a `---` line?
pub open spec fn opens_with_delim(s: Seq<char>) -> bool {
    s.len() >= 4 && s.subrange(0, 4) == open_delim()
}

/// Does the closing delimiter stand at position `i`?
pub open spec fn close_at(s: Seq<char>, i: int) -> bool {
    &&& 4 <= i
    &&& i + 5 <= s.len()
    &&& s.subrange(i, i + 5) == close_delim()
}

/// The least position at or after `i` where the closing delimiter stands,
/// or -1 when there is none.
pub open spec fn first_close_from(s: Seq<char>, i: int) -> int
    decreases s.len() - i when 0 <= i
{
    if i < 0 || i + 5 > s.len() {
        -1
    } else if close_at(s, i) {
        i
    } else {
        first_close_from(s, i + 1)
    }
}

/// Where the front-matter block closes: the first closing delimiter, so that
/// only the first block is recognized.
pub open spec fn fm_close(s: Seq<char>) -> int {
    first_close_from(s, 4)
}

/// Whether the document carries a front-matter block.
pub open spec fn has_front_matter(s: Seq<char>) -> bool {
    opens_with_delim(s) && fm_close(s) >= 0
}

/// The content between the delimiters, the text handed to the YAML parser.
pub open spec fn fm_content(s: Seq<char>) -> Seq<char>
    recommends
        has_front_matter(s),
{
    s.subrange(4, fm_close(s))
}

/// The whole block, delimiters included.
pub open spec fn fm_block(s: Seq<char>) -> Seq<char>
    recommends
        has_front_matter(s),
{
    s.subrange(0, fm_close(s) + 5)
}

/// The Markdown body: everything after the block, or the whole document
/// when there is no block.
pub open spec fn body_text(s: Seq<char>) -> Seq<char> {
    if has_front_matter(s) {
        s.subrange(fm_close(s) + 5, s.len() as int)
    } else {
        s
    }
}

proof fn lemma_first_close_props(s: Seq<char>, i: int)
    requires
        0 <= i,
    ensures
        first_close_from(s, i) >= 0 ==> {
            &&& i <= first_close_from(s, i)
            &&& close_at(s, first_close_from(s, i))
            &&& forall|j: int| i <= j < first_close_from(s, i) ==> !close_at(s, j)
        },
        first_close_from(s, i) < 0 ==> forall|j: int| i <= j ==> !close_at(s, j),
    decreases s.len() - i,
{
    if i + 5 > s.len() {
        assert forall|j: int| i <= j implies !close_at(s, j) by {
            if close_at(s, j) {
                assert(j + 5 <= s.len());
            }
        }
    } else if close_at(s, i) {
    } else {
        lemma_first_close_props(s, i + 1);
    }
}

/// A document with front matter is exactly the block followed by the body;
/// one without is all body.
pub proof fn lemma_split_partitions(s: Seq<char>)
    ensures
        has_front_matter(s) ==> s == fm_block(s) + body_text(s),
        !has_front_matter(s) ==> body_text(s) == s,
{
    if has_front_matter(s) {
        lemma_first_close_props(s, 4);
        assert(s =~= fm_block(s) + body_text(s));
    }
}

/// The block is exactly the opening line, the content, and the closing line.
pub proof fn lemma_block_shape(s: Seq<char>)
    requires
        has_front_matter(s),
    ensures
        fm_block(s) == open_delim() + fm_content(s) + close_delim(),
{
    lemma_first_close_props(s, 4);
    assert(s.subrange(fm_close(s), fm_close(s) + 5) == close_delim());
    assert forall|k: int| 0 <= k < 5 implies s[fm_close(s) + k] == close_delim()[k] by {
        assert(s.subrange(fm_close(s), fm_close(s) + 5)[k] == s[fm_close(s) + k]);
    }
    assert forall|k: int| 0 <= k < 4 implies s[k] == open_delim()[k] by {
        assert(s.subrange(0, 4)[k] == s[k]);
    }
    assert(fm_block(s) =~= open_delim() + fm_content(s) + close_delim());
}

/// The outcome of splitting a document at its front-matter block.
pub struct SplitDocument {
    /// The content between the delimiters, when a block was recognized.
    pub front: Option<String>,
    /// The Markdown body with the block removed.
    pub body: String,
}

fn is_close_here(s: &str, i: usize, n: usize) -> (b: bool)
    requires
        4 <= i,
        i + 5 <= n,
        n == s@.len(),
    ensures
        b == close_at(s@, i as int),
{
    let b = s.get_char(i) == '\n' && s.get_char(i + 1) == '-' && s.get_char(i + 2) == '-'
        && s.get_char(i + 3) == '-' && s.get_char(i + 4) == '\n';
    proof {
        let sub = s@.subrange(i as int, i as int + 5);
        assert forall|k: int| 0 <= k < 5 implies sub[k] == s@[i + k] by {}
        if b {
            assert(sub =~= close_delim());
        } else {
            assert(sub != close_delim());
        }
    }
    b
}

/// Split a document at its front-matter block.
///
/// Returns the content between the delimiters (when a block is recognized)
/// and the body with the block stripped; a document without a block comes
/// back unchanged as the body.
pub fn split_front_matter(input: &str) -> (r: SplitDocument)
    ensures
        r.front matches Some(c) ==> has_front_matter(input@) && c@ == fm_content(input@),
        r.front is None ==> !has_front_matter(input@),
        r.body@ == body_text(input@),
{
    let n = input.unicode_len();
    let opens = n >= 4 && input.get_char(0) == '-' && input.get_char(1) == '-'
        && input.get_char(2) == '-' && input.get_char(3) == '\n';
    proof {
        if opens {
            assert(input@.subrange(0, 4) =~= open_delim());
        } else if n >= 4 {
            assert forall|k: int| 0 <= k < 4 implies input@.subrange(0, 4)[k] == input@[k] by {}
            assert(input@.subrange(0, 4) != open_delim());
        }
        assert(opens == opens_with_delim(input@));
    }
    if !opens {
        return SplitDocument { front: None, body: input.to_owned() };
    }
    if n < 9 {
        proof {
            lemma_first_close_props(input@, 4);
            if fm_close(input@) >= 0 {
                assert(close_at(input@, fm_close(input@)));
            }
        }
        return SplitDocument { front: None, body: input.to_owned() };
    }
    let mut i: usize = 4;
    while i <= n - 5
        invariant
            4 <= i,
            i <= n,
            9 <= n,
            n == input@.len(),
            opens_with_delim(input@),
            fm_close(input@) == first_close_from(input@, i as int),
        decreases n - i,
    {
        if is_close_here(input, i, n) {
            proof {
                assert(first_close_from(input@, i as int) == i as int);
                assert(has_front_matter(input@));
            }
            let content = input.substring_char(4, i);
            let body = input.substring_char(i + 5, n);
            return SplitDocument { front: Some(content.to_owned()), body: body.to_owned() };
        }
        proof {
            assert(first_close_from(input@, i as int) == first_close_from(input@, i as int + 1));
        }
        i = i + 1;
    }
    proof {
        lemma_first_close_props(input@, i as int);
        if first_close_from(input@, i as int) >= 0 {
            assert(close_at(input@, first_close_from(input@, i as int)));
        }
        assert(!has_front_matter(input@));
    }
    SplitDocument { front: None, body: input.to_owned() }
}

} // verus!
