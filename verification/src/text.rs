//! Text that the conversion assembles: joined spans and fixed phrases.

use vstd::prelude::*;
use vstd::string::*;
use crate::block::{RichText, RichTextView};
use crate::views::views;

verus! {

/// The unstyled text of `spans`, joined in order with nothing in between.
pub open spec fn plain_text_of(spans: Seq<RichTextView>) -> Seq<char>
    decreases spans.len(),
{
    if spans.len() == 0 {
        Seq::empty()
    } else {
        plain_text_of(spans.drop_last()) + spans.last().plain_text()
    }
}

/// The unstyled text of one span.
pub fn span_text(span: &RichText) -> (r: &String)
    ensures
        r@ == span@.plain_text(),
{
    match span {
        RichText::Text { plain_text, .. } => plain_text,
        RichText::Mention { plain_text, .. } => plain_text,
        RichText::Equation { plain_text, .. } => plain_text,
    }
}

/// Joins the unstyled text of `spans`.
pub fn join_plain_text(spans: &Vec<RichText>) -> (r: String)
    ensures
        r@ == plain_text_of(views(spans@)),
{
    let mut out = String::new();
    let mut i: usize = 0;
    while i < spans.len()
        invariant
            i <= spans.len(),
            out@ == plain_text_of(views(spans@).take(i as int)),
        decreases spans.len() - i,
    {
        proof {
            let next = views(spans@).take(i + 1);
            assert(next.drop_last() =~= views(spans@).take(i as int));
        }
        out.append(span_text(&spans[i]).as_str());
        i = i + 1;
    }
    proof {
        assert(views(spans@).take(i as int) =~= views(spans@));
    }
    out
}

/// The notice that stands in for a block of kind `block_name`.
pub open spec fn unsupported_details(block_name: Seq<char>) -> Seq<char> {
    "Notion: `"@ + block_name + " Block` is not supported."@
}

/// Writes the notice that stands in for a block of kind `block_name`.
pub fn write_unsupported_details(block_name: &str) -> (r: String)
    ensures
        r@ == unsupported_details(block_name@),
{
    let mut out = String::from_str("Notion: `");
    out.append(block_name);
    out.append(" Block` is not supported.");
    out
}

} // verus!
