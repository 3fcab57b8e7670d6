//! What the conversion reads from the network: the pages behind links and
//! bookmarks, and the children of blocks.
//!
//! A block arrives without pages. [`pages_wanted`] lists the addresses whose
//! pages its conversion reads, [`supply_pages`] puts what was fetched in
//! place, [`reads_children`] says whether the children are to be listed, and
//! [`conversion_fails`] says when there is no point in going on.

use vstd::prelude::*;
use crate::block::{
    Block, BlockKind, BlockKindView, BlockView, HeadingBlock, HeadingBlockView, Language,
    LanguageView, Link, LinkView, Mention, MentionView, RichText, RichTextView, cell_views,
    lemma_listing_view,
};
use crate::component::InlineView;
use crate::enrich::favicon_of;
use crate::error::Error;
use crate::laws::lemma_failure_lasts;
use crate::placeholders::lemma_failures_agree_below;
use crate::rules::{contribution, converted_prefix, inline_of};
use crate::views::{clone_opt_string, lemma_views_push, opt_view, views};

verus! {

/// The address whose page the conversion of `span` reads: that of the link
/// of linked text, and that of a link mention.
pub open spec fn span_url(span: RichTextView) -> Option<Seq<char>> {
    match span {
        RichTextView::Text { link: Some(link), .. } => Some(link.url),
        RichTextView::Mention { mention: MentionView::LinkMention(link), .. } => Some(link.url),
        _ => None,
    }
}

/// The addresses whose pages the conversion of `spans` reads, in order.
pub open spec fn span_urls(spans: Seq<RichTextView>) -> Seq<Seq<char>>
    decreases spans.len(),
{
    if spans.len() == 0 {
        Seq::empty()
    } else {
        let before = span_urls(spans.drop_last());
        match span_url(spans.last()) {
            Some(url) => before.push(url),
            None => before,
        }
    }
}

/// The addresses whose pages the conversion of the cells of a row reads, cell
/// by cell.
pub open spec fn cell_urls(cells: Seq<Seq<RichTextView>>) -> Seq<Seq<char>>
    decreases cells.len(),
{
    if cells.len() == 0 {
        Seq::empty()
    } else {
        cell_urls(cells.drop_last()) + span_urls(cells.last())
    }
}

/// The addresses whose pages the conversion of a block reads for the block
/// itself, in the order of the block's text: the bookmark's own address, the
/// links in the text of a paragraph, list item, callout, quote, toggle or
/// heading, in the cells of a table row, and in the caption of a code block
/// that is no diagram.
pub open spec fn block_urls(kind: BlockKindView) -> Seq<Seq<char>> {
    match kind {
        BlockKindView::Bookmark { url, .. } => seq![url],
        BlockKindView::BulletedListItem { rich_text } => span_urls(rich_text),
        BlockKindView::Callout { rich_text, .. } => span_urls(rich_text),
        BlockKindView::Code { caption, language, .. } => match language {
            LanguageView::Mermaid => Seq::empty(),
            LanguageView::Other(_) => span_urls(caption),
        },
        BlockKindView::Heading1(heading) => span_urls(heading.rich_text),
        BlockKindView::Heading2(heading) => span_urls(heading.rich_text),
        BlockKindView::Heading3(heading) => span_urls(heading.rich_text),
        BlockKindView::NumberedListItem { rich_text } => span_urls(rich_text),
        BlockKindView::Paragraph { rich_text } => span_urls(rich_text),
        BlockKindView::Quote { rich_text } => span_urls(rich_text),
        BlockKindView::TableRow { cells } => cell_urls(cells),
        BlockKindView::Toggle { rich_text } => span_urls(rich_text),
        _ => Seq::empty(),
    }
}

/// The page at place `k` of `pages`; absent where there is none.
pub open spec fn page_at(pages: Seq<Option<Seq<char>>>, k: int) -> Option<Seq<char>> {
    if 0 <= k < pages.len() {
        pages[k]
    } else {
        None
    }
}

/// The span with `page` as the page of its link, where its conversion reads
/// one.
pub open spec fn span_with_page(span: RichTextView, page: Option<Seq<char>>) -> RichTextView {
    match span {
        RichTextView::Text { plain_text, link: Some(link), annotations } => RichTextView::Text {
            plain_text,
            link: Some(LinkView { url: link.url, page }),
            annotations,
        },
        RichTextView::Mention { mention: MentionView::LinkMention(link), plain_text } => {
            RichTextView::Mention {
                mention: MentionView::LinkMention(LinkView { url: link.url, page }),
                plain_text,
            }
        },
        _ => span,
    }
}

/// The spans with the pages in place: the span that reads the `k`-th page
/// gets the `k`-th of `pages`, counted from `from`.
pub open spec fn spans_with_pages(
    spans: Seq<RichTextView>,
    pages: Seq<Option<Seq<char>>>,
    from: int,
) -> Seq<RichTextView>
    decreases spans.len(),
{
    if spans.len() == 0 {
        Seq::empty()
    } else {
        let front = spans.drop_last();
        spans_with_pages(front, pages, from).push(
            span_with_page(spans.last(), page_at(pages, from + span_urls(front).len())),
        )
    }
}

/// The cells with the pages in place, counted through the cells in order.
pub open spec fn cells_with_pages(
    cells: Seq<Seq<RichTextView>>,
    pages: Seq<Option<Seq<char>>>,
) -> Seq<Seq<RichTextView>>
    decreases cells.len(),
{
    if cells.len() == 0 {
        Seq::empty()
    } else {
        let front = cells.drop_last();
        cells_with_pages(front, pages).push(
            spans_with_pages(cells.last(), pages, cell_urls(front).len() as int),
        )
    }
}

/// The heading with the pages in place.
pub open spec fn heading_with_pages(heading: HeadingBlockView, pages: Seq<Option<Seq<char>>>)
    -> HeadingBlockView {
    HeadingBlockView {
        rich_text: spans_with_pages(heading.rich_text, pages, 0),
        is_toggleable: heading.is_toggleable,
    }
}

/// The kind of a block with the pages in place: `pages` holds, for each
/// address of `block_urls`, what fetching it gave. Pages beyond those that
/// the block reads are left aside, and a page that is missing is absent.
pub open spec fn kind_with_pages(kind: BlockKindView, pages: Seq<Option<Seq<char>>>)
    -> BlockKindView {
    match kind {
        BlockKindView::Bookmark { url, .. } => BlockKindView::Bookmark {
            url,
            page: page_at(pages, 0),
        },
        BlockKindView::BulletedListItem { rich_text } => BlockKindView::BulletedListItem {
            rich_text: spans_with_pages(rich_text, pages, 0),
        },
        BlockKindView::Callout { rich_text, color } => BlockKindView::Callout {
            rich_text: spans_with_pages(rich_text, pages, 0),
            color,
        },
        BlockKindView::Code { rich_text, caption, language } => match language {
            LanguageView::Mermaid => kind,
            LanguageView::Other(_) => BlockKindView::Code {
                rich_text,
                caption: spans_with_pages(caption, pages, 0),
                language,
            },
        },
        BlockKindView::Heading1(heading) => BlockKindView::Heading1(
            heading_with_pages(heading, pages),
        ),
        BlockKindView::Heading2(heading) => BlockKindView::Heading2(
            heading_with_pages(heading, pages),
        ),
        BlockKindView::Heading3(heading) => BlockKindView::Heading3(
            heading_with_pages(heading, pages),
        ),
        BlockKindView::NumberedListItem { rich_text } => BlockKindView::NumberedListItem {
            rich_text: spans_with_pages(rich_text, pages, 0),
        },
        BlockKindView::Paragraph { rich_text } => BlockKindView::Paragraph {
            rich_text: spans_with_pages(rich_text, pages, 0),
        },
        BlockKindView::Quote { rich_text } => BlockKindView::Quote {
            rich_text: spans_with_pages(rich_text, pages, 0),
        },
        BlockKindView::TableRow { cells } => BlockKindView::TableRow {
            cells: cells_with_pages(cells, pages),
        },
        BlockKindView::Toggle { rich_text } => BlockKindView::Toggle {
            rich_text: spans_with_pages(rich_text, pages, 0),
        },
        _ => kind,
    }
}

/// The place of the next page after `count` pages were taken from place
/// `from`: it stops at the end of the pages.
pub open spec fn place_after(from: int, count: int, len: int) -> int {
    if from + count <= len {
        from + count
    } else {
        len
    }
}

/// The views of a list of pages.
pub open spec fn page_views(pages: Seq<Option<String>>) -> Seq<Option<Seq<char>>> {
    Seq::new(pages.len(), |i: int| opt_view(pages[i]))
}

/// The address whose page the conversion of `span` reads, if it reads one.
pub fn url_wanted(span: &RichText) -> (r: Option<&String>)
    ensures
        match r {
            Some(url) => span_url(span@) == Some(url@),
            None => span_url(span@) is None,
        },
{
    match span {
        RichText::Text { link: Some(link), .. } => Some(&link.url),
        RichText::Mention { mention: Mention::LinkMention(link), .. } => Some(&link.url),
        _ => None,
    }
}

/// Adds the addresses whose pages the conversion of `spans` reads to `urls`.
pub fn collect_urls(spans: &Vec<RichText>, urls: &mut Vec<String>)
    ensures
        views(final(urls)@) == views(old(urls)@) + span_urls(views(spans@)),
{
    let mut i: usize = 0;
    while i < spans.len()
        invariant
            i <= spans.len(),
            views(urls@) == views(old(urls)@) + span_urls(views(spans@).take(i as int)),
        decreases spans.len() - i,
    {
        proof {
            let next = views(spans@).take(i + 1);
            assert(next.drop_last() =~= views(spans@).take(i as int));
        }
        match url_wanted(&spans[i]) {
            Some(url) => {
                let url = url.clone();
                proof {
                    lemma_views_push(urls@, url);
                }
                urls.push(url);
            },
            None => {},
        }
        i = i + 1;
    }
    proof {
        assert(views(spans@).take(i as int) =~= views(spans@));
    }
}

/// Lists the addresses whose pages the conversion of `block` reads for the
/// block itself, in the order in which [`supply_pages`] takes the pages.
pub fn pages_wanted(block: &Block) -> (r: Vec<String>)
    ensures
        views(r@) == block_urls(block@.kind),
{
    let mut urls: Vec<String> = Vec::new();
    match &block.kind {
        BlockKind::Bookmark { url, .. } => {
            urls.push(url.clone());
        },
        BlockKind::BulletedListItem { rich_text } => {
            collect_urls(rich_text, &mut urls);
        },
        BlockKind::Callout { rich_text, .. } => {
            collect_urls(rich_text, &mut urls);
        },
        BlockKind::Code { caption, language, .. } => {
            match language {
                Language::Mermaid => {},
                Language::Other(_) => {
                    collect_urls(caption, &mut urls);
                },
            }
        },
        BlockKind::Heading1(heading) => {
            collect_urls(&heading.rich_text, &mut urls);
        },
        BlockKind::Heading2(heading) => {
            collect_urls(&heading.rich_text, &mut urls);
        },
        BlockKind::Heading3(heading) => {
            collect_urls(&heading.rich_text, &mut urls);
        },
        BlockKind::NumberedListItem { rich_text } => {
            collect_urls(rich_text, &mut urls);
        },
        BlockKind::Paragraph { rich_text } => {
            collect_urls(rich_text, &mut urls);
        },
        BlockKind::Quote { rich_text } => {
            collect_urls(rich_text, &mut urls);
        },
        BlockKind::TableRow { cells } => {
            let mut i: usize = 0;
            while i < cells.len()
                invariant
                    i <= cells.len(),
                    views(urls@) == cell_urls(cell_views(cells@).take(i as int)),
                decreases cells.len() - i,
            {
                proof {
                    let next = cell_views(cells@).take(i + 1);
                    assert(next.drop_last() =~= cell_views(cells@).take(i as int));
                }
                collect_urls(&cells[i], &mut urls);
                i = i + 1;
            }
            proof {
                assert(cell_views(cells@).take(i as int) =~= cell_views(cells@));
            }
        },
        BlockKind::Toggle { rich_text } => {
            collect_urls(rich_text, &mut urls);
        },
        _ => {},
    }
    urls
}


/// The page at place `k` of `pages`; absent where there is none.
pub fn page_for(pages: &Vec<Option<String>>, k: usize) -> (r: Option<String>)
    ensures
        opt_view(r) == page_at(page_views(pages@), k as int),
{
    if k < pages.len() {
        clone_opt_string(&pages[k])
    } else {
        None
    }
}

/// Puts `page` in place as the page of the link of `span`, where the
/// conversion of `span` reads one; else `span` stays as it is.
pub fn span_with(span: RichText, page: Option<String>) -> (r: RichText)
    ensures
        r@ == span_with_page(span@, opt_view(page)),
{
    match span {
        RichText::Text { plain_text, link: Some(link), annotations } => RichText::Text {
            plain_text,
            link: Some(Link { url: link.url, page }),
            annotations,
        },
        RichText::Mention { mention: Mention::LinkMention(link), plain_text } => {
            RichText::Mention {
                mention: Mention::LinkMention(Link { url: link.url, page }),
                plain_text,
            }
        },
        other => other,
    }
}

/// Past the end of the pages every page is absent, so it does not matter
/// from where the count goes on.
pub proof fn lemma_beyond_pages(
    spans: Seq<RichTextView>,
    pages: Seq<Option<Seq<char>>>,
    from: int,
    other: int,
)
    requires
        from >= pages.len(),
        other >= pages.len(),
    ensures
        spans_with_pages(spans, pages, from) == spans_with_pages(spans, pages, other),
    decreases spans.len(),
{
    if spans.len() > 0 {
        lemma_beyond_pages(spans.drop_last(), pages, from, other);
    }
}

/// Puts the pages in place in `spans`: the span that reads the `k`-th page
/// gets the page at place `from + k`. Returns the spans and the place of the
/// next page, which stops at the end of `pages`.
pub fn supply_spans(spans: Vec<RichText>, pages: &Vec<Option<String>>, from: usize) -> (r: (
    Vec<RichText>,
    usize,
))
    ensures
        views(r.0@) == spans_with_pages(views(spans@), page_views(pages@), from as int),
        r.1 == place_after(from as int, span_urls(views(spans@)).len() as int, pages.len() as int),
{
    let mut out: Vec<RichText> = Vec::new();
    let mut cursor: usize = if from <= pages.len() {
        from
    } else {
        pages.len()
    };
    let ghost all = spans@;
    let ghost pv = page_views(pages@);
    for span in iter: spans
        invariant
            iter.seq() == all,
            pv == page_views(pages@),
            cursor <= pages.len(),
            views(out@) == spans_with_pages(
                views(all).take(iter.index() as int),
                pv,
                from as int,
            ),
            cursor == place_after(
                from as int,
                span_urls(views(all).take(iter.index() as int)).len() as int,
                pages.len() as int,
            ),
    {
        proof {
            let next = views(all).take(iter.index() + 1);
            assert(next.drop_last() =~= views(all).take(iter.index() as int));
        }
        let wanted = url_wanted(&span).is_some();
        let placed = if wanted {
            let page = page_for(pages, cursor);
            let with = span_with(span, page);
            if cursor < pages.len() {
                cursor = cursor + 1;
            }
            with
        } else {
            span
        };
        proof {
            lemma_views_push(out@, placed);
        }
        out.push(placed);
    }
    proof {
        assert(views(all).take(all.len() as int) =~= views(all));
    }
    (out, cursor)
}

/// Puts the pages in place in a heading.
pub fn supply_heading(heading: HeadingBlock, pages: &Vec<Option<String>>) -> (r: HeadingBlock)
    ensures
        r@ == heading_with_pages(heading@, page_views(pages@)),
{
    let (rich_text, _) = supply_spans(heading.rich_text, pages, 0);
    HeadingBlock { rich_text, is_toggleable: heading.is_toggleable }
}

/// Puts the pages in place in the cells of a table row.
pub fn supply_cells(cells: Vec<Vec<RichText>>, pages: &Vec<Option<String>>) -> (r: Vec<
    Vec<RichText>,
>)
    ensures
        cell_views(r@) == cells_with_pages(cell_views(cells@), page_views(pages@)),
{
    let mut out: Vec<Vec<RichText>> = Vec::new();
    let mut cursor: usize = 0;
    let ghost all = cells@;
    let ghost pv = page_views(pages@);
    for cell in iter: cells
        invariant
            iter.seq() == all,
            pv == page_views(pages@),
            cursor <= pages.len(),
            cell_views(out@) == cells_with_pages(cell_views(all).take(iter.index() as int), pv),
            cursor == place_after(
                0,
                cell_urls(cell_views(all).take(iter.index() as int)).len() as int,
                pages.len() as int,
            ),
    {
        let ghost done = cell_views(all).take(iter.index() as int);
        proof {
            let next = cell_views(all).take(iter.index() + 1);
            assert(next.drop_last() =~= done);
            if cursor != cell_urls(done).len() {
                lemma_beyond_pages(views(cell@), pv, cursor as int, cell_urls(done).len() as int);
            }
        }
        let (filled, next_cursor) = supply_spans(cell, pages, cursor);
        out.push(filled);
        cursor = next_cursor;
    }
    proof {
        assert(cell_views(all).take(all.len() as int) =~= cell_views(all));
    }
    out
}

/// Puts what was fetched in place in `block`: `pages` holds, in the order of
/// [`pages_wanted`], the page of each address, or `None` where the fetch
/// failed. Pages beyond those that the block reads are left aside, and a page
/// that is missing counts as a failed fetch. Everything else in the block
/// stays as it is.
pub fn supply_pages(block: Block, pages: &Vec<Option<String>>) -> (r: Block)
    ensures
        r@ == (BlockView { kind: kind_with_pages(block@.kind, page_views(pages@)), ..block@ }),
{
    let Block { id, has_children, kind, children } = block;
    let kind = match kind {
        BlockKind::Bookmark { url, page: _ } => BlockKind::Bookmark {
            url,
            page: page_for(pages, 0),
        },
        BlockKind::BulletedListItem { rich_text } => BlockKind::BulletedListItem {
            rich_text: supply_spans(rich_text, pages, 0).0,
        },
        BlockKind::Callout { rich_text, color } => BlockKind::Callout {
            rich_text: supply_spans(rich_text, pages, 0).0,
            color,
        },
        BlockKind::Code { rich_text, caption, language } => match language {
            Language::Mermaid => BlockKind::Code { rich_text, caption, language: Language::Mermaid },
            Language::Other(name) => BlockKind::Code {
                rich_text,
                caption: supply_spans(caption, pages, 0).0,
                language: Language::Other(name),
            },
        },
        BlockKind::Heading1(heading) => BlockKind::Heading1(supply_heading(heading, pages)),
        BlockKind::Heading2(heading) => BlockKind::Heading2(supply_heading(heading, pages)),
        BlockKind::Heading3(heading) => BlockKind::Heading3(supply_heading(heading, pages)),
        BlockKind::NumberedListItem { rich_text } => BlockKind::NumberedListItem {
            rich_text: supply_spans(rich_text, pages, 0).0,
        },
        BlockKind::Paragraph { rich_text } => BlockKind::Paragraph {
            rich_text: supply_spans(rich_text, pages, 0).0,
        },
        BlockKind::Quote { rich_text } => BlockKind::Quote {
            rich_text: supply_spans(rich_text, pages, 0).0,
        },
        BlockKind::TableRow { cells } => BlockKind::TableRow { cells: supply_cells(cells, pages) },
        BlockKind::Toggle { rich_text } => BlockKind::Toggle {
            rich_text: supply_spans(rich_text, pages, 0).0,
        },
        other => other,
    };
    Block { id, has_children, kind, children }
}

/// Tells whether the conversion reads the children of `block`, so that they
/// have to be listed: always for a toggle, a table and a toggleable heading,
/// for a callout and a quote where the block says it has children, and never
/// for any other block.
pub fn reads_children(block: &Block) -> (r: bool)
    ensures
        r == crate::rules::reads_children(block@),
{
    match &block.kind {
        BlockKind::Toggle { .. } => true,
        BlockKind::Table { .. } => true,
        BlockKind::Heading1(h) => h.is_toggleable,
        BlockKind::Heading2(h) => h.is_toggleable,
        BlockKind::Heading3(h) => h.is_toggleable,
        BlockKind::Callout { .. } => block.has_children,
        BlockKind::Quote { .. } => block.has_children,
        _ => false,
    }
}


/// Tells whether the conversion of `block` fails: it reads the children of
/// the block, and either they could not be listed or the conversion of one
/// of them fails. Once a block is known to fail, nothing after it needs to
/// be fetched. The answer is the same with placeholders on and off.
pub fn conversion_fails(block: &Block) -> (r: bool)
    ensures
        r == (contribution(true, block@) is Err),
        r == (contribution(false, block@) is Err),
    decreases block,
{
    proof {
        lemma_failures_agree_below(block@);
        lemma_listing_view(*block);
    }
    if !reads_children(block) {
        return false;
    }
    match &block.children {
        Err(_) => true,
        Ok(children) => {
            let mut i: usize = 0;
            while i < children.len()
                invariant
                    i <= children.len(),
                    block.children == Ok::<Vec<Block>, Error>(*children),
                    crate::rules::reads_children(block@),
                    converted_prefix(true, views(children@), i as nat) is Ok,
                decreases children.len() - i,
            {
                if conversion_fails(&children[i]) {
                    proof {
                        lemma_failures_agree_below(block@);
                        lemma_listing_view(*block);
                        lemma_failure_lasts(
                            true,
                            views(children@),
                            (i + 1) as nat,
                            children.len() as nat,
                        );
                    }
                    return true;
                }
                i = i + 1;
            }
            false
        },
    }
}


/// The icon of a converted span comes from the page that the span wants and
/// from nowhere else. A span that wants the page at `url` comes out as text
/// linked to `url`, with the icon that is found in the page supplied for it; a
/// span that wants no page comes out without an icon.
pub proof fn lemma_favicon_comes_from_the_wanted_page(span: RichTextView, page: Option<Seq<char>>)
    ensures
        match span_url(span) {
            Some(url) => {
                &&& inline_of(span_with_page(span, page)) matches Some(
                    InlineView::Text { props, .. },
                )
                &&& props.href == Some(url)
                &&& props.favicon == favicon_of(url, page)
            },
            None => inline_of(span) matches Some(InlineView::Text { props, .. })
                ==> props.favicon is None,
        },
{
}

} // verus!
