//! What holds of every conversion, proved from the rules.

use vstd::prelude::*;
use crate::block::{BlockKindView, BlockView};
use crate::component::{BlockComponentView, ComponentView, ListProps, ListStyle, all_well_formed};
use crate::error::ErrorView;
use crate::rules::{
    ContributionView, alt_of, body_of, children_of, contribution, contribution_with, converted,
    converted_prefix, header_of, joins, lead_of, new_list, placed, rows_among, untitled_file,
    with_item,
};
use crate::text::plain_text_of;

verus! {

/// A contribution has the shape that its place in the output asks for: a
/// component is well formed, and an item of a list is a list item.
pub open spec fn contribution_well_formed(c: ContributionView) -> bool {
    match c {
        ContributionView::Nothing => true,
        ContributionView::Component(component) => component.well_formed(),
        ContributionView::ListItem(_, item) => item.is_list_item(),
    }
}

/// The rows among components are table rows, and are well formed where the
/// components are.
pub proof fn lemma_rows_are_rows(components: Seq<ComponentView>)
    ensures
        forall|i: int|
            0 <= i < rows_among(components).len() ==> (#[trigger] rows_among(
                components,
            )[i]).is_table_row(),
        all_well_formed(components) ==> all_well_formed(rows_among(components)),
    decreases components.len(),
{
    if components.len() > 0 {
        lemma_rows_are_rows(components.drop_last());
        if all_well_formed(components) {
            assert(all_well_formed(components.drop_last()));
        }
    }
}

/// A block's contribution is well formed where the output of its children
/// is.
pub proof fn lemma_contribution_well_formed(
    enabled: bool,
    block: BlockView,
    children: Seq<ComponentView>,
)
    requires
        all_well_formed(children),
    ensures
        contribution_well_formed(contribution_with(enabled, block, children)),
{
    match block.kind {
        BlockKindView::Table { has_column_header, .. } => {
            lemma_rows_are_rows(children);
            if has_column_header && children.len() > 0 {
                lemma_rows_are_rows(children.drop_first());
            }
        },
        BlockKindView::Callout { rich_text, .. } => {
            assert(all_well_formed(lead_of(block.id, rich_text) + children));
        },
        BlockKindView::Quote { rich_text } => {
            assert(all_well_formed(lead_of(block.id, rich_text) + children));
        },
        _ => {},
    }
}

/// Placing a well-formed contribution keeps the output well formed.
pub proof fn lemma_placed_well_formed(out: Seq<ComponentView>, c: ContributionView)
    requires
        all_well_formed(out),
        contribution_well_formed(c),
    ensures
        all_well_formed(placed(out, c)),
{
}

/// Every component that a conversion puts out is well formed: a list holds
/// list items only, a table's header is a single row, its body holds rows
/// only, a row holds cells only; and so on down the tree.
pub proof fn lemma_converted_well_formed(
    enabled: bool,
    listing: Result<Seq<BlockView>, ErrorView>,
)
    ensures
        converted(enabled, listing) matches Ok(out) ==> all_well_formed(out),
    decreases listing, 0nat,
{
    match listing {
        Ok(blocks) => {
            lemma_prefix_well_formed(enabled, blocks, blocks.len());
        },
        Err(_) => {},
    }
}

/// The output for a prefix of the blocks is well formed.
pub proof fn lemma_prefix_well_formed(enabled: bool, blocks: Seq<BlockView>, n: nat)
    ensures
        converted_prefix(enabled, blocks, n) matches Ok(out) ==> all_well_formed(out),
    decreases blocks, n,
{
    if 0 < n <= blocks.len() {
        lemma_prefix_well_formed(enabled, blocks, (n - 1) as nat);
        match converted_prefix(enabled, blocks, (n - 1) as nat) {
            Ok(out) => {
                let block = blocks[n - 1];
                match children_of(enabled, block) {
                    Ok(children) => {
                        lemma_converted_well_formed(enabled, block.children);
                        lemma_contribution_well_formed(enabled, block, children);
                        lemma_placed_well_formed(
                            out,
                            contribution_with(enabled, block, children),
                        );
                        assert(contribution(enabled, block) == Ok::<ContributionView, ErrorView>(
                            contribution_with(enabled, block, children),
                        ));
                    },
                    Err(_) => {},
                }
            },
            Err(_) => {},
        }
    }
}

/// Once the conversion of a prefix has failed, the conversion of every
/// longer prefix fails in the same way.
pub proof fn lemma_failure_lasts(enabled: bool, blocks: Seq<BlockView>, n: nat, m: nat)
    requires
        n <= m <= blocks.len(),
        converted_prefix(enabled, blocks, n) is Err,
    ensures
        converted_prefix(enabled, blocks, m) == converted_prefix(enabled, blocks, n),
    decreases m - n,
{
    if n < m {
        lemma_failure_lasts(enabled, blocks, n, (m - 1) as nat);
    }
}

/// A block of this kind never leaves a trace in the output.
pub open spec fn is_silent(kind: BlockKindView) -> bool {
    ||| kind is ColumnList
    ||| kind is Column
    ||| kind is TableOfContents
    ||| kind is Pdf
}

/// A block of this kind has no rendering: it leaves a placeholder where
/// placeholders are enabled, and nothing where they are not.
pub open spec fn has_no_rendering(kind: BlockKindView) -> bool {
    ||| kind is Audio
    ||| kind is Breadcrumb
    ||| kind is ChildDatabase
    ||| kind is ChildPage
    ||| kind is Embed
    ||| kind is LinkPreview
    ||| kind is SyncedBlock
    ||| kind is Template
    ||| kind is ToDo
    ||| kind is Video
    ||| kind is Unsupported
}

/// The block adds something to the output.
pub open spec fn is_shown(enabled: bool, kind: BlockKindView) -> bool {
    !is_silent(kind) && (enabled || !has_no_rendering(kind))
}

/// The list style of a list item block.
pub open spec fn item_style(kind: BlockKindView) -> Option<ListStyle> {
    match kind {
        BlockKindView::BulletedListItem { .. } => Some(ListStyle::Unordered),
        BlockKindView::NumberedListItem { .. } => Some(ListStyle::Ordered),
        _ => None,
    }
}

/// The ids of `items`, in order.
pub open spec fn ids_of(items: Seq<ComponentView>) -> Seq<Option<Seq<char>>> {
    Seq::new(items.len(), |i: int| items[i].id())
}

/// The source ids that a component of the output stands for: those of its
/// items for a list, and its own for any other component.
pub open spec fn entry(component: ComponentView) -> Seq<Option<Seq<char>>> {
    match component {
        ComponentView::BlockComponent(BlockComponentView::List { items, .. }) => ids_of(items),
        _ => seq![component.id()],
    }
}

/// The source ids that an output stands for, in the order of the output,
/// with every list opened up into its items.
pub open spec fn trail(out: Seq<ComponentView>) -> Seq<Option<Seq<char>>>
    decreases out.len(),
{
    if out.len() == 0 {
        Seq::empty()
    } else {
        trail(out.drop_last()) + entry(out.last())
    }
}

/// The mark that a block leaves in the trail of the output: none where it
/// adds nothing, an absent id for a placeholder, else its own id.
pub open spec fn mark(enabled: bool, block: BlockView) -> Seq<Option<Seq<char>>> {
    if !is_shown(enabled, block.kind) {
        Seq::empty()
    } else if has_no_rendering(block.kind) {
        seq![None]
    } else {
        seq![Some(block.id)]
    }
}

/// The marks of the first `n` blocks, in document order.
pub open spec fn marks(enabled: bool, blocks: Seq<BlockView>, n: nat) -> Seq<Option<Seq<char>>>
    decreases n,
{
    if n == 0 || n > blocks.len() {
        Seq::empty()
    } else {
        marks(enabled, blocks, (n - 1) as nat) + mark(enabled, blocks[n - 1])
    }
}

/// The mark of a contribution: the id of the component or list item.
pub open spec fn mark_of(c: ContributionView) -> Seq<Option<Seq<char>>> {
    match c {
        ContributionView::Nothing => Seq::empty(),
        ContributionView::Component(component) => seq![component.id()],
        ContributionView::ListItem(_, item) => seq![item.id()],
    }
}

/// A component that a block contributes on its own is never a list, and a
/// block's contribution carries the block's mark.
pub proof fn lemma_contribution_mark(enabled: bool, block: BlockView, children: Seq<ComponentView>)
    ensures
        mark_of(contribution_with(enabled, block, children)) == mark(enabled, block),
        contribution_with(enabled, block, children) matches ContributionView::Component(c)
            ==> !c.is_list(),
        contribution_with(enabled, block, children) matches ContributionView::Component(c)
            ==> (c.is_placeholder() <==> has_no_rendering(block.kind)),
        contribution_with(enabled, block, children) matches ContributionView::ListItem(style, _)
            ==> item_style(block.kind) == Some(style),
        contribution_with(enabled, block, children) is ListItem <==> item_style(block.kind)
            is Some,
        contribution_with(enabled, block, children) is Nothing <==> !is_shown(
            enabled,
            block.kind,
        ),
{
}

/// Placing a contribution adds its mark at the end of the trail, provided a
/// component that comes alone is not itself a list.
pub proof fn lemma_trail_placed(out: Seq<ComponentView>, c: ContributionView)
    requires
        c matches ContributionView::Component(component) ==> !component.is_list(),
    ensures
        trail(placed(out, c)) == trail(out) + mark_of(c),
{
    match c {
        ContributionView::Nothing => {},
        ContributionView::Component(component) => {
            assert(out.push(component).drop_last() =~= out);
        },
        ContributionView::ListItem(style, item) => {
            if out.len() > 0 && joins(out.last(), style) {
                let next = out.drop_last().push(with_item(out.last(), item));
                assert(next.drop_last() =~= out.drop_last());
            } else {
                assert(out.push(new_list(style, item)).drop_last() =~= out);
            }
        },
    }
}

/// Order is kept. The source ids that the output stands for, with every
/// list opened up into its items, are the ids of the blocks that add
/// something, in document order (an absent id for each placeholder). The same
/// holds at every depth, since the children of a block are converted in the
/// same way.
pub proof fn lemma_order_is_kept(enabled: bool, listing: Result<Seq<BlockView>, ErrorView>)
    ensures
        match (listing, converted(enabled, listing)) {
            (Ok(blocks), Ok(out)) => trail(out) == marks(enabled, blocks, blocks.len()),
            (Ok(_), Err(_)) => true,
            (Err(e), outcome) => outcome == Err::<Seq<ComponentView>, ErrorView>(e),
        },
{
    match listing {
        Ok(blocks) => {
            lemma_order_preserved(enabled, blocks, blocks.len());
        },
        Err(_) => {},
    }
}

/// Order is kept in the output for every prefix of the blocks: see
/// [`lemma_order_is_kept`].
pub proof fn lemma_order_preserved(enabled: bool, blocks: Seq<BlockView>, n: nat)
    requires
        n <= blocks.len(),
    ensures
        converted_prefix(enabled, blocks, n) matches Ok(out) ==> trail(out) == marks(
            enabled,
            blocks,
            n,
        ),
    decreases n,
{
    if n > 0 {
        lemma_order_preserved(enabled, blocks, (n - 1) as nat);
        match converted_prefix(enabled, blocks, (n - 1) as nat) {
            Ok(out) => {
                let block = blocks[n - 1];
                match children_of(enabled, block) {
                    Ok(children) => {
                        let c = contribution_with(enabled, block, children);
                        assert(contribution(enabled, block) == Ok::<ContributionView, ErrorView>(
                            c,
                        ));
                        lemma_contribution_mark(enabled, block, children);
                        lemma_trail_placed(out, c);
                    },
                    Err(_) => {},
                }
            },
            Err(_) => {},
        }
    }
}

/// Moving the first row of a table into its header keeps the order of the
/// rows: the header, then the body, are the rows among the table's children
/// in the order of the children.
pub proof fn lemma_table_keeps_row_order(has_column_header: bool, children: Seq<ComponentView>)
    ensures
        match header_of(has_column_header, children) {
            Some(header) => header + body_of(has_column_header, children),
            None => body_of(has_column_header, children),
        } == rows_among(children),
{
    if has_column_header && children.len() > 0 {
        lemma_rows_after_first(children);
    }
}

/// The rows among components are the first component, if it is a row, and
/// then the rows among the others.
pub proof fn lemma_rows_after_first(components: Seq<ComponentView>)
    requires
        components.len() > 0,
    ensures
        rows_among(components) == if components[0].is_table_row() {
            seq![components[0]] + rows_among(components.drop_first())
        } else {
            rows_among(components.drop_first())
        },
    decreases components.len(),
{
    if components.len() == 1 {
        assert(rows_among(components.drop_last()) =~= Seq::<ComponentView>::empty());
    } else {
        let front = components.drop_last();
        lemma_rows_after_first(front);
        assert(front.drop_first() =~= components.drop_first().drop_last());
    }
}

/// The index of the last of the first `n` blocks that adds something to the
/// output.
pub open spec fn last_shown(enabled: bool, blocks: Seq<BlockView>, n: nat) -> Option<int>
    decreases n,
{
    if n == 0 || n > blocks.len() {
        None
    } else if is_shown(enabled, blocks[n - 1].kind) {
        Some(n - 1)
    } else {
        last_shown(enabled, blocks, (n - 1) as nat)
    }
}

/// The component is a list that records exactly the style `style` and
/// holds at least one item.
pub open spec fn is_list_of(component: ComponentView, style: ListStyle) -> bool {
    component matches ComponentView::BlockComponent(BlockComponentView::List { props, items, .. })
        && props == Some(ListProps { list_style: Some(style) }) && items.len() > 0
}

/// The end of the output mirrors the last block that adds something. The
/// output is empty exactly where no block adds anything. Else its last
/// component is a list that records the style of that block where the block
/// is a list item, and is no list where it is not; and it is a placeholder
/// exactly where that block has no rendering.
pub proof fn lemma_end_of_output(enabled: bool, blocks: Seq<BlockView>, n: nat)
    requires
        n <= blocks.len(),
    ensures
        converted_prefix(enabled, blocks, n) matches Ok(out) ==> match last_shown(
            enabled,
            blocks,
            n,
        ) {
            None => out.len() == 0,
            Some(i) => {
                &&& 0 <= i < n
                &&& is_shown(enabled, blocks[i].kind)
                &&& out.len() > 0
                &&& match item_style(blocks[i].kind) {
                    Some(style) => is_list_of(out.last(), style),
                    None => !out.last().is_list(),
                }
                &&& out.last().is_placeholder() <==> has_no_rendering(blocks[i].kind)
            },
        },
    decreases n,
{
    if n > 0 {
        lemma_end_of_output(enabled, blocks, (n - 1) as nat);
        match converted_prefix(enabled, blocks, (n - 1) as nat) {
            Ok(out) => {
                let block = blocks[n - 1];
                match children_of(enabled, block) {
                    Ok(children) => {
                        let c = contribution_with(enabled, block, children);
                        assert(contribution(enabled, block) == Ok::<ContributionView, ErrorView>(
                            c,
                        ));
                        lemma_contribution_mark(enabled, block, children);
                    },
                    Err(_) => {},
                }
            },
            Err(_) => {},
        }
    }
}

/// List items of different styles never share a list. Where a list item
/// follows directly on a list item of the other style, it opens a list of
/// its own that holds it alone, right after the list that the item before it
/// is in.
pub proof fn lemma_styles_never_mix(enabled: bool, blocks: Seq<BlockView>, n: nat)
    requires
        2 <= n <= blocks.len(),
        item_style(blocks[n - 2].kind) is Some,
        item_style(blocks[n - 1].kind) is Some,
        item_style(blocks[n - 2].kind) != item_style(blocks[n - 1].kind),
    ensures
        converted_prefix(enabled, blocks, n) matches Ok(out) ==> {
            &&& converted_prefix(enabled, blocks, (n - 1) as nat) matches Ok(before)
            &&& contribution(enabled, blocks[n - 1]) matches Ok(
                ContributionView::ListItem(style, item),
            )
            &&& out == before.push(new_list(style, item))
            &&& before.len() > 0
            &&& is_list_of(before.last(), item_style(blocks[n - 2].kind)->Some_0)
        },
{
    lemma_end_of_output(enabled, blocks, (n - 1) as nat);
    match converted_prefix(enabled, blocks, (n - 1) as nat) {
        Ok(before) => {
            let block = blocks[n - 1];
            match children_of(enabled, block) {
                Ok(children) => {
                    lemma_contribution_mark(enabled, block, children);
                    lemma_contribution_mark(enabled, blocks[n - 2], Seq::empty());
                },
                Err(_) => {},
            }
        },
        Err(_) => {},
    }
}

/// The output for the first `n` blocks depends on those blocks alone.
pub proof fn lemma_prefix_is_local(
    enabled: bool,
    blocks: Seq<BlockView>,
    others: Seq<BlockView>,
    n: nat,
)
    requires
        n <= blocks.len(),
        n <= others.len(),
        forall|i: int| 0 <= i < n ==> blocks[i] == others[i],
    ensures
        converted_prefix(enabled, blocks, n) == converted_prefix(enabled, others, n),
    decreases n,
{
    if n > 0 {
        lemma_prefix_is_local(enabled, blocks, others, (n - 1) as nat);
    }
}

/// After a component that is no list, what follows is placed as if the
/// output began there.
pub proof fn lemma_placed_after_barrier(
    front: Seq<ComponentView>,
    out: Seq<ComponentView>,
    c: ContributionView,
)
    requires
        front.len() > 0,
        !front.last().is_list(),
    ensures
        placed(front + out, c) == front + placed(out, c),
{
}

/// The outcome of converting `before`, then `block`, then `after`, each on
/// its own: the first failure in that order, else the three outputs one after
/// the other.
pub open spec fn chained(
    enabled: bool,
    before: Seq<BlockView>,
    block: BlockView,
    after: Seq<BlockView>,
    n: nat,
) -> Result<Seq<ComponentView>, ErrorView> {
    match converted_prefix(enabled, before, before.len()) {
        Err(e) => Err(e),
        Ok(a) => match contribution(enabled, block) {
            Err(e) => Err(e),
            Ok(c) => match converted_prefix(enabled, after, n) {
                Err(e) => Err(e),
                Ok(b) => Ok(placed(a, c) + b),
            },
        },
    }
}

/// A block that comes out as a component of its own keeps what comes before
/// it apart from what comes after it. The output for the whole is the output
/// for the blocks before it, then its component, then the output for the
/// blocks after it, each converted as if it stood alone; no list reaches
/// across it. In particular nothing around a bookmark depends on what was
/// fetched for the bookmark.
pub proof fn lemma_barrier_splits(
    enabled: bool,
    before: Seq<BlockView>,
    block: BlockView,
    after: Seq<BlockView>,
    n: nat,
)
    requires
        is_shown(enabled, block.kind),
        item_style(block.kind) is None,
        n <= after.len(),
    ensures
        converted_prefix(enabled, before.push(block) + after, before.len() + 1 + n) == chained(
            enabled,
            before,
            block,
            after,
            n,
        ),
    decreases n,
{
    let whole = before.push(block) + after;
    let base = before.len();
    lemma_prefix_is_local(enabled, whole, before, base);
    if n > 0 {
        lemma_barrier_splits(enabled, before, block, after, (n - 1) as nat);
        match (converted_prefix(enabled, before, base), contribution(enabled, block)) {
            (Ok(a), Ok(c)) => {
                match children_of(enabled, block) {
                    Ok(children) => {
                        lemma_contribution_mark(enabled, block, children);
                    },
                    Err(_) => {},
                }
                match (
                    converted_prefix(enabled, after, (n - 1) as nat),
                    contribution(enabled, after[n - 1]),
                ) {
                    (Ok(b), Ok(next)) => {
                        lemma_placed_after_barrier(placed(a, c), b, next);
                    },
                    _ => {},
                }
            },
            _ => {},
        }
    }
}

/// An image of a file of a kind that is not known has "untitled" as its
/// alternative text, as the file has it as its name.
pub proof fn lemma_untitled_file_reads_untitled(url: Seq<char>)
    ensures
        untitled_file(url).name == Some("untitled"@),
        alt_of(untitled_file(url).caption) == Some("untitled"@),
{
    let caption = untitled_file(url).caption->Some_0;
    assert(caption.drop_last() =~= Seq::empty());
    assert(plain_text_of(caption.drop_last()) =~= Seq::<char>::empty());
    assert(plain_text_of(caption) =~= "untitled"@);
}

/// A bookmark whose page could not be fetched costs nothing but its own
/// preview. The bookmark comes out with its address and without title,
/// description or image, between the output for the blocks before it and the
/// output for the blocks after it, which are what they would be without it.
pub proof fn lemma_failed_bookmark_is_local(
    enabled: bool,
    before: Seq<BlockView>,
    bookmark: BlockView,
    after: Seq<BlockView>,
)
    requires
        bookmark.kind matches BlockKindView::Bookmark { page, .. } && page is None,
    ensures
        converted_prefix(
            enabled,
            before.push(bookmark) + after,
            before.len() + 1 + after.len(),
        ) == match (
            converted_prefix(enabled, before, before.len()),
            converted_prefix(enabled, after, after.len()),
        ) {
            (Err(e), _) => Err(e),
            (Ok(_), Err(e)) => Err(e),
            (Ok(a), Ok(b)) => Ok(
                a.push(
                    ComponentView::BlockComponent(
                        BlockComponentView::Bookmark {
                            id: Some(bookmark.id),
                            url: bookmark.kind->Bookmark_url,
                            title: None,
                            description: None,
                            image: None,
                        },
                    ),
                ) + b,
            ),
        },
{
    lemma_barrier_splits(enabled, before, bookmark, after, after.len());
}

} // verus!
