//! Switching placeholders on or off changes the output by the placeholders
//! alone, but for two arrangements of blocks in which a placeholder decides
//! how its neighbours are grouped: one where it stands between two list items
//! of one style, and one where it stands ahead of the first row of a table
//! that has a column header. This module states the arrangements, proves the
//! rule for every input without them, and proves that it fails on every
//! input with one.

use vstd::prelude::*;
use crate::block::{BlockKindView, BlockView};
use crate::component::{BlockComponentView, ComponentView};
use crate::error::ErrorView;
use crate::laws::{
    has_no_rendering, is_shown, item_style, last_shown, lemma_contribution_mark,
    lemma_end_of_output, lemma_rows_after_first,
};
use crate::rules::{
    ContributionView, children_of, contribution, contribution_with, converted,
    converted_prefix, header_of, joins, lead_of, new_list, placed, reads_children, row_of,
    rows_among, table_of, with_item,
};

verus! {

/// The component without the placeholders below it.
pub open spec fn stripped(component: ComponentView) -> ComponentView
    decreases component,
{
    match component {
        ComponentView::BlockComponent(BlockComponentView::BlockQuote { id, children }) => {
            ComponentView::BlockComponent(
                BlockComponentView::BlockQuote { id, children: cleared(children, children.len()) },
            )
        },
        ComponentView::BlockComponent(
            BlockComponentView::Callout { id, callout_type, children },
        ) => ComponentView::BlockComponent(
            BlockComponentView::Callout {
                id,
                callout_type,
                children: cleared(children, children.len()),
            },
        ),
        ComponentView::BlockComponent(BlockComponentView::Toggle { id, summary, children }) => {
            ComponentView::BlockComponent(
                BlockComponentView::Toggle {
                    id,
                    summary,
                    children: cleared(children, children.len()),
                },
            )
        },
        _ => component,
    }
}

/// The first `n` components of `out` without the placeholders among and
/// below them.
pub open spec fn cleared(out: Seq<ComponentView>, n: nat) -> Seq<ComponentView>
    decreases out, n,
{
    if n == 0 || n > out.len() {
        Seq::empty()
    } else if out[n - 1].is_placeholder() {
        cleared(out, (n - 1) as nat)
    } else {
        cleared(out, (n - 1) as nat).push(stripped(out[n - 1]))
    }
}

/// An output without its placeholders, at every depth.
pub open spec fn without_placeholders(out: Seq<ComponentView>) -> Seq<ComponentView> {
    cleared(out, out.len())
}

/// The first of the first `n` blocks that adds something to the output.
pub open spec fn first_shown(enabled: bool, blocks: Seq<BlockView>, n: nat) -> Option<int>
    decreases n,
{
    if n == 0 || n > blocks.len() {
        None
    } else {
        match first_shown(enabled, blocks, (n - 1) as nat) {
            Some(i) => Some(i),
            None => if is_shown(enabled, blocks[n - 1].kind) {
                Some(n - 1)
            } else {
                None
            },
        }
    }
}

/// The first block that adds something to the output is a table row.
pub open spec fn starts_with_row(enabled: bool, blocks: Seq<BlockView>) -> bool {
    first_shown(enabled, blocks, blocks.len()) matches Some(i) && blocks[i].kind is TableRow
}

/// A placeholder would part two list items. The block at `k` is a list
/// item; with placeholders off, the last block before it that adds
/// something is a list item of the same style; with placeholders on, the
/// last block before it that adds something is one without a rendering.
pub open spec fn placeholder_parts_items(blocks: Seq<BlockView>, k: int) -> bool {
    &&& 0 <= k < blocks.len()
    &&& item_style(blocks[k].kind) is Some
    &&& last_shown(false, blocks, k as nat) matches Some(i) && item_style(blocks[i].kind)
        == item_style(blocks[k].kind)
    &&& last_shown(true, blocks, k as nat) matches Some(j) && has_no_rendering(blocks[j].kind)
}

/// A placeholder would take the place of a table's header. The table has a
/// column header; with placeholders off its children start with a row; with
/// placeholders on they start with a placeholder.
pub open spec fn placeholder_heads_table(has_column_header: bool, children: Seq<BlockView>)
    -> bool {
    has_column_header && starts_with_row(false, children) && !starts_with_row(true, children)
}

/// No placeholder among the first `n` blocks, or below them where the
/// conversion goes down, decides how its neighbours are grouped.
pub open spec fn placeholders_are_inert(blocks: Seq<BlockView>, n: nat) -> bool
    decreases blocks, n,
{
    if n == 0 || n > blocks.len() {
        true
    } else {
        &&& placeholders_are_inert(blocks, (n - 1) as nat)
        &&& !placeholder_parts_items(blocks, n - 1)
        &&& placeholders_are_inert_below(blocks[n - 1])
    }
}

/// No placeholder below `block` decides how its neighbours are grouped.
pub open spec fn placeholders_are_inert_below(block: BlockView) -> bool
    decreases block, 0nat,
{
    match block.children {
        Err(_) => true,
        Ok(children) => match block.kind {
            BlockKindView::Table { has_column_header, .. } => !placeholder_heads_table(
                has_column_header,
                children,
            ),
            _ => reads_children(block) ==> placeholders_are_inert(children, children.len()),
        },
    }
}

/// With placeholders off, the outcome is the outcome with placeholders on,
/// less the placeholders: the same failure, or the same output without them.
pub open spec fn differs_by_placeholders(
    on: Result<Seq<ComponentView>, ErrorView>,
    off: Result<Seq<ComponentView>, ErrorView>,
) -> bool {
    match on {
        Ok(out) => off == Ok::<Seq<ComponentView>, ErrorView>(without_placeholders(out)),
        Err(e) => off == Err::<Seq<ComponentView>, ErrorView>(e),
    }
}

/// Clearing looks at the first `n` components only.
pub proof fn lemma_cleared_is_local(out: Seq<ComponentView>, other: Seq<ComponentView>, n: nat)
    requires
        n <= out.len(),
        n <= other.len(),
        forall|i: int| 0 <= i < n ==> out[i] == other[i],
    ensures
        cleared(out, n) == cleared(other, n),
    decreases n,
{
    if n > 0 {
        lemma_cleared_is_local(out, other, (n - 1) as nat);
    }
}

/// Clearing after one more component.
pub proof fn lemma_cleared_push(out: Seq<ComponentView>, component: ComponentView)
    ensures
        without_placeholders(out.push(component)) == if component.is_placeholder() {
            without_placeholders(out)
        } else {
            without_placeholders(out).push(stripped(component))
        },
{
    lemma_cleared_is_local(out.push(component), out, out.len());
}

/// Clearing goes through concatenation.
pub proof fn lemma_cleared_add(front: Seq<ComponentView>, back: Seq<ComponentView>, n: nat)
    requires
        n <= back.len(),
    ensures
        cleared(front + back, front.len() + n) == without_placeholders(front) + cleared(back, n),
    decreases n,
{
    let whole = front + back;
    if n == 0 {
        lemma_cleared_is_local(whole, front, front.len());
    } else {
        lemma_cleared_add(front, back, (n - 1) as nat);
    }
}

/// Whether a conversion fails, and how, does not depend on placeholders.
pub proof fn lemma_failures_agree(blocks: Seq<BlockView>, n: nat)
    ensures
        match converted_prefix(true, blocks, n) {
            Ok(_) => converted_prefix(false, blocks, n) is Ok,
            Err(e) => converted_prefix(false, blocks, n) == Err::<Seq<ComponentView>, ErrorView>(
                e,
            ),
        },
    decreases blocks, n,
{
    if 0 < n <= blocks.len() {
        lemma_failures_agree(blocks, (n - 1) as nat);
        lemma_failures_agree_below(blocks[n - 1]);
    }
}

/// Whether the conversion of a block's children fails, and how, does not
/// depend on placeholders.
pub proof fn lemma_failures_agree_below(block: BlockView)
    ensures
        match children_of(true, block) {
            Ok(_) => children_of(false, block) is Ok,
            Err(e) => children_of(false, block) == Err::<Seq<ComponentView>, ErrorView>(e),
        },
        match contribution(true, block) {
            Ok(_) => contribution(false, block) is Ok,
            Err(e) => contribution(false, block) == Err::<ContributionView, ErrorView>(e),
        },
    decreases block, 0nat,
{
    if reads_children(block) {
        match block.children {
            Ok(children) => {
                lemma_failures_agree(children, children.len());
            },
            Err(_) => {},
        }
    }
}

/// The rows that the first `n` blocks contribute, in document order.
pub open spec fn row_marks(blocks: Seq<BlockView>, n: nat) -> Seq<ComponentView>
    decreases n,
{
    if n == 0 || n > blocks.len() {
        Seq::empty()
    } else {
        match blocks[n - 1].kind {
            BlockKindView::TableRow { cells } => row_marks(blocks, (n - 1) as nat).push(
                row_of(blocks[n - 1].id, cells),
            ),
            _ => row_marks(blocks, (n - 1) as nat),
        }
    }
}

/// Placing a contribution adds a row to the rows of the output exactly
/// where the contribution is a row.
pub proof fn lemma_rows_placed(out: Seq<ComponentView>, c: ContributionView)
    ensures
        rows_among(placed(out, c)) == match c {
            ContributionView::Component(component) => if component.is_table_row() {
                rows_among(out).push(component)
            } else {
                rows_among(out)
            },
            _ => rows_among(out),
        },
{
    match c {
        ContributionView::Nothing => {},
        ContributionView::Component(component) => {
            assert(out.push(component).drop_last() =~= out);
        },
        ContributionView::ListItem(style, item) => {
            if out.len() > 0 && joins(out.last(), style) {
                let next = out.drop_last().push(with_item(out.last(), item));
                assert(next.drop_last() =~= out.drop_last());
            } else {
                assert(out.push(new_list(style, item)).drop_last() =~= out);
            }
        },
    }
}

/// The rows of an output are the rows that the table row blocks contribute,
/// whatever else the blocks hold and whether placeholders are on or off.
pub proof fn lemma_rows_of_output(enabled: bool, blocks: Seq<BlockView>, n: nat)
    requires
        n <= blocks.len(),
    ensures
        converted_prefix(enabled, blocks, n) matches Ok(out) ==> rows_among(out) == row_marks(
            blocks,
            n,
        ),
    decreases n,
{
    if n > 0 {
        lemma_rows_of_output(enabled, blocks, (n - 1) as nat);
        match converted_prefix(enabled, blocks, (n - 1) as nat) {
            Ok(out) => {
                let block = blocks[n - 1];
                match children_of(enabled, block) {
                    Ok(children) => {
                        let c = contribution_with(enabled, block, children);
                        assert(contribution(enabled, block) == Ok::<ContributionView, ErrorView>(
                            c,
                        ));
                        lemma_rows_placed(out, c);
                    },
                    Err(_) => {},
                }
            },
            Err(_) => {},
        }
    }
}

/// The start of the output mirrors the first block that adds something: the
/// output is empty where there is none, and else starts with a row exactly
/// where that block is a table row.
pub proof fn lemma_start_of_output(enabled: bool, blocks: Seq<BlockView>, n: nat)
    requires
        n <= blocks.len(),
    ensures
        converted_prefix(enabled, blocks, n) matches Ok(out) ==> match first_shown(
            enabled,
            blocks,
            n,
        ) {
            None => out.len() == 0,
            Some(i) => {
                &&& 0 <= i < n
                &&& out.len() > 0
                &&& out[0].is_table_row() <==> blocks[i].kind is TableRow
            },
        },
    decreases n,
{
    if n > 0 {
        lemma_start_of_output(enabled, blocks, (n - 1) as nat);
        match converted_prefix(enabled, blocks, (n - 1) as nat) {
            Ok(out) => {
                let block = blocks[n - 1];
                match children_of(enabled, block) {
                    Ok(children) => {
                        let c = contribution_with(enabled, block, children);
                        assert(contribution(enabled, block) == Ok::<ContributionView, ErrorView>(
                            c,
                        ));
                        lemma_contribution_mark(enabled, block, children);
                    },
                    Err(_) => {},
                }
            },
            Err(_) => {},
        }
    }
}

/// A table is made of the rows among its children and of whether the
/// children start with a row: two outputs that agree on both give the same
/// table.
pub proof fn lemma_table_from_rows(
    id: Seq<char>,
    has_column_header: bool,
    has_row_header: bool,
    children: Seq<ComponentView>,
    others: Seq<ComponentView>,
)
    requires
        rows_among(children) == rows_among(others),
        has_column_header ==> ((children.len() > 0 && children[0].is_table_row()) <==> (others.len()
            > 0 && others[0].is_table_row())),
    ensures
        table_of(id, has_column_header, has_row_header, children) == table_of(
            id,
            has_column_header,
            has_row_header,
            others,
        ),
{
    if has_column_header {
        if children.len() > 0 {
            lemma_rows_after_first(children);
        }
        if others.len() > 0 {
            lemma_rows_after_first(others);
        }
        if children.len() > 0 && children[0].is_table_row() {
            let a = rows_among(children.drop_first());
            let b = rows_among(others.drop_first());
            assert((seq![others[0]] + b)[0] == others[0]);
            assert(a =~= (seq![children[0]] + a).drop_first());
            assert(b =~= (seq![others[0]] + b).drop_first());
        }
    }
}


/// A contribution as it is with placeholders off, from what it is with
/// placeholders on: a placeholder is gone, any other component has lost the
/// placeholders below it, and a list item is the same.
pub open spec fn toned_down(c: ContributionView) -> ContributionView {
    match c {
        ContributionView::Nothing => ContributionView::Nothing,
        ContributionView::Component(component) => if component.is_placeholder() {
            ContributionView::Nothing
        } else {
            ContributionView::Component(stripped(component))
        },
        ContributionView::ListItem(style, item) => ContributionView::ListItem(style, item),
    }
}

/// Clearing an output and placing a toned-down contribution gives what
/// placing the contribution and clearing the output gives, unless a list
/// item would join, in the cleared output, a list that a placeholder kept it
/// from in the full one.
pub proof fn lemma_placed_cleared(out: Seq<ComponentView>, c: ContributionView)
    requires
        c matches ContributionView::Component(component) ==> !component.is_list(),
        c matches ContributionView::ListItem(style, item) ==> {
            &&& item.is_list_item()
            &&& out.len() > 0 && out.last().is_placeholder() ==> !(without_placeholders(out).len()
                > 0 && joins(without_placeholders(out).last(), style))
        },
    ensures
        without_placeholders(placed(out, c)) == placed(without_placeholders(out), toned_down(c)),
{
    match c {
        ContributionView::Nothing => {},
        ContributionView::Component(component) => {
            lemma_cleared_push(out, component);
        },
        ContributionView::ListItem(style, item) => {
            let fresh = new_list(style, item);
            if out.len() == 0 {
                lemma_cleared_push(out, fresh);
            } else if out.last().is_placeholder() {
                lemma_cleared_push(out, fresh);
            } else {
                let front = out.drop_last();
                let last = out.last();
                assert(front.push(last) =~= out);
                lemma_cleared_push(front, last);
                if joins(last, style) {
                    lemma_cleared_push(front, with_item(last, item));
                } else {
                    lemma_cleared_push(out, fresh);
                }
            }
        },
    }
}

/// Where the first block that adds something with placeholders on has a
/// rendering, it is also the first that adds something with placeholders
/// off.
pub proof fn lemma_first_shown_agrees(blocks: Seq<BlockView>, n: nat)
    requires
        n <= blocks.len(),
    ensures
        first_shown(true, blocks, n) matches Some(i) ==> 0 <= i < n,
        first_shown(false, blocks, n) matches Some(i) ==> 0 <= i < n,
        first_shown(true, blocks, n) matches Some(i) ==> (!has_no_rendering(blocks[i].kind)
            ==> first_shown(false, blocks, n) == Some(i)),
        first_shown(true, blocks, n) is None ==> first_shown(false, blocks, n) is None,
        first_shown(false, blocks, n) matches Some(i) ==> (first_shown(true, blocks, n) matches Some(
            j,
        ) && j <= i),
    decreases n,
{
    if n > 0 {
        lemma_first_shown_agrees(blocks, (n - 1) as nat);
    }
}

/// The paragraph that opens a callout or a quote holds no placeholder.
pub proof fn lemma_lead_has_no_placeholder(id: Seq<char>, rich_text: Seq<crate::block::RichTextView>)
    ensures
        without_placeholders(lead_of(id, rich_text)) == lead_of(id, rich_text),
{
    let lead = lead_of(id, rich_text);
    if lead.len() > 0 {
        lemma_cleared_push(Seq::empty(), lead[0]);
    }
}

/// With placeholders off, a block adds what it adds with placeholders on,
/// toned down; and it fails in the same way.
pub proof fn lemma_block_differs_by_placeholders(block: BlockView)
    requires
        contribution(true, block) is Ok ==> placeholders_are_inert_below(block),
    ensures
        match contribution(true, block) {
            Ok(c) => contribution(false, block) == Ok::<ContributionView, ErrorView>(
                toned_down(c),
            ),
            Err(e) => contribution(false, block) == Err::<ContributionView, ErrorView>(e),
        },
    decreases block, 0nat,
{
    lemma_failures_agree_below(block);
    match (children_of(true, block), children_of(false, block)) {
        (Ok(on), Ok(off)) => {
            lemma_contribution_mark(true, block, on);
            lemma_contribution_mark(false, block, off);
            let kids = block.children->Ok_0;
            match block.kind {
                BlockKindView::Table { has_column_header, has_row_header } => {
                    lemma_rows_of_output(true, kids, kids.len());
                    lemma_rows_of_output(false, kids, kids.len());
                    lemma_start_of_output(true, kids, kids.len());
                    lemma_start_of_output(false, kids, kids.len());
                    lemma_first_shown_agrees(kids, kids.len());
                    lemma_table_from_rows(block.id, has_column_header, has_row_header, on, off);
                },
                BlockKindView::Callout { rich_text, .. } => {
                    if reads_children(block) {
                        lemma_differs_by_placeholders(kids, kids.len());
                    }
                    let lead = lead_of(block.id, rich_text);
                    lemma_cleared_add(lead, on, on.len());
                    lemma_lead_has_no_placeholder(block.id, rich_text);
                },
                BlockKindView::Quote { rich_text } => {
                    if reads_children(block) {
                        lemma_differs_by_placeholders(kids, kids.len());
                    }
                    let lead = lead_of(block.id, rich_text);
                    lemma_cleared_add(lead, on, on.len());
                    lemma_lead_has_no_placeholder(block.id, rich_text);
                },
                _ => {
                    if reads_children(block) {
                        lemma_differs_by_placeholders(kids, kids.len());
                    }
                },
            }
        },
        _ => {},
    }
}

/// Switching placeholders off removes the placeholders and changes nothing
/// else. For every run of blocks in which no placeholder decides how its
/// neighbours are grouped, the conversion with placeholders off fails as the
/// one with placeholders on does, or gives the same output without the
/// placeholders.
pub proof fn lemma_differs_by_placeholders(blocks: Seq<BlockView>, n: nat)
    requires
        n <= blocks.len(),
        converted_prefix(true, blocks, n) is Ok ==> placeholders_are_inert(blocks, n),
    ensures
        differs_by_placeholders(
            converted_prefix(true, blocks, n),
            converted_prefix(false, blocks, n),
        ),
    decreases blocks, n,
{
    if converted_prefix(true, blocks, n) is Err {
        lemma_failures_agree(blocks, n);
    } else if n > 0 {
        lemma_differs_by_placeholders(blocks, (n - 1) as nat);
        match converted_prefix(true, blocks, (n - 1) as nat) {
            Ok(on) => {
                let block = blocks[n - 1];
                lemma_block_differs_by_placeholders(block);
                match contribution(true, block) {
                    Ok(c) => {
                        let off = without_placeholders(on);
                        match children_of(true, block) {
                            Ok(children) => {
                                lemma_contribution_mark(true, block, children);
                            },
                            Err(_) => {},
                        }
                        lemma_end_of_output(true, blocks, (n - 1) as nat);
                        lemma_end_of_output(false, blocks, (n - 1) as nat);
                        // A list item that would join, in the cleared output, a
                        // list that a placeholder keeps it from in the full one
                        // is ruled out by the premise.
                        if c matches ContributionView::ListItem(style, _) && on.len() > 0
                            && on.last().is_placeholder() && off.len() > 0 && joins(
                            off.last(),
                            style,
                        ) {
                            assert(placeholder_parts_items(blocks, n - 1));
                        }
                        lemma_placed_cleared(on, c);
                    },
                    Err(_) => {},
                }
            },
            Err(_) => {},
        }
    }
}

/// Switching placeholders off removes the placeholders and changes nothing
/// else, for a whole listing: see [`lemma_differs_by_placeholders`].
pub proof fn lemma_mode_toggle(listing: Result<Seq<BlockView>, ErrorView>)
    requires
        converted(true, listing) matches Ok(_) ==> placeholders_are_inert(
            listing->Ok_0,
            listing->Ok_0.len(),
        ),
    ensures
        differs_by_placeholders(converted(true, listing), converted(false, listing)),
{
    match listing {
        Ok(blocks) => {
            lemma_differs_by_placeholders(blocks, blocks.len());
        },
        Err(_) => {},
    }
}


/// Where the last block that adds something with placeholders on has a
/// rendering, it is also the last that adds something with placeholders off.
pub proof fn lemma_last_shown_agrees(blocks: Seq<BlockView>, n: nat)
    requires
        n <= blocks.len(),
    ensures
        last_shown(true, blocks, n) matches Some(i) ==> (!has_no_rendering(blocks[i].kind)
            ==> last_shown(false, blocks, n) == Some(i)),
    decreases n,
{
    if n > 0 {
        lemma_last_shown_agrees(blocks, (n - 1) as nat);
    }
}

/// Two outputs that are equal after one more component each were equal
/// before, and the components are equal.
pub proof fn lemma_push_cancels(
    out: Seq<ComponentView>,
    other: Seq<ComponentView>,
    a: ComponentView,
    b: ComponentView,
)
    requires
        out.push(a) == other.push(b),
    ensures
        out == other,
        a == b,
{
    assert(other =~= other.push(b).drop_last());
    assert(other.push(b).last() == b);
}

/// Two outputs that are equal after the same components were put before
/// them are equal.
pub proof fn lemma_lead_cancels(
    lead: Seq<ComponentView>,
    out: Seq<ComponentView>,
    other: Seq<ComponentView>,
)
    requires
        lead + out == lead + other,
    ensures
        out == other,
{
    assert(other =~= (lead + other).skip(lead.len() as int));
}

/// The rule holds of no other block. Where a block adds, with placeholders
/// off, what it adds with placeholders on less the placeholders, no
/// placeholder below it decides how its neighbours are grouped.
pub proof fn lemma_only_inert_below(block: BlockView)
    requires
        contribution(true, block) matches Ok(c) && contribution(false, block) == Ok::<
            ContributionView,
            ErrorView,
        >(toned_down(c)),
    ensures
        placeholders_are_inert_below(block),
    decreases block, 0nat,
{
    match (block.children, children_of(true, block), children_of(false, block)) {
        (Ok(kids), Ok(on), Ok(off)) => {
            lemma_contribution_mark(true, block, on);
            lemma_contribution_mark(false, block, off);
            match block.kind {
                BlockKindView::Table { has_column_header, .. } => {
                    lemma_start_of_output(true, kids, kids.len());
                    lemma_start_of_output(false, kids, kids.len());
                    if placeholder_heads_table(has_column_header, kids) {
                        // The two tables differ in their header.
                        assert(header_of(has_column_header, off) is Some);
                        assert(header_of(has_column_header, on) is None);
                    }
                },
                BlockKindView::Callout { rich_text, .. } => {
                    if reads_children(block) {
                        let lead = lead_of(block.id, rich_text);
                        lemma_cleared_add(lead, on, on.len());
                        lemma_lead_has_no_placeholder(block.id, rich_text);
                        lemma_lead_cancels(lead, off, without_placeholders(on));
                        lemma_only_inert(kids, kids.len());
                    }
                },
                BlockKindView::Quote { rich_text } => {
                    if reads_children(block) {
                        let lead = lead_of(block.id, rich_text);
                        lemma_cleared_add(lead, on, on.len());
                        lemma_lead_has_no_placeholder(block.id, rich_text);
                        lemma_lead_cancels(lead, off, without_placeholders(on));
                        lemma_only_inert(kids, kids.len());
                    }
                },
                _ => {
                    if reads_children(block) {
                        lemma_only_inert(kids, kids.len());
                    }
                },
            }
        },
        _ => {},
    }
}

/// The rule holds of no other input. Where the conversion with placeholders
/// off gives the output of the conversion with placeholders on less the
/// placeholders, no placeholder decides how its neighbours are grouped: the
/// inputs that [`lemma_differs_by_placeholders`] leaves out are exactly those
/// on which the two outputs differ by more than the placeholders.
pub proof fn lemma_only_inert(blocks: Seq<BlockView>, n: nat)
    requires
        n <= blocks.len(),
        converted_prefix(true, blocks, n) matches Ok(on) && converted_prefix(false, blocks, n)
            == Ok::<Seq<ComponentView>, ErrorView>(without_placeholders(on)),
    ensures
        placeholders_are_inert(blocks, n),
    decreases blocks, n,
{
    if n > 0 {
        let block = blocks[n - 1];
        let before = (n - 1) as nat;
        lemma_failures_agree(blocks, before);
        lemma_failures_agree_below(block);
        let on = converted_prefix(true, blocks, before)->Ok_0;
        let off = converted_prefix(false, blocks, before)->Ok_0;
        let c = contribution(true, block)->Ok_0;
        let d = contribution(false, block)->Ok_0;
        let cleared_on = without_placeholders(on);
        match (children_of(true, block), children_of(false, block)) {
            (Ok(kids_on), Ok(kids_off)) => {
                lemma_contribution_mark(true, block, kids_on);
                lemma_contribution_mark(false, block, kids_off);
            },
            _ => {},
        }
        lemma_end_of_output(true, blocks, before);
        lemma_end_of_output(false, blocks, before);
        lemma_last_shown_agrees(blocks, before);
        // The two outputs were equal before this block.
        match c {
            ContributionView::Nothing => {},
            ContributionView::Component(component) => {
                lemma_cleared_push(on, component);
                if !component.is_placeholder() {
                    lemma_push_cancels(off, cleared_on, d->Component_0, stripped(component));
                }
            },
            ContributionView::ListItem(style, item) => {
                let fresh = new_list(style, item);
                if on.len() > 0 && joins(on.last(), style) {
                    // The item joins the last list in both outputs.
                    let front = on.drop_last();
                    let last = on.last();
                    assert(front.push(last) =~= on);
                    lemma_cleared_push(front, last);
                    lemma_cleared_push(front, with_item(last, item));
                    let off_last = off.last();
                    lemma_push_cancels(
                        off.drop_last(),
                        without_placeholders(front),
                        with_item(off_last, item),
                        with_item(last, item),
                    );
                    let items = last->BlockComponent_0->List_items;
                    let off_items = off_last->BlockComponent_0->List_items;
                    assert(off_items =~= off_items.push(item).drop_last());
                    assert(items =~= items.push(item).drop_last());
                } else {
                    lemma_cleared_push(on, fresh);
                    if off.len() > 0 && joins(off.last(), style) {
                        // The item would join a list in one output and open a
                        // list in the other: the list joined would be empty.
                        let off_last = off.last();
                        lemma_push_cancels(
                            off.drop_last(),
                            cleared_on,
                            with_item(off_last, item),
                            fresh,
                        );
                        let off_items = off_last->BlockComponent_0->List_items;
                        assert(off_items.push(item).len() == 1);
                        assert(false);
                    } else {
                        lemma_push_cancels(off, cleared_on, fresh, fresh);
                    }
                }
            },
        }
        assert(off == cleared_on);
        lemma_only_inert(blocks, before);
        lemma_only_inert_below(block);
        // A placeholder that parts two items would make the item join in one
        // output and open a list in the other.
        assert(!placeholder_parts_items(blocks, n - 1));
    }
}

} // verus!
