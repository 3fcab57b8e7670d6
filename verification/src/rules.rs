//! What the conversion yields, stated over the mathematical views of blocks
//! and components. The executable code in [`crate::client`] is proved against
//! these definitions.

use vstd::prelude::*;
use crate::block::{
    Annotations, BlockKindView, BlockView, Color, FileObjectView, HeadingBlockView, LanguageView, LinkView,
    MentionView, RichTextView,
};
use crate::component::{
    BlockComponentView, CalloutType, ComponentView, HeadingLevel, InlineView, ListProps, ListStyle,
    TextPropsView,
};
use crate::enrich::{favicon_of, preview_of};
use crate::error::ErrorView;
use crate::keyboard::is_keyboard_text;
use crate::text::{plain_text_of, unsupported_details};

verus! {

/// The text colour that a colour tag stands for. Background tags and the
/// default give none.
pub open spec fn foreground_of(color: Color) -> Option<Seq<char>> {
    match color {
        Color::Blue => Some("#6987b8"@),
        Color::Brown => Some("#8b4c3f"@),
        Color::Gray => Some("#868e9c"@),
        Color::Green => Some("#59b57c"@),
        Color::Orange => Some("#bf7e71"@),
        Color::Pink => Some("#c9699e"@),
        Color::Purple => Some("#9771bd"@),
        Color::Red => Some("#b36472"@),
        Color::Yellow => Some("#b8a36e"@),
        _ => None,
    }
}

/// The background colour that a colour tag stands for. Text tags and the
/// defaults give none.
pub open spec fn background_of(color: Color) -> Option<Seq<char>> {
    match color {
        Color::BlueBackground => Some("#6987b8"@),
        Color::BrownBackground => Some("#8b4c3f"@),
        Color::GrayBackground => Some("#868e9c"@),
        Color::GreenBackground => Some("#59b57c"@),
        Color::OrangeBackground => Some("#bf7e71"@),
        Color::PinkBackground => Some("#c9699e"@),
        Color::PurpleBackground => Some("#9771bd"@),
        Color::RedBackground => Some("#b36472"@),
        Color::YellowBackground => Some("#b8a36e"@),
        _ => None,
    }
}

/// The tone of a callout, by its colour.
pub open spec fn callout_type_of(color: Color) -> CalloutType {
    match color {
        Color::Default
        | Color::DefaultBackground
        | Color::Blue
        | Color::BlueBackground
        | Color::Gray
        | Color::GrayBackground => CalloutType::Note,
        Color::Green | Color::GreenBackground => CalloutType::Tip,
        Color::Purple | Color::PurpleBackground => CalloutType::Important,
        Color::Yellow
        | Color::YellowBackground
        | Color::Orange
        | Color::OrangeBackground
        | Color::Brown
        | Color::BrownBackground => CalloutType::Warning,
        Color::Red | Color::RedBackground | Color::Pink | Color::PinkBackground => {
            CalloutType::Caution
        },
    }
}

/// The address that a link points at.
pub open spec fn href_of(link: Option<LinkView>) -> Option<Seq<char>> {
    match link {
        Some(l) => Some(l.url),
        None => None,
    }
}

/// The icon of the page that a link points at.
pub open spec fn link_favicon(link: Option<LinkView>) -> Option<Seq<char>> {
    match link {
        Some(l) => favicon_of(l.url, l.page),
        None => None,
    }
}

/// A text span as a component. Every text span carries its text, its
/// colours, its bold, italic, underline and strikethrough flags as explicit
/// values, and its link with the icon of the linked page. Code-styled text
/// is marked either as a keyboard key or as code, never as both: keyboard
/// text has the keyboard mark and no code flag, any other text has its code
/// flag as an explicit value and no keyboard mark.
pub open spec fn text_of(
    plain_text: Seq<char>,
    link: Option<LinkView>,
    annotations: Annotations,
) -> InlineView {
    let keyboard = is_keyboard_text(plain_text, annotations.code);
    InlineView::Text {
        id: None,
        props: TextPropsView {
            text: plain_text,
            color: foreground_of(annotations.color),
            background_color: background_of(annotations.color),
            bold: Some(annotations.bold),
            italic: Some(annotations.italic),
            underline: Some(annotations.underline),
            strikethrough: Some(annotations.strikethrough),
            katex: None,
            code: if keyboard {
                None
            } else {
                Some(annotations.code)
            },
            kbd: if keyboard {
                Some(true)
            } else {
                None
            },
            ruby: None,
            href: href_of(link),
            favicon: link_favicon(link),
        },
    }
}

/// A mention as a component: a link mention becomes linked text, a custom
/// emoji an icon, and every other mention nothing.
pub open spec fn mention_of(mention: MentionView, plain_text: Seq<char>) -> Option<InlineView> {
    match mention {
        MentionView::LinkMention(link) => Some(
            InlineView::Text {
                id: None,
                props: TextPropsView {
                    href: Some(link.url),
                    favicon: favicon_of(link.url, link.page),
                    ..TextPropsView::plain(plain_text)
                },
            },
        ),
        MentionView::CustomEmoji { id, name, url } => Some(
            InlineView::Icon { id: Some(id), src: url, alt: Some(name) },
        ),
        _ => None,
    }
}

/// An inline equation as a component: its expression, flagged as math.
pub open spec fn equation_of(expression: Seq<char>) -> InlineView {
    InlineView::Text {
        id: None,
        props: TextPropsView { katex: Some(true), ..TextPropsView::plain(expression) },
    }
}

/// The component that a span becomes, if any.
pub open spec fn inline_of(span: RichTextView) -> Option<InlineView> {
    match span {
        RichTextView::Text { plain_text, link, annotations } => Some(
            text_of(plain_text, link, annotations),
        ),
        RichTextView::Mention { mention, plain_text } => mention_of(mention, plain_text),
        RichTextView::Equation { expression, .. } => Some(equation_of(expression)),
    }
}

/// The components of a run of spans: those of each span, in order, spans
/// that become nothing left out.
pub open spec fn inlines_of(spans: Seq<RichTextView>) -> Seq<InlineView>
    decreases spans.len(),
{
    if spans.len() == 0 {
        Seq::empty()
    } else {
        let before = inlines_of(spans.drop_last());
        match inline_of(spans.last()) {
            Some(c) => before.push(c),
            None => before,
        }
    }
}

/// What one block adds to the output of its parent.
pub enum ContributionView {
    /// The block leaves no trace.
    Nothing,
    /// The block becomes a component of its own.
    Component(ComponentView),
    /// The block is an item of a list of the given style.
    ListItem(ListStyle, ComponentView),
}

/// A list may take one more item of style `style` when it records no
/// properties at all, or records exactly that style.
pub open spec fn accepts(props: Option<ListProps>, style: ListStyle) -> bool {
    match props {
        None => true,
        Some(p) => p.list_style == Some(style),
    }
}

/// The component `last` is a list that may take one more item of style
/// `style`.
pub open spec fn joins(last: ComponentView, style: ListStyle) -> bool {
    last matches ComponentView::BlockComponent(BlockComponentView::List { props, .. }) && accepts(
        props,
        style,
    )
}

/// The list `list` with `item` added at its end.
pub open spec fn with_item(list: ComponentView, item: ComponentView) -> ComponentView
    recommends
        list.is_list(),
{
    match list {
        ComponentView::BlockComponent(BlockComponentView::List { id, props, items }) => {
            ComponentView::BlockComponent(
                BlockComponentView::List { id, props, items: items.push(item) },
            )
        },
        _ => list,
    }
}

/// A list of style `style` that holds `item` alone.
pub open spec fn new_list(style: ListStyle, item: ComponentView) -> ComponentView {
    ComponentView::BlockComponent(
        BlockComponentView::List {
            id: None,
            props: Some(ListProps { list_style: Some(style) }),
            items: seq![item],
        },
    )
}

/// The output `out` after one more contribution. A component goes to the
/// end. A list item joins the component at the end if that is a list that
/// accepts it, and else goes to the end as a new list of its own.
pub open spec fn placed(out: Seq<ComponentView>, c: ContributionView) -> Seq<ComponentView> {
    match c {
        ContributionView::Nothing => out,
        ContributionView::Component(component) => out.push(component),
        ContributionView::ListItem(style, item) => {
            if out.len() > 0 && joins(out.last(), style) {
                out.drop_last().push(with_item(out.last(), item))
            } else {
                out.push(new_list(style, item))
            }
        },
    }
}

/// The placeholder for a block of kind `block_name`.
pub open spec fn unsupported_of(block_name: Seq<char>) -> ComponentView {
    ComponentView::BlockComponent(
        BlockComponentView::Unsupported { id: None, details: unsupported_details(block_name) },
    )
}

/// What a block without a rendering adds: its placeholder where placeholders
/// are enabled, else nothing.
pub open spec fn placeholder(enabled: bool, block_name: Seq<char>) -> ContributionView {
    if enabled {
        ContributionView::Component(unsupported_of(block_name))
    } else {
        ContributionView::Nothing
    }
}

/// A paragraph with the given source id.
pub open spec fn paragraph_of(id: Seq<char>, rich_text: Seq<RichTextView>) -> ComponentView {
    ComponentView::BlockComponent(
        BlockComponentView::Paragraph { id: Some(id), content: inlines_of(rich_text) },
    )
}

/// The paragraph that opens a callout or a quote: present where the block
/// has text of its own.
pub open spec fn lead_of(id: Seq<char>, rich_text: Seq<RichTextView>) -> Seq<ComponentView> {
    if rich_text.len() > 0 {
        seq![paragraph_of(id, rich_text)]
    } else {
        Seq::empty()
    }
}

/// A list item with the given source id.
pub open spec fn list_item_of(id: Seq<char>, rich_text: Seq<RichTextView>) -> ComponentView {
    ComponentView::BlockComponent(
        BlockComponentView::ListItem { id: Some(id), content: inlines_of(rich_text) },
    )
}

/// A code block as a component: a diagram for Mermaid, else source code in
/// its language, with a caption where the block has one.
pub open spec fn code_of(
    id: Seq<char>,
    rich_text: Seq<RichTextView>,
    caption: Seq<RichTextView>,
    language: LanguageView,
) -> ComponentView {
    match language {
        LanguageView::Mermaid => ComponentView::BlockComponent(
            BlockComponentView::Mermaid { id: Some(id), code: plain_text_of(rich_text) },
        ),
        LanguageView::Other(name) => ComponentView::BlockComponent(
            BlockComponentView::CodeBlock {
                id: Some(id),
                code: plain_text_of(rich_text),
                language: name,
                caption: if caption.len() > 0 {
                    Some(inlines_of(caption))
                } else {
                    None
                },
            },
        ),
    }
}

/// Text without any styling.
pub open spec fn plain_annotations() -> Annotations {
    Annotations {
        bold: false,
        italic: false,
        strikethrough: false,
        underline: false,
        code: false,
        color: Color::Default,
    }
}

/// The file of a kind that is not known, at `url`: it goes by the name
/// "untitled", and its caption is the one word "untitled", so that an image
/// of it has that word as its alternative text.
pub open spec fn untitled_file(url: Seq<char>) -> FileObjectView {
    FileObjectView {
        url,
        name: Some("untitled"@),
        caption: Some(
            seq![
                RichTextView::Text {
                    plain_text: "untitled"@,
                    link: None,
                    annotations: plain_annotations(),
                },
            ],
        ),
    }
}

/// The alternative text of an image: its caption as unstyled text.
pub open spec fn alt_of(caption: Option<Seq<RichTextView>>) -> Option<Seq<char>> {
    match caption {
        Some(c) => Some(plain_text_of(c)),
        None => None,
    }
}

/// A bookmark as a component, with the preview of the page that was fetched
/// for it.
pub open spec fn bookmark_of(id: Seq<char>, url: Seq<char>, page: Option<Seq<char>>)
    -> ComponentView {
    let preview = preview_of(page);
    ComponentView::BlockComponent(
        BlockComponentView::Bookmark {
            id: Some(id),
            url,
            title: preview.title,
            description: preview.description,
            image: preview.image,
        },
    )
}

/// One cell of a table row.
pub open spec fn cell_of(cell: Seq<RichTextView>) -> ComponentView {
    ComponentView::BlockComponent(
        BlockComponentView::TableCell { id: None, content: inlines_of(cell) },
    )
}

/// A table row as a component: one cell for each cell of the block, in
/// order.
pub open spec fn row_of(id: Seq<char>, cells: Seq<Seq<RichTextView>>) -> ComponentView {
    ComponentView::BlockComponent(
        BlockComponentView::TableRow {
            id: Some(id),
            cells: Seq::new(cells.len(), |i: int| cell_of(cells[i])),
        },
    )
}

/// The table rows among `components`, in order.
pub open spec fn rows_among(components: Seq<ComponentView>) -> Seq<ComponentView>
    decreases components.len(),
{
    if components.len() == 0 {
        Seq::empty()
    } else {
        let before = rows_among(components.drop_last());
        if components.last().is_table_row() {
            before.push(components.last())
        } else {
            before
        }
    }
}

/// The header of a table whose children came out as `children`: where the
/// table has a column header and any child at all, its first child leaves the
/// body, and is the header if it is a row.
pub open spec fn header_of(has_column_header: bool, children: Seq<ComponentView>) -> Option<
    Seq<ComponentView>,
> {
    if has_column_header && children.len() > 0 && children[0].is_table_row() {
        Some(seq![children[0]])
    } else {
        None
    }
}

/// The body of a table whose children came out as `children`: the rows
/// among them, without the first child where the table has a column header.
pub open spec fn body_of(has_column_header: bool, children: Seq<ComponentView>) -> Seq<
    ComponentView,
> {
    if has_column_header && children.len() > 0 {
        rows_among(children.drop_first())
    } else {
        rows_among(children)
    }
}

/// A table as a component, from what its children came out as.
pub open spec fn table_of(
    id: Seq<char>,
    has_column_header: bool,
    has_row_header: bool,
    children: Seq<ComponentView>,
) -> ComponentView {
    ComponentView::BlockComponent(
        BlockComponentView::Table {
            id: Some(id),
            has_column_header,
            has_row_header,
            header: header_of(has_column_header, children),
            body: body_of(has_column_header, children),
        },
    )
}

/// A heading as a component, from what its children came out as: a toggle
/// that folds the children under the heading's text where the heading is
/// toggleable, else a plain heading.
pub open spec fn heading_of(
    id: Seq<char>,
    heading: HeadingBlockView,
    level: HeadingLevel,
    children: Seq<ComponentView>,
) -> ComponentView {
    if heading.is_toggleable {
        ComponentView::BlockComponent(
            BlockComponentView::Toggle {
                id: Some(id),
                summary: inlines_of(heading.rich_text),
                children,
            },
        )
    } else {
        ComponentView::BlockComponent(
            BlockComponentView::Heading {
                id: Some(id),
                level,
                content: inlines_of(heading.rich_text),
            },
        )
    }
}

/// The outcome for a heading, from what listing its children gave. A
/// toggleable heading fails where its children fail; any other heading does
/// not look at its children.
pub open spec fn heading_converted(
    enabled: bool,
    id: Seq<char>,
    heading: HeadingBlockView,
    level: HeadingLevel,
    listing: Result<Seq<BlockView>, ErrorView>,
) -> Result<ComponentView, ErrorView> {
    if heading.is_toggleable {
        match converted(enabled, listing) {
            Ok(children) => Ok(heading_of(id, heading, level, children)),
            Err(e) => Err(e),
        }
    } else {
        Ok(heading_of(id, heading, level, Seq::empty()))
    }
}

/// The conversion reads the children of `block`: always for a toggle, a
/// table and a toggleable heading; for a callout and a quote where the block
/// says it has children; never for any other block.
pub open spec fn reads_children(block: BlockView) -> bool {
    match block.kind {
        BlockKindView::Toggle { .. } => true,
        BlockKindView::Table { .. } => true,
        BlockKindView::Heading1(h) => h.is_toggleable,
        BlockKindView::Heading2(h) => h.is_toggleable,
        BlockKindView::Heading3(h) => h.is_toggleable,
        BlockKindView::Callout { .. } => block.has_children,
        BlockKindView::Quote { .. } => block.has_children,
        _ => false,
    }
}

/// What the children of `block` come out as, where the conversion reads
/// them; nothing where it does not.
pub open spec fn children_of(enabled: bool, block: BlockView) -> Result<
    Seq<ComponentView>,
    ErrorView,
>
    decreases block, 0nat,
{
    if reads_children(block) {
        converted(enabled, block.children)
    } else {
        Ok(Seq::empty())
    }
}

/// What `block` adds to the output of its parent, from what its children came
/// out as.
pub open spec fn contribution_with(
    enabled: bool,
    block: BlockView,
    children: Seq<ComponentView>,
) -> ContributionView {
    let id = block.id;
    match block.kind {
        BlockKindView::Audio => placeholder(enabled, "Audio"@),
        BlockKindView::Bookmark { url, page } => ContributionView::Component(
            bookmark_of(id, url, page),
        ),
        BlockKindView::Breadcrumb => placeholder(enabled, "Breadcrumb"@),
        BlockKindView::BulletedListItem { rich_text } => ContributionView::ListItem(
            ListStyle::Unordered,
            list_item_of(id, rich_text),
        ),
        BlockKindView::Callout { rich_text, color } => ContributionView::Component(
            ComponentView::BlockComponent(
                BlockComponentView::Callout {
                    id: Some(id),
                    callout_type: callout_type_of(color),
                    children: lead_of(id, rich_text) + children,
                },
            ),
        ),
        BlockKindView::ChildDatabase => placeholder(enabled, "ChildDatabase"@),
        BlockKindView::ChildPage => placeholder(enabled, "ChildPage"@),
        BlockKindView::Code { rich_text, caption, language } => ContributionView::Component(
            code_of(id, rich_text, caption, language),
        ),
        BlockKindView::ColumnList => ContributionView::Nothing,
        BlockKindView::Column => ContributionView::Nothing,
        BlockKindView::Divider => ContributionView::Component(
            ComponentView::BlockComponent(BlockComponentView::Divider { id: Some(id) }),
        ),
        BlockKindView::Embed => placeholder(enabled, "Embed"@),
        BlockKindView::Equation { expression } => ContributionView::Component(
            ComponentView::BlockComponent(BlockComponentView::Katex { id: Some(id), expression }),
        ),
        BlockKindView::File(file) => ContributionView::Component(
            ComponentView::BlockComponent(
                BlockComponentView::File { id: Some(id), src: file.url, name: file.name },
            ),
        ),
        BlockKindView::Heading1(heading) => ContributionView::Component(
            heading_of(id, heading, HeadingLevel::H1, children),
        ),
        BlockKindView::Heading2(heading) => ContributionView::Component(
            heading_of(id, heading, HeadingLevel::H2, children),
        ),
        BlockKindView::Heading3(heading) => ContributionView::Component(
            heading_of(id, heading, HeadingLevel::H3, children),
        ),
        BlockKindView::Image(file) => ContributionView::Component(
            ComponentView::BlockComponent(
                BlockComponentView::Image { id: Some(id), src: file.url, alt: alt_of(file.caption) },
            ),
        ),
        BlockKindView::LinkPreview => placeholder(enabled, "LinkPreview"@),
        BlockKindView::NumberedListItem { rich_text } => ContributionView::ListItem(
            ListStyle::Ordered,
            list_item_of(id, rich_text),
        ),
        BlockKindView::Paragraph { rich_text } => ContributionView::Component(
            paragraph_of(id, rich_text),
        ),
        BlockKindView::Pdf => ContributionView::Nothing,
        BlockKindView::Quote { rich_text } => ContributionView::Component(
            ComponentView::BlockComponent(
                BlockComponentView::BlockQuote {
                    id: Some(id),
                    children: lead_of(id, rich_text) + children,
                },
            ),
        ),
        BlockKindView::SyncedBlock => placeholder(enabled, "SyncedBlock"@),
        BlockKindView::TableOfContents => ContributionView::Nothing,
        BlockKindView::Table { has_column_header, has_row_header } => ContributionView::Component(
            table_of(id, has_column_header, has_row_header, children),
        ),
        BlockKindView::TableRow { cells } => ContributionView::Component(row_of(id, cells)),
        BlockKindView::Template => placeholder(enabled, "Template"@),
        BlockKindView::ToDo => placeholder(enabled, "ToDo"@),
        BlockKindView::Toggle { rich_text } => ContributionView::Component(
            ComponentView::BlockComponent(
                BlockComponentView::Toggle {
                    id: Some(id),
                    summary: inlines_of(rich_text),
                    children,
                },
            ),
        ),
        BlockKindView::Video => placeholder(enabled, "Video"@),
        BlockKindView::Unsupported => placeholder(enabled, "Unsupported"@),
    }
}

/// What `block` adds to the output of its parent: the failure to list its
/// children where the conversion reads them and they could not be listed,
/// or a failure further down; else its contribution.
pub open spec fn contribution(enabled: bool, block: BlockView) -> Result<
    ContributionView,
    ErrorView,
>
    decreases block, 1nat,
{
    match children_of(enabled, block) {
        Err(e) => Err(e),
        Ok(children) => Ok(contribution_with(enabled, block, children)),
    }
}

/// The output for the first `n` blocks of `blocks`: the contributions of
/// the blocks, placed one after the other in document order. The first
/// failure ends the conversion, and nothing of the output is kept.
pub open spec fn converted_prefix(enabled: bool, blocks: Seq<BlockView>, n: nat) -> Result<
    Seq<ComponentView>,
    ErrorView,
>
    decreases blocks, n,
{
    if n == 0 || n > blocks.len() {
        Ok(Seq::empty())
    } else {
        match converted_prefix(enabled, blocks, (n - 1) as nat) {
            Err(e) => Err(e),
            Ok(out) => match contribution(enabled, blocks[n - 1]) {
                Err(e) => Err(e),
                Ok(c) => Ok(placed(out, c)),
            },
        }
    }
}

/// The output for what listing the children of a block gave: the failure
/// where they could not be listed, else the output for all of them.
pub open spec fn converted(enabled: bool, listing: Result<Seq<BlockView>, ErrorView>) -> Result<
    Seq<ComponentView>,
    ErrorView,
>
    decreases listing, 0nat,
{
    match listing {
        Err(e) => Err(e),
        Ok(blocks) => converted_prefix(enabled, blocks, blocks.len()),
    }
}

} // verus!
