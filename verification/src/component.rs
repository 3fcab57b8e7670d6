//! The output: markup components, as plain values.
//!
//! A component is either inline (it flows with text) or a block (it stacks
//! vertically). Blocks that group other components hold them in document
//! order.

use vstd::prelude::*;
use crate::views::{opt_view, views};

verus! {

/// The depth of a heading.
#[derive(Clone, Copy, Debug, PartialEq, Eq)]
pub enum HeadingLevel {
    H1,
    H2,
    H3,
    H4,
    H5,
    H6,
}

/// How the items of a list are marked.
#[derive(Clone, Copy, Debug, PartialEq, Eq)]
pub enum ListStyle {
    Unordered,
    Ordered,
}

/// The recorded properties of a list.
#[derive(Clone, Copy, Debug, PartialEq, Eq)]
pub struct ListProps {
    pub list_style: Option<ListStyle>,
}

/// The tone of a callout.
#[derive(Clone, Copy, Debug, PartialEq, Eq)]
pub enum CalloutType {
    Note,
    Tip,
    Important,
    Warning,
    Caution,
}

/// The properties of a text span.
#[derive(Debug, PartialEq, Eq)]
pub struct TextProps {
    pub text: String,
    pub color: Option<String>,
    pub background_color: Option<String>,
    pub bold: Option<bool>,
    pub italic: Option<bool>,
    pub underline: Option<bool>,
    pub strikethrough: Option<bool>,
    pub katex: Option<bool>,
    pub code: Option<bool>,
    pub kbd: Option<bool>,
    pub ruby: Option<String>,
    pub href: Option<String>,
    pub favicon: Option<String>,
}

/// [`TextProps`] as a mathematical value.
pub struct TextPropsView {
    pub text: Seq<char>,
    pub color: Option<Seq<char>>,
    pub background_color: Option<Seq<char>>,
    pub bold: Option<bool>,
    pub italic: Option<bool>,
    pub underline: Option<bool>,
    pub strikethrough: Option<bool>,
    pub katex: Option<bool>,
    pub code: Option<bool>,
    pub kbd: Option<bool>,
    pub ruby: Option<Seq<char>>,
    pub href: Option<Seq<char>>,
    pub favicon: Option<Seq<char>>,
}

impl View for TextProps {
    type V = TextPropsView;

    open spec fn view(&self) -> TextPropsView {
        TextPropsView {
            text: self.text@,
            color: opt_view(self.color),
            background_color: opt_view(self.background_color),
            bold: self.bold,
            italic: self.italic,
            underline: self.underline,
            strikethrough: self.strikethrough,
            katex: self.katex,
            code: self.code,
            kbd: self.kbd,
            ruby: opt_view(self.ruby),
            href: opt_view(self.href),
            favicon: opt_view(self.favicon),
        }
    }
}

impl TextPropsView {
    /// Text without any styling.
    pub open spec fn plain(text: Seq<char>) -> TextPropsView {
        TextPropsView {
            text,
            color: None,
            background_color: None,
            bold: None,
            italic: None,
            underline: None,
            strikethrough: None,
            katex: None,
            code: None,
            kbd: None,
            ruby: None,
            href: None,
            favicon: None,
        }
    }
}

impl TextProps {
    /// Text without any styling.
    pub fn plain(text: String) -> (r: TextProps)
        ensures
            r@ == TextPropsView::plain(text@),
    {
        TextProps {
            text,
            color: None,
            background_color: None,
            bold: None,
            italic: None,
            underline: None,
            strikethrough: None,
            katex: None,
            code: None,
            kbd: None,
            ruby: None,
            href: None,
            favicon: None,
        }
    }
}

/// A component that flows with text.
#[derive(Debug, PartialEq, Eq)]
pub enum InlineComponent {
    Text { id: Option<String>, props: TextProps },
    Icon { id: Option<String>, src: String, alt: Option<String> },
}

/// [`InlineComponent`] as a mathematical value.
pub enum InlineView {
    Text { id: Option<Seq<char>>, props: TextPropsView },
    Icon { id: Option<Seq<char>>, src: Seq<char>, alt: Option<Seq<char>> },
}

impl View for InlineComponent {
    type V = InlineView;

    open spec fn view(&self) -> InlineView {
        match self {
            InlineComponent::Text { id, props } => InlineView::Text {
                id: opt_view(*id),
                props: props@,
            },
            InlineComponent::Icon { id, src, alt } => InlineView::Icon {
                id: opt_view(*id),
                src: src@,
                alt: opt_view(*alt),
            },
        }
    }
}

/// A component that stacks vertically.
#[derive(Debug, PartialEq, Eq)]
pub enum BlockComponent {
    Heading { id: Option<String>, level: HeadingLevel, content: Vec<InlineComponent> },
    Paragraph { id: Option<String>, content: Vec<InlineComponent> },
    ListItem { id: Option<String>, content: Vec<InlineComponent> },
    List { id: Option<String>, props: Option<ListProps>, items: Vec<Component> },
    BlockQuote { id: Option<String>, children: Vec<Component> },
    Callout { id: Option<String>, callout_type: CalloutType, children: Vec<Component> },
    Divider { id: Option<String> },
    Toggle { id: Option<String>, summary: Vec<InlineComponent>, children: Vec<Component> },
    Bookmark {
        id: Option<String>,
        url: String,
        title: Option<String>,
        description: Option<String>,
        image: Option<String>,
    },
    File { id: Option<String>, src: String, name: Option<String> },
    Image { id: Option<String>, src: String, alt: Option<String> },
    CodeBlock {
        id: Option<String>,
        code: String,
        language: String,
        caption: Option<Vec<InlineComponent>>,
    },
    Katex { id: Option<String>, expression: String },
    Mermaid { id: Option<String>, code: String },
    Table {
        id: Option<String>,
        has_column_header: bool,
        has_row_header: bool,
        header: Option<Vec<Component>>,
        body: Vec<Component>,
    },
    TableRow { id: Option<String>, cells: Vec<Component> },
    TableCell { id: Option<String>, content: Vec<InlineComponent> },
    Unsupported { id: Option<String>, details: String },
}

/// [`BlockComponent`] as a mathematical value.
pub enum BlockComponentView {
    Heading { id: Option<Seq<char>>, level: HeadingLevel, content: Seq<InlineView> },
    Paragraph { id: Option<Seq<char>>, content: Seq<InlineView> },
    ListItem { id: Option<Seq<char>>, content: Seq<InlineView> },
    List { id: Option<Seq<char>>, props: Option<ListProps>, items: Seq<ComponentView> },
    BlockQuote { id: Option<Seq<char>>, children: Seq<ComponentView> },
    Callout { id: Option<Seq<char>>, callout_type: CalloutType, children: Seq<ComponentView> },
    Divider { id: Option<Seq<char>> },
    Toggle { id: Option<Seq<char>>, summary: Seq<InlineView>, children: Seq<ComponentView> },
    Bookmark {
        id: Option<Seq<char>>,
        url: Seq<char>,
        title: Option<Seq<char>>,
        description: Option<Seq<char>>,
        image: Option<Seq<char>>,
    },
    File { id: Option<Seq<char>>, src: Seq<char>, name: Option<Seq<char>> },
    Image { id: Option<Seq<char>>, src: Seq<char>, alt: Option<Seq<char>> },
    CodeBlock {
        id: Option<Seq<char>>,
        code: Seq<char>,
        language: Seq<char>,
        caption: Option<Seq<InlineView>>,
    },
    Katex { id: Option<Seq<char>>, expression: Seq<char> },
    Mermaid { id: Option<Seq<char>>, code: Seq<char> },
    Table {
        id: Option<Seq<char>>,
        has_column_header: bool,
        has_row_header: bool,
        header: Option<Seq<ComponentView>>,
        body: Seq<ComponentView>,
    },
    TableRow { id: Option<Seq<char>>, cells: Seq<ComponentView> },
    TableCell { id: Option<Seq<char>>, content: Seq<InlineView> },
    Unsupported { id: Option<Seq<char>>, details: Seq<char> },
}

/// A node of the output tree.
#[derive(Debug, PartialEq, Eq)]
pub enum Component {
    InlineComponent(InlineComponent),
    BlockComponent(BlockComponent),
}

/// [`Component`] as a mathematical value.
pub enum ComponentView {
    InlineComponent(InlineView),
    BlockComponent(BlockComponentView),
}

/// The views of a list of components, in order.
pub open spec fn component_views(s: Seq<Component>) -> Seq<ComponentView>
    decreases s,
{
    Seq::new(s.len(), |i: int| if 0 <= i < s.len() { component_view(s[i]) } else { arbitrary() })
}

/// The view of a component: its own fields and, below them, the views of
/// the components it holds.
pub open spec fn component_view(c: Component) -> ComponentView
    decreases c,
{
    match c {
        Component::InlineComponent(i) => ComponentView::InlineComponent(i@),
        Component::BlockComponent(b) => ComponentView::BlockComponent(block_component_view(b)),
    }
}

/// The view of a block component.
pub open spec fn block_component_view(b: BlockComponent) -> BlockComponentView
    decreases b,
{
    match b {
        BlockComponent::Heading { id, level, content } => BlockComponentView::Heading {
            id: opt_view(id),
            level,
            content: views(content@),
        },
        BlockComponent::Paragraph { id, content } => BlockComponentView::Paragraph {
            id: opt_view(id),
            content: views(content@),
        },
        BlockComponent::ListItem { id, content } => BlockComponentView::ListItem {
            id: opt_view(id),
            content: views(content@),
        },
        BlockComponent::List { id, props, items } => BlockComponentView::List {
            id: opt_view(id),
            props,
            items: component_views(items@),
        },
        BlockComponent::BlockQuote { id, children } => BlockComponentView::BlockQuote {
            id: opt_view(id),
            children: component_views(children@),
        },
        BlockComponent::Callout { id, callout_type, children } => BlockComponentView::Callout {
            id: opt_view(id),
            callout_type,
            children: component_views(children@),
        },
        BlockComponent::Divider { id } => BlockComponentView::Divider { id: opt_view(id) },
        BlockComponent::Toggle { id, summary, children } => BlockComponentView::Toggle {
            id: opt_view(id),
            summary: views(summary@),
            children: component_views(children@),
        },
        BlockComponent::Bookmark { id, url, title, description, image } => {
            BlockComponentView::Bookmark {
                id: opt_view(id),
                url: url@,
                title: opt_view(title),
                description: opt_view(description),
                image: opt_view(image),
            }
        },
        BlockComponent::File { id, src, name } => BlockComponentView::File {
            id: opt_view(id),
            src: src@,
            name: opt_view(name),
        },
        BlockComponent::Image { id, src, alt } => BlockComponentView::Image {
            id: opt_view(id),
            src: src@,
            alt: opt_view(alt),
        },
        BlockComponent::CodeBlock { id, code, language, caption } => {
            BlockComponentView::CodeBlock {
                id: opt_view(id),
                code: code@,
                language: language@,
                caption: match caption {
                    Some(c) => Some(views(c@)),
                    None => None,
                },
            }
        },
        BlockComponent::Katex { id, expression } => BlockComponentView::Katex {
            id: opt_view(id),
            expression: expression@,
        },
        BlockComponent::Mermaid { id, code } => BlockComponentView::Mermaid {
            id: opt_view(id),
            code: code@,
        },
        BlockComponent::Table { id, has_column_header, has_row_header, header, body } => {
            BlockComponentView::Table {
                id: opt_view(id),
                has_column_header,
                has_row_header,
                header: match header {
                    Some(h) => Some(component_views(h@)),
                    None => None,
                },
                body: component_views(body@),
            }
        },
        BlockComponent::TableRow { id, cells } => BlockComponentView::TableRow {
            id: opt_view(id),
            cells: component_views(cells@),
        },
        BlockComponent::TableCell { id, content } => BlockComponentView::TableCell {
            id: opt_view(id),
            content: views(content@),
        },
        BlockComponent::Unsupported { id, details } => BlockComponentView::Unsupported {
            id: opt_view(id),
            details: details@,
        },
    }
}

impl View for Component {
    type V = ComponentView;

    open spec fn view(&self) -> ComponentView {
        component_view(*self)
    }
}

impl View for BlockComponent {
    type V = BlockComponentView;

    open spec fn view(&self) -> BlockComponentView {
        block_component_view(*self)
    }
}

/// Below a component, the components it holds are viewed one by one.
pub proof fn lemma_component_views(s: Seq<Component>)
    ensures
        component_views(s) == views(s),
{
    assert(component_views(s) =~= views(s));
}

impl InlineView {
    /// The id of the span of the source that the component came from.
    pub open spec fn id(self) -> Option<Seq<char>> {
        match self {
            InlineView::Text { id, .. } => id,
            InlineView::Icon { id, .. } => id,
        }
    }
}

impl BlockComponentView {
    /// The id of the block of the source that the component came from.
    pub open spec fn id(self) -> Option<Seq<char>> {
        match self {
            BlockComponentView::Heading { id, .. } => id,
            BlockComponentView::Paragraph { id, .. } => id,
            BlockComponentView::ListItem { id, .. } => id,
            BlockComponentView::List { id, .. } => id,
            BlockComponentView::BlockQuote { id, .. } => id,
            BlockComponentView::Callout { id, .. } => id,
            BlockComponentView::Divider { id } => id,
            BlockComponentView::Toggle { id, .. } => id,
            BlockComponentView::Bookmark { id, .. } => id,
            BlockComponentView::File { id, .. } => id,
            BlockComponentView::Image { id, .. } => id,
            BlockComponentView::CodeBlock { id, .. } => id,
            BlockComponentView::Katex { id, .. } => id,
            BlockComponentView::Mermaid { id, .. } => id,
            BlockComponentView::Table { id, .. } => id,
            BlockComponentView::TableRow { id, .. } => id,
            BlockComponentView::TableCell { id, .. } => id,
            BlockComponentView::Unsupported { id, .. } => id,
        }
    }
}

impl ComponentView {
    /// The id of the part of the source that the component came from.
    pub open spec fn id(self) -> Option<Seq<char>> {
        match self {
            ComponentView::InlineComponent(c) => c.id(),
            ComponentView::BlockComponent(b) => b.id(),
        }
    }

    /// A list item.
    pub open spec fn is_list_item(self) -> bool {
        self matches ComponentView::BlockComponent(BlockComponentView::ListItem { .. })
    }

    /// A table row.
    pub open spec fn is_table_row(self) -> bool {
        self matches ComponentView::BlockComponent(BlockComponentView::TableRow { .. })
    }

    /// A table cell.
    pub open spec fn is_table_cell(self) -> bool {
        self matches ComponentView::BlockComponent(BlockComponentView::TableCell { .. })
    }

    /// A list.
    pub open spec fn is_list(self) -> bool {
        self matches ComponentView::BlockComponent(BlockComponentView::List { .. })
    }

    /// A placeholder for a block that has no rendering.
    pub open spec fn is_placeholder(self) -> bool {
        self matches ComponentView::BlockComponent(BlockComponentView::Unsupported { .. })
    }

    /// The shape that every component must have: a list holds list items only,
    /// a table's header is one table row, its body is table rows, a table row
    /// holds table cells only; and so on down the tree.
    pub open spec fn well_formed(self) -> bool
        decreases self,
    {
        match self {
            ComponentView::InlineComponent(_) => true,
            ComponentView::BlockComponent(b) => match b {
                BlockComponentView::List { items, .. } => forall|i: int|
                    0 <= i < items.len() ==> (#[trigger] items[i]).is_list_item(),
                BlockComponentView::Table { header, body, .. } => {
                    &&& header matches Some(h) ==> {
                        &&& h.len() == 1
                        &&& h[0].is_table_row()
                        &&& h[0].well_formed()
                    }
                    &&& forall|i: int|
                        0 <= i < body.len() ==> (#[trigger] body[i]).is_table_row()
                            && body[i].well_formed()
                },
                BlockComponentView::TableRow { cells, .. } => forall|i: int|
                    0 <= i < cells.len() ==> (#[trigger] cells[i]).is_table_cell(),
                BlockComponentView::BlockQuote { children, .. } => all_well_formed(children),
                BlockComponentView::Callout { children, .. } => all_well_formed(children),
                BlockComponentView::Toggle { children, .. } => all_well_formed(children),
                _ => true,
            },
        }
    }
}

/// Every component of `s` is well formed.
pub open spec fn all_well_formed(s: Seq<ComponentView>) -> bool
    decreases s,
{
    forall|i: int| 0 <= i < s.len() ==> (#[trigger] s[i]).well_formed()
}

} // verus!
