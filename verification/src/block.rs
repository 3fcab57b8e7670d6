//! The input: blocks and their rich text, as plain values.
//!
//! A block carries what was read for it ahead of the conversion: the list of
//! its children (or the failure to list them) and, on bookmarks and links, the
//! page that was fetched from the address (or `None` where the fetch failed).

use vstd::prelude::*;
use crate::error::{Error, ErrorView};
use crate::views::{opt_view, views};

verus! {

/// The colour tag of an annotation or a callout.
#[derive(Clone, Copy, Debug, PartialEq, Eq)]
pub enum Color {
    Default,
    Blue,
    Brown,
    Gray,
    Green,
    Orange,
    Pink,
    Purple,
    Red,
    Yellow,
    DefaultBackground,
    BlueBackground,
    BrownBackground,
    GrayBackground,
    GreenBackground,
    OrangeBackground,
    PinkBackground,
    PurpleBackground,
    RedBackground,
    YellowBackground,
}

/// The styling of a text span.
#[derive(Clone, Copy, Debug, PartialEq, Eq)]
pub struct Annotations {
    pub bold: bool,
    pub italic: bool,
    pub strikethrough: bool,
    pub underline: bool,
    pub code: bool,
    pub color: Color,
}

/// An outbound link and the page that was fetched from it.
#[derive(Debug, PartialEq, Eq)]
pub struct Link {
    pub url: String,
    /// The body of the page at `url`; `None` where it could not be fetched.
    pub page: Option<String>,
}

/// [`Link`] as a mathematical value.
pub struct LinkView {
    pub url: Seq<char>,
    pub page: Option<Seq<char>>,
}

impl View for Link {
    type V = LinkView;

    open spec fn view(&self) -> LinkView {
        LinkView { url: self.url@, page: opt_view(self.page) }
    }
}

/// What a mention span points at.
#[derive(Debug, PartialEq, Eq)]
pub enum Mention {
    User,
    Date,
    LinkPreview,
    LinkMention(Link),
    TemplateMention,
    Page,
    Database,
    CustomEmoji { id: String, name: String, url: String },
}

/// [`Mention`] as a mathematical value.
pub enum MentionView {
    User,
    Date,
    LinkPreview,
    LinkMention(LinkView),
    TemplateMention,
    Page,
    Database,
    CustomEmoji { id: Seq<char>, name: Seq<char>, url: Seq<char> },
}

impl View for Mention {
    type V = MentionView;

    open spec fn view(&self) -> MentionView {
        match self {
            Mention::User => MentionView::User,
            Mention::Date => MentionView::Date,
            Mention::LinkPreview => MentionView::LinkPreview,
            Mention::LinkMention(link) => MentionView::LinkMention(link@),
            Mention::TemplateMention => MentionView::TemplateMention,
            Mention::Page => MentionView::Page,
            Mention::Database => MentionView::Database,
            Mention::CustomEmoji { id, name, url } => MentionView::CustomEmoji {
                id: id@,
                name: name@,
                url: url@,
            },
        }
    }
}

/// One inline unit of a block's text.
#[derive(Debug, PartialEq, Eq)]
pub enum RichText {
    Text { plain_text: String, link: Option<Link>, annotations: Annotations },
    Mention { mention: Mention, plain_text: String },
    Equation { expression: String, plain_text: String },
}

/// [`RichText`] as a mathematical value.
pub enum RichTextView {
    Text { plain_text: Seq<char>, link: Option<LinkView>, annotations: Annotations },
    Mention { mention: MentionView, plain_text: Seq<char> },
    Equation { expression: Seq<char>, plain_text: Seq<char> },
}

impl View for RichText {
    type V = RichTextView;

    open spec fn view(&self) -> RichTextView {
        match self {
            RichText::Text { plain_text, link, annotations } => RichTextView::Text {
                plain_text: plain_text@,
                link: opt_view(*link),
                annotations: *annotations,
            },
            RichText::Mention { mention, plain_text } => RichTextView::Mention {
                mention: mention@,
                plain_text: plain_text@,
            },
            RichText::Equation { expression, plain_text } => RichTextView::Equation {
                expression: expression@,
                plain_text: plain_text@,
            },
        }
    }
}

impl RichTextView {
    /// The span as unstyled text.
    pub open spec fn plain_text(self) -> Seq<char> {
        match self {
            RichTextView::Text { plain_text, .. } => plain_text,
            RichTextView::Mention { plain_text, .. } => plain_text,
            RichTextView::Equation { plain_text, .. } => plain_text,
        }
    }
}

/// A file that a file or image block refers to.
#[derive(Debug, PartialEq, Eq)]
pub struct FileObject {
    pub url: String,
    pub name: Option<String>,
    pub caption: Option<Vec<RichText>>,
}

/// [`FileObject`] as a mathematical value.
pub struct FileObjectView {
    pub url: Seq<char>,
    pub name: Option<Seq<char>>,
    pub caption: Option<Seq<RichTextView>>,
}

impl View for FileObject {
    type V = FileObjectView;

    open spec fn view(&self) -> FileObjectView {
        FileObjectView {
            url: self.url@,
            name: opt_view(self.name),
            caption: match self.caption {
                Some(c) => Some(views(c@)),
                None => None,
            },
        }
    }
}

/// The language of a code block: diagrams are told apart from source code.
#[derive(Debug, PartialEq, Eq)]
pub enum Language {
    Mermaid,
    /// Any other language, by its name.
    Other(String),
}

/// [`Language`] as a mathematical value.
pub enum LanguageView {
    Mermaid,
    Other(Seq<char>),
}

impl View for Language {
    type V = LanguageView;

    open spec fn view(&self) -> LanguageView {
        match self {
            Language::Mermaid => LanguageView::Mermaid,
            Language::Other(name) => LanguageView::Other(name@),
        }
    }
}

/// The payload of a heading block.
#[derive(Debug, PartialEq, Eq)]
pub struct HeadingBlock {
    pub rich_text: Vec<RichText>,
    pub is_toggleable: bool,
}

/// [`HeadingBlock`] as a mathematical value.
pub struct HeadingBlockView {
    pub rich_text: Seq<RichTextView>,
    pub is_toggleable: bool,
}

impl View for HeadingBlock {
    type V = HeadingBlockView;

    open spec fn view(&self) -> HeadingBlockView {
        HeadingBlockView { rich_text: views(self.rich_text@), is_toggleable: self.is_toggleable }
    }
}

/// The kind of a block, with the payload that the conversion reads.
#[derive(Debug, PartialEq, Eq)]
pub enum BlockKind {
    Audio,
    Bookmark {
        url: String,
        /// The body of the page at `url`; `None` where it could not be fetched.
        page: Option<String>,
    },
    Breadcrumb,
    BulletedListItem { rich_text: Vec<RichText> },
    Callout { rich_text: Vec<RichText>, color: Color },
    ChildDatabase,
    ChildPage,
    Code { rich_text: Vec<RichText>, caption: Vec<RichText>, language: Language },
    ColumnList,
    Column,
    Divider,
    Embed,
    Equation { expression: String },
    File(FileObject),
    Heading1(HeadingBlock),
    Heading2(HeadingBlock),
    Heading3(HeadingBlock),
    Image(FileObject),
    LinkPreview,
    NumberedListItem { rich_text: Vec<RichText> },
    Paragraph { rich_text: Vec<RichText> },
    Pdf,
    Quote { rich_text: Vec<RichText> },
    SyncedBlock,
    TableOfContents,
    Table { has_column_header: bool, has_row_header: bool },
    TableRow { cells: Vec<Vec<RichText>> },
    Template,
    ToDo,
    Toggle { rich_text: Vec<RichText> },
    Video,
    Unsupported,
}

/// [`BlockKind`] as a mathematical value.
pub enum BlockKindView {
    Audio,
    Bookmark { url: Seq<char>, page: Option<Seq<char>> },
    Breadcrumb,
    BulletedListItem { rich_text: Seq<RichTextView> },
    Callout { rich_text: Seq<RichTextView>, color: Color },
    ChildDatabase,
    ChildPage,
    Code { rich_text: Seq<RichTextView>, caption: Seq<RichTextView>, language: LanguageView },
    ColumnList,
    Column,
    Divider,
    Embed,
    Equation { expression: Seq<char> },
    File(FileObjectView),
    Heading1(HeadingBlockView),
    Heading2(HeadingBlockView),
    Heading3(HeadingBlockView),
    Image(FileObjectView),
    LinkPreview,
    NumberedListItem { rich_text: Seq<RichTextView> },
    Paragraph { rich_text: Seq<RichTextView> },
    Pdf,
    Quote { rich_text: Seq<RichTextView> },
    SyncedBlock,
    TableOfContents,
    Table { has_column_header: bool, has_row_header: bool },
    TableRow { cells: Seq<Seq<RichTextView>> },
    Template,
    ToDo,
    Toggle { rich_text: Seq<RichTextView> },
    Video,
    Unsupported,
}

/// The views of the cells of a table row.
pub open spec fn cell_views(cells: Seq<Vec<RichText>>) -> Seq<Seq<RichTextView>> {
    Seq::new(cells.len(), |i: int| views(cells[i]@))
}

impl View for BlockKind {
    type V = BlockKindView;

    open spec fn view(&self) -> BlockKindView {
        match self {
            BlockKind::Audio => BlockKindView::Audio,
            BlockKind::Bookmark { url, page } => BlockKindView::Bookmark {
                url: url@,
                page: opt_view(*page),
            },
            BlockKind::Breadcrumb => BlockKindView::Breadcrumb,
            BlockKind::BulletedListItem { rich_text } => BlockKindView::BulletedListItem {
                rich_text: views(rich_text@),
            },
            BlockKind::Callout { rich_text, color } => BlockKindView::Callout {
                rich_text: views(rich_text@),
                color: *color,
            },
            BlockKind::ChildDatabase => BlockKindView::ChildDatabase,
            BlockKind::ChildPage => BlockKindView::ChildPage,
            BlockKind::Code { rich_text, caption, language } => BlockKindView::Code {
                rich_text: views(rich_text@),
                caption: views(caption@),
                language: language@,
            },
            BlockKind::ColumnList => BlockKindView::ColumnList,
            BlockKind::Column => BlockKindView::Column,
            BlockKind::Divider => BlockKindView::Divider,
            BlockKind::Embed => BlockKindView::Embed,
            BlockKind::Equation { expression } => BlockKindView::Equation {
                expression: expression@,
            },
            BlockKind::File(file) => BlockKindView::File(file@),
            BlockKind::Heading1(heading) => BlockKindView::Heading1(heading@),
            BlockKind::Heading2(heading) => BlockKindView::Heading2(heading@),
            BlockKind::Heading3(heading) => BlockKindView::Heading3(heading@),
            BlockKind::Image(file) => BlockKindView::Image(file@),
            BlockKind::LinkPreview => BlockKindView::LinkPreview,
            BlockKind::NumberedListItem { rich_text } => BlockKindView::NumberedListItem {
                rich_text: views(rich_text@),
            },
            BlockKind::Paragraph { rich_text } => BlockKindView::Paragraph {
                rich_text: views(rich_text@),
            },
            BlockKind::Pdf => BlockKindView::Pdf,
            BlockKind::Quote { rich_text } => BlockKindView::Quote { rich_text: views(rich_text@) },
            BlockKind::SyncedBlock => BlockKindView::SyncedBlock,
            BlockKind::TableOfContents => BlockKindView::TableOfContents,
            BlockKind::Table { has_column_header, has_row_header } => BlockKindView::Table {
                has_column_header: *has_column_header,
                has_row_header: *has_row_header,
            },
            BlockKind::TableRow { cells } => BlockKindView::TableRow { cells: cell_views(cells@) },
            BlockKind::Template => BlockKindView::Template,
            BlockKind::ToDo => BlockKindView::ToDo,
            BlockKind::Toggle { rich_text } => BlockKindView::Toggle {
                rich_text: views(rich_text@),
            },
            BlockKind::Video => BlockKindView::Video,
            BlockKind::Unsupported => BlockKindView::Unsupported,
        }
    }
}

/// One node of the source tree.
#[derive(Debug, PartialEq, Eq)]
pub struct Block {
    pub id: String,
    pub has_children: bool,
    pub kind: BlockKind,
    /// What listing the children of this block gave: the children in document
    /// order, or the failure. An empty list where they were never asked for.
    pub children: Result<Vec<Block>, Error>,
}

/// [`Block`] as a mathematical value.
pub struct BlockView {
    pub id: Seq<char>,
    pub has_children: bool,
    pub kind: BlockKindView,
    pub children: Result<Seq<BlockView>, ErrorView>,
}

/// The view of a block: its own fields and, below them, the views of its
/// children.
pub open spec fn block_view(block: Block) -> BlockView
    decreases block,
{
    BlockView {
        id: block.id@,
        has_children: block.has_children,
        kind: block.kind@,
        children: match block.children {
            Ok(list) => Ok(
                Seq::new(
                    list@.len(),
                    |i: int| if 0 <= i < list@.len() { block_view(list@[i]) } else { arbitrary() },
                ),
            ),
            Err(e) => Err(e@),
        },
    }
}

impl View for Block {
    type V = BlockView;

    open spec fn view(&self) -> BlockView {
        block_view(*self)
    }
}

/// What listing the children of a block gave, as a mathematical value.
pub open spec fn listing_view(listing: Result<Vec<Block>, Error>) -> Result<
    Seq<BlockView>,
    ErrorView,
> {
    match listing {
        Ok(blocks) => Ok(views(blocks@)),
        Err(e) => Err(e@),
    }
}

/// The view of a block holds the view of what listing its children gave.
pub proof fn lemma_listing_view(block: Block)
    ensures
        block@.children == listing_view(block.children),
{
    match block.children {
        Ok(list) => {
            assert(block@.children->Ok_0 =~= views(list@));
        },
        Err(_) => {},
    }
}

} // verus!
