//! The converter.

use vstd::prelude::*;
use vstd::string::*;
use crate::block::{
    Annotations, Block, BlockKind, Color, FileObject, HeadingBlock, Language, Link, Mention, RichText,
    cell_views, lemma_listing_view, listing_view,
};
use crate::component::{
    BlockComponent, CalloutType, Component, ComponentView, HeadingLevel, InlineComponent,
    ListProps, ListStyle, TextProps, all_well_formed, component_views, lemma_component_views,
};
use crate::enrich::{bookmark_preview, favicon_by_url};
use crate::error::{Error, ErrorView};
use crate::keyboard::{is_kbd, is_keyboard_text};
use crate::laws::{
    lemma_converted_well_formed, lemma_failure_lasts, lemma_order_is_kept, marks, trail,
};
use crate::plan::reads_children;
use crate::rules::{
    ContributionView, accepts, background_of, bookmark_of, callout_type_of, cell_of, children_of,
    code_of, contribution, contribution_with, converted, converted_prefix, foreground_of,
    heading_converted, heading_of, inline_of, inlines_of, lead_of, mention_of, new_list, paragraph_of, placed,
    placeholder, row_of, rows_among, table_of, text_of, unsupported_of, untitled_file, with_item,
};
use crate::text::{join_plain_text, write_unsupported_details};
use crate::views::{clone_opt_string, lemma_views_push, opt_view, views};

verus! {

/// The text colour that a colour tag stands for.
pub fn foreground(color: Color) -> (r: Option<String>)
    ensures
        opt_view(r) == foreground_of(color),
{
    match color {
        Color::Blue => Some(String::from_str("#6987b8")),
        Color::Brown => Some(String::from_str("#8b4c3f")),
        Color::Gray => Some(String::from_str("#868e9c")),
        Color::Green => Some(String::from_str("#59b57c")),
        Color::Orange => Some(String::from_str("#bf7e71")),
        Color::Pink => Some(String::from_str("#c9699e")),
        Color::Purple => Some(String::from_str("#9771bd")),
        Color::Red => Some(String::from_str("#b36472")),
        Color::Yellow => Some(String::from_str("#b8a36e")),
        _ => None,
    }
}

/// The background colour that a colour tag stands for.
pub fn background(color: Color) -> (r: Option<String>)
    ensures
        opt_view(r) == background_of(color),
{
    match color {
        Color::BlueBackground => Some(String::from_str("#6987b8")),
        Color::BrownBackground => Some(String::from_str("#8b4c3f")),
        Color::GrayBackground => Some(String::from_str("#868e9c")),
        Color::GreenBackground => Some(String::from_str("#59b57c")),
        Color::OrangeBackground => Some(String::from_str("#bf7e71")),
        Color::PinkBackground => Some(String::from_str("#c9699e")),
        Color::PurpleBackground => Some(String::from_str("#9771bd")),
        Color::RedBackground => Some(String::from_str("#b36472")),
        Color::YellowBackground => Some(String::from_str("#b8a36e")),
        _ => None,
    }
}

/// The tone of a callout, by its colour.
pub fn callout_type(color: Color) -> (r: CalloutType)
    ensures
        r == callout_type_of(color),
{
    match color {
        Color::Default
        | Color::DefaultBackground
        | Color::Blue
        | Color::BlueBackground
        | Color::Gray
        | Color::GrayBackground => CalloutType::Note,
        Color::Green | Color::GreenBackground => CalloutType::Tip,
        Color::Purple | Color::PurpleBackground => CalloutType::Important,
        Color::Yellow
        | Color::YellowBackground
        | Color::Orange
        | Color::OrangeBackground
        | Color::Brown
        | Color::BrownBackground => CalloutType::Warning,
        Color::Red | Color::RedBackground | Color::Pink | Color::PinkBackground => {
            CalloutType::Caution
        },
    }
}

/// Converts blocks into components.
#[derive(Debug)]
pub struct Client {
    /// Where `true`, a block that has no rendering leaves a placeholder that
    /// names its kind; where `false`, it leaves nothing.
    pub enable_unsupported_block: bool,
}

impl Client {
    /// The placeholder for a block of kind `block_name`.
    pub fn create_unsupported_component(&self, block_name: &str) -> (r: Component)
        ensures
            r@ == unsupported_of(block_name@),
    {
        Component::BlockComponent(
            BlockComponent::Unsupported {
                id: None,
                details: write_unsupported_details(block_name),
            },
        )
    }

    /// Tells whether `plain_text` is shown as a keyboard key: it must be
    /// code-styled, and either a single character or, in lower case, the name
    /// of a key.
    pub fn is_kbd(&self, plain_text: &str, is_code: bool) -> (r: bool)
        ensures
            r == is_keyboard_text(plain_text@, is_code),
    {
        is_kbd(plain_text, is_code)
    }

    /// Converts a text span. Colours, flags and link are kept on every text
    /// span; code-styled text comes out as a keyboard key or as code, as
    /// [`Client::is_kbd`] says.
    pub fn convert_text(
        &self,
        plain_text: &String,
        link: &Option<Link>,
        annotations: &Annotations,
    ) -> (r: InlineComponent)
        ensures
            r@ == text_of(plain_text@, opt_view(*link), *annotations),
    {
        let keyboard = self.is_kbd(plain_text.as_str(), annotations.code);
        let (href, favicon) = match link {
            Some(l) => (Some(l.url.clone()), favicon_by_url(l.url.as_str(), &l.page)),
            None => (None, None),
        };
        InlineComponent::Text {
            id: None,
            props: TextProps {
                text: plain_text.clone(),
                color: foreground(annotations.color),
                background_color: background(annotations.color),
                bold: Some(annotations.bold),
                italic: Some(annotations.italic),
                underline: Some(annotations.underline),
                strikethrough: Some(annotations.strikethrough),
                katex: None,
                code: if keyboard {
                    None
                } else {
                    Some(annotations.code)
                },
                kbd: if keyboard {
                    Some(true)
                } else {
                    None
                },
                ruby: None,
                href,
                favicon,
            },
        }
    }

    /// Converts a mention: a link mention to linked text, a custom emoji to
    /// an icon, any other mention to nothing.
    pub fn convert_mention(&self, mention: &Mention, plain_text: &String) -> (r: Option<
        InlineComponent,
    >)
        ensures
            opt_view(r) == mention_of(mention@, plain_text@),
    {
        match mention {
            Mention::LinkMention(link) => {
                let mut props = TextProps::plain(plain_text.clone());
                props.favicon = favicon_by_url(link.url.as_str(), &link.page);
                props.href = Some(link.url.clone());
                Some(InlineComponent::Text { id: None, props })
            },
            Mention::CustomEmoji { id, name, url } => Some(
                InlineComponent::Icon {
                    id: Some(id.clone()),
                    src: url.clone(),
                    alt: Some(name.clone()),
                },
            ),
            _ => None,
        }
    }

    /// Converts one span, to one component or to none.
    pub fn convert_span(&self, span: &RichText) -> (r: Option<InlineComponent>)
        ensures
            opt_view(r) == inline_of(span@),
    {
        match span {
            RichText::Text { plain_text, link, annotations } => Some(
                self.convert_text(plain_text, link, annotations),
            ),
            RichText::Mention { mention, plain_text } => self.convert_mention(mention, plain_text),
            RichText::Equation { expression, .. } => {
                let mut props = TextProps::plain(expression.clone());
                props.katex = Some(true);
                Some(InlineComponent::Text { id: None, props })
            },
        }
    }

    /// Converts a run of spans to inline components, in order. Mentions of
    /// users, dates, pages, databases, link previews and templates are left
    /// out, so the result may be shorter than the input.
    pub fn convert_spans(&self, spans: &Vec<RichText>) -> (r: Vec<InlineComponent>)
        ensures
            views(r@) == inlines_of(views(spans@)),
    {
        let mut components: Vec<InlineComponent> = Vec::new();
        let mut i: usize = 0;
        while i < spans.len()
            invariant
                i <= spans.len(),
                views(components@) == inlines_of(views(spans@).take(i as int)),
            decreases spans.len() - i,
        {
            proof {
                let next = views(spans@).take(i + 1);
                assert(next.drop_last() =~= views(spans@).take(i as int));
            }
            match self.convert_span(&spans[i]) {
                Some(component) => {
                    proof {
                        lemma_views_push(components@, component);
                    }
                    components.push(component);
                },
                None => {},
            }
            i = i + 1;
        }
        proof {
            assert(views(spans@).take(i as int) =~= views(spans@));
        }
        components
    }

    /// Converts a run of spans to inline components: see
    /// [`Client::convert_spans`]. It succeeds on every input.
    pub fn convert_rich_text(&self, rich_text_vec: &Vec<RichText>) -> (r: Result<
        Vec<InlineComponent>,
        Error,
    >)
        ensures
            r matches Ok(components) && views(components@) == inlines_of(views(rich_text_vec@)),
    {
        Ok(self.convert_spans(rich_text_vec))
    }
}

/// What one block adds to the output of its parent.
#[derive(Debug, PartialEq, Eq)]
pub enum Contribution {
    /// The block leaves no trace.
    Nothing,
    /// The block becomes a component of its own.
    Component(Component),
    /// The block is an item of a list of the given style.
    ListItem(ListStyle, Component),
}

impl View for Contribution {
    type V = ContributionView;

    open spec fn view(&self) -> ContributionView {
        match self {
            Contribution::Nothing => ContributionView::Nothing,
            Contribution::Component(c) => ContributionView::Component(c@),
            Contribution::ListItem(style, item) => ContributionView::ListItem(*style, item@),
        }
    }
}

/// The outcome of a conversion, as a mathematical value.
pub open spec fn outcome_view(outcome: Result<Vec<Component>, Error>) -> Result<
    Seq<ComponentView>,
    ErrorView,
> {
    match outcome {
        Ok(components) => Ok(views(components@)),
        Err(e) => Err(e@),
    }
}

/// Tells whether a list with the properties `props` takes one more item of
/// style `style`.
pub fn list_accepts(props: &Option<ListProps>, style: ListStyle) -> (r: bool)
    ensures
        r == accepts(*props, style),
{
    match props {
        None => true,
        Some(p) => match (p.list_style, style) {
            (Some(ListStyle::Unordered), ListStyle::Unordered) => true,
            (Some(ListStyle::Ordered), ListStyle::Ordered) => true,
            _ => false,
        },
    }
}

/// A list of style `style` that holds `item` alone.
pub fn single_item_list(style: ListStyle, item: Component) -> (r: Component)
    ensures
        r@ == new_list(style, item@),
{
    let mut items: Vec<Component> = Vec::new();
    items.push(item);
    proof {
        lemma_component_views(items@);
        assert(views(items@) =~= seq![item@]);
    }
    Component::BlockComponent(
        BlockComponent::List {
            id: None,
            props: Some(ListProps { list_style: Some(style) }),
            items,
        },
    )
}

/// Adds one contribution to the output `out`. A component goes to the end.
/// A list item joins the last component of `out` if that is a list that
/// records no properties or records the item's style; else it goes to the
/// end as a new list that holds it alone.
pub fn place(out: &mut Vec<Component>, contribution: Contribution)
    ensures
        views(final(out)@) == placed(views(old(out)@), contribution@),
{
    match contribution {
        Contribution::Nothing => {},
        Contribution::Component(component) => {
            proof {
                lemma_views_push(out@, component);
            }
            out.push(component);
        },
        Contribution::ListItem(style, item) => {
            let ghost before = out@;
            match out.pop() {
                Some(Component::BlockComponent(BlockComponent::List { id, props, items })) => {
                    if list_accepts(&props, style) {
                        let mut items = items;
                        let ghost old_items = items@;
                        items.push(item);
                        let merged = Component::BlockComponent(
                            BlockComponent::List { id, props, items },
                        );
                        proof {
                            assert(component_views(old_items.push(item)) =~= component_views(
                                old_items,
                            ).push(item@));
                            lemma_views_push(before.drop_last(), merged);
                        }
                        out.push(merged);
                    } else {
                        out.push(
                            Component::BlockComponent(BlockComponent::List { id, props, items }),
                        );
                        let fresh = single_item_list(style, item);
                        proof {
                            lemma_views_push(out@, fresh);
                        }
                        out.push(fresh);
                    }
                },
                Some(other) => {
                    out.push(other);
                    let fresh = single_item_list(style, item);
                    proof {
                        lemma_views_push(out@, fresh);
                    }
                    out.push(fresh);
                },
                None => {
                    let fresh = single_item_list(style, item);
                    proof {
                        lemma_views_push(out@, fresh);
                    }
                    out.push(fresh);
                },
            }
        },
    }
}

/// The file of a kind that is not known, at `url`: it goes by the name
/// "untitled" and by the caption "untitled".
pub fn untitled_file_at(url: String) -> (r: FileObject)
    ensures
        r@ == untitled_file(url@),
{
    let mut caption: Vec<RichText> = Vec::new();
    caption.push(
        RichText::Text {
            plain_text: String::from_str("untitled"),
            link: None,
            annotations: Annotations {
                bold: false,
                italic: false,
                strikethrough: false,
                underline: false,
                code: false,
                color: Color::Default,
            },
        },
    );
    proof {
        assert(views(caption@) =~= untitled_file(url@).caption->Some_0);
    }
    FileObject { url, name: Some(String::from_str("untitled")), caption: Some(caption) }
}

/// Tells whether `component` is a table row.
pub fn is_table_row(component: &Component) -> (r: bool)
    ensures
        r == component@.is_table_row(),
{
    match component {
        Component::BlockComponent(BlockComponent::TableRow { .. }) => true,
        _ => false,
    }
}

/// Keeps the table rows among `components`, in order.
pub fn keep_rows(components: Vec<Component>) -> (r: Vec<Component>)
    ensures
        views(r@) == rows_among(views(components@)),
{
    let mut rows: Vec<Component> = Vec::new();
    let ghost all = components@;
    for component in iter: components
        invariant
            iter.seq() == all,
            views(rows@) == rows_among(views(all).take(iter.index() as int)),
    {
        proof {
            let next = views(all).take(iter.index() + 1);
            assert(next.drop_last() =~= views(all).take(iter.index() as int));
        }
        if is_table_row(&component) {
            proof {
                lemma_views_push(rows@, component);
            }
            rows.push(component);
        }
    }
    proof {
        assert(views(all).take(all.len() as int) =~= views(all));
    }
    rows
}

/// Builds a table from what its children came out as. Where the table has
/// a column header and any child at all, the first child leaves the body and
/// becomes the header if it is a row. The rows among the other children are
/// the body.
pub fn table_component(
    id: &String,
    has_column_header: bool,
    has_row_header: bool,
    children: Vec<Component>,
) -> (r: Component)
    ensures
        r@ == table_of(id@, has_column_header, has_row_header, views(children@)),
{
    let mut rest = children;
    let ghost all = rest@;
    let mut header: Option<Vec<Component>> = None;
    if has_column_header && rest.len() > 0 {
        let first = rest.remove(0);
        proof {
            assert(views(all).drop_first() =~= views(all.drop_first()));
        }
        if is_table_row(&first) {
            let mut lifted: Vec<Component> = Vec::new();
            lifted.push(first);
            proof {
                lemma_component_views(lifted@);
                assert(views(lifted@) =~= seq![views(all)[0]]);
            }
            header = Some(lifted);
        }
    }
    let body = keep_rows(rest);
    proof {
        lemma_component_views(body@);
    }
    Component::BlockComponent(
        BlockComponent::Table {
            id: Some(id.clone()),
            has_column_header,
            has_row_header,
            header,
            body,
        },
    )
}

/// Puts the paragraph that opens a callout or a quote before its children:
/// the block's own text, where it has any.
pub fn with_lead(lead: Option<Component>, children: Vec<Component>) -> (r: Vec<Component>)
    ensures
        views(r@) == match lead {
            Some(p) => seq![p@] + views(children@),
            None => views(children@),
        },
{
    match lead {
        None => children,
        Some(p) => {
            let mut merged: Vec<Component> = Vec::new();
            merged.push(p);
            let mut children = children;
            merged.append(&mut children);
            merged
        },
    }
}

impl Client {
    /// A paragraph with the given source id.
    pub fn paragraph(&self, id: &String, rich_text: &Vec<RichText>) -> (r: Component)
        ensures
            r@ == paragraph_of(id@, views(rich_text@)),
    {
        Component::BlockComponent(
            BlockComponent::Paragraph {
                id: Some(id.clone()),
                content: self.convert_spans(rich_text),
            },
        )
    }

    /// The paragraph that opens a callout or a quote, where the block has
    /// text of its own.
    pub fn lead(&self, id: &String, rich_text: &Vec<RichText>) -> (r: Option<Component>)
        ensures
            match r {
                Some(p) => lead_of(id@, views(rich_text@)) == seq![p@],
                None => lead_of(id@, views(rich_text@)) == Seq::<ComponentView>::empty(),
            },
    {
        if rich_text.len() > 0 {
            Some(self.paragraph(id, rich_text))
        } else {
            None
        }
    }

    /// A table row: one cell for each cell of the block, in order.
    pub fn table_row(&self, id: &String, cells: &Vec<Vec<RichText>>) -> (r: Component)
        ensures
            r@ == row_of(id@, cell_views(cells@)),
    {
        let mut out: Vec<Component> = Vec::new();
        let mut i: usize = 0;
        while i < cells.len()
            invariant
                i <= cells.len(),
                out@.len() == i,
                forall|k: int| 0 <= k < i ==> (#[trigger] out@[k])@ == cell_of(views(cells@[k]@)),
            decreases cells.len() - i,
        {
            let content = self.convert_spans(&cells[i]);
            out.push(Component::BlockComponent(BlockComponent::TableCell { id: None, content }));
            i = i + 1;
        }
        proof {
            lemma_component_views(out@);
            assert(views(out@) =~= Seq::new(
                cell_views(cells@).len(),
                |k: int| cell_of(cell_views(cells@)[k]),
            ));
        }
        Component::BlockComponent(BlockComponent::TableRow { id: Some(id.clone()), cells: out })
    }

    /// A code block: a diagram for Mermaid, else source code in its language,
    /// with a caption where the block has one.
    pub fn code(
        &self,
        id: &String,
        rich_text: &Vec<RichText>,
        caption: &Vec<RichText>,
        language: &Language,
    ) -> (r: Component)
        ensures
            r@ == code_of(id@, views(rich_text@), views(caption@), language@),
    {
        match language {
            Language::Mermaid => Component::BlockComponent(
                BlockComponent::Mermaid { id: Some(id.clone()), code: join_plain_text(rich_text) },
            ),
            Language::Other(name) => {
                let caption = if caption.len() > 0 {
                    Some(self.convert_spans(caption))
                } else {
                    None
                };
                Component::BlockComponent(
                    BlockComponent::CodeBlock {
                        id: Some(id.clone()),
                        code: join_plain_text(rich_text),
                        language: name.clone(),
                        caption,
                    },
                )
            },
        }
    }

    /// A bookmark, with the preview of the page that was fetched for it.
    /// Where the page could not be fetched, the bookmark keeps its address and
    /// has no title, description or image.
    pub fn bookmark(&self, id: &String, url: &String, page: &Option<String>) -> (r: Component)
        ensures
            r@ == bookmark_of(id@, url@, opt_view(*page)),
    {
        let preview = bookmark_preview(page);
        Component::BlockComponent(
            BlockComponent::Bookmark {
                id: Some(id.clone()),
                url: url.clone(),
                title: preview.title,
                description: preview.description,
                image: preview.image,
            },
        )
    }

    /// What a block without a rendering adds: its placeholder where
    /// placeholders are enabled, else nothing.
    pub fn unsupported(&self, block_name: &str) -> (r: Contribution)
        ensures
            r@ == placeholder(self.enable_unsupported_block, block_name@),
    {
        if self.enable_unsupported_block {
            Contribution::Component(self.create_unsupported_component(block_name))
        } else {
            Contribution::Nothing
        }
    }

    /// Converts a heading. A toggleable heading becomes a toggle that folds
    /// the heading's children under its text, and fails where the children
    /// could not be listed or their conversion fails. Any other heading
    /// becomes a heading of the given level; its children are not read.
    pub fn convert_heading_block(
        &self,
        heading_block: &HeadingBlock,
        block_id: &String,
        children: &Result<Vec<Block>, Error>,
        level: HeadingLevel,
    ) -> (r: Result<Option<Component>, Error>)
        ensures
            match r {
                Ok(component) => component matches Some(c) && heading_converted(
                    self.enable_unsupported_block,
                    block_id@,
                    heading_block@,
                    level,
                    listing_view(*children),
                ) == Ok::<ComponentView, ErrorView>(c@),
                Err(e) => heading_converted(
                    self.enable_unsupported_block,
                    block_id@,
                    heading_block@,
                    level,
                    listing_view(*children),
                ) == Err::<ComponentView, ErrorView>(e@),
            },
        decreases children, 1nat,
    {
        let below = if heading_block.is_toggleable {
            match self.convert_block(children) {
                Ok(b) => b,
                Err(e) => {
                    return Err(e);
                },
            }
        } else {
            Vec::new()
        };
        Ok(Some(self.heading(block_id, heading_block, level, below)))
    }

    /// Converts the children of `block` where its conversion reads them, and
    /// gives nothing where it does not.
    pub fn convert_children(&self, block: &Block) -> (r: Result<Vec<Component>, Error>)
        ensures
            outcome_view(r) == children_of(self.enable_unsupported_block, block@),
        decreases block, 0nat,
    {
        proof {
            lemma_listing_view(*block);
        }
        if reads_children(block) {
            self.convert_block(&block.children)
        } else {
            let nothing: Vec<Component> = Vec::new();
            assert(views(nothing@) =~= Seq::<ComponentView>::empty());
            Ok(nothing)
        }
    }

    /// Converts one block to what it adds to the output of its parent. It
    /// fails where the conversion reads the block's children and they could
    /// not be listed, or a block below fails.
    pub fn contribute(&self, block: &Block) -> (r: Result<Contribution, Error>)
        ensures
            match r {
                Ok(c) => contribution(self.enable_unsupported_block, block@) == Ok::<
                    ContributionView,
                    ErrorView,
                >(c@),
                Err(e) => contribution(self.enable_unsupported_block, block@) == Err::<
                    ContributionView,
                    ErrorView,
                >(e@),
            },
        decreases block, 1nat,
    {
        let children = match self.convert_children(block) {
            Ok(c) => c,
            Err(e) => {
                return Err(e);
            },
        };
        Ok(self.contribute_with(block, children))
    }

    /// What `block` adds to the output of its parent, from what its children
    /// came out as.
    pub fn contribute_with(&self, block: &Block, children: Vec<Component>) -> (r: Contribution)
        ensures
            r@ == contribution_with(self.enable_unsupported_block, block@, views(children@)),
    {
        let id = &block.id;
        proof {
            lemma_component_views(children@);
        }
        match &block.kind {
            BlockKind::Audio => self.unsupported("Audio"),
            BlockKind::Bookmark { url, page } => Contribution::Component(
                self.bookmark(id, url, page),
            ),
            BlockKind::Breadcrumb => self.unsupported("Breadcrumb"),
            BlockKind::BulletedListItem { rich_text } => Contribution::ListItem(
                ListStyle::Unordered,
                Component::BlockComponent(
                    BlockComponent::ListItem {
                        id: Some(id.clone()),
                        content: self.convert_spans(rich_text),
                    },
                ),
            ),
            BlockKind::Callout { rich_text, color } => {
                let merged = with_lead(self.lead(id, rich_text), children);
                proof {
                    lemma_component_views(merged@);
                }
                Contribution::Component(
                    Component::BlockComponent(
                        BlockComponent::Callout {
                            id: Some(id.clone()),
                            callout_type: callout_type(*color),
                            children: merged,
                        },
                    ),
                )
            },
            BlockKind::ChildDatabase => self.unsupported("ChildDatabase"),
            BlockKind::ChildPage => self.unsupported("ChildPage"),
            BlockKind::Code { rich_text, caption, language } => Contribution::Component(
                self.code(id, rich_text, caption, language),
            ),
            BlockKind::ColumnList => Contribution::Nothing,
            BlockKind::Column => Contribution::Nothing,
            BlockKind::Divider => Contribution::Component(
                Component::BlockComponent(BlockComponent::Divider { id: Some(id.clone()) }),
            ),
            BlockKind::Embed => self.unsupported("Embed"),
            BlockKind::Equation { expression } => Contribution::Component(
                Component::BlockComponent(
                    BlockComponent::Katex { id: Some(id.clone()), expression: expression.clone() },
                ),
            ),
            BlockKind::File(file) => Contribution::Component(
                Component::BlockComponent(
                    BlockComponent::File {
                        id: Some(id.clone()),
                        src: file.url.clone(),
                        name: clone_opt_string(&file.name),
                    },
                ),
            ),
            BlockKind::Heading1(heading) => Contribution::Component(
                self.heading(id, heading, HeadingLevel::H1, children),
            ),
            BlockKind::Heading2(heading) => Contribution::Component(
                self.heading(id, heading, HeadingLevel::H2, children),
            ),
            BlockKind::Heading3(heading) => Contribution::Component(
                self.heading(id, heading, HeadingLevel::H3, children),
            ),
            BlockKind::Image(file) => {
                let alt = match &file.caption {
                    Some(caption) => Some(join_plain_text(caption)),
                    None => None,
                };
                Contribution::Component(
                    Component::BlockComponent(
                        BlockComponent::Image {
                            id: Some(id.clone()),
                            src: file.url.clone(),
                            alt,
                        },
                    ),
                )
            },
            BlockKind::LinkPreview => self.unsupported("LinkPreview"),
            BlockKind::NumberedListItem { rich_text } => Contribution::ListItem(
                ListStyle::Ordered,
                Component::BlockComponent(
                    BlockComponent::ListItem {
                        id: Some(id.clone()),
                        content: self.convert_spans(rich_text),
                    },
                ),
            ),
            BlockKind::Paragraph { rich_text } => Contribution::Component(
                self.paragraph(id, rich_text),
            ),
            BlockKind::Pdf => Contribution::Nothing,
            BlockKind::Quote { rich_text } => {
                let merged = with_lead(self.lead(id, rich_text), children);
                proof {
                    lemma_component_views(merged@);
                }
                Contribution::Component(
                    Component::BlockComponent(
                        BlockComponent::BlockQuote { id: Some(id.clone()), children: merged },
                    ),
                )
            },
            BlockKind::SyncedBlock => self.unsupported("SyncedBlock"),
            BlockKind::TableOfContents => Contribution::Nothing,
            BlockKind::Table { has_column_header, has_row_header } => Contribution::Component(
                table_component(id, *has_column_header, *has_row_header, children),
            ),
            BlockKind::TableRow { cells } => Contribution::Component(self.table_row(id, cells)),
            BlockKind::Template => self.unsupported("Template"),
            BlockKind::ToDo => self.unsupported("ToDo"),
            BlockKind::Toggle { rich_text } => Contribution::Component(
                Component::BlockComponent(
                    BlockComponent::Toggle {
                        id: Some(id.clone()),
                        summary: self.convert_spans(rich_text),
                        children,
                    },
                ),
            ),
            BlockKind::Video => self.unsupported("Video"),
            BlockKind::Unsupported => self.unsupported("Unsupported"),
        }
    }

    /// A heading as a component, from what its children came out as.
    pub fn heading(
        &self,
        id: &String,
        heading: &HeadingBlock,
        level: HeadingLevel,
        children: Vec<Component>,
    ) -> (r: Component)
        ensures
            r@ == heading_of(id@, heading@, level, views(children@)),
    {
        proof {
            lemma_component_views(children@);
        }
        if heading.is_toggleable {
            Component::BlockComponent(
                BlockComponent::Toggle {
                    id: Some(id.clone()),
                    summary: self.convert_spans(&heading.rich_text),
                    children,
                },
            )
        } else {
            Component::BlockComponent(
                BlockComponent::Heading {
                    id: Some(id.clone()),
                    level,
                    content: self.convert_spans(&heading.rich_text),
                },
            )
        }
    }

    /// Converts what listing the children of a block gave into components,
    /// in document order.
    ///
    /// It fails with the listing's own failure, or with the first failure
    /// met below, walking the blocks in document order and going down only
    /// where the conversion reads the children. After a failure nothing of
    /// the output is returned.
    ///
    /// Otherwise every block adds its contribution in turn: paragraphs,
    /// headings, dividers, equations, images, files, code, bookmarks, callouts,
    /// quotes, toggles, tables and table rows become one component each;
    /// adjacent list items of one style share a list; columns, column lists,
    /// tables of contents and PDFs leave nothing; a block that has no rendering
    /// leaves a placeholder or nothing, as `enable_unsupported_block` says.
    /// The output is well formed and keeps the order of the blocks.
    pub fn convert_block(&self, listing: &Result<Vec<Block>, Error>) -> (r: Result<
        Vec<Component>,
        Error,
    >)
        ensures
            outcome_view(r) == converted(self.enable_unsupported_block, listing_view(*listing)),
            r matches Ok(components) ==> all_well_formed(views(components@)),
            (*listing, r) matches (Ok(blocks), Ok(components)) ==> trail(views(components@))
                == marks(self.enable_unsupported_block, views(blocks@), blocks@.len()),
        decreases listing, 0nat,
    {
        proof {
            lemma_converted_well_formed(self.enable_unsupported_block, listing_view(*listing));
            lemma_order_is_kept(self.enable_unsupported_block, listing_view(*listing));
        }
        let blocks = match listing {
            Ok(blocks) => blocks,
            Err(e) => {
                return Err(e.clone());
            },
        };
        let mut components: Vec<Component> = Vec::new();
        let mut i: usize = 0;
        assert(views(components@) =~= Seq::<ComponentView>::empty());
        while i < blocks.len()
            invariant
                i <= blocks.len(),
                *listing == Ok::<Vec<Block>, Error>(*blocks),
                converted_prefix(self.enable_unsupported_block, views(blocks@), i as nat) == Ok::<
                    Seq<ComponentView>,
                    ErrorView,
                >(views(components@)),
            decreases blocks.len() - i,
        {
            let contribution = match self.contribute(&blocks[i]) {
                Ok(c) => c,
                Err(e) => {
                    proof {
                        lemma_failure_lasts(
                            self.enable_unsupported_block,
                            views(blocks@),
                            (i + 1) as nat,
                            blocks.len() as nat,
                        );
                    }
                    return Err(e);
                },
            };
            place(&mut components, contribution);
            i = i + 1;
        }
        Ok(components)
    }
}

} // verus!
