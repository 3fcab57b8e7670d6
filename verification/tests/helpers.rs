use notion_to_jarkup::block::{Annotations, Block, BlockKind, Color, HeadingBlock, Language, Mention, RichText};
use notion_to_jarkup::client::{
    is_table_row, keep_rows, list_accepts, single_item_list, with_lead, Client, Contribution,
};
use notion_to_jarkup::component::{
    BlockComponent, Component, HeadingLevel, InlineComponent, ListProps, ListStyle, TextProps,
};
use notion_to_jarkup::error::Error;
use notion_to_jarkup::plan::{collect_urls, conversion_fails, supply_cells, supply_heading};
use notion_to_jarkup::text::{join_plain_text, span_text, write_unsupported_details};
use notion_to_jarkup::views::clone_opt_string;

fn hp_client() -> Client {
    Client { enable_unsupported_block: true }
}

fn hp_span(text: &str) -> RichText {
    RichText::Text {
        plain_text: text.to_string(),
        link: None,
        annotations: Annotations {
            bold: false,
            italic: false,
            strikethrough: false,
            underline: false,
            code: false,
            color: Color::Default,
        },
    }
}

fn hp_inline(text: &str) -> InlineComponent {
    InlineComponent::Text {
        id: None,
        props: TextProps {
            bold: Some(false),
            italic: Some(false),
            underline: Some(false),
            strikethrough: Some(false),
            code: Some(false),
            ..TextProps::plain(text.to_string())
        },
    }
}

fn hp_divider(id: &str) -> Component {
    Component::BlockComponent(BlockComponent::Divider { id: Some(id.to_string()) })
}

fn hp_row(id: &str) -> Component {
    Component::BlockComponent(BlockComponent::TableRow { id: Some(id.to_string()), cells: vec![] })
}

fn hp_block(kind: BlockKind, children: Result<Vec<Block>, Error>) -> Block {
    Block { id: "b".to_string(), has_children: true, kind, children }
}

#[test]
fn plain_text_props_are_bare() {
    assert_eq!(
        TextProps::plain("t".to_string()),
        TextProps {
            text: "t".to_string(),
            color: None,
            background_color: None,
            bold: None,
            italic: None,
            underline: None,
            strikethrough: None,
            katex: None,
            code: None,
            kbd: None,
            ruby: None,
            href: None,
            favicon: None,
        }
    );
}

#[test]
fn clone_opt_string_copies() {
    assert_eq!(clone_opt_string(&Some("a".to_string())), Some("a".to_string()));
    assert_eq!(clone_opt_string(&None), None);
}

#[test]
fn span_text_is_the_plain_text_of_any_span() {
    assert_eq!(span_text(&hp_span("abc")), "abc");
    let mention = RichText::Mention { mention: Mention::User, plain_text: "@ann".to_string() };
    assert_eq!(span_text(&mention), "@ann");
    let equation = RichText::Equation { expression: "x^2".to_string(), plain_text: "x2".to_string() };
    assert_eq!(span_text(&equation), "x2");
}

#[test]
fn join_plain_text_concatenates_in_order() {
    assert_eq!(join_plain_text(&vec![]), "");
    assert_eq!(join_plain_text(&vec![hp_span("a")]), "a");
    let mention = RichText::Mention { mention: Mention::Page, plain_text: "[page]".to_string() };
    assert_eq!(join_plain_text(&vec![hp_span("a "), mention, hp_span(" b")]), "a [page] b");
}

#[test]
fn unsupported_details_wrap_the_kind_name() {
    assert_eq!(write_unsupported_details("ToDo"), "Notion: `ToDo Block` is not supported.");
}

#[test]
fn list_accepts_matching_or_unrecorded_style() {
    let props = |style| Some(ListProps { list_style: style });
    assert!(list_accepts(&None, ListStyle::Unordered));
    assert!(list_accepts(&None, ListStyle::Ordered));
    assert!(list_accepts(&props(Some(ListStyle::Unordered)), ListStyle::Unordered));
    assert!(list_accepts(&props(Some(ListStyle::Ordered)), ListStyle::Ordered));
    assert!(!list_accepts(&props(Some(ListStyle::Unordered)), ListStyle::Ordered));
    assert!(!list_accepts(&props(Some(ListStyle::Ordered)), ListStyle::Unordered));
    assert!(!list_accepts(&props(None), ListStyle::Unordered));
    assert!(!list_accepts(&props(None), ListStyle::Ordered));
}

#[test]
fn single_item_list_records_its_style() {
    assert_eq!(
        single_item_list(ListStyle::Ordered, hp_divider("d")),
        Component::BlockComponent(BlockComponent::List {
            id: None,
            props: Some(ListProps { list_style: Some(ListStyle::Ordered) }),
            items: vec![hp_divider("d")],
        })
    );
}

#[test]
fn keep_rows_filters_in_order() {
    assert!(is_table_row(&hp_row("r")));
    assert!(!is_table_row(&hp_divider("d")));
    assert!(!is_table_row(&Component::InlineComponent(hp_inline("t"))));
    assert_eq!(keep_rows(vec![]), vec![]);
    assert_eq!(
        keep_rows(vec![hp_divider("a"), hp_row("1"), hp_divider("b"), hp_row("2"), hp_row("3")]),
        vec![hp_row("1"), hp_row("2"), hp_row("3")]
    );
}

#[test]
fn with_lead_puts_the_paragraph_first() {
    assert_eq!(with_lead(None, vec![hp_divider("a")]), vec![hp_divider("a")]);
    assert_eq!(
        with_lead(Some(hp_divider("lead")), vec![hp_divider("a"), hp_divider("b")]),
        vec![hp_divider("lead"), hp_divider("a"), hp_divider("b")]
    );
    assert_eq!(with_lead(Some(hp_divider("lead")), vec![]), vec![hp_divider("lead")]);
}

#[test]
fn lead_is_present_only_for_text() {
    let id = "c".to_string();
    assert_eq!(hp_client().lead(&id, &vec![]), None);
    assert_eq!(
        hp_client().lead(&id, &vec![hp_span("t")]),
        Some(Component::BlockComponent(BlockComponent::Paragraph {
            id: Some("c".to_string()),
            content: vec![hp_inline("t")],
        }))
    );
    assert_eq!(
        hp_client().paragraph(&id, &vec![]),
        Component::BlockComponent(BlockComponent::Paragraph {
            id: Some("c".to_string()),
            content: vec![],
        })
    );
}

#[test]
fn heading_folds_children_only_when_toggleable() {
    let id = "h".to_string();
    let plain = HeadingBlock { rich_text: vec![hp_span("t")], is_toggleable: false };
    assert_eq!(
        hp_client().heading(&id, &plain, HeadingLevel::H2, vec![hp_divider("ignored")]),
        Component::BlockComponent(BlockComponent::Heading {
            id: Some("h".to_string()),
            level: HeadingLevel::H2,
            content: vec![hp_inline("t")],
        })
    );
    let folding = HeadingBlock { rich_text: vec![hp_span("t")], is_toggleable: true };
    assert_eq!(
        hp_client().heading(&id, &folding, HeadingLevel::H2, vec![hp_divider("kept")]),
        Component::BlockComponent(BlockComponent::Toggle {
            id: Some("h".to_string()),
            summary: vec![hp_inline("t")],
            children: vec![hp_divider("kept")],
        })
    );
}

#[test]
fn code_and_bookmark_builders() {
    let id = "c".to_string();
    assert_eq!(
        hp_client().code(&id, &vec![hp_span("x")], &vec![], &Language::Mermaid),
        Component::BlockComponent(BlockComponent::Mermaid {
            id: Some("c".to_string()),
            code: "x".to_string(),
        })
    );
    assert_eq!(
        hp_client().bookmark(&id, &"https://example.com/".to_string(), &None),
        Component::BlockComponent(BlockComponent::Bookmark {
            id: Some("c".to_string()),
            url: "https://example.com/".to_string(),
            title: None,
            description: None,
            image: None,
        })
    );
}

#[test]
fn unsupported_follows_the_mode() {
    assert_eq!(
        Client { enable_unsupported_block: false }.unsupported("Embed"),
        Contribution::Nothing
    );
    assert_eq!(
        hp_client().unsupported("Embed"),
        Contribution::Component(Component::BlockComponent(BlockComponent::Unsupported {
            id: None,
            details: "Notion: `Embed Block` is not supported.".to_string(),
        }))
    );
}

#[test]
fn convert_children_reads_only_where_the_conversion_does() {
    let child = || Block {
        id: "d".to_string(),
        has_children: false,
        kind: BlockKind::Divider,
        children: Ok(vec![]),
    };
    let toggle = hp_block(BlockKind::Toggle { rich_text: vec![] }, Ok(vec![child()]));
    assert_eq!(hp_client().convert_children(&toggle), Ok(vec![hp_divider("d")]));
    let paragraph = hp_block(BlockKind::Paragraph { rich_text: vec![] }, Ok(vec![child()]));
    assert_eq!(hp_client().convert_children(&paragraph), Ok(vec![]));
    let failing = hp_block(
        BlockKind::Toggle { rich_text: vec![] },
        Err(Error::Transport("down".to_string())),
    );
    assert_eq!(
        hp_client().convert_children(&failing),
        Err(Error::Transport("down".to_string()))
    );
}

#[test]
fn conversion_fails_exactly_where_read_children_fail() {
    let failure = || Err(Error::Transport("down".to_string()));
    let toggle = |children| hp_block(BlockKind::Toggle { rich_text: vec![] }, children);
    assert!(conversion_fails(&toggle(failure())));
    assert!(!conversion_fails(&toggle(Ok(vec![]))));
    assert!(!conversion_fails(&hp_block(BlockKind::Paragraph { rich_text: vec![] }, failure())));
    assert!(!conversion_fails(&hp_block(BlockKind::Column, failure())));
    let mut quiet_quote = hp_block(BlockKind::Quote { rich_text: vec![] }, failure());
    quiet_quote.has_children = false;
    assert!(!conversion_fails(&quiet_quote));
    assert!(conversion_fails(&hp_block(BlockKind::Quote { rich_text: vec![] }, failure())));
    let nested = toggle(Ok(vec![
        hp_block(BlockKind::Divider, Ok(vec![])),
        toggle(Ok(vec![toggle(failure())])),
    ]));
    assert!(conversion_fails(&nested));
    assert!(hp_client().contribute(&nested).is_err());
    let unread = toggle(Ok(vec![hp_block(BlockKind::Paragraph { rich_text: vec![] }, failure())]));
    assert!(!conversion_fails(&unread));
    assert!(hp_client().contribute(&unread).is_ok());
}

#[test]
fn collect_urls_appends_to_what_is_there() {
    let linked = RichText::Text {
        plain_text: "a".to_string(),
        link: Some(notion_to_jarkup::block::Link { url: "https://1.example/".to_string(), page: None }),
        annotations: Annotations {
            bold: false,
            italic: false,
            strikethrough: false,
            underline: false,
            code: false,
            color: Color::Default,
        },
    };
    let mut urls = vec!["first".to_string()];
    collect_urls(&vec![hp_span("x"), linked], &mut urls);
    assert_eq!(urls, vec!["first".to_string(), "https://1.example/".to_string()]);
}

#[test]
fn supply_heading_and_cells_without_links_change_nothing() {
    let heading = HeadingBlock { rich_text: vec![hp_span("t")], is_toggleable: true };
    assert_eq!(
        supply_heading(heading, &vec![Some("page".to_string())]),
        HeadingBlock { rich_text: vec![hp_span("t")], is_toggleable: true }
    );
    assert_eq!(
        supply_cells(vec![vec![hp_span("a")], vec![]], &vec![Some("page".to_string())]),
        vec![vec![hp_span("a")], vec![]]
    );
    assert_eq!(supply_cells(vec![], &vec![]), Vec::<Vec<RichText>>::new());
}

#[test]
fn file_of_unknown_kind_is_untitled() {
    let file = notion_to_jarkup::client::untitled_file_at("https://example.com/f".to_string());
    assert_eq!(file.url, "https://example.com/f");
    assert_eq!(file.name, Some("untitled".to_string()));
    assert_eq!(file.caption, Some(vec![hp_span("untitled")]));
    let as_file = Block {
        id: "f".to_string(),
        has_children: false,
        kind: BlockKind::File(notion_to_jarkup::client::untitled_file_at("u".to_string())),
        children: Ok(vec![]),
    };
    assert_eq!(
        hp_client().convert_block(&Ok(vec![as_file])),
        Ok(vec![Component::BlockComponent(BlockComponent::File {
            id: Some("f".to_string()),
            src: "u".to_string(),
            name: Some("untitled".to_string()),
        })])
    );
    let as_image = Block {
        id: "i".to_string(),
        has_children: false,
        kind: BlockKind::Image(notion_to_jarkup::client::untitled_file_at("u".to_string())),
        children: Ok(vec![]),
    };
    assert_eq!(
        hp_client().convert_block(&Ok(vec![as_image])),
        Ok(vec![Component::BlockComponent(BlockComponent::Image {
            id: Some("i".to_string()),
            src: "u".to_string(),
            alt: Some("untitled".to_string()),
        })])
    );
}
