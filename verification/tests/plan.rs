use notion_to_jarkup::block::{
    Annotations, Block, BlockKind, Color, FileObject, HeadingBlock, Language, Link, Mention,
    RichText,
};
use notion_to_jarkup::client::Client;
use notion_to_jarkup::component::{BlockComponent, Component, InlineComponent};
use notion_to_jarkup::plan::{
    page_for, pages_wanted, reads_children, span_with, supply_pages, supply_spans, url_wanted,
};

fn pl_annotations(code: bool) -> Annotations {
    Annotations {
        bold: false,
        italic: false,
        strikethrough: false,
        underline: false,
        code,
        color: Color::Default,
    }
}

fn pl_text(text: &str) -> RichText {
    RichText::Text { plain_text: text.to_string(), link: None, annotations: pl_annotations(false) }
}

fn pl_linked(text: &str, url: &str, page: Option<&str>, code: bool) -> RichText {
    RichText::Text {
        plain_text: text.to_string(),
        link: Some(Link { url: url.to_string(), page: page.map(|p| p.to_string()) }),
        annotations: pl_annotations(code),
    }
}

fn pl_mention(url: &str, page: Option<&str>) -> RichText {
    RichText::Mention {
        mention: Mention::LinkMention(Link {
            url: url.to_string(),
            page: page.map(|p| p.to_string()),
        }),
        plain_text: url.to_string(),
    }
}

fn pl_block(kind: BlockKind) -> Block {
    Block { id: "b".to_string(), has_children: false, kind, children: Ok(vec![]) }
}

fn pl_some(s: &str) -> Option<String> {
    Some(s.to_string())
}

#[test]
fn linked_text_wants_the_page_of_its_link() {
    let span = pl_linked("docs", "https://a.example/", None, false);
    assert_eq!(url_wanted(&span), Some(&"https://a.example/".to_string()));
    let span = pl_linked("docs", "https://a.example/", None, true);
    assert_eq!(url_wanted(&span), Some(&"https://a.example/".to_string()));
}

#[test]
fn linked_keyboard_text_wants_the_page_of_its_link() {
    assert_eq!(
        url_wanted(&pl_linked("Ctrl", "https://a.example/", None, true)),
        Some(&"https://a.example/".to_string())
    );
    assert_eq!(
        url_wanted(&pl_linked("x", "https://a.example/", None, true)),
        Some(&"https://a.example/".to_string())
    );
}

#[test]
fn text_without_a_link_wants_no_page() {
    assert_eq!(url_wanted(&pl_text("plain")), None);
    let equation =
        RichText::Equation { expression: "x".to_string(), plain_text: "x".to_string() };
    assert_eq!(url_wanted(&equation), None);
    let user = RichText::Mention { mention: Mention::User, plain_text: "@u".to_string() };
    assert_eq!(url_wanted(&user), None);
}

#[test]
fn link_mention_wants_the_page_of_its_link() {
    assert_eq!(
        url_wanted(&pl_mention("https://m.example/", None)),
        Some(&"https://m.example/".to_string())
    );
}

#[test]
fn paragraph_wants_the_pages_of_its_links_in_order() {
    let block = pl_block(BlockKind::Paragraph {
        rich_text: vec![
            pl_linked("a", "https://1.example/", None, false),
            pl_text("plain"),
            pl_linked("Shift", "https://kbd.example/", None, true),
            pl_mention("https://2.example/", None),
            pl_linked("b", "https://1.example/", None, false),
        ],
    });
    assert_eq!(
        pages_wanted(&block),
        vec![
            "https://1.example/".to_string(),
            "https://kbd.example/".to_string(),
            "https://2.example/".to_string(),
            "https://1.example/".to_string(),
        ]
    );
}

#[test]
fn bookmark_wants_its_own_page() {
    let block = pl_block(BlockKind::Bookmark { url: "https://bm.example/".to_string(), page: None });
    assert_eq!(pages_wanted(&block), vec!["https://bm.example/".to_string()]);
}

#[test]
fn table_row_wants_the_pages_of_all_cells_in_order() {
    let block = pl_block(BlockKind::TableRow {
        cells: vec![
            vec![pl_linked("a", "https://1.example/", None, false)],
            vec![],
            vec![pl_text("x"), pl_mention("https://2.example/", None)],
            vec![pl_linked("c", "https://3.example/", None, false)],
        ],
    });
    assert_eq!(
        pages_wanted(&block),
        vec![
            "https://1.example/".to_string(),
            "https://2.example/".to_string(),
            "https://3.example/".to_string(),
        ]
    );
}

#[test]
fn code_wants_the_pages_of_its_caption_only() {
    let linked = || pl_linked("a", "https://1.example/", None, false);
    let block = pl_block(BlockKind::Code {
        rich_text: vec![pl_linked("code", "https://code.example/", None, false)],
        caption: vec![linked()],
        language: Language::Other("rust".to_string()),
    });
    assert_eq!(pages_wanted(&block), vec!["https://1.example/".to_string()]);
    let diagram = pl_block(BlockKind::Code {
        rich_text: vec![linked()],
        caption: vec![linked()],
        language: Language::Mermaid,
    });
    assert_eq!(pages_wanted(&diagram), Vec::<String>::new());
}

#[test]
fn blocks_whose_text_is_read_plainly_want_no_page() {
    let linked = || pl_linked("a", "https://1.example/", None, false);
    let image = pl_block(BlockKind::Image(FileObject {
        url: "https://i.example/i.png".to_string(),
        name: None,
        caption: Some(vec![linked()]),
    }));
    assert_eq!(pages_wanted(&image), Vec::<String>::new());
    assert_eq!(pages_wanted(&pl_block(BlockKind::Divider)), Vec::<String>::new());
    assert_eq!(pages_wanted(&pl_block(BlockKind::Audio)), Vec::<String>::new());
    assert_eq!(
        pages_wanted(&pl_block(BlockKind::Table { has_column_header: true, has_row_header: false })),
        Vec::<String>::new()
    );
}

#[test]
fn every_block_with_converted_text_wants_its_links() {
    let linked = || vec![pl_linked("a", "https://1.example/", None, false)];
    let heading = || HeadingBlock { rich_text: linked(), is_toggleable: false };
    let kinds = vec![
        BlockKind::BulletedListItem { rich_text: linked() },
        BlockKind::NumberedListItem { rich_text: linked() },
        BlockKind::Callout { rich_text: linked(), color: Color::Default },
        BlockKind::Quote { rich_text: linked() },
        BlockKind::Toggle { rich_text: linked() },
        BlockKind::Heading1(heading()),
        BlockKind::Heading2(heading()),
        BlockKind::Heading3(heading()),
        BlockKind::Paragraph { rich_text: linked() },
    ];
    for kind in kinds {
        assert_eq!(pages_wanted(&pl_block(kind)), vec!["https://1.example/".to_string()]);
    }
}

#[test]
fn page_for_is_absent_past_the_end() {
    let pages = vec![pl_some("a"), None, pl_some("c")];
    assert_eq!(page_for(&pages, 0), pl_some("a"));
    assert_eq!(page_for(&pages, 1), None);
    assert_eq!(page_for(&pages, 2), pl_some("c"));
    assert_eq!(page_for(&pages, 3), None);
    assert_eq!(page_for(&vec![], 0), None);
}

#[test]
fn span_with_replaces_the_page_where_one_is_read() {
    assert_eq!(
        span_with(pl_linked("a", "https://1.example/", Some("old"), false), pl_some("new")),
        pl_linked("a", "https://1.example/", Some("new"), false)
    );
    assert_eq!(
        span_with(pl_linked("a", "https://1.example/", Some("old"), false), None),
        pl_linked("a", "https://1.example/", None, false)
    );
    assert_eq!(
        span_with(pl_mention("https://m.example/", None), pl_some("new")),
        pl_mention("https://m.example/", Some("new"))
    );
    assert_eq!(
        span_with(pl_linked("Ctrl", "https://1.example/", Some("old"), true), pl_some("new")),
        pl_linked("Ctrl", "https://1.example/", Some("new"), true)
    );
    assert_eq!(span_with(pl_text("t"), pl_some("new")), pl_text("t"));
}

#[test]
fn supply_spans_hands_pages_out_in_order() {
    let spans = vec![
        pl_linked("a", "https://1.example/", None, false),
        pl_text("plain"),
        pl_linked("Tab", "https://kbd.example/", None, true),
        pl_mention("https://2.example/", None),
    ];
    let pages = vec![
        pl_some("skipped"),
        pl_some("one"),
        pl_some("key"),
        pl_some("two"),
        pl_some("left over"),
    ];
    let (out, next) = supply_spans(spans, &pages, 1);
    assert_eq!(
        out,
        vec![
            pl_linked("a", "https://1.example/", Some("one"), false),
            pl_text("plain"),
            pl_linked("Tab", "https://kbd.example/", Some("key"), true),
            pl_mention("https://2.example/", Some("two")),
        ]
    );
    assert_eq!(next, 4);
}

#[test]
fn supply_spans_treats_missing_pages_as_failed_fetches() {
    let spans = vec![
        pl_linked("a", "https://1.example/", Some("stale"), false),
        pl_linked("b", "https://2.example/", Some("stale"), false),
    ];
    let (out, next) = supply_spans(spans, &vec![pl_some("one")], 0);
    assert_eq!(
        out,
        vec![
            pl_linked("a", "https://1.example/", Some("one"), false),
            pl_linked("b", "https://2.example/", None, false),
        ]
    );
    assert_eq!(next, 1);
}

#[test]
fn supply_pages_fills_a_paragraph() {
    let block = pl_block(BlockKind::Paragraph {
        rich_text: vec![
            pl_linked("a", "https://1.example/", None, false),
            pl_mention("https://2.example/", None),
        ],
    });
    let out = supply_pages(block, &vec![None, pl_some("two")]);
    assert_eq!(
        out,
        pl_block(BlockKind::Paragraph {
            rich_text: vec![
                pl_linked("a", "https://1.example/", None, false),
                pl_mention("https://2.example/", Some("two")),
            ],
        })
    );
}

#[test]
fn supply_pages_fills_a_bookmark() {
    let block = pl_block(BlockKind::Bookmark { url: "https://bm.example/".to_string(), page: None });
    assert_eq!(
        supply_pages(block, &vec![pl_some("<title>t</title>")]),
        pl_block(BlockKind::Bookmark {
            url: "https://bm.example/".to_string(),
            page: pl_some("<title>t</title>"),
        })
    );
    let block = pl_block(BlockKind::Bookmark {
        url: "https://bm.example/".to_string(),
        page: pl_some("stale"),
    });
    assert_eq!(
        supply_pages(block, &vec![]),
        pl_block(BlockKind::Bookmark { url: "https://bm.example/".to_string(), page: None })
    );
}

#[test]
fn supply_pages_counts_through_the_cells_of_a_row() {
    let block = pl_block(BlockKind::TableRow {
        cells: vec![
            vec![pl_linked("a", "https://1.example/", None, false)],
            vec![pl_text("x")],
            vec![
                pl_mention("https://2.example/", None),
                pl_linked("c", "https://3.example/", None, false),
            ],
        ],
    });
    let out = supply_pages(block, &vec![pl_some("one"), pl_some("two"), pl_some("three")]);
    assert_eq!(
        out,
        pl_block(BlockKind::TableRow {
            cells: vec![
                vec![pl_linked("a", "https://1.example/", Some("one"), false)],
                vec![pl_text("x")],
                vec![
                    pl_mention("https://2.example/", Some("two")),
                    pl_linked("c", "https://3.example/", Some("three"), false),
                ],
            ],
        })
    );
}

#[test]
fn supply_pages_leaves_other_blocks_alone() {
    let image = || {
        pl_block(BlockKind::Image(FileObject {
            url: "https://i.example/i.png".to_string(),
            name: None,
            caption: Some(vec![pl_linked("a", "https://1.example/", None, false)]),
        }))
    };
    assert_eq!(supply_pages(image(), &vec![pl_some("one")]), image());
    let diagram = || {
        pl_block(BlockKind::Code {
            rich_text: vec![],
            caption: vec![pl_linked("a", "https://1.example/", None, false)],
            language: Language::Mermaid,
        })
    };
    assert_eq!(supply_pages(diagram(), &vec![pl_some("one")]), diagram());
    assert_eq!(supply_pages(pl_block(BlockKind::Pdf), &vec![]), pl_block(BlockKind::Pdf));
}

#[test]
fn supply_pages_keeps_id_and_children() {
    let child = pl_block(BlockKind::Divider);
    let block = Block {
        id: "t".to_string(),
        has_children: true,
        kind: BlockKind::Toggle { rich_text: vec![pl_linked("a", "https://1.example/", None, false)] },
        children: Ok(vec![child]),
    };
    let out = supply_pages(block, &vec![pl_some("one")]);
    assert_eq!(out.id, "t");
    assert!(out.has_children);
    assert_eq!(out.children, Ok(vec![pl_block(BlockKind::Divider)]));
    assert_eq!(
        out.kind,
        BlockKind::Toggle {
            rich_text: vec![pl_linked("a", "https://1.example/", Some("one"), false)],
        }
    );
}

#[test]
fn children_are_read_for_the_kinds_that_hold_them() {
    let with = |kind: BlockKind, has_children: bool| Block {
        id: "b".to_string(),
        has_children,
        kind,
        children: Ok(vec![]),
    };
    let heading = |is_toggleable: bool| HeadingBlock { rich_text: vec![], is_toggleable };
    assert!(reads_children(&with(BlockKind::Toggle { rich_text: vec![] }, false)));
    assert!(reads_children(&with(
        BlockKind::Table { has_column_header: false, has_row_header: false },
        false
    )));
    assert!(reads_children(&with(BlockKind::Heading1(heading(true)), false)));
    assert!(reads_children(&with(BlockKind::Heading2(heading(true)), false)));
    assert!(reads_children(&with(BlockKind::Heading3(heading(true)), false)));
    assert!(!reads_children(&with(BlockKind::Heading1(heading(false)), true)));
    assert!(reads_children(&with(BlockKind::Quote { rich_text: vec![] }, true)));
    assert!(!reads_children(&with(BlockKind::Quote { rich_text: vec![] }, false)));
    assert!(reads_children(&with(
        BlockKind::Callout { rich_text: vec![], color: Color::Default },
        true
    )));
    assert!(!reads_children(&with(
        BlockKind::Callout { rich_text: vec![], color: Color::Default },
        false
    )));
    assert!(!reads_children(&with(BlockKind::Paragraph { rich_text: vec![] }, true)));
    assert!(!reads_children(&with(BlockKind::BulletedListItem { rich_text: vec![] }, true)));
    assert!(!reads_children(&with(BlockKind::ColumnList, true)));
    assert!(!reads_children(&with(BlockKind::Column, true)));
    assert!(!reads_children(&with(BlockKind::Unsupported, true)));
}

#[test]
fn supplied_pages_reach_the_converted_output() {
    let block = pl_block(BlockKind::Paragraph {
        rich_text: vec![pl_linked("site", "https://example.com/articles/x", None, false)],
    });
    let urls = pages_wanted(&block);
    assert_eq!(urls, vec!["https://example.com/articles/x".to_string()]);
    let block = supply_pages(block, &vec![pl_some(r#"<link rel="icon" href="/fav.ico">"#)]);
    let out = Client { enable_unsupported_block: false }.convert_block(&Ok(vec![block])).unwrap();
    match &out[0] {
        Component::BlockComponent(BlockComponent::Paragraph { content, .. }) => match &content[0] {
            InlineComponent::Text { props, .. } => {
                assert_eq!(props.favicon, Some("https://example.com/fav.ico".to_string()));
            }
            other => panic!("unexpected {:?}", other),
        },
        other => panic!("unexpected {:?}", other),
    }
}

#[test]
fn supply_spans_from_past_the_end_supplies_nothing() {
    let spans = vec![pl_linked("a", "https://1.example/", Some("stale"), false)];
    let (out, next) = supply_spans(spans, &vec![pl_some("one")], 5);
    assert_eq!(out, vec![pl_linked("a", "https://1.example/", None, false)]);
    assert_eq!(next, 1);
}
