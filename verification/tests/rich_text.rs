use notion_to_jarkup::block::{Annotations, Color, Link, Mention, RichText};
use notion_to_jarkup::client::{background, callout_type, foreground, Client};
use notion_to_jarkup::component::{CalloutType, InlineComponent, TextProps};
use notion_to_jarkup::keyboard::{is_kbd, names_key};

fn rt_client() -> Client {
    Client { enable_unsupported_block: true }
}

fn rt_plain() -> Annotations {
    Annotations {
        bold: false,
        italic: false,
        strikethrough: false,
        underline: false,
        code: false,
        color: Color::Default,
    }
}

fn rt_code() -> Annotations {
    Annotations { code: true, ..rt_plain() }
}

fn rt_text(text: &str, annotations: Annotations) -> RichText {
    RichText::Text { plain_text: text.to_string(), link: None, annotations }
}

fn rt_bare(text: &str) -> TextProps {
    TextProps {
        text: text.to_string(),
        color: None,
        background_color: None,
        bold: None,
        italic: None,
        underline: None,
        strikethrough: None,
        katex: None,
        code: None,
        kbd: None,
        ruby: None,
        href: None,
        favicon: None,
    }
}

fn rt_styled(text: &str) -> TextProps {
    TextProps {
        bold: Some(false),
        italic: Some(false),
        underline: Some(false),
        strikethrough: Some(false),
        code: Some(false),
        ..rt_bare(text)
    }
}

#[test]
fn single_character_code_is_a_keyboard_key() {
    assert!(rt_client().is_kbd("a", true));
    assert!(is_kbd("a", true));
    assert!(is_kbd("/", true));
}

#[test]
fn named_key_is_a_keyboard_key_in_any_case() {
    assert!(rt_client().is_kbd("Ctrl", true));
    assert!(is_kbd("ctrl", true));
    assert!(is_kbd("CTRL", true));
    assert!(is_kbd("Shift", true));
    assert!(is_kbd("PageDown", true));
    assert!(is_kbd("F12", true));
    assert!(is_kbd("ScrollLock", true));
    assert!(is_kbd("Pause", true));
}

#[test]
fn ordinary_code_is_not_a_keyboard_key() {
    assert!(!rt_client().is_kbd("hello", true));
    assert!(!is_kbd("f13", true));
    assert!(!is_kbd("ctrl+c", true));
    assert!(!is_kbd("", true));
    assert!(!is_kbd("ab", true));
}

#[test]
fn text_that_is_not_code_is_never_a_keyboard_key() {
    assert!(!is_kbd("a", false));
    assert!(!is_kbd("Ctrl", false));
    assert!(!is_kbd("hello", false));
}

#[test]
fn one_character_counts_characters_not_bytes() {
    assert!(is_kbd("é", true));
    assert!(is_kbd("⌘", true));
    assert!(!is_kbd("⌘K", true));
}

#[test]
fn every_named_key_is_known() {
    let keys = [
        "ctrl", "shift", "alt", "meta", "escape", "tab", "capslock", "enter", "backspace",
        "space", "arrowup", "arrowdown", "arrowleft", "arrowright", "insert", "delete", "home",
        "end", "pageup", "pagedown", "f1", "f2", "f3", "f4", "f5", "f6", "f7", "f8", "f9", "f10",
        "f11", "f12", "contextmenu", "numlock", "scrolllock", "pause",
    ];
    assert_eq!(keys.len(), 36);
    for key in keys {
        assert!(names_key(key), "{}", key);
    }
}

#[test]
fn names_key_wants_lower_case_and_the_whole_name() {
    assert!(!names_key("Ctrl"));
    assert!(!names_key("ctr"));
    assert!(!names_key("ctrll"));
    assert!(!names_key(""));
    assert!(!names_key("f0"));
}

#[test]
fn keyboard_text_is_marked_as_a_key_and_not_as_code() {
    assert_eq!(
        rt_client().convert_span(&rt_text("Ctrl", rt_code())),
        Some(InlineComponent::Text {
            id: None,
            props: TextProps { code: None, kbd: Some(true), ..rt_styled("Ctrl") },
        })
    );
}

#[test]
fn keyboard_text_keeps_colour_flags_link_and_favicon() {
    let span = RichText::Text {
        plain_text: "Ctrl".to_string(),
        link: Some(Link {
            url: "https://example.com/keys/ctrl".to_string(),
            page: Some(r#"<link rel="icon" href="/fav.ico">"#.to_string()),
        }),
        annotations: Annotations { bold: true, color: Color::Red, ..rt_code() },
    };
    assert_eq!(
        rt_client().convert_span(&span),
        Some(InlineComponent::Text {
            id: None,
            props: TextProps {
                color: Some("#b36472".to_string()),
                bold: Some(true),
                code: None,
                kbd: Some(true),
                href: Some("https://example.com/keys/ctrl".to_string()),
                favicon: Some("https://example.com/fav.ico".to_string()),
                ..rt_styled("Ctrl")
            },
        })
    );
}

#[test]
fn linked_single_character_code_is_a_key_with_its_link() {
    let span = RichText::Text {
        plain_text: "a".to_string(),
        link: Some(Link {
            url: "https://example.com/a".to_string(),
            page: Some(r#"<link rel="icon" href="https://cdn.example.net/i.png">"#.to_string()),
        }),
        annotations: rt_code(),
    };
    assert_eq!(
        rt_client().convert_rich_text(&vec![span]),
        Ok(vec![InlineComponent::Text {
            id: None,
            props: TextProps {
                code: None,
                kbd: Some(true),
                href: Some("https://example.com/a".to_string()),
                favicon: Some("https://cdn.example.net/i.png".to_string()),
                ..rt_styled("a")
            },
        }])
    );
}

#[test]
fn linked_keyboard_text_without_a_page_keeps_its_link() {
    let span = RichText::Text {
        plain_text: "Shift".to_string(),
        link: Some(Link { url: "https://example.com/a".to_string(), page: None }),
        annotations: rt_code(),
    };
    assert_eq!(
        rt_client().convert_span(&span),
        Some(InlineComponent::Text {
            id: None,
            props: TextProps {
                code: None,
                kbd: Some(true),
                href: Some("https://example.com/a".to_string()),
                ..rt_styled("Shift")
            },
        })
    );
}

#[test]
fn ordinary_code_keeps_code_styling() {
    assert_eq!(
        rt_client().convert_span(&rt_text("hello", rt_code())),
        Some(InlineComponent::Text {
            id: None,
            props: TextProps { code: Some(true), ..rt_styled("hello") },
        })
    );
}

#[test]
fn flags_pass_through_as_explicit_values() {
    let annotations = Annotations {
        bold: true,
        italic: false,
        strikethrough: true,
        underline: false,
        code: false,
        color: Color::Default,
    };
    assert_eq!(
        rt_client().convert_span(&rt_text("x y", annotations)),
        Some(InlineComponent::Text {
            id: None,
            props: TextProps {
                bold: Some(true),
                italic: Some(false),
                strikethrough: Some(true),
                underline: Some(false),
                code: Some(false),
                ..rt_bare("x y")
            },
        })
    );
}

#[test]
fn text_colours_map_to_their_hex_values() {
    let table = [
        (Color::Blue, "#6987b8"),
        (Color::Brown, "#8b4c3f"),
        (Color::Gray, "#868e9c"),
        (Color::Green, "#59b57c"),
        (Color::Orange, "#bf7e71"),
        (Color::Pink, "#c9699e"),
        (Color::Purple, "#9771bd"),
        (Color::Red, "#b36472"),
        (Color::Yellow, "#b8a36e"),
    ];
    for (color, hex) in table {
        assert_eq!(foreground(color), Some(hex.to_string()));
        assert_eq!(background(color), None);
    }
}

#[test]
fn background_colours_map_to_their_hex_values() {
    let table = [
        (Color::BlueBackground, "#6987b8"),
        (Color::BrownBackground, "#8b4c3f"),
        (Color::GrayBackground, "#868e9c"),
        (Color::GreenBackground, "#59b57c"),
        (Color::OrangeBackground, "#bf7e71"),
        (Color::PinkBackground, "#c9699e"),
        (Color::PurpleBackground, "#9771bd"),
        (Color::RedBackground, "#b36472"),
        (Color::YellowBackground, "#b8a36e"),
    ];
    for (color, hex) in table {
        assert_eq!(background(color), Some(hex.to_string()));
        assert_eq!(foreground(color), None);
    }
}

#[test]
fn default_colours_give_no_explicit_colour() {
    assert_eq!(foreground(Color::Default), None);
    assert_eq!(background(Color::Default), None);
    assert_eq!(foreground(Color::DefaultBackground), None);
    assert_eq!(background(Color::DefaultBackground), None);
}

#[test]
fn coloured_text_carries_its_colour() {
    let annotations = Annotations { color: Color::Green, ..rt_plain() };
    assert_eq!(
        rt_client().convert_span(&rt_text("go", annotations)),
        Some(InlineComponent::Text {
            id: None,
            props: TextProps { color: Some("#59b57c".to_string()), ..rt_styled("go") },
        })
    );
    let annotations = Annotations { color: Color::PinkBackground, ..rt_plain() };
    assert_eq!(
        rt_client().convert_span(&rt_text("go", annotations)),
        Some(InlineComponent::Text {
            id: None,
            props: TextProps { background_color: Some("#c9699e".to_string()), ..rt_styled("go") },
        })
    );
}

#[test]
fn callout_tone_follows_the_colour() {
    assert_eq!(callout_type(Color::Default), CalloutType::Note);
    assert_eq!(callout_type(Color::DefaultBackground), CalloutType::Note);
    assert_eq!(callout_type(Color::Blue), CalloutType::Note);
    assert_eq!(callout_type(Color::GrayBackground), CalloutType::Note);
    assert_eq!(callout_type(Color::Green), CalloutType::Tip);
    assert_eq!(callout_type(Color::GreenBackground), CalloutType::Tip);
    assert_eq!(callout_type(Color::Purple), CalloutType::Important);
    assert_eq!(callout_type(Color::PurpleBackground), CalloutType::Important);
    assert_eq!(callout_type(Color::Yellow), CalloutType::Warning);
    assert_eq!(callout_type(Color::OrangeBackground), CalloutType::Warning);
    assert_eq!(callout_type(Color::Brown), CalloutType::Warning);
    assert_eq!(callout_type(Color::Red), CalloutType::Caution);
    assert_eq!(callout_type(Color::PinkBackground), CalloutType::Caution);
}

#[test]
fn linked_text_carries_href_and_favicon() {
    let span = RichText::Text {
        plain_text: "docs".to_string(),
        link: Some(Link {
            url: "https://example.com/articles/x".to_string(),
            page: Some(r#"<html><head><link rel="icon" href="/fav.ico"></head></html>"#.to_string()),
        }),
        annotations: rt_plain(),
    };
    assert_eq!(
        rt_client().convert_span(&span),
        Some(InlineComponent::Text {
            id: None,
            props: TextProps {
                href: Some("https://example.com/articles/x".to_string()),
                favicon: Some("https://example.com/fav.ico".to_string()),
                ..rt_styled("docs")
            },
        })
    );
}

#[test]
fn linked_text_without_a_page_has_no_favicon() {
    let span = RichText::Text {
        plain_text: "docs".to_string(),
        link: Some(Link { url: "https://example.com/a".to_string(), page: None }),
        annotations: rt_plain(),
    };
    assert_eq!(
        rt_client().convert_span(&span),
        Some(InlineComponent::Text {
            id: None,
            props: TextProps {
                href: Some("https://example.com/a".to_string()),
                ..rt_styled("docs")
            },
        })
    );
}

#[test]
fn link_mention_becomes_linked_text() {
    let span = RichText::Mention {
        mention: Mention::LinkMention(Link {
            url: "https://example.org/p/q".to_string(),
            page: Some(r#"<link rel="icon" href="icons/a.png">"#.to_string()),
        }),
        plain_text: "Example".to_string(),
    };
    assert_eq!(
        rt_client().convert_span(&span),
        Some(InlineComponent::Text {
            id: None,
            props: TextProps {
                href: Some("https://example.org/p/q".to_string()),
                favicon: Some("https://example.org/icons/a.png".to_string()),
                ..rt_bare("Example")
            },
        })
    );
}

#[test]
fn custom_emoji_becomes_an_icon() {
    let span = RichText::Mention {
        mention: Mention::CustomEmoji {
            id: "e1".to_string(),
            name: "rust".to_string(),
            url: "https://example.com/rust.png".to_string(),
        },
        plain_text: ":rust:".to_string(),
    };
    assert_eq!(
        rt_client().convert_span(&span),
        Some(InlineComponent::Icon {
            id: Some("e1".to_string()),
            src: "https://example.com/rust.png".to_string(),
            alt: Some("rust".to_string()),
        })
    );
}

#[test]
fn inline_equation_is_flagged_as_math() {
    let span = RichText::Equation {
        expression: "e = mc^2".to_string(),
        plain_text: "e = mc^2".to_string(),
    };
    assert_eq!(
        rt_client().convert_span(&span),
        Some(InlineComponent::Text {
            id: None,
            props: TextProps { katex: Some(true), ..rt_bare("e = mc^2") },
        })
    );
}

#[test]
fn other_mentions_are_dropped() {
    for mention in [
        Mention::User,
        Mention::Date,
        Mention::LinkPreview,
        Mention::TemplateMention,
        Mention::Page,
        Mention::Database,
    ] {
        let span = RichText::Mention { mention, plain_text: "@someone".to_string() };
        assert_eq!(rt_client().convert_span(&span), None);
    }
}

#[test]
fn spans_keep_their_order_and_dropped_mentions_shorten_the_output() {
    let spans = vec![
        rt_text("one", rt_plain()),
        RichText::Mention { mention: Mention::User, plain_text: "@u".to_string() },
        RichText::Equation { expression: "x".to_string(), plain_text: "x".to_string() },
        RichText::Mention { mention: Mention::Page, plain_text: "page".to_string() },
        rt_text("two", rt_plain()),
    ];
    let out = rt_client().convert_rich_text(&spans).unwrap();
    assert_eq!(
        out,
        vec![
            InlineComponent::Text { id: None, props: rt_styled("one") },
            InlineComponent::Text {
                id: None,
                props: TextProps { katex: Some(true), ..rt_bare("x") },
            },
            InlineComponent::Text { id: None, props: rt_styled("two") },
        ]
    );
    assert_eq!(rt_client().convert_spans(&spans), out);
}

#[test]
fn no_spans_give_no_components() {
    assert_eq!(rt_client().convert_rich_text(&vec![]), Ok(vec![]));
}

#[test]
fn rich_text_conversion_does_not_depend_on_the_placeholder_mode() {
    let spans = vec![rt_text("Ctrl", rt_code()), rt_text("plain", rt_plain())];
    let on = Client { enable_unsupported_block: true }.convert_rich_text(&spans);
    let off = Client { enable_unsupported_block: false }.convert_rich_text(&spans);
    assert_eq!(on, off);
}
