use similarium::blocks::{Block, BlockType, ContextElement, Element, ElementType, GuessContext, Text, TextType};

#[test]
fn test_serialising_divider() {
    let block = Block::divider();
    assert_eq!(block.kind, BlockType::Divider);
    assert!(block.text.is_none() && block.fields.is_none() && block.elements.is_none());
}

#[test]
fn test_serialising_header() {
    let block = Block::header("Hello");
    assert_eq!(block.kind, BlockType::Header);
    assert_eq!(
        block.text,
        Some(Text { kind: TextType::PlainText, text: "Hello".to_string(), emoji: true })
    );
}

#[test]
fn test_serialising_section() {
    let block = Block::section("Hello", None);
    assert_eq!(block.kind, BlockType::Section);
    assert_eq!(
        block.text,
        Some(Text { kind: TextType::Markdown, text: "Hello".to_string(), emoji: false })
    );
    assert_eq!(block.fields, None);
}

#[test]
fn test_serialising_section_with_fields() {
    let block = Block::section("Hello", Some(vec!["field1", "field2"]));
    assert_eq!(
        block.fields,
        Some(vec![
            Text { kind: TextType::Markdown, text: "field1".to_string(), emoji: false },
            Text { kind: TextType::Markdown, text: "field2".to_string(), emoji: false },
        ])
    );
}

#[test]
fn test_serialising_input() {
    let element = Element::new("action-id", Some(2));
    let label = Text::label("label");

    let block = Block::input("block-id", true, element, label);
    assert_eq!(block.kind, BlockType::Input);
    assert_eq!(block.block_id, Some("block-id".to_string()));
    assert_eq!(block.dispatch_action, Some(true));
    assert_eq!(
        block.element,
        Some(Element { kind: ElementType::PlainTextInput, action_id: "action-id".to_string(), min_length: Some(2) })
    );
    assert_eq!(
        block.label,
        Some(Text { kind: TextType::PlainText, text: "label".to_string(), emoji: true })
    );
}

#[test]
fn test_guess_input() {
    let block = Block::guess_input();
    assert_eq!(block.block_id, Some("guess".to_string()));
    assert_eq!(block.element.unwrap().action_id, "submit-guess");
    assert_eq!(block.label.unwrap().text, "Guess");
}

fn context(rank: i64, is_secret: bool) -> GuessContext {
    GuessContext {
        word: "word".to_string(),
        guess_num: 3,
        profile_photo: "photo".to_string(),
        username: "username".to_string(),
        similarity: 87_125_981,
        rank,
        is_secret,
    }
}

#[test]
fn test_guess_context() {
    let block = Block::guess_context("base-id", context(251, false), true);
    assert_eq!(block.kind, BlockType::Context);
    assert_eq!(block.block_id, Some("guess-base-id-word".to_string()));
    assert_eq!(
        block.elements,
        Some(vec![
            ContextElement::image("photo", "username"),
            ContextElement::text(":p8::p8::p8::p8::p4::p0:      251"),
            ContextElement::text("*word*"),
        ])
    );
}

#[test]
fn test_guess_context_with_secret_in_active_game() {
    let block = Block::guess_context("base-id", context(0, true), true);
    let elements = block.elements.unwrap();
    assert_eq!(elements[1].text, Some(":p8::p8::p8::p8::p8::p8:        :tada:".to_string()));
    assert_eq!(
        elements[2].text,
        Some("*Secret will be revealed at the end* :see_no_evil:".to_string())
    );
}

#[test]
fn test_guess_context_with_secret_in_inactive_game() {
    let block = Block::guess_context("base-id", context(0, true), false);
    let elements = block.elements.unwrap();
    assert_eq!(elements[1].text, Some(":p8::p8::p8::p8::p8::p8:        :tada:".to_string()));
    assert_eq!(elements[2].text, Some("*word*".to_string()));
}

#[test]
fn test_context_elements() {
    let t = ContextElement::text("hi");
    assert_eq!(t.kind, "mrkdwn");
    assert_eq!(t.text, Some("hi".to_string()));
    let i = ContextElement::image("url", "alt");
    assert_eq!(i.kind, "image");
    assert_eq!(i.image_url, Some("url".to_string()));
    assert_eq!(i.alt_text, Some("alt".to_string()));
    assert_eq!(i.text, None);
}
