use vstd::prelude::*;
use crate::display::{formatted_rank, formatted_rank_of, get_progress_bar, progress_bar_of};

verus! {

/// The kind of a message block.
#[derive(Debug, Clone, Copy, PartialEq, Eq, Structural)]
pub enum BlockType {
    Section,
    Divider,
    Header,
    Input,
    Context,
}

/// How the text of a block is rendered.
#[derive(Debug, Clone, Copy, PartialEq, Eq, Structural)]
pub enum TextType {
    Markdown,
    PlainText,
}

/// A text object of a block.
#[derive(Debug, PartialEq, Eq)]
pub struct Text {
    pub kind: TextType,
    pub text: String,
    pub emoji: bool,
}

/// The kind of an input element.
#[derive(Debug, Clone, Copy, PartialEq, Eq, Structural)]
pub enum ElementType {
    PlainTextInput,
}

/// An input element of a block.
#[derive(Debug, PartialEq, Eq)]
pub struct Element {
    pub kind: ElementType,
    pub action_id: String,
    pub min_length: Option<u32>,
}

/// An element of a context block: a markdown text or an image.
#[derive(Debug, PartialEq, Eq)]
pub struct ContextElement {
    pub kind: String,
    pub text: Option<String>,
    pub image_url: Option<String>,
    pub alt_text: Option<String>,
}

/// A context block on its own.
#[derive(Debug, PartialEq, Eq)]
pub struct Context {
    pub kind: String,
    pub block_id: String,
    pub elements: Vec<ContextElement>,
}

/// A block of a chat message; the fields that a kind does not use are `None`.
#[derive(Debug, PartialEq, Eq)]
pub struct Block {
    pub kind: BlockType,
    pub text: Option<Text>,
    pub block_id: Option<String>,
    pub dispatch_action: Option<bool>,
    pub element: Option<Element>,
    pub label: Option<Text>,
    pub elements: Option<Vec<ContextElement>>,
    pub fields: Option<Vec<Text>>,
}

/// One guess as listed under a game: the word, who guessed it, and how close it is.
#[derive(Debug, PartialEq, Eq)]
pub struct GuessContext {
    pub guess_num: i64,
    pub word: String,
    pub username: String,
    pub profile_photo: String,
    pub rank: i64,
    /// Closeness to the secret, in millionths.
    pub similarity: i64,
    pub is_secret: bool,
}

impl Text {
    /// Whether this is a text of `kind` with `text` and the emoji flag `emoji`.
    pub open spec fn is(&self, kind: TextType, text: Seq<char>, emoji: bool) -> bool {
        self.kind == kind && self.text@ == text && self.emoji == emoji
    }

    /// A plain text.
    pub fn plain(text: &str, emoji: bool) -> (r: Text)
        ensures
            r.is(TextType::PlainText, text@, emoji),
    {
        Text { kind: TextType::PlainText, text: text.to_string(), emoji }
    }

    /// A markdown text.
    pub fn markdown(text: &str, emoji: bool) -> (r: Text)
        ensures
            r.is(TextType::Markdown, text@, emoji),
    {
        Text { kind: TextType::Markdown, text: text.to_string(), emoji }
    }

    /// The plain text label of an input, with emoji shown.
    pub fn label(text: &str) -> (r: Text)
        ensures
            r.is(TextType::PlainText, text@, true),
    {
        Text { kind: TextType::PlainText, text: text.to_string(), emoji: true }
    }
}

impl Element {
    /// A plain text input reporting `action_id`.
    pub fn new(action_id: &str, min_length: Option<u32>) -> (r: Element)
        ensures
            r.kind == ElementType::PlainTextInput,
            r.action_id@ == action_id@,
            r.min_length == min_length,
    {
        Element { kind: ElementType::PlainTextInput, action_id: action_id.to_string(), min_length }
    }
}

impl ContextElement {
    /// Whether this is a markdown element with `text`.
    pub open spec fn is_text(&self, text: Seq<char>) -> bool {
        &&& self.kind@ == "mrkdwn"@
        &&& self.text matches Some(t) && t@ == text
        &&& self.image_url is None
        &&& self.alt_text is None
    }

    /// Whether this is an image element showing `url` with `alt`.
    pub open spec fn is_image(&self, url: Seq<char>, alt: Seq<char>) -> bool {
        &&& self.kind@ == "image"@
        &&& self.text is None
        &&& self.image_url matches Some(u) && u@ == url
        &&& self.alt_text matches Some(a) && a@ == alt
    }

    /// A markdown text element.
    pub fn text(text: &str) -> (r: ContextElement)
        ensures
            r.is_text(text@),
    {
        ContextElement {
            kind: String::from_str("mrkdwn"),
            text: Some(text.to_string()),
            image_url: None,
            alt_text: None,
        }
    }

    /// An image element.
    pub fn image(image_url: &str, alt_text: &str) -> (r: ContextElement)
        ensures
            r.is_image(image_url@, alt_text@),
    {
        ContextElement {
            kind: String::from_str("image"),
            text: None,
            image_url: Some(image_url.to_string()),
            alt_text: Some(alt_text.to_string()),
        }
    }
}

/// The text of each field of a section, in order.
pub open spec fn field_texts(fields: Seq<Text>) -> Seq<Seq<char>> {
    fields.map_values(|t: Text| t.text@)
}

/// The text of the element of a guess context that names the word.
pub open spec fn guess_word_text(word: Seq<char>, is_secret: bool, game_active: bool) -> Seq<char> {
    if is_secret && game_active {
        "*Secret will be revealed at the end* :see_no_evil:"@
    } else {
        seq!['*'] + word + seq!['*']
    }
}

/// How far along the bar of a guess of `rank` is, out of 1000.
pub open spec fn closeness(rank: int) -> nat {
    if rank < 1000 {
        (1000 - rank) as nat
    } else {
        0
    }
}

impl Block {
    /// Whether this is a block of `kind` with every optional field empty.
    pub open spec fn is_bare(&self, kind: BlockType) -> bool {
        &&& self.kind == kind
        &&& self.text is None
        &&& self.block_id is None
        &&& self.dispatch_action is None
        &&& self.element is None
        &&& self.label is None
        &&& self.elements is None
        &&& self.fields is None
    }

    /// Whether this is a markdown section with `text` and, when given, the
    /// markdown fields `fields`.
    pub open spec fn is_section(&self, text: Seq<char>, fields: Option<Seq<Seq<char>>>) -> bool {
        &&& self.kind == BlockType::Section
        &&& self.text matches Some(t) && t.is(TextType::Markdown, text, false)
        &&& self.block_id is None
        &&& self.dispatch_action is None
        &&& self.element is None
        &&& self.label is None
        &&& self.elements is None
        &&& match fields {
            None => self.fields is None,
            Some(fs) => self.fields matches Some(v) && field_texts(v@) == fs && forall|i: int|
                0 <= i < v@.len() ==> (#[trigger] v@[i]).kind == TextType::Markdown && !v@[i].emoji,
        }
    }

    /// A header showing `text` as plain text with emoji.
    pub fn header(text: &str) -> (r: Block)
        ensures
            r.kind == BlockType::Header,
            r.text matches Some(t) && t.is(TextType::PlainText, text@, true),
            r.block_id is None && r.dispatch_action is None && r.element is None,
            r.label is None && r.elements is None && r.fields is None,
    {
        Block {
            kind: BlockType::Header,
            text: Some(Text::plain(text, true)),
            block_id: None,
            dispatch_action: None,
            element: None,
            label: None,
            elements: None,
            fields: None,
        }
    }

    /// A markdown section, with markdown fields when `fields` is given.
    pub fn section(text: &str, fields: Option<Vec<&str>>) -> (r: Block)
        ensures
            r.is_section(
                text@,
                match fields {
                    None => None,
                    Some(fs) => Some(fs@.map_values(|f: &str| f@)),
                },
            ),
    {
        let converted = match fields {
            None => None,
            Some(fs) => {
                let mut out: Vec<Text> = Vec::new();
                let mut i: usize = 0;
                while i < fs.len()
                    invariant
                        i <= fs@.len(),
                        out@.len() == i,
                        field_texts(out@) =~= fs@.subrange(0, i as int).map_values(|f: &str| f@),
                        forall|k: int|
                            0 <= k < out@.len() ==> (#[trigger] out@[k]).kind == TextType::Markdown
                                && !out@[k].emoji,
                    decreases fs@.len() - i,
                {
                    let f: &str = fs[i];
                    let ghost prev = out@;
                    out.push(Text::markdown(f, false));
                    proof {
                        let want = fs@.subrange(0, i + 1).map_values(|f: &str| f@);
                        let had = fs@.subrange(0, i as int).map_values(|f: &str| f@);
                        assert forall|k: int| 0 <= k < i + 1 implies field_texts(out@)[k] == want[k] by {
                            if k < i {
                                assert(out@[k] == prev[k]);
                                assert(field_texts(prev)[k] == had[k]);
                            }
                        }
                        assert(field_texts(out@) =~= want);
                    }
                    i = i + 1;
                }
                assert(fs@.subrange(0, fs@.len() as int) =~= fs@);
                Some(out)
            },
        };
        Block {
            kind: BlockType::Section,
            text: Some(Text::markdown(text, false)),
            block_id: None,
            dispatch_action: None,
            element: None,
            label: None,
            elements: None,
            fields: converted,
        }
    }

    /// A divider.
    pub fn divider() -> (r: Block)
        ensures
            r.is_bare(BlockType::Divider),
    {
        Block {
            kind: BlockType::Divider,
            text: None,
            block_id: None,
            dispatch_action: None,
            element: None,
            label: None,
            elements: None,
            fields: None,
        }
    }

    /// An input block holding `element`, labelled `label`.
    pub fn input(block_id: &str, dispatch_action: bool, element: Element, label: Text) -> (r: Block)
        ensures
            r.kind == BlockType::Input,
            r.block_id matches Some(b) && b@ == block_id@,
            r.dispatch_action == Some(dispatch_action),
            r.element == Some(element),
            r.label == Some(label),
            r.text is None && r.elements is None && r.fields is None,
    {
        Block {
            kind: BlockType::Input,
            text: None,
            block_id: Some(block_id.to_string()),
            dispatch_action: Some(dispatch_action),
            element: Some(element),
            label: Some(label),
            elements: None,
            fields: None,
        }
    }

    /// The input in which players type their guesses.
    pub fn guess_input() -> (r: Block)
        ensures
            r.kind == BlockType::Input,
            r.block_id matches Some(b) && b@ == "guess"@,
            r.dispatch_action == Some(true),
            r.element matches Some(e) && e.kind == ElementType::PlainTextInput && e.action_id@
                == "submit-guess"@ && e.min_length == Some(2u32),
            r.label matches Some(l) && l.is(TextType::PlainText, "Guess"@, true),
            r.text is None && r.elements is None && r.fields is None,
    {
        let element = Element::new("submit-guess", Some(2));
        let label = Text::label("Guess");
        Block::input("guess", true, element, label)
    }

    /// The context block listing one guess: the guesser's picture, a bar of
    /// closeness with the rank, and the word (hidden while the game runs if
    /// it is the secret).
    pub fn guess_context(base_id: &str, context: GuessContext, game_active: bool) -> (r: Block)
        requires
            context.rank > -10000,
        ensures
            r.kind == BlockType::Context,
            r.block_id matches Some(b) && b@ == "guess-"@ + base_id@ + seq!['-'] + context.word@,
            r.elements matches Some(es) && es@.len() == 3
                && es@[0].is_image(context.profile_photo@, context.username@)
                && es@[1].is_text(
                progress_bar_of(closeness(context.rank as int), 1000, 6) + formatted_rank_of(
                    context.rank as int,
                ),
            ) && es@[2].is_text(guess_word_text(context.word@, context.is_secret, game_active)),
            r.text is None && r.dispatch_action is None && r.element is None,
            r.label is None && r.fields is None,
    {
        let mut block_id = String::from_str("guess-");
        block_id.append(base_id);
        block_id.append("-");
        block_id.append(context.word.as_str());
        let amount: usize = if context.rank < 1000 {
            (1000 - context.rank) as usize
        } else {
            0
        };
        let bar = match get_progress_bar(amount, 1000, 6) {
            Ok(b) => b,
            Err(_) => String::new(),
        };
        let mut rank_text = bar;
        rank_text.append(formatted_rank(context.rank).as_str());
        let word_text = if context.is_secret && game_active {
            String::from_str("*Secret will be revealed at the end* :see_no_evil:")
        } else {
            let mut w = String::from_str("*");
            w.append(context.word.as_str());
            w.append("*");
            w
        };
        proof {
            reveal_strlit("guess-");
            reveal_strlit("-");
            reveal_strlit("*");
            reveal_strlit("*Secret will be revealed at the end* :see_no_evil:");
        }
        assert(amount as nat == closeness(context.rank as int));
        assert(block_id@ =~= "guess-"@ + base_id@ + seq!['-'] + context.word@);
        assert(rank_text@ =~= progress_bar_of(closeness(context.rank as int), 1000, 6)
            + formatted_rank_of(context.rank as int));
        assert(word_text@ =~= guess_word_text(context.word@, context.is_secret, game_active));
        let mut elements: Vec<ContextElement> = Vec::new();
        elements.push(ContextElement::image(context.profile_photo.as_str(), context.username.as_str()));
        elements.push(ContextElement::text(rank_text.as_str()));
        elements.push(ContextElement::text(word_text.as_str()));
        proof {
            reveal_strlit("guess-");
            reveal_strlit("-");
            reveal_strlit("*");
            reveal_strlit("mrkdwn");
            reveal_strlit("image");
        }
        Block {
            kind: BlockType::Context,
            text: None,
            block_id: Some(block_id),
            dispatch_action: None,
            element: None,
            label: None,
            elements: Some(elements),
            fields: None,
        }
    }
}

} // verus!
