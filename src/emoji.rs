//! Reaction emoji, as the platform reports them and as communities configure
//! them in text.

use vstd::prelude::*;
use vstd::string::*;
use serenity::model::channel::ReactionType;

verus! {

/// A reaction emoji.
#[derive(Clone, Debug)]
pub enum Emoji {
    /// A community's own emoji.
    Custom { animated: bool, id: u64, name: Option<String> },
    /// A standard emoji, held as its text.
    Unicode(String),
}

/// An emoji as plain values.
pub enum EmojiView {
    Custom { animated: bool, id: u64, name: Option<Seq<char>> },
    Unicode(Seq<char>),
}

impl View for Emoji {
    type V = EmojiView;

    open spec fn view(&self) -> EmojiView {
        match self {
            Emoji::Custom { animated, id, name } => EmojiView::Custom {
                animated: *animated,
                id: *id,
                name: match name {
                    Some(n) => Some(n@),
                    None => None,
                },
            },
            Emoji::Unicode(u) => EmojiView::Unicode(u@),
        }
    }
}

/// The emoji that the platform library reads from configured text, if any.
pub uninterp spec fn parsed_emoji(text: Seq<char>) -> Option<EmojiView>;

/// Relies on serenity's `TryFrom<String> for ReactionType`, which reads the
/// text that a community configured: empty text is refused, text that does
/// not start with `<` is that Unicode emoji, and `<a:name:id>`-shaped text is
/// a custom emoji. The variants of `ReactionType` map one for one.
#[verifier::external_body]
pub(crate) fn parse_emoji(text: String) -> (r: Option<Emoji>)
    ensures
        match r {
            Some(e) => parsed_emoji(text@) == Some(e@),
            None => parsed_emoji(text@) is None,
        },
        text@.len() == 0 ==> r is None,
        text@.len() > 0 && text@[0] != '<' ==> r is Some && r->Some_0@ == EmojiView::Unicode(text@),
{
    match ReactionType::try_from(text) {
        Ok(ReactionType::Custom { animated, id, name }) => Some(Emoji::Custom { animated, id: id.0, name }),
        Ok(ReactionType::Unicode(u)) => Some(Emoji::Unicode(u)),
        Ok(_) => None,
        Err(_) => None,
    }
}

/// Whether two emoji are the same: same kind and equal in every field.
pub fn emoji_eq(a: &Emoji, b: &Emoji) -> (r: bool)
    ensures
        r == (a@ == b@),
{
    match (a, b) {
        (
            Emoji::Custom { animated: a1, id: i1, name: n1 },
            Emoji::Custom { animated: a2, id: i2, name: n2 },
        ) => {
            let names = match (n1, n2) {
                (Some(x), Some(y)) => x.eq(y),
                (None, None) => true,
                _ => false,
            };
            *a1 == *a2 && *i1 == *i2 && names
        },
        (Emoji::Unicode(x), Emoji::Unicode(y)) => x.eq(y),
        _ => false,
    }
}

} // verus!
