//! The kinds of parrot and the tags that select them.

use crate::text::same_text;
use vstd::prelude::*;

verus! {

/// A kind of parrot. Each kind has its own speed formula.
#[derive(Clone, Copy, Debug, PartialEq, Eq, Structural)]
pub enum ParrotVariant {
    European,
    African,
    NorwegianBlue,
}

/// Why a speed could not be computed.
#[derive(Clone, Copy, Debug, PartialEq, Eq, Structural)]
pub enum ParrotError {
    /// The tag names none of the three kinds of parrot.
    UnknownVariant,
}

impl ParrotVariant {
    /// The tag that selects this kind.
    pub open spec fn tag(self) -> Seq<char> {
        match self {
            ParrotVariant::European => "european_parrot"@,
            ParrotVariant::African => "african_parrot"@,
            ParrotVariant::NorwegianBlue => "norwegian_blue_parrot"@,
        }
    }

    /// The kind that `tag` selects, if it selects one. Tags are compared
    /// character by character: case and surrounding blanks count.
    pub open spec fn of_tag(tag: Seq<char>) -> Option<ParrotVariant> {
        if tag == ParrotVariant::European.tag() {
            Some(ParrotVariant::European)
        } else if tag == ParrotVariant::African.tag() {
            Some(ParrotVariant::African)
        } else if tag == ParrotVariant::NorwegianBlue.tag() {
            Some(ParrotVariant::NorwegianBlue)
        } else {
            None
        }
    }

    /// Reads a tag. Fails with `UnknownVariant` exactly on the tags that select
    /// no kind.
    pub fn parse(tag: &str) -> (r: Result<ParrotVariant, ParrotError>)
        ensures
            r == match ParrotVariant::of_tag(tag@) {
                Some(v) => Ok::<ParrotVariant, ParrotError>(v),
                None => Err(ParrotError::UnknownVariant),
            },
    {
        if same_text(tag, "european_parrot") {
            Ok(ParrotVariant::European)
        } else if same_text(tag, "african_parrot") {
            Ok(ParrotVariant::African)
        } else if same_text(tag, "norwegian_blue_parrot") {
            Ok(ParrotVariant::NorwegianBlue)
        } else {
            Err(ParrotError::UnknownVariant)
        }
    }
}

/// The three tags differ from one another, so each selects its own kind.
pub proof fn lemma_tag_selects_its_variant(v: ParrotVariant)
    ensures
        ParrotVariant::of_tag(v.tag()) == Some(v),
{
    reveal_strlit("european_parrot");
    reveal_strlit("african_parrot");
    reveal_strlit("norwegian_blue_parrot");
    // The three tags have three different lengths.
    assert("european_parrot"@.len() == 15);
    assert("african_parrot"@.len() == 14);
    assert("norwegian_blue_parrot"@.len() == 21);
}

} // verus!
