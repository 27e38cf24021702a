//! Speech recognition: the engines that can be chosen and the categories of
//! the word list.

use vstd::prelude::*;
use crate::text::str_eq;

verus! {

/// The speech recognition engines.
#[derive(Debug, Clone, Copy, PartialEq, Eq, Structural)]
pub enum SttEngineType {
    /// The live engine.
    Vosk,
    /// The offline engine.
    Whisper,
}

impl SttEngineType {
    /// The name that a control surface shows.
    pub open spec fn spec_name(self) -> Seq<char> {
        match self {
            SttEngineType::Vosk => "VOSK"@,
            SttEngineType::Whisper => "Whisper"@,
        }
    }

    /// The name that a control surface shows.
    pub fn name(&self) -> (r: &'static str)
        ensures
            r@ == self.spec_name(),
    {
        match self {
            SttEngineType::Vosk => "VOSK",
            SttEngineType::Whisper => "Whisper",
        }
    }
}

/// One entry of the word list.
#[derive(Debug, Clone)]
pub struct ProfanityWord {
    /// The key of the entry in the store.
    pub id: i64,
    /// The word, in lower case.
    pub word: String,
    /// The category, as the store writes it.
    pub category: String,
    /// The language: `de` or `en`.
    pub language: String,
}

/// The categories of the word list.
#[derive(Debug, Clone, Copy, PartialEq, Eq, Structural)]
pub enum ProfanityCategory {
    /// Swear words.
    Schimpf,
    /// Insults.
    Beleid,
    /// Racist expressions.
    Rass,
    /// Words that the user added.
    Custom,
}

/// The category that a text of the store means, if it means one.
pub open spec fn category_named(s: Seq<char>) -> Option<ProfanityCategory> {
    if s == "schimpf"@ {
        Some(ProfanityCategory::Schimpf)
    } else if s == "beleid"@ {
        Some(ProfanityCategory::Beleid)
    } else if s == "rass"@ {
        Some(ProfanityCategory::Rass)
    } else if s == "custom"@ {
        Some(ProfanityCategory::Custom)
    } else {
        None
    }
}

impl ProfanityCategory {
    /// The category as the store writes it.
    pub open spec fn spec_str(self) -> Seq<char> {
        match self {
            ProfanityCategory::Schimpf => "schimpf"@,
            ProfanityCategory::Beleid => "beleid"@,
            ProfanityCategory::Rass => "rass"@,
            ProfanityCategory::Custom => "custom"@,
        }
    }

    /// The category as the store writes it.
    pub fn as_str(&self) -> (r: &'static str)
        ensures
            r@ == self.spec_str(),
    {
        match self {
            ProfanityCategory::Schimpf => "schimpf",
            ProfanityCategory::Beleid => "beleid",
            ProfanityCategory::Rass => "rass",
            ProfanityCategory::Custom => "custom",
        }
    }

    /// Reads a category as the store writes it.
    pub fn from_str(s: &str) -> (r: Option<Self>)
        ensures
            r == category_named(s@),
    {
        if str_eq(s, "schimpf") {
            Some(ProfanityCategory::Schimpf)
        } else if str_eq(s, "beleid") {
            Some(ProfanityCategory::Beleid)
        } else if str_eq(s, "rass") {
            Some(ProfanityCategory::Rass)
        } else if str_eq(s, "custom") {
            Some(ProfanityCategory::Custom)
        } else {
            None
        }
    }
}

/// A category that is written and read again is the same category.
pub proof fn lemma_category_round_trip(c: ProfanityCategory)
    ensures
        category_named(c.spec_str()) == Some(c),
{
    reveal_strlit("schimpf");
    reveal_strlit("beleid");
    reveal_strlit("rass");
    reveal_strlit("custom");
    assert("schimpf"@.len() == 7 && "beleid"@.len() == 6 && "rass"@.len() == 4);
    assert("custom"@[0] != "beleid"@[0]);
}

} // verus!
