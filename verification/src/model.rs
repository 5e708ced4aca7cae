//! The lexical data model produced by one lookup.

use vstd::prelude::*;
use crate::pairs::lookup_last;
use crate::pairs::pairs_map;

verus! {

/// Mathematical view of one sense of a word. A relation list that is
/// absent from the source data stays `None`, which is distinct from a
/// present-but-empty list.
pub struct EntryView {
    pub part_of_speech: Option<Seq<char>>,
    pub definition: Seq<char>,
    pub antonyms: Option<Seq<Seq<char>>>,
    pub synonyms: Option<Seq<Seq<char>>>,
    pub hypernyms: Option<Seq<Seq<char>>>,
    pub hyponyms: Option<Seq<Seq<char>>>,
    pub holonyms: Option<Seq<Seq<char>>>,
}

/// Mathematical view of a whole word record: the word, the optional
/// pronunciation mapping (keyed by variant, such as "all"), and the senses
/// in order.
pub struct WordRecordView {
    pub word: Seq<char>,
    pub pronunciation: Option<Map<Seq<char>, Seq<char>>>,
    pub entries: Seq<EntryView>,
}

/// One sense of a word: an optional part of speech, a definition, and five
/// optional relation lists. Absent lists are kept distinct from empty ones.
pub struct LexicalEntry {
    pub part_of_speech: Option<String>,
    pub definition: String,
    pub antonyms: Option<Vec<String>>,
    pub synonyms: Option<Vec<String>>,
    pub hypernyms: Option<Vec<String>>,
    pub hyponyms: Option<Vec<String>>,
    pub holonyms: Option<Vec<String>>,
}

impl View for LexicalEntry {
    type V = EntryView;

    open spec fn view(&self) -> EntryView {
        EntryView {
            part_of_speech: self.part_of_speech.deep_view(),
            definition: self.definition@,
            antonyms: self.antonyms.deep_view(),
            synonyms: self.synonyms.deep_view(),
            hypernyms: self.hypernyms.deep_view(),
            hyponyms: self.hyponyms.deep_view(),
            holonyms: self.holonyms.deep_view(),
        }
    }
}

/// A word together with everything one lookup learned about it. Produced
/// once per lookup and immutable thereafter.
pub struct WordRecord {
    pub word: String,
    pub pronunciation: Option<Vec<(String, String)>>,
    pub entries: Vec<LexicalEntry>,
}

impl View for WordRecord {
    type V = WordRecordView;

    open spec fn view(&self) -> WordRecordView {
        WordRecordView {
            word: self.word@,
            pronunciation: match self.pronunciation {
                Some(ps) => Some(pairs_map(ps.deep_view())),
                None => None,
            },
            entries: Seq::new(self.entries@.len(), |i: int| self.entries@[i]@),
        }
    }
}

impl WordRecord {
    /// The pronunciation stored under a variant key, when the record has a
    /// pronunciation mapping at all.
    pub fn pronunciation_for(&self, variant: &str) -> (r: Option<String>)
        ensures
            match self@.pronunciation {
                Some(m) => match r {
                    Some(v) => m.contains_key(variant@) && v@ == m[variant@],
                    None => !m.contains_key(variant@),
                },
                None => r is None,
            },
    {
        match &self.pronunciation {
            Some(ps) => lookup_last(ps, variant),
            None => None,
        }
    }
}

} // verus!
