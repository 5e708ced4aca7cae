//! Structured rendering of a word record.
//!
//! For the record, the word line with its pronunciation comes first (only
//! when the record has a pronunciation mapping at all), then one block per
//! sense: `(part-of-speech) definition`, followed by one line per requested
//! relation category in a fixed order — antonyms, synonyms, hypernyms,
//! hyponyms, holonyms — each gated independently by its flag or by the
//! all-relations flag. A relation line reads `   <label>: <comma-joined
//! values>`, or `   <label>: (None)` when the record has no such list at
//! all; a present but empty list leaves the line empty after the label.
//! A blank line closes every block.

use vstd::prelude::*;
use vstd::string::StringExecFns;
use crate::model::EntryView;
use crate::model::LexicalEntry;
use crate::model::WordRecord;
use crate::model::WordRecordView;
use crate::options::DisplayOptions;

verus! {

/// The comma-joined text of a relation list.
pub open spec fn joined(items: Seq<Seq<char>>) -> Seq<char>
    decreases items.len(),
{
    if items.len() == 0 {
        Seq::empty()
    } else if items.len() == 1 {
        items[0]
    } else {
        joined(items.drop_last()) + ","@ + items.last()
    }
}

/// One relation line: the indented label, then the joined values, or
/// `(None)` when the list is absent.
pub open spec fn nym_line(label: Seq<char>, nyms: Option<Seq<Seq<char>>>) -> Seq<char> {
    "   "@ + label + ": "@ + (match nyms {
        Some(ns) => joined(ns),
        None => "(None)"@,
    }) + "\n"@
}

/// The text block of one sense: part of speech (a `?` placeholder when
/// absent) and definition, then the requested relation lines in fixed
/// order, then a blank line.
pub open spec fn entry_text(e: EntryView, o: DisplayOptions) -> Seq<char> {
    "("@ + (match e.part_of_speech {
        Some(p) => p,
        None => "?"@,
    }) + ") "@ + e.definition + "\n"@ + (if o.antonym || o.all {
        nym_line("antonyms"@, e.antonyms)
    } else {
        Seq::<char>::empty()
    }) + (if o.synonym || o.all {
        nym_line("synonyms"@, e.synonyms)
    } else {
        Seq::<char>::empty()
    }) + (if o.hypernym || o.all {
        nym_line("hypernyms"@, e.hypernyms)
    } else {
        Seq::<char>::empty()
    }) + (if o.hyponym || o.all {
        nym_line("hyponyms"@, e.hyponyms)
    } else {
        Seq::<char>::empty()
    }) + (if o.holonym || o.all {
        nym_line("holonyms"@, e.holonyms)
    } else {
        Seq::<char>::empty()
    }) + "\n"@
}

/// The word line: the word and, between pipes, the pronunciation stored
/// under the "all" variant (empty when that variant is absent). A record
/// without any pronunciation mapping renders no word line at all.
pub open spec fn pronunciation_line(
    word: Seq<char>,
    pron: Option<Map<Seq<char>, Seq<char>>>,
) -> Seq<char> {
    match pron {
        Some(m) => word + " |"@ + (if m.contains_key("all"@) {
            m["all"@]
        } else {
            Seq::<char>::empty()
        }) + "|\n"@,
        None => Seq::empty(),
    }
}

/// The blocks of all senses, in order.
pub open spec fn entries_text(es: Seq<EntryView>, o: DisplayOptions) -> Seq<char>
    decreases es.len(),
{
    if es.len() == 0 {
        Seq::empty()
    } else {
        entries_text(es.drop_last(), o) + entry_text(es.last(), o)
    }
}

/// The full structured rendering of a record.
pub open spec fn rendered(r: WordRecordView, o: DisplayOptions) -> Seq<char> {
    pronunciation_line(r.word, r.pronunciation) + entries_text(r.entries, o)
}

/// Joins strings with commas, exactly as `joined` states.
fn join_commas(items: &Vec<String>) -> (r: String)
    ensures
        r@ == joined(items.deep_view()),
{
    let ghost dv = items.deep_view();
    let mut out = String::new();
    let mut i: usize = 0;
    while i < items.len()
        invariant
            dv == items.deep_view(),
            dv.len() == items@.len(),
            i <= items@.len(),
            out@ == joined(dv.take(i as int)),
        decreases items@.len() - i,
    {
        if i > 0 {
            out.append(",");
        }
        out.append(items[i].as_str());
        i = i + 1;
        proof {
            assert(dv.take(i as int).drop_last() =~= dv.take(i - 1));
            assert(dv.take(i as int).last() == dv[i - 1]);
            if i == 1 {
                assert(out@ =~= joined(dv.take(1)));
            }
        }
    }
    proof {
        assert(dv.take(items@.len() as int) =~= dv);
    }
    out
}

/// A record paired with the options it is rendered under. The record is
/// owned exclusively by the presenter during rendering.
pub struct WordDisplay {
    pub data: WordRecord,
    pub options: DisplayOptions,
}

impl WordDisplay {
    pub fn new(data: WordRecord, options: DisplayOptions) -> (r: WordDisplay)
        ensures
            r == (WordDisplay { data, options }),
    {
        WordDisplay { data, options }
    }

    /// The full structured rendering of the record.
    pub fn display_word_data(&self) -> (out: String)
        ensures
            out@ == rendered(self.data@, self.options),
    {
        self.display_variants()
    }

    /// The word line followed by the block of every sense.
    pub fn display_variants(&self) -> (out: String)
        ensures
            out@ == rendered(self.data@, self.options),
    {
        let mut out = self.display_pronunciation();
        let ghost evs = self.data@.entries;
        let mut i: usize = 0;
        proof {
            assert(evs.take(0) =~= Seq::<EntryView>::empty());
        }
        while i < self.data.entries.len()
            invariant
                evs == self.data@.entries,
                evs.len() == self.data.entries@.len(),
                i <= evs.len(),
                out@ == pronunciation_line(self.data@.word, self.data@.pronunciation)
                    + entries_text(evs.take(i as int), self.options),
            decreases evs.len() - i,
        {
            let block = self.display_variant(&self.data.entries[i]);
            out.append(block.as_str());
            i = i + 1;
            proof {
                assert(evs.take(i as int).drop_last() =~= evs.take(i - 1));
                assert(evs.take(i as int).last() == evs[i - 1]);
            }
        }
        proof {
            assert(evs.take(evs.len() as int) =~= evs);
        }
        out
    }

    /// The word line, present exactly when the record carries a
    /// pronunciation mapping.
    pub fn display_pronunciation(&self) -> (out: String)
        ensures
            out@ == pronunciation_line(self.data@.word, self.data@.pronunciation),
    {
        match &self.data.pronunciation {
            Some(_) => {
                let mut out = String::from_str(self.data.word.as_str());
                out.append(" |");
                match self.data.pronunciation_for("all") {
                    Some(p) => out.append(p.as_str()),
                    None => (),
                }
                out.append("|\n");
                proof {
                    assert(out@ =~= pronunciation_line(
                        self.data@.word,
                        self.data@.pronunciation,
                    ));
                }
                out
            },
            None => String::new(),
        }
    }

    /// The block of one sense.
    pub fn display_variant(&self, entry: &LexicalEntry) -> (out: String)
        ensures
            out@ == entry_text(entry@, self.options),
    {
        let mut out = String::from_str("(");
        match &entry.part_of_speech {
            Some(p) => out.append(p.as_str()),
            None => out.append("?"),
        }
        out.append(") ");
        out.append(entry.definition.as_str());
        out.append("\n");
        if self.options.antonym || self.options.all {
            let line = self.display_nyms(&entry.antonyms, "antonyms");
            out.append(line.as_str());
        }
        if self.options.synonym || self.options.all {
            let line = self.display_nyms(&entry.synonyms, "synonyms");
            out.append(line.as_str());
        }
        if self.options.hypernym || self.options.all {
            let line = self.display_nyms(&entry.hypernyms, "hypernyms");
            out.append(line.as_str());
        }
        if self.options.hyponym || self.options.all {
            let line = self.display_nyms(&entry.hyponyms, "hyponyms");
            out.append(line.as_str());
        }
        if self.options.holonym || self.options.all {
            let line = self.display_nyms(&entry.holonyms, "holonyms");
            out.append(line.as_str());
        }
        out.append("\n");
        proof {
            assert(out@ =~= entry_text(entry@, self.options));
        }
        out
    }

    /// One relation line.
    pub fn display_nyms(&self, nyms: &Option<Vec<String>>, label: &str) -> (out: String)
        ensures
            out@ == nym_line(label@, nyms.deep_view()),
    {
        let mut out = String::from_str("   ");
        out.append(label);
        out.append(": ");
        match nyms {
            Some(ns) => {
                let values = join_commas(ns);
                out.append(values.as_str());
            },
            None => out.append("(None)"),
        }
        out.append("\n");
        out
    }
}

/// Law: an absent relation list renders as `(None)` after the label, a
/// present but empty list renders as an empty string after the label, and
/// the two lines always differ.
pub proof fn lemma_absent_distinct_from_empty(label: Seq<char>)
    ensures
        nym_line(label, None) == "   "@ + label + ": "@ + "(None)"@ + "\n"@,
        nym_line(label, Some(Seq::<Seq<char>>::empty())) == "   "@ + label + ": "@ + "\n"@,
        nym_line(label, None) != nym_line(label, Some(Seq::<Seq<char>>::empty())),
{
    reveal_strlit("(None)");
    reveal_strlit("   ");
    reveal_strlit(": ");
    reveal_strlit("\n");
    assert(nym_line(label, Some(Seq::<Seq<char>>::empty())) =~= "   "@ + label + ": "@ + "\n"@);
    assert(nym_line(label, None).len() == label.len() + 12);
    assert(nym_line(label, Some(Seq::<Seq<char>>::empty())).len() == label.len() + 6);
}

} // verus!
