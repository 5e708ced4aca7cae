//! Cache keys, cache paths, and the store model.
//!
//! A lookup key is derived deterministically from the input word by turning
//! each space into an underscore, so that the key is safe as a file name;
//! the cache file for a word sits at `<cache root>/<key>.json`. The cache
//! root is `<home>/.word`, or `./.word` when no home directory can be
//! determined. `CacheMap` is the store itself, a mapping from keys to the
//! exact JSON payloads written under them; the binary around this library
//! keeps the same mapping as files on disk.

use vstd::prelude::*;
use vstd::string::StrSliceExecFns;
use vstd::string::StringExecFns;
use crate::pairs::lookup_last;
use crate::pairs::pairs_map;

verus! {

/// The lookup key derived from a word: every space becomes an underscore,
/// every other character is kept as it is.
pub open spec fn normalized_key(word: Seq<char>) -> Seq<char> {
    Seq::new(word.len(), |i: int| if word[i] == ' ' { '_' } else { word[i] })
}

/// Derives the cache lookup key from a word. Same word, same key; two words
/// collide exactly when the space-to-underscore substitution makes them
/// equal.
pub fn lookup_key(word: &str) -> (r: String)
    ensures
        r@ == normalized_key(word@),
{
    let n = word.unicode_len();
    let mut out = String::new();
    let mut i: usize = 0;
    while i < n
        invariant
            n == word@.len(),
            i <= n,
            out@ == normalized_key(word@).take(i as int),
        decreases n - i,
    {
        let c = word.get_char(i);
        if c == ' ' {
            out.push('_');
        } else {
            out.push(c);
        }
        i = i + 1;
        proof {
            assert(normalized_key(word@).take(i as int) =~= normalized_key(word@).take(
                i - 1,
            ).push(if word@[i - 1] == ' ' {
                '_'
            } else {
                word@[i - 1]
            }));
        }
    }
    proof {
        assert(normalized_key(word@).take(n as int) =~= normalized_key(word@));
    }
    out
}

/// The full path of the cache file for a word under a cache directory:
/// `<dir>/<normalized word>.json`.
pub fn get_cache_file_path(cache_dir: &str, word: &str) -> (r: String)
    ensures
        r@ == cache_dir@ + "/"@ + normalized_key(word@) + ".json"@,
{
    let key = lookup_key(word);
    let mut out = String::from_str(cache_dir);
    out.append("/");
    out.append(key.as_str());
    out.append(".json");
    out
}

/// The cache root that a home directory yields: `<home>/.word` when a home
/// directory is known, the working-directory-relative `./.word` otherwise.
pub open spec fn cache_root_view(home: Option<Seq<char>>) -> Seq<char> {
    match home {
        Some(h) => h + "/.word"@,
        None => "./.word"@,
    }
}

/// Computes the cache root from an optional home directory path.
pub fn cache_root_for(home: Option<&str>) -> (r: String)
    ensures
        home matches Some(h) ==> r@ == cache_root_view(Some(h@)),
        home is None ==> r@ == cache_root_view(None::<Seq<char>>),
{
    match home {
        Some(h) => {
            let mut out = String::from_str(h);
            out.append("/.word");
            out
        },
        None => String::from_str("./.word"),
    }
}

/// Relies on `dirs::home_dir` for the user's home directory. The result
/// depends on the environment, so nothing is promised of it.
#[verifier::external_body]
fn home_dir_string() -> (r: Option<String>) {
    dirs::home_dir().and_then(|p| p.to_str().map(|s| s.to_owned()))
}

/// The cache root of this process: `<home>/.word`, or `./.word` when the
/// home directory cannot be determined.
pub fn cache_root() -> (r: String)
    ensures
        exists|h: Option<Seq<char>>| r@ == cache_root_view(h),
{
    let home = home_dir_string();
    let r = match &home {
        Some(h) => cache_root_for(Some(h.as_str())),
        None => cache_root_for(None),
    };
    proof {
        let hv: Option<Seq<char>> = match home {
            Some(h) => Some(h@),
            None => None,
        };
        assert(r@ == cache_root_view(hv));
    }
    r
}

/// The cache store: a mapping from lookup keys to the JSON payloads written
/// under them. Entries are never expired or invalidated.
pub struct CacheMap {
    entries: Vec<(String, String)>,
}

impl View for CacheMap {
    type V = Map<Seq<char>, Seq<char>>;

    closed spec fn view(&self) -> Map<Seq<char>, Seq<char>> {
        pairs_map(self.entries.deep_view())
    }
}

impl CacheMap {
    /// An empty store.
    pub fn new() -> (r: CacheMap)
        ensures
            r@ == Map::<Seq<char>, Seq<char>>::empty(),
    {
        let r = CacheMap { entries: Vec::new() };
        proof {
            assert(r.entries.deep_view() =~= Seq::<(Seq<char>, Seq<char>)>::empty());
        }
        r
    }

    /// Reads the payload stored under a key, or nothing when the key was
    /// never written. Never fabricates data.
    pub fn read(&self, key: &str) -> (r: Option<String>)
        ensures
            match r {
                Some(j) => self@.contains_key(key@) && j@ == self@[key@],
                None => !self@.contains_key(key@),
            },
    {
        lookup_last(&self.entries, key)
    }

    /// Stores a payload under a key, overwriting whatever the key held.
    pub fn write(&mut self, key: &str, json: &str)
        ensures
            final(self)@ == old(self)@.insert(key@, json@),
    {
        self.entries.push((String::from_str(key), String::from_str(json)));
        proof {
            assert(self.entries.deep_view().drop_last() =~= old(self).entries.deep_view());
        }
    }
}

/// Law: writing a payload under a key and then reading that key returns
/// exactly that payload. `write` turns the store's mapping into
/// `insert(k, j)`, and `read` returns what the mapping holds at `k`.
pub proof fn lemma_write_then_read(m: Map<Seq<char>, Seq<char>>, k: Seq<char>, j: Seq<char>)
    ensures
        m.insert(k, j).contains_key(k),
        m.insert(k, j)[k] == j,
{
}

/// Law: writing the same payload under the same key twice leaves the stored
/// mapping exactly as one write leaves it.
pub proof fn lemma_write_idempotent(m: Map<Seq<char>, Seq<char>>, k: Seq<char>, j: Seq<char>)
    ensures
        m.insert(k, j).insert(k, j) == m.insert(k, j),
{
    assert(m.insert(k, j).insert(k, j) =~= m.insert(k, j));
}

} // verus!
