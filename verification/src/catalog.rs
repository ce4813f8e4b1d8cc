//! The words of one language, found by key.

use vstd::prelude::*;
use vstd::string::*;

verus! {

/// A key and the words that stand for it.
#[derive(Debug)]
pub struct Translation {
    pub key: String,
    pub text: String,
}

/// The words of one language. Where a key occurs more than once, the entry
/// added last counts.
#[derive(Debug)]
pub struct Catalog {
    pub entries: Vec<Translation>,
}

/// What is shown for `key`: its words where the catalog has them, the key
/// itself where it has none.
pub open spec fn label(catalog: Map<Seq<char>, Seq<char>>, key: Seq<char>) -> Seq<char> {
    if catalog.contains_key(key) {
        catalog[key]
    } else {
        key
    }
}

/// The keys and words of the first `n` of `entries`.
pub open spec fn collected(entries: Seq<Translation>, n: int) -> Map<Seq<char>, Seq<char>>
    decreases n,
{
    if n <= 0 {
        Map::empty()
    } else {
        collected(entries, n - 1).insert(entries[n - 1].key@, entries[n - 1].text@)
    }
}

/// What the first `n` entries hold does not depend on those after them.
proof fn lemma_collected_prefix(a: Seq<Translation>, b: Seq<Translation>, n: int)
    requires
        n <= a.len(),
        n <= b.len(),
        forall|i: int| 0 <= i < n ==> a[i] == b[i],
    ensures
        collected(a, n) == collected(b, n),
    decreases n,
{
    if n > 0 {
        lemma_collected_prefix(a, b, n - 1);
    }
}

impl View for Catalog {
    type V = Map<Seq<char>, Seq<char>>;

    open spec fn view(&self) -> Map<Seq<char>, Seq<char>> {
        collected(self.entries@, self.entries@.len() as int)
    }
}

impl Catalog {
    /// A catalog without words: every key stands for itself.
    pub fn new() -> (catalog: Catalog)
        ensures
            catalog@ == Map::<Seq<char>, Seq<char>>::empty(),
    {
        Catalog { entries: Vec::new() }
    }

    /// Gives `key` the words `text`, in place of those it had.
    pub fn insert(&mut self, key: String, text: String)
        ensures
            final(self)@ == old(self)@.insert(key@, text@),
    {
        self.entries.push(Translation { key, text });
        proof {
            lemma_collected_prefix(
                old(self).entries@,
                self.entries@,
                old(self).entries@.len() as int,
            );
        }
    }

    /// Finds the words for `key`. A key without words is shown as it is.
    pub fn translate(&self, key: &str) -> (text: String)
        ensures
            text@ == label(self@, key@),
    {
        let wanted = String::from_str(key);
        let mut i: usize = self.entries.len();
        while i > 0
            invariant
                i <= self.entries@.len(),
                wanted@ == key@,
                label(self@, key@) == label(collected(self.entries@, i as int), key@),
            decreases i,
        {
            i -= 1;
            if self.entries[i].key == wanted {
                return self.entries[i].text.clone();
            }
        }
        wanted
    }
}

} // verus!
