//! The table that turns keyboard symbols into key codes of the API.

use vstd::prelude::*;
use crate::type_defs::{SDLK_LAST, SDLK_UNKNOWN};

verus! {

/// The key code that `entries` gives to `sym`: that of the first entry
/// with this symbol, and "unknown" where there is none.
pub open spec fn lookup(entries: Seq<(u32, u32)>, sym: u32) -> u32
    decreases entries.len(),
{
    if entries.len() == 0 {
        SDLK_UNKNOWN
    } else if entries[0].0 == sym {
        entries[0].1
    } else {
        lookup(entries.drop_first(), sym)
    }
}

/// Every key code of `entries` indexes the key state table.
pub open spec fn codes_in_range(entries: Seq<(u32, u32)>) -> bool {
    forall|i: int| 0 <= i < entries.len() ==> (#[trigger] entries[i]).1 < SDLK_LAST
}

/// A lookup finds either nothing or the code of some entry.
pub proof fn lemma_lookup_is_entry(entries: Seq<(u32, u32)>, sym: u32)
    ensures
        lookup(entries, sym) == SDLK_UNKNOWN || exists|i: int|
            0 <= i < entries.len() && (#[trigger] entries[i]) == (sym, lookup(entries, sym)),
    decreases entries.len(),
{
    if entries.len() > 0 && entries[0].0 != sym {
        let rest = entries.drop_first();
        lemma_lookup_is_entry(rest, sym);
        if lookup(rest, sym) != SDLK_UNKNOWN {
            let i = choose|i: int|
                0 <= i < rest.len() && (#[trigger] rest[i]) == (sym, lookup(rest, sym));
            assert(entries[i + 1] == rest[i]);
        }
    } else if entries.len() > 0 {
        assert(entries[0] == (sym, lookup(entries, sym)));
    }
}

/// With every code in range, so is every result of a lookup.
pub proof fn lemma_lookup_in_range(entries: Seq<(u32, u32)>, sym: u32)
    requires
        codes_in_range(entries),
    ensures
        lookup(entries, sym) < SDLK_LAST,
{
    lemma_lookup_is_entry(entries, sym);
}

/// A translation table: pairs of a keyboard symbol and its key code. Every
/// code is below the number of key codes, so a translated key always
/// indexes the key state table.
pub struct KeyTable {
    entries: Vec<(u32, u32)>,
}

impl KeyTable {
    /// The pairs of the table, in the order in which a lookup reads them.
    pub closed spec fn view(&self) -> Seq<(u32, u32)> {
        self.entries@
    }

    #[verifier::type_invariant]
    spec fn wf(&self) -> bool {
        codes_in_range(self.entries@)
    }

    /// Makes a table of `entries`, and none where some key code is out of
    /// range.
    pub fn new(entries: Vec<(u32, u32)>) -> (table: Option<KeyTable>)
        ensures
            table.is_some() == codes_in_range(entries@),
            table matches Some(t) ==> t@ == entries@,
    {
        let mut i: usize = 0;
        while i < entries.len()
            invariant
                i <= entries.len(),
                forall|j: int| 0 <= j < i ==> (#[trigger] entries@[j]).1 < SDLK_LAST,
            decreases entries.len() - i,
        {
            if entries[i].1 >= SDLK_LAST {
                return None;
            }
            i += 1;
        }
        Some(KeyTable { entries })
    }

    /// The key code of a keyboard symbol.
    pub fn sdl_key_from_keysym(&self, sym: u32) -> (key: u32)
        ensures
            key == lookup(self@, sym),
            key < SDLK_LAST,
    {
        proof {
            use_type_invariant(self);
            lemma_lookup_in_range(self.entries@, sym);
        }
        assert(self.entries@.subrange(0, self.entries@.len() as int) =~= self.entries@);
        let mut i: usize = 0;
        while i < self.entries.len()
            invariant
                i <= self.entries.len(),
                lookup(self.entries@, sym) < SDLK_LAST,
                lookup(self.entries@, sym) == lookup(
                    self.entries@.subrange(i as int, self.entries@.len() as int),
                    sym,
                ),
            decreases self.entries.len() - i,
        {
            let ghost rest = self.entries@.subrange(i as int, self.entries@.len() as int);
            assert(rest[0] == self.entries@[i as int]);
            assert(rest.drop_first() =~= self.entries@.subrange(
                i as int + 1,
                self.entries@.len() as int,
            ));
            if self.entries[i].0 == sym {
                return self.entries[i].1;
            }
            i += 1;
        }
        assert(self.entries@.subrange(i as int, self.entries@.len() as int).len() == 0);
        SDLK_UNKNOWN
    }
}

} // verus!
