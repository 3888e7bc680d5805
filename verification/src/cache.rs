//! An optional memoizing front for [`try_decode`]: a map from raw words to
//! their decoded values.  Decoding is a mathematical constant of the word, so
//! the cache needs no invalidation, and a cached decode is proved to return
//! exactly what an uncached decode returns — decoding the same word twice,
//! with or without the cache and in any order, yields value-equal results.

use crate::decoded_inst::Instruction;
use crate::decoder::{spec_try_decode, try_decode};
use crate::error::DecodeError;
use vstd::hash_map::HashMapWithView;
use vstd::prelude::*;

verus! {

broadcast use vstd::std_specs::hash::axiom_u32_obeys_hash_table_key_model;

/// A memoizing decode cache keyed by the raw word.  Only successful decodes
/// are stored; errors are recomputed (they are just as deterministic, but
/// carry no payload worth keeping).
pub struct DecodeCache {
    map: HashMapWithView<u32, Instruction>,
}

impl DecodeCache {
    /// Every cached entry is exactly what decoding its word yields.
    pub closed spec fn wf(self) -> bool {
        forall|w: u32|
            self.map@.contains_key(w) ==> spec_try_decode(w) == Ok::<Instruction, DecodeError>(
                #[trigger] self.map@[w],
            )
    }

    /// An empty cache.
    pub fn new() -> (c: Self)
        ensures
            c.wf(),
    {
        DecodeCache { map: HashMapWithView::new() }
    }

    /// Decodes `inst`, consulting and filling the cache.  The result is the
    /// same as [`try_decode`]'s on every call, whatever the cache already
    /// holds: repeated decodes of one word are value-equal.
    pub fn decode(&mut self, inst: u32) -> (r: Result<Instruction, DecodeError>)
        requires
            old(self).wf(),
        ensures
            final(self).wf(),
            r == spec_try_decode(inst),
            r is Ok ==> r->Ok_0.fields_valid(),
    {
        proof {
            crate::decoder::lemma_decode_fields_valid(inst);
        }
        match self.map.get(&inst) {
            Some(cached) => Ok(*cached),
            None => {
                let r = try_decode(inst);
                if let Ok(decoded) = r {
                    self.map.insert(inst, decoded);
                }
                r
            },
        }
    }
}

} // verus!
