//! The codes that are tracked: an ordered set, given by configuration.

use vstd::prelude::*;
use crate::standard_codes::{lemma_standard_codes_distinct, standard_codes, standard_codes_spec};
use crate::text::texts;

verus! {

/// A code that a list holds twice.
#[derive(Clone, Copy, Debug, PartialEq, Eq, Structural)]
pub struct DuplicateCode {
    /// Where the code stands for the second time.
    pub position: usize,
}

/// `position` is the first place of `codes` that repeats an earlier one.
pub open spec fn first_repeat(codes: Seq<Seq<char>>, position: int) -> bool {
    &&& 0 <= position < codes.len()
    &&& codes.take(position).no_duplicates()
    &&& codes.take(position).contains(codes[position])
}

/// An ordered set of codes: no code stands in it twice.
pub struct Universe {
    codes: Vec<String>,
}

impl View for Universe {
    type V = Seq<Seq<char>>;

    closed spec fn view(&self) -> Seq<Seq<char>> {
        texts(self.codes@)
    }
}

impl Universe {
    #[verifier::type_invariant]
    closed spec fn distinct(self) -> bool {
        texts(self.codes@).no_duplicates()
    }

    /// Makes a universe of a list of codes, in the order of the list. A list
    /// that holds a code twice is refused, with the place of the first
    /// repetition.
    pub fn new(codes: Vec<String>) -> (made: Result<Universe, DuplicateCode>)
        ensures
            made is Ok <==> texts(codes@).no_duplicates(),
            match made {
                Ok(universe) => universe@ == texts(codes@),
                Err(duplicate) => first_repeat(texts(codes@), duplicate.position as int),
            },
    {
        let ghost all = texts(codes@);
        let mut i: usize = 0;
        assert(all.take(0) =~= Seq::<Seq<char>>::empty());
        while i < codes.len()
            invariant
                i <= codes.len(),
                all == texts(codes@),
                all.take(i as int).no_duplicates(),
            decreases codes.len() - i,
        {
            let mut j: usize = 0;
            while j < i
                invariant
                    j <= i < codes.len(),
                    all == texts(codes@),
                    all.take(i as int).no_duplicates(),
                    forall|k: int| 0 <= k < j ==> all[k] != all[i as int],
                decreases i - j,
            {
                if codes[j] == codes[i] {
                    proof {
                        let earlier = all.take(i as int);
                        assert(all[j as int] == codes[j as int]@);
                        assert(all[i as int] == codes[i as int]@);
                        assert(earlier[j as int] == all[i as int]);
                        assert(earlier.contains(all[i as int]));
                        assert(all[j as int] == all[i as int] && j != i);
                    }
                    return Err(DuplicateCode { position: i });
                }
                j += 1;
            }
            assert(all.take(i + 1) =~= all.take(i as int).push(all[i as int]));
            i += 1;
        }
        assert(all.take(i as int) =~= all);
        Ok(Universe { codes })
    }

    /// The universe of the standard codes, in the order of their table.
    pub fn standard() -> (universe: Universe)
        ensures
            universe@ == standard_codes_spec(),
    {
        let codes = standard_codes();
        proof {
            lemma_standard_codes_distinct();
        }
        Universe { codes }
    }

    /// The number of codes.
    pub fn len(&self) -> (n: usize)
        ensures
            n == self@.len(),
            self@.no_duplicates(),
    {
        proof {
            use_type_invariant(self);
        }
        self.codes.len()
    }

    /// The code at place `i`.
    pub fn code(&self, i: usize) -> (code: &str)
        requires
            i < self@.len(),
        ensures
            code@ == self@[i as int],
    {
        self.codes[i].as_str()
    }

    /// The code at place `i`, or `None` past the end.
    pub fn get(&self, i: usize) -> (code: Option<&str>)
        ensures
            match code {
                Some(text) => i < self@.len() && text@ == self@[i as int],
                None => i >= self@.len(),
            },
    {
        if i < self.codes.len() {
            Some(self.codes[i].as_str())
        } else {
            None
        }
    }
}

} // verus!
