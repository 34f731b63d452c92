//! The set of technology names found so far, kept in ascending order.
use vstd::prelude::*;
use crate::order::{lemma_lex_order, lex_lt, strictly_sorted, text_less};
use crate::rules::texts;
use crate::text::same_text;

verus! {

pub struct DetectedSet {
    names: Vec<String>,
}

impl View for DetectedSet {
    type V = Seq<Seq<char>>;

    closed spec fn view(&self) -> Seq<Seq<char>> {
        texts(self.names@)
    }
}

impl DetectedSet {
    /// The names are held in strictly ascending order.
    pub open spec fn wf(&self) -> bool {
        strictly_sorted(self@)
    }

    pub fn new() -> (r: DetectedSet)
        ensures
            r.wf(),
            r@ == Seq::<Seq<char>>::empty(),
    {
        let r = DetectedSet { names: Vec::new() };
        assert(r@ =~= Seq::<Seq<char>>::empty());
        r
    }

    /// Adds a name; a name already present is not added again.
    pub fn insert(&mut self, name: &str)
        requires
            old(self).wf(),
        ensures
            final(self).wf(),
            forall|t: Seq<char>|
                #[trigger] final(self)@.contains(t) <==> (old(self)@.contains(t) || t == name@),
    {
        let ghost s = self@;
        let n = self.names.len();
        let mut i: usize = 0;
        while i < n && text_less(self.names[i].as_str(), name)
            invariant
                n == self.names@.len(),
                s == self@,
                s.len() == n,
                i <= n,
                forall|j: int| 0 <= j < i ==> lex_lt(#[trigger] s[j], name@),
            decreases n - i,
        {
            assert(s[i as int] == self.names@[i as int]@);
            i = i + 1;
        }
        if i < n {
            assert(s[i as int] == self.names@[i as int]@);
            if same_text(self.names[i].as_str(), name) {
                assert(s.contains(name@));
                return;
            }
            proof {
                lemma_lex_order(s[i as int], name@, name@);
            }
        }
        proof {
            assert forall|k: int| i <= k < n implies lex_lt(name@, #[trigger] s[k]) by {
                lemma_lex_order(name@, s[i as int], s[k]);
            }
        }
        self.names.insert(i, String::from_str(name));
        assert(self@ =~= s.insert(i as int, name@));
        assert forall|a: int, b: int| 0 <= a < b < self@.len() implies lex_lt(
            #[trigger] self@[a],
            #[trigger] self@[b],
        ) by {
            if b < i {
            } else if a < i && b == i {
            } else if a < i {
                lemma_lex_order(s[a], name@, s[b - 1]);
            } else if a == i {
            } else {
            }
        }
        assert forall|t: Seq<char>| #[trigger] self@.contains(t) <==> (s.contains(t) || t == name@) by {
            if s.contains(t) {
                let j = choose|j: int| 0 <= j < s.len() && s[j] == t;
                if j < i {
                    assert(self@[j] == t);
                } else {
                    assert(self@[j + 1] == t);
                }
            }
            if t == name@ {
                assert(self@[i as int] == t);
            }
            if self@.contains(t) {
                let j = choose|j: int| 0 <= j < self@.len() && self@[j] == t;
                if j < i {
                    assert(s[j] == t);
                } else if j > i {
                    assert(s[j - 1] == t);
                }
            }
        }
    }

    /// The names, in ascending order.
    pub fn into_sorted(self) -> (r: Vec<String>)
        ensures
            texts(r@) == self@,
    {
        self.names
    }
}

} // verus!
