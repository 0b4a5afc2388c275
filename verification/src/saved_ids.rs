//! The transaction ids that have already been handled, so that a
//! notification that is delivered again is recognised and not counted twice.

use vstd::prelude::*;

verus! {

/// A set of transaction ids.  Each id is held once.
pub struct SavedIds {
    ids: Vec<String>,
}

impl View for SavedIds {
    type V = Set<Seq<char>>;

    closed spec fn view(&self) -> Set<Seq<char>> {
        Set::new(|x: Seq<char>| exists|i: int| 0 <= i < self.ids@.len() && #[trigger] self.ids@[i]@ == x)
    }
}

impl SavedIds {
    /// No id is held twice.
    #[verifier::type_invariant]
    closed spec fn held_once(&self) -> bool {
        forall|i: int, j: int|
            0 <= i < j < self.ids@.len() ==> #[trigger] self.ids@[i]@ != #[trigger] self.ids@[j]@
    }

    /// The number of ids held.
    pub closed spec fn spec_len(&self) -> nat {
        self.ids@.len()
    }

    /// An empty set of ids.
    pub fn new() -> (s: Self)
        ensures
            s@ == Set::<Seq<char>>::empty(),
            s.spec_len() == 0,
    {
        let s = SavedIds { ids: Vec::new() };
        assert(s@ =~= Set::<Seq<char>>::empty());
        s
    }

    /// The number of ids held.
    pub fn len(&self) -> (n: usize)
        ensures
            n == self.spec_len(),
            self@.finite(),
            self@.len() == n,
    {
        proof {
            use_type_invariant(self);
            self.lemma_len();
        }
        self.ids.len()
    }

    /// The set has as many elements as the vector holding it.
    proof fn lemma_len(&self)
        requires
            self.held_once(),
        ensures
            self@.finite(),
            self@.len() == self.ids@.len(),
    {
        let names = self.ids@.map_values(|s: String| s@);
        assert(names.no_duplicates());
        assert(self@ =~= names.to_set()) by {
            assert forall|x: Seq<char>| self@.contains(x) implies names.to_set().contains(x) by {
                let i = choose|i: int| 0 <= i < self.ids@.len() && #[trigger] self.ids@[i]@ == x;
                assert(names[i] == x);
            }
            assert forall|x: Seq<char>| names.to_set().contains(x) implies self@.contains(x) by {
                let i = choose|i: int| 0 <= i < names.len() && names[i] == x;
                assert(self.ids@[i]@ == x);
            }
        }
        names.unique_seq_to_set();
    }

    /// Whether `id` is held.
    pub fn contains(&self, id: &str) -> (b: bool)
        ensures
            b == self@.contains(id@),
    {
        let wanted = String::from_str(id);
        let mut i: usize = 0;
        while i < self.ids.len()
            invariant
                i <= self.ids@.len(),
                wanted@ == id@,
                forall|j: int| 0 <= j < i ==> #[trigger] self.ids@[j]@ != id@,
            decreases self.ids@.len() - i,
        {
            if self.ids[i] == wanted {
                assert(self.ids@[i as int]@ == id@);
                return true;
            }
            i = i + 1;
        }
        false
    }

    /// Adds `id`; says whether it was new (as `HashSet::insert` does).
    pub fn insert(&mut self, id: &str) -> (newly: bool)
        ensures
            newly == !old(self)@.contains(id@),
            final(self)@ == old(self)@.insert(id@),
    {
        proof {
            use_type_invariant(&*self);
        }
        if self.contains(id) {
            assert(self@.insert(id@) =~= self@);
            false
        } else {
            let ghost before = self.ids@;
            let mut ids: Vec<String> = Vec::new();
            std::mem::swap(&mut ids, &mut self.ids);
            ids.push(String::from_str(id));
            self.ids = ids;
            assert(self.ids@[before.len() as int]@ == id@);
            assert(self@ =~= old(self)@.insert(id@)) by {
                assert forall|x: Seq<char>| #[trigger] self@.contains(x) implies old(self)@.insert(id@).contains(x) by {
                    let i = choose|i: int| 0 <= i < self.ids@.len() && #[trigger] self.ids@[i]@ == x;
                    if i < before.len() {
                        assert(before[i]@ == x);
                    }
                }
                assert forall|x: Seq<char>| old(self)@.insert(id@).contains(x) implies #[trigger] self@.contains(x) by {
                    if x != id@ {
                        let i = choose|i: int| 0 <= i < before.len() && #[trigger] before[i]@ == x;
                        assert(self.ids@[i]@ == x);
                    }
                }
            }
            true
        }
    }
}

/// Records `id` and says whether it had been recorded before: `true` for a
/// transaction that was already handled, `false` (and the id now saved) for
/// a new one.
pub fn check_transaction_id(saved_ids: &mut SavedIds, id: &str) -> (seen: bool)
    ensures
        seen == old(saved_ids)@.contains(id@),
        final(saved_ids)@ == old(saved_ids)@.insert(id@),
        (seen, final(saved_ids)@) == check_step(old(saved_ids)@, id@),
{
    if saved_ids.contains(id) {
        proof {
            assert(saved_ids@.insert(id@) =~= saved_ids@);
        }
        true
    } else {
        saved_ids.insert(id);
        false
    }
}

/// What `check_transaction_id` answers for `id` on the saved ids `seen`, and the saved ids after it.
pub open spec fn check_step(seen: Set<Seq<char>>, id: Seq<char>) -> (bool, Set<Seq<char>>) {
    (seen.contains(id), seen.insert(id))
}

/// The answers of `n` checks of the same `id`, one after another (as the
/// lock that guards the saved ids orders them), starting from `seen`, and
/// the saved ids after them.
pub open spec fn repeated_checks(seen: Set<Seq<char>>, id: Seq<char>, n: nat) -> (
    Seq<bool>,
    Set<Seq<char>>,
)
    decreases n,
{
    if n == 0 {
        (Seq::empty(), seen)
    } else {
        let (answers, before) = repeated_checks(seen, id, (n - 1) as nat);
        (answers.push(check_step(before, id).0), check_step(before, id).1)
    }
}

/// Of any number of checks of one new id, exactly one (the first) finds it
/// new and the others find it already handled; afterwards the id is saved
/// and nothing else is.
pub proof fn lemma_one_check_finds_id_new(seen: Set<Seq<char>>, id: Seq<char>, n: nat)
    requires
        !seen.contains(id),
        n >= 1,
    ensures
        repeated_checks(seen, id, n).0.len() == n,
        repeated_checks(seen, id, n).0[0] == false,
        forall|i: int| 1 <= i < n ==> repeated_checks(seen, id, n).0[i] == true,
        repeated_checks(seen, id, n).1 == seen.insert(id),
    decreases n,
{
    if n > 1 {
        lemma_one_check_finds_id_new(seen, id, (n - 1) as nat);
        let before = repeated_checks(seen, id, (n - 1) as nat).1;
        assert(before.insert(id) =~= before);
    } else {
        assert(repeated_checks(seen, id, 0).0 =~= Seq::<bool>::empty());
    }
}

} // verus!
