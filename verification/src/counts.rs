//! How many ships of each owner are in orbit around one body.

use crate::owner::OwnedBy;
use vstd::multiset::*;
use vstd::prelude::*;

verus! {

/// `n` times the same owner.
pub open spec fn copies(owner: OwnedBy, n: nat) -> Multiset<OwnedBy>
    decreases n,
{
    if n == 0 {
        Multiset::empty()
    } else {
        copies(owner, (n - 1) as nat).insert(owner)
    }
}

/// `copies(owner, n)` holds `owner` exactly `n` times and nothing else.
pub proof fn lemma_copies(owner: OwnedBy, n: nat)
    ensures
        copies(owner, n).count(owner) == n,
        copies(owner, n).len() == n,
        forall|other: OwnedBy| other != owner ==> copies(owner, n).count(other) == 0,
    decreases n,
{
    broadcast use group_multiset_axioms;

    if n > 0 {
        lemma_copies(owner, (n - 1) as nat);
    }
}

/// Two different owners are never counted twice: together they are at most
/// all the ships there are.
pub proof fn lemma_two_owners_fit(present: Multiset<OwnedBy>, a: OwnedBy, b: OwnedBy)
    requires
        a != b,
    ensures
        present.count(a) + present.count(b) <= present.len(),
{
    broadcast use group_multiset_axioms;

    let part = copies(a, present.count(a));
    lemma_copies(a, present.count(a));
    let rest = present.sub(part);
    assert(rest.count(b) == present.count(b));
    assert(rest.len() == present.len() - part.len());
}

/// Whether `owner` has ships present and nobody else has.
pub open spec fn is_sole(present: Multiset<OwnedBy>, owner: OwnedBy) -> bool {
    present.count(owner) > 0 && present.count(owner) == present.len()
}

/// The owner who alone has ships present, if there is one.
pub open spec fn sole_owner(present: Multiset<OwnedBy>) -> Option<OwnedBy> {
    if exists|owner: OwnedBy| is_sole(present, owner) {
        Some(choose|owner: OwnedBy| is_sole(present, owner))
    } else {
        None
    }
}

/// Whether ships of at least two owners are present.
pub open spec fn contested(present: Multiset<OwnedBy>) -> bool {
    exists|a: OwnedBy, b: OwnedBy| a != b && present.count(a) > 0 && present.count(b) > 0
}

/// At most one owner is alone: `sole_owner` names that owner and no other.
pub proof fn lemma_sole_owner_unique(present: Multiset<OwnedBy>, owner: OwnedBy)
    ensures
        is_sole(present, owner) <==> sole_owner(present) == Some(owner),
{
    if is_sole(present, owner) {
        let chosen = choose|o: OwnedBy| is_sole(present, o);
        if chosen != owner {
            lemma_two_owners_fit(present, owner, chosen);
        }
    }
}

/// Ships are present of no owner, of one alone, or of several: exactly one
/// of the three holds.
pub proof fn lemma_empty_sole_or_contested(present: Multiset<OwnedBy>)
    ensures
        present.len() == 0 ==> sole_owner(present) is None && !contested(present),
        sole_owner(present) is Some ==> present.len() > 0 && !contested(present),
        contested(present) ==> present.len() > 0 && sole_owner(present) is None,
        present.len() == 0 || sole_owner(present) is Some || contested(present),
{
    broadcast use group_multiset_axioms;

    if contested(present) {
        let (a, b) = choose|a: OwnedBy, b: OwnedBy|
            a != b && present.count(a) > 0 && present.count(b) > 0;
        lemma_two_owners_fit(present, a, b);
        assert forall|o: OwnedBy| !is_sole(present, o) by {
            if o != a {
                lemma_two_owners_fit(present, o, a);
            }
        }
    }
    if present.len() > 0 && sole_owner(present) is None {
        let a = choose|v: OwnedBy| 0 < present.count(v);
        assert(!is_sole(present, a));
        let rest = present.sub(copies(a, present.count(a)));
        lemma_copies(a, present.count(a));
        lemma_multiset_empty_len(rest);
    }
}

/// What a list of entries stands for: each owner as often as its entry says.
spec fn tally(entries: Seq<(OwnedBy, usize)>) -> Multiset<OwnedBy>
    decreases entries.len(),
{
    if entries.len() == 0 {
        Multiset::empty()
    } else {
        tally(entries.drop_last()).add(copies(entries.last().0, entries.last().1 as nat))
    }
}

/// No owner has two entries, and no entry counts nothing.
spec fn tidy(entries: Seq<(OwnedBy, usize)>) -> bool {
    &&& forall|i: int, j: int|
        0 <= i < j < entries.len() ==> (#[trigger] entries[i]).0 != (#[trigger] entries[j]).0
    &&& forall|i: int| 0 <= i < entries.len() ==> (#[trigger] entries[i]).1 > 0
}

proof fn lemma_tally_absent(entries: Seq<(OwnedBy, usize)>, owner: OwnedBy)
    requires
        forall|i: int| 0 <= i < entries.len() ==> (#[trigger] entries[i]).0 != owner,
    ensures
        tally(entries).count(owner) == 0,
    decreases entries.len(),
{
    broadcast use group_multiset_axioms;

    if entries.len() > 0 {
        lemma_tally_absent(entries.drop_last(), owner);
        lemma_copies(entries.last().0, entries.last().1 as nat);
    }
}

proof fn lemma_tally_entry(entries: Seq<(OwnedBy, usize)>, i: int)
    requires
        tidy(entries),
        0 <= i < entries.len(),
    ensures
        tally(entries).count(entries[i].0) == entries[i].1,
    decreases entries.len(),
{
    broadcast use group_multiset_axioms;

    let rest = entries.drop_last();
    lemma_copies(entries.last().0, entries.last().1 as nat);
    if i == entries.len() - 1 {
        lemma_tally_absent(rest, entries[i].0);
    } else {
        lemma_tally_entry(rest, i);
    }
}

proof fn lemma_tally_len_bounds(entries: Seq<(OwnedBy, usize)>)
    requires
        tidy(entries),
    ensures
        entries.len() <= tally(entries).len(),
        forall|i: int| 0 <= i < entries.len() ==> (#[trigger] entries[i]).1 <= tally(entries).len(),
    decreases entries.len(),
{
    broadcast use group_multiset_axioms;

    if entries.len() > 0 {
        let rest = entries.drop_last();
        lemma_tally_len_bounds(rest);
        lemma_copies(entries.last().0, entries.last().1 as nat);
        assert forall|i: int| 0 <= i < entries.len() implies (#[trigger] entries[i]).1 <= tally(
            entries,
        ).len() by {
            if i < rest.len() {
                assert(entries[i] == rest[i]);
            }
        }
    }
}

/// The ships in orbit around one body, counted by owner. The owners around
/// one body are few: the counts are a short list in which no owner stands
/// twice and no count is nothing.
pub struct OwnerCounts {
    entries: Vec<(OwnedBy, usize)>,
}

impl View for OwnerCounts {
    type V = Multiset<OwnedBy>;

    /// The owners of the ships counted, each as often as it has ships.
    closed spec fn view(&self) -> Multiset<OwnedBy> {
        tally(self.entries@)
    }
}

impl OwnerCounts {
    #[verifier::type_invariant]
    spec fn well_formed(self) -> bool {
        tidy(self.entries@) && tally(self.entries@).len() <= usize::MAX
    }

    /// No ship at all.
    pub fn new() -> (counts: OwnerCounts)
        ensures
            counts@ == Multiset::<OwnedBy>::empty(),
    {
        OwnerCounts { entries: Vec::new() }
    }

    /// The number of ships of `owner`.
    pub fn get(&self, owner: OwnedBy) -> (n: usize)
        ensures
            n == self@.count(owner),
    {
        proof {
            use_type_invariant(self);
        }
        let mut i: usize = 0;
        while i < self.entries.len()
            invariant
                i <= self.entries.len(),
                tidy(self.entries@),
                forall|k: int| 0 <= k < i ==> (#[trigger] self.entries@[k]).0 != owner,
            decreases self.entries.len() - i,
        {
            if self.entries[i].0 == owner {
                proof {
                    lemma_tally_entry(self.entries@, i as int);
                }
                return self.entries[i].1;
            }
            i += 1;
        }
        proof {
            lemma_tally_absent(self.entries@, owner);
        }
        0
    }

    /// Counts one more ship of `owner`.
    pub fn add(&mut self, owner: OwnedBy)
        requires
            old(self)@.len() < usize::MAX,
        ensures
            final(self)@ == old(self)@.insert(owner),
    {
        broadcast use group_multiset_axioms;

        let mut taken = OwnerCounts { entries: Vec::new() };
        core::mem::swap(self, &mut taken);
        proof {
            use_type_invariant(&taken);
            lemma_tally_len_bounds(taken.entries@);
        }
        let mut entries = taken.entries;
        let ghost before = entries@;
        let mut found = false;
        let mut i: usize = 0;
        while i < entries.len() && !found
            invariant
                i <= entries.len(),
                !found ==> entries@ == before,
                !found ==> forall|k: int| 0 <= k < i ==> (#[trigger] before[k]).0 != owner,
                found ==> 0 < i <= before.len() && before[i - 1].0 == owner && entries@
                    == before.update(i - 1, (owner, (before[i - 1].1 + 1) as usize)),
                forall|k: int| 0 <= k < before.len() ==> (#[trigger] before[k]).1 < usize::MAX,
            decreases entries.len() - i,
        {
            if entries[i].0 == owner {
                let n = entries[i].1;
                entries.set(i, (owner, n + 1));
                found = true;
            }
            i += 1;
        }
        if !found {
            entries.push((owner, 1));
        }
        proof {
            let after = entries@;
            if found {
                let at = i - 1;
                assert forall|o: OwnedBy|
                    tally(after).count(o) == #[trigger] tally(before).insert(owner).count(o) by {
                    lemma_counts_after_set(before, after, at, o);
                }
            } else {
                assert(after.drop_last() == before);
                assert(copies(owner, 1) == Multiset::<OwnedBy>::empty().insert(owner)) by {
                    reveal_with_fuel(copies, 2);
                }
            }
            assert(tally(after) =~= tally(before).insert(owner));
        }
        *self = OwnerCounts { entries };
    }

    /// The number of owners that have ships here.
    pub fn len(&self) -> (n: usize)
        ensures
            n == self@.dom().len(),
    {
        proof {
            use_type_invariant(self);
            lemma_tally_dom(self.entries@);
        }
        self.entries.len()
    }

    /// The number of ships counted, whoever owns them.
    pub fn total(&self) -> (n: usize)
        ensures
            n == self@.len(),
    {
        broadcast use group_multiset_axioms;

        proof {
            use_type_invariant(self);
        }
        let mut sum: usize = 0;
        let mut i: usize = 0;
        while i < self.entries.len()
            invariant
                i <= self.entries.len(),
                tidy(self.entries@),
                tally(self.entries@).len() <= usize::MAX,
                sum == tally(self.entries@.take(i as int)).len(),
            decreases self.entries.len() - i,
        {
            proof {
                let upto = self.entries@.take(i + 1);
                assert(upto.drop_last() == self.entries@.take(i as int));
                lemma_copies(upto.last().0, upto.last().1 as nat);
                lemma_tally_prefix_len(self.entries@, i + 1);
            }
            sum = sum + self.entries[i].1;
            i += 1;
        }
        proof {
            assert(self.entries@.take(i as int) == self.entries@);
        }
        sum
    }

    /// The owner who alone has ships here, if there is one.
    pub fn sole_owner(&self) -> (owner: Option<OwnedBy>)
        ensures
            owner == sole_owner(self@),
    {
        broadcast use group_multiset_axioms;

        proof {
            use_type_invariant(self);
        }
        if self.entries.len() == 1 {
            let only = self.entries[0].0;
            proof {
                lemma_copies(only, self.entries@[0].1 as nat);
                assert(tally(self.entries@.drop_last()) == Multiset::<OwnedBy>::empty());
                assert(is_sole(self@, only));
            }
            Some(only)
        } else {
            proof {
                if self.entries.len() > 0 {
                    lemma_tally_entry(self.entries@, 0);
                    lemma_empty_sole_or_contested(self@);
                }
            }
            None
        }
    }

    /// Whether ships of several owners are here: the body is under attack.
    pub fn is_contested(&self) -> (b: bool)
        ensures
            b == contested(self@),
    {
        broadcast use group_multiset_axioms;

        proof {
            use_type_invariant(self);
            lemma_empty_sole_or_contested(self@);
        }
        if self.entries.len() > 1 {
            proof {
                lemma_tally_entry(self.entries@, 0);
            }
            true
        } else {
            proof {
                if self.entries.len() == 1 {
                    let only = self.entries@[0].0;
                    lemma_copies(only, self.entries@[0].1 as nat);
                    assert(tally(self.entries@.drop_last()) == Multiset::<OwnedBy>::empty());
                }
            }
            false
        }
    }

    /// The owners that have ships here, each once, with the number of its
    /// ships.
    pub fn to_vec(&self) -> (list: Vec<(OwnedBy, usize)>)
        ensures
            forall|i: int| 0 <= i < list.len() ==> (#[trigger] list[i]).1 == self@.count(list[i].0),
            forall|i: int| 0 <= i < list.len() ==> (#[trigger] list[i]).1 > 0,
            forall|i: int, j: int|
                0 <= i < j < list.len() ==> (#[trigger] list[i]).0 != (#[trigger] list[j]).0,
            list.len() == self@.dom().len(),
    {
        proof {
            use_type_invariant(self);
            lemma_tally_dom(self.entries@);
        }
        let mut list: Vec<(OwnedBy, usize)> = Vec::new();
        let mut i: usize = 0;
        while i < self.entries.len()
            invariant
                i <= self.entries.len(),
                list@ == self.entries@.take(i as int),
            decreases self.entries.len() - i,
        {
            list.push(self.entries[i]);
            i += 1;
        }
        proof {
            assert forall|k: int| 0 <= k < list.len() implies (#[trigger] list[k]).1
                == self@.count(list[k].0) by {
                lemma_tally_entry(self.entries@, k);
            }
        }
        list
    }
}

proof fn lemma_counts_after_set(
    before: Seq<(OwnedBy, usize)>,
    after: Seq<(OwnedBy, usize)>,
    i: int,
    o: OwnedBy,
)
    requires
        tidy(before),
        tidy(after),
        0 <= i < before.len(),
        before[i].1 < usize::MAX,
        after == before.update(i, (before[i].0, (before[i].1 + 1) as usize)),
    ensures
        tally(after).count(o) == tally(before).insert(before[i].0).count(o),
{
    broadcast use group_multiset_axioms;

    let owner = before[i].0;
    if o == owner {
        lemma_tally_entry(before, i);
        lemma_tally_entry(after, i);
    } else {
        if exists|k: int| 0 <= k < before.len() && (#[trigger] before[k]).0 == o {
            let k = choose|k: int| 0 <= k < before.len() && (#[trigger] before[k]).0 == o;
            lemma_tally_entry(before, k);
            lemma_tally_entry(after, k);
        } else {
            lemma_tally_absent(before, o);
            lemma_tally_absent(after, o);
        }
    }
}

proof fn lemma_tally_prefix_len(entries: Seq<(OwnedBy, usize)>, n: int)
    requires
        0 <= n <= entries.len(),
    ensures
        tally(entries.take(n)).len() <= tally(entries).len(),
    decreases entries.len() - n,
{
    broadcast use group_multiset_axioms;

    if n < entries.len() {
        lemma_tally_prefix_len(entries, n + 1);
        assert(entries.take(n + 1).drop_last() == entries.take(n));
    } else {
        assert(entries.take(n) == entries);
    }
}

proof fn lemma_tally_dom(entries: Seq<(OwnedBy, usize)>)
    requires
        tidy(entries),
    ensures
        tally(entries).dom().len() == entries.len(),
    decreases entries.len(),
{
    broadcast use group_multiset_axioms;
    broadcast use vstd::set::group_set_axioms;

    if entries.len() == 0 {
        assert(tally(entries).dom() =~= Set::<OwnedBy>::empty());
    } else {
        let rest = entries.drop_last();
        let last = entries.last();
        lemma_tally_dom(rest);
        lemma_copies(last.0, last.1 as nat);
        lemma_tally_absent(rest, last.0);
        assert(tally(entries).dom() =~= tally(rest).dom().insert(last.0));
    }
}

} // verus!
