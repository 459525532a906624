//! Frequency tables: how often each label was seen, and the ranked list drawn from them.
//!
//! A table is modelled as a sequence of `(label, count)` entries in the order in which the
//! labels were first seen. No label occurs twice and every count is at least one.

use crate::text::same_text;
use vstd::multiset::Multiset;
use vstd::prelude::*;
use vstd::string::*;

verus! {

/// No label occurs twice, and every count is positive.
pub open spec fn well_formed(entries: Seq<(Seq<char>, int)>) -> bool {
    &&& forall|i: int| 0 <= i < entries.len() ==> (#[trigger] entries[i]).1 >= 1
    &&& forall|i: int, j: int|
        0 <= i < entries.len() && 0 <= j < entries.len() && i != j ==> (#[trigger] entries[i]).0
            != (#[trigger] entries[j]).0
}

/// Whether some entry carries `label`.
pub open spec fn has_label(entries: Seq<(Seq<char>, int)>, label: Seq<char>) -> bool {
    exists|i: int| 0 <= i < entries.len() && (#[trigger] entries[i]).0 == label
}

/// An index at which `label` stands; in a well-formed table there is at most one.
pub open spec fn position_of(entries: Seq<(Seq<char>, int)>, label: Seq<char>) -> int {
    choose|i: int| 0 <= i < entries.len() && (#[trigger] entries[i]).0 == label
}

/// How often `label` was counted; zero for a label that the table does not hold.
pub open spec fn count_of(entries: Seq<(Seq<char>, int)>, label: Seq<char>) -> int {
    if has_label(entries, label) {
        entries[position_of(entries, label)].1
    } else {
        0
    }
}

/// The sum of all counts.
pub open spec fn total(entries: Seq<(Seq<char>, int)>) -> int
    decreases entries.len(),
{
    if entries.len() == 0 {
        0
    } else {
        total(entries.drop_last()) + entries.last().1
    }
}

/// The table after one more sighting of `label`: its count grows by one, or it joins the
/// end of the table with count one.
pub open spec fn bump(entries: Seq<(Seq<char>, int)>, label: Seq<char>) -> Seq<(Seq<char>, int)> {
    if has_label(entries, label) {
        let p = position_of(entries, label);
        entries.update(p, (label, entries[p].1 + 1))
    } else {
        entries.push((label, 1))
    }
}

/// The table that results from counting `labels` one after the other, starting empty.
pub open spec fn tally(labels: Seq<Seq<char>>) -> Seq<(Seq<char>, int)>
    decreases labels.len(),
{
    if labels.len() == 0 {
        Seq::empty()
    } else {
        bump(tally(labels.drop_last()), labels.last())
    }
}

/// Counts never grow from one entry to the next.
pub open spec fn descending(entries: Seq<(Seq<char>, int)>) -> bool {
    forall|i: int, j: int|
        0 <= i < j < entries.len() ==> (#[trigger] entries[i]).1 >= (#[trigger] entries[j]).1
}

/// Where an entry with `count` goes in a descending list: behind every entry whose count
/// is at least `count`, before the first whose count is smaller.
pub open spec fn rank_position(sorted: Seq<(Seq<char>, int)>, count: int) -> int
    decreases sorted.len(),
{
    if sorted.len() == 0 || sorted[0].1 < count {
        0
    } else {
        1 + rank_position(sorted.drop_first(), count)
    }
}

/// The entries ordered by count, highest first; entries with equal counts keep the order
/// in which the table holds them.
pub open spec fn ranked(entries: Seq<(Seq<char>, int)>) -> Seq<(Seq<char>, int)>
    decreases entries.len(),
{
    if entries.len() == 0 {
        Seq::empty()
    } else {
        let rest = ranked(entries.drop_last());
        rest.insert(rank_position(rest, entries.last().1), entries.last())
    }
}

/// The model of a vector of `(label, count)` pairs.
pub open spec fn entries_view(v: Seq<(String, u64)>) -> Seq<(Seq<char>, int)> {
    v.map_values(|e: (String, u64)| (e.0@, e.1 as int))
}

/// In a well-formed table a label stands at one index only.
pub proof fn lemma_position_unique(entries: Seq<(Seq<char>, int)>, label: Seq<char>, i: int)
    requires
        well_formed(entries),
        0 <= i < entries.len(),
        entries[i].0 == label,
    ensures
        has_label(entries, label),
        position_of(entries, label) == i,
        count_of(entries, label) == entries[i].1,
{
    let p = position_of(entries, label);
    assert(0 <= p < entries.len() && entries[p].0 == label);
    if p != i {
        assert(entries[p].0 != entries[i].0);
    }
}

/// One more sighting keeps the table well formed.
pub proof fn lemma_bump_well_formed(entries: Seq<(Seq<char>, int)>, label: Seq<char>)
    requires
        well_formed(entries),
    ensures
        well_formed(bump(entries, label)),
        has_label(bump(entries, label), label),
{
    let after = bump(entries, label);
    if has_label(entries, label) {
        let p = position_of(entries, label);
        assert(0 <= p < entries.len() && entries[p].0 == label);
        assert forall|i: int, j: int|
            0 <= i < after.len() && 0 <= j < after.len() && i != j implies (#[trigger] after[i]).0
            != (#[trigger] after[j]).0 by {
            assert(after[i].0 == entries[i].0);
            assert(after[j].0 == entries[j].0);
        }
        assert(after[p].0 == label);
    } else {
        assert forall|i: int, j: int|
            0 <= i < after.len() && 0 <= j < after.len() && i != j implies (#[trigger] after[i]).0
            != (#[trigger] after[j]).0 by {
            if i < entries.len() {
                assert(after[i] == entries[i]);
            }
            if j < entries.len() {
                assert(after[j] == entries[j]);
            }
        }
        assert(after[entries.len() as int].0 == label);
    }
}

/// One more sighting of `label` raises its count by one and leaves every other count alone.
pub proof fn lemma_bump_count(
    entries: Seq<(Seq<char>, int)>,
    label: Seq<char>,
    other: Seq<char>,
)
    requires
        well_formed(entries),
    ensures
        count_of(bump(entries, label), other) == count_of(entries, other) + if other == label {
            1int
        } else {
            0int
        },
{
    let after = bump(entries, label);
    lemma_bump_well_formed(entries, label);
    if has_label(entries, label) {
        let p = position_of(entries, label);
        assert(0 <= p < entries.len() && entries[p].0 == label);
        if other == label {
            lemma_position_unique(after, label, p);
        } else if has_label(entries, other) {
            let q = position_of(entries, other);
            assert(0 <= q < entries.len() && entries[q].0 == other);
            assert(after[q] == entries[q]);
            lemma_position_unique(after, other, q);
        } else {
            if has_label(after, other) {
                let q = position_of(after, other);
                assert(0 <= q < after.len() && after[q].0 == other);
                assert(entries[q].0 == other);
            }
        }
    } else {
        let n = entries.len() as int;
        if other == label {
            lemma_position_unique(after, label, n);
        } else if has_label(entries, other) {
            let q = position_of(entries, other);
            assert(0 <= q < entries.len() && entries[q].0 == other);
            assert(after[q] == entries[q]);
            lemma_position_unique(after, other, q);
        } else {
            if has_label(after, other) {
                let q = position_of(after, other);
                assert(0 <= q < after.len() && after[q].0 == other);
                if q < n {
                    assert(entries[q].0 == other);
                }
            }
        }
    }
}

/// Replacing one entry changes the total by the difference of the counts.
pub proof fn lemma_total_update(entries: Seq<(Seq<char>, int)>, p: int, e: (Seq<char>, int))
    requires
        0 <= p < entries.len(),
    ensures
        total(entries.update(p, e)) == total(entries) - entries[p].1 + e.1,
    decreases entries.len(),
{
    let after = entries.update(p, e);
    if p == entries.len() - 1 {
        assert(after.drop_last() == entries.drop_last());
    } else {
        assert(after.drop_last() == entries.drop_last().update(p, e));
        lemma_total_update(entries.drop_last(), p, e);
    }
}

/// One more sighting raises the total by one.
pub proof fn lemma_bump_total(entries: Seq<(Seq<char>, int)>, label: Seq<char>)
    ensures
        total(bump(entries, label)) == total(entries) + 1,
{
    if has_label(entries, label) {
        let p = position_of(entries, label);
        assert(0 <= p < entries.len() && entries[p].0 == label);
        lemma_total_update(entries, p, (label, entries[p].1 + 1));
    } else {
        assert(entries.push((label, 1)).drop_last() == entries);
    }
}

/// No single count exceeds the total.
pub proof fn lemma_count_at_most_total(entries: Seq<(Seq<char>, int)>, label: Seq<char>)
    requires
        well_formed(entries),
    ensures
        0 <= count_of(entries, label) <= total(entries),
    decreases entries.len(),
{
    lemma_total_bounds(entries);
    if has_label(entries, label) {
        let p = position_of(entries, label);
        assert(0 <= p < entries.len() && entries[p].0 == label);
        lemma_entry_at_most_total(entries, p);
    }
}

/// The total of a well-formed table is at least the number of its entries.
pub proof fn lemma_total_bounds(entries: Seq<(Seq<char>, int)>)
    requires
        well_formed(entries),
    ensures
        total(entries) >= entries.len(),
    decreases entries.len(),
{
    if entries.len() > 0 {
        let rest = entries.drop_last();
        assert forall|i: int| 0 <= i < rest.len() implies (#[trigger] rest[i]).1 >= 1 by {
            assert(rest[i] == entries[i]);
        }
        assert forall|i: int, j: int|
            0 <= i < rest.len() && 0 <= j < rest.len() && i != j implies (#[trigger] rest[i]).0
            != (#[trigger] rest[j]).0 by {
            assert(rest[i] == entries[i]);
            assert(rest[j] == entries[j]);
        }
        lemma_total_bounds(rest);
        assert(entries.last() == entries[entries.len() - 1]);
    }
}

proof fn lemma_entry_at_most_total(entries: Seq<(Seq<char>, int)>, p: int)
    requires
        well_formed(entries),
        0 <= p < entries.len(),
    ensures
        entries[p].1 <= total(entries),
    decreases entries.len(),
{
    let rest = entries.drop_last();
    assert forall|i: int| 0 <= i < rest.len() implies (#[trigger] rest[i]).1 >= 1 by {
        assert(rest[i] == entries[i]);
    }
    assert forall|i: int, j: int|
        0 <= i < rest.len() && 0 <= j < rest.len() && i != j implies (#[trigger] rest[i]).0
        != (#[trigger] rest[j]).0 by {
        assert(rest[i] == entries[i]);
        assert(rest[j] == entries[j]);
    }
    lemma_total_bounds(rest);
    assert(entries.last() == entries[entries.len() - 1]);
    if p < entries.len() - 1 {
        lemma_entry_at_most_total(rest, p);
        assert(rest[p] == entries[p]);
    }
}

/// Counting one more label is one more sighting in the table of the labels before it.
pub proof fn lemma_tally_push(labels: Seq<Seq<char>>, label: Seq<char>)
    ensures
        tally(labels.push(label)) == bump(tally(labels), label),
{
    assert(labels.push(label).drop_last() == labels);
}

/// Counting a sequence of labels gives a well-formed table whose total is the number of
/// labels counted, and in which each label's count is the number of its occurrences.
pub proof fn lemma_tally(labels: Seq<Seq<char>>)
    ensures
        well_formed(tally(labels)),
        total(tally(labels)) == labels.len(),
        forall|label: Seq<char>| #[trigger]
            count_of(tally(labels), label) == labels.to_multiset().count(label),
    decreases labels.len(),
{
    broadcast use vstd::multiset::group_multiset_axioms;

    if labels.len() == 0 {
        assert(labels.to_multiset() =~= Multiset::<Seq<char>>::empty()) by {
            labels.to_multiset_ensures();
            assert(labels.to_multiset().len() == 0);
        }
    } else {
        let rest = labels.drop_last();
        let last = labels.last();
        lemma_tally(rest);
        lemma_bump_well_formed(tally(rest), last);
        lemma_bump_total(tally(rest), last);
        assert(rest.push(last) == labels);
        vstd::seq_lib::to_multiset_build(rest, last);
        assert forall|label: Seq<char>| #[trigger]
            count_of(tally(labels), label) == labels.to_multiset().count(label) by {
            lemma_bump_count(tally(rest), last, label);
            assert(count_of(tally(rest), label) == rest.to_multiset().count(label));
        }
    }
}

/// What `rank_position` finds: every entry before it counts at least `count`, and the
/// entry at it, if there is one, counts less.
pub proof fn lemma_rank_position(sorted: Seq<(Seq<char>, int)>, count: int)
    ensures
        0 <= rank_position(sorted, count) <= sorted.len(),
        forall|i: int| 0 <= i < rank_position(sorted, count) ==> (#[trigger] sorted[i]).1 >= count,
        rank_position(sorted, count) < sorted.len() ==> sorted[rank_position(sorted, count)].1
            < count,
    decreases sorted.len(),
{
    if sorted.len() > 0 && sorted[0].1 >= count {
        let rest = sorted.drop_first();
        lemma_rank_position(rest, count);
        assert forall|i: int| 0 <= i < rank_position(sorted, count) implies (#[trigger] sorted[i]).1
            >= count by {
            if i > 0 {
                assert(sorted[i] == rest[i - 1]);
            }
        }
        if rank_position(sorted, count) < sorted.len() {
            assert(sorted[rank_position(sorted, count)] == rest[rank_position(rest, count)]);
        }
    }
}

/// The index that `rank_position` finds is the only one with those two properties.
pub proof fn lemma_rank_position_unique(sorted: Seq<(Seq<char>, int)>, count: int, p: int)
    requires
        0 <= p <= sorted.len(),
        forall|i: int| 0 <= i < p ==> (#[trigger] sorted[i]).1 >= count,
        p < sorted.len() ==> sorted[p].1 < count,
    ensures
        rank_position(sorted, count) == p,
{
    lemma_rank_position(sorted, count);
    let r = rank_position(sorted, count);
    if r < p {
        assert(sorted[r].1 >= count);
    } else if p < r {
        assert(sorted[p].1 >= count);
    }
}

/// Ranking rearranges the entries and loses none: the ranked list is descending, as long
/// as the table, and holds the same entries the same number of times.
pub proof fn lemma_ranked(entries: Seq<(Seq<char>, int)>)
    ensures
        descending(ranked(entries)),
        ranked(entries).len() == entries.len(),
        ranked(entries).to_multiset() == entries.to_multiset(),
    decreases entries.len(),
{
    if entries.len() == 0 {
        assert(ranked(entries) == entries);
    } else {
        let init = entries.drop_last();
        let last = entries.last();
        let rest = ranked(init);
        lemma_ranked(init);
        lemma_rank_position(rest, last.1);
        let p = rank_position(rest, last.1);
        let out = rest.insert(p, last);
        rest.insert_ensures(p, last);
        assert forall|i: int, j: int| 0 <= i < j < out.len() implies (#[trigger] out[i]).1 >= (
        #[trigger] out[j]).1 by {
            if j < p {
                assert(out[i] == rest[i] && out[j] == rest[j]);
            } else if j == p {
                assert(out[i] == rest[i]);
            } else if i < p {
                assert(out[i] == rest[i] && out[j] == rest[j - 1]);
            } else if i == p {
                assert(out[j] == rest[j - 1]);
                assert(rest[p].1 >= rest[j - 1].1 || p == j - 1);
            } else {
                assert(out[i] == rest[i - 1] && out[j] == rest[j - 1]);
            }
        }
        vstd::seq_lib::to_multiset_insert(rest, p, last);
        assert(init.push(last) == entries);
        vstd::seq_lib::to_multiset_build(init, last);
    }
}

/// In the ranked list an entry with a higher count stands before every entry with a
/// lower one.
pub proof fn lemma_higher_count_ranks_first(entries: Seq<(Seq<char>, int)>, i: int, j: int)
    requires
        0 <= i < entries.len(),
        0 <= j < entries.len(),
        ranked(entries)[i].1 > ranked(entries)[j].1,
    ensures
        i < j,
{
    lemma_ranked(entries);
    if j < i {
        assert(ranked(entries)[j].1 >= ranked(entries)[i].1);
    }
}

/// Ranking keeps every label with its count: a label of the table stands in the ranked
/// list, with the count that the table gives it, and the ranked list holds nothing else.
pub proof fn lemma_ranked_keeps_counts(entries: Seq<(Seq<char>, int)>, label: Seq<char>)
    requires
        well_formed(entries),
    ensures
        well_formed(ranked(entries)),
        count_of(ranked(entries), label) == count_of(entries, label),
{
    broadcast use vstd::multiset::group_multiset_axioms;

    lemma_ranked(entries);
    let r = ranked(entries);
    assert forall|i: int| 0 <= i < r.len() implies (#[trigger] r[i]).1 >= 1 by {
        vstd::seq_lib::to_multiset_contains(r, r[i]);
        vstd::seq_lib::to_multiset_contains(entries, r[i]);
        assert(r.contains(r[i]));
        assert(entries.contains(r[i]));
    }
    assert forall|i: int, j: int| 0 <= i < r.len() && 0 <= j < r.len() && i != j implies (
    #[trigger] r[i]).0 != (#[trigger] r[j]).0 by {
        if r[i].0 == r[j].0 {
            vstd::seq_lib::to_multiset_contains(r, r[i]);
            vstd::seq_lib::to_multiset_contains(entries, r[i]);
            vstd::seq_lib::to_multiset_contains(r, r[j]);
            vstd::seq_lib::to_multiset_contains(entries, r[j]);
            assert(r.contains(r[i]));
            assert(r.contains(r[j]));
            let a = choose|a: int| 0 <= a < entries.len() && entries[a] == r[i];
            let b = choose|b: int| 0 <= b < entries.len() && entries[b] == r[j];
            assert(entries[a].0 == entries[b].0);
            assert(a == b);
            // the one entry would then stand twice in the ranked list, and once in the table
            lemma_count_one(entries, a);
            lemma_count_two(r, i, j);
        }
    }
    if has_label(entries, label) {
        let p = position_of(entries, label);
        assert(0 <= p < entries.len() && entries[p].0 == label);
        vstd::seq_lib::to_multiset_contains(entries, entries[p]);
        vstd::seq_lib::to_multiset_contains(r, entries[p]);
        assert(entries.contains(entries[p]));
        let q = choose|q: int| 0 <= q < r.len() && r[q] == entries[p];
        lemma_position_unique(r, label, q);
    } else if has_label(r, label) {
        let q = position_of(r, label);
        assert(0 <= q < r.len() && r[q].0 == label);
        vstd::seq_lib::to_multiset_contains(entries, r[q]);
        vstd::seq_lib::to_multiset_contains(r, r[q]);
        assert(r.contains(r[q]));
        let a = choose|a: int| 0 <= a < entries.len() && entries[a] == r[q];
        assert(entries[a].0 == label);
    }
}

proof fn lemma_count_one(entries: Seq<(Seq<char>, int)>, a: int)
    requires
        well_formed(entries),
        0 <= a < entries.len(),
    ensures
        entries.to_multiset().count(entries[a]) == 1,
    decreases entries.len(),
{
    broadcast use vstd::multiset::group_multiset_axioms;

    let init = entries.drop_last();
    let last = entries.last();
    assert(init.push(last) == entries);
    vstd::seq_lib::to_multiset_build(init, last);
    assert forall|i: int| 0 <= i < init.len() implies (#[trigger] init[i]).1 >= 1 by {
        assert(init[i] == entries[i]);
    }
    assert forall|i: int, j: int|
        0 <= i < init.len() && 0 <= j < init.len() && i != j implies (#[trigger] init[i]).0 != (
    #[trigger] init[j]).0 by {
        assert(init[i] == entries[i]);
        assert(init[j] == entries[j]);
    }
    if a == entries.len() - 1 {
        vstd::seq_lib::to_multiset_contains(init, last);
        if init.contains(last) {
            let k = choose|k: int| 0 <= k < init.len() && init[k] == last;
            assert(entries[k].0 == entries[a].0);
        }
    } else {
        lemma_count_one(init, a);
        assert(init[a] == entries[a]);
        assert(entries[a].0 != entries[entries.len() - 1].0);
    }
}

proof fn lemma_count_two(s: Seq<(Seq<char>, int)>, i: int, j: int)
    requires
        0 <= i < s.len(),
        0 <= j < s.len(),
        i != j,
        s[i] == s[j],
    ensures
        s.to_multiset().count(s[i]) >= 2,
    decreases s.len(),
{
    broadcast use vstd::multiset::group_multiset_axioms;

    let init = s.drop_last();
    let last = s.last();
    assert(init.push(last) == s);
    vstd::seq_lib::to_multiset_build(init, last);
    let n = s.len() - 1;
    if i == n {
        vstd::seq_lib::to_multiset_contains(init, last);
        assert(init[j] == last);
        assert(init.contains(last));
    } else if j == n {
        vstd::seq_lib::to_multiset_contains(init, last);
        assert(init[i] == last);
        assert(init.contains(last));
    } else {
        assert(init[i] == s[i] && init[j] == s[j]);
        lemma_count_two(init, i, j);
    }
}

/// A frequency table: labels with the number of times each was counted.
#[derive(Debug)]
pub struct FrequencyTable {
    entries: Vec<(String, u64)>,
}

impl View for FrequencyTable {
    type V = Seq<(Seq<char>, int)>;

    closed spec fn view(&self) -> Seq<(Seq<char>, int)> {
        entries_view(self.entries@)
    }
}

impl FrequencyTable {
    /// What holds of every table: no label twice, every count positive.
    #[verifier::type_invariant]
    pub open spec fn inv(self) -> bool {
        well_formed(self@)
    }

    /// An empty table.
    pub fn new() -> (table: Self)
        ensures
            table@ == Seq::<(Seq<char>, int)>::empty(),
    {
        let table = FrequencyTable { entries: Vec::new() };
        assert(entries_view(table.entries@) =~= Seq::<(Seq<char>, int)>::empty());
        table
    }

    /// The table with the given entries, in their order; none where a label stands twice
    /// or a count is below one.
    pub fn from_vec(entries: Vec<(String, u64)>) -> (table: Option<Self>)
        ensures
            match table {
                Some(made) => well_formed(entries_view(entries@)) && made@ == entries_view(
                    entries@,
                ),
                None => !well_formed(entries_view(entries@)),
            },
    {
        let ghost all = entries_view(entries@);
        let mut i: usize = 0;
        while i < entries.len()
            invariant
                i <= entries.len(),
                all == entries_view(entries@),
                well_formed(all.take(i as int)),
            decreases entries.len() - i,
        {
            if entries[i].1 < 1 {
                assert(!(all[i as int].1 >= 1));
                return None;
            }
            let mut j: usize = 0;
            while j < i
                invariant
                    j <= i,
                    i < entries.len(),
                    all == entries_view(entries@),
                    forall|k: int| 0 <= k < j ==> (#[trigger] all[k]).0 != all[i as int].0,
                decreases i - j,
            {
                if same_text(entries[j].0.as_str(), entries[i].0.as_str()) {
                    assert(all[j as int].0 == all[i as int].0);
                    return None;
                }
                j += 1;
            }
            proof {
                let seen = all.take(i as int);
                let next = all.take(i as int + 1);
                assert forall|a: int, b: int|
                    0 <= a < next.len() && 0 <= b < next.len() && a != b implies (
                #[trigger] next[a]).0 != (#[trigger] next[b]).0 by {
                    if a < i && b < i {
                        assert(seen[a] == next[a] && seen[b] == next[b]);
                    }
                }
                assert forall|a: int| 0 <= a < next.len() implies (#[trigger] next[a]).1 >= 1 by {
                    if a < i {
                        assert(seen[a] == next[a]);
                    }
                }
            }
            i += 1;
        }
        assert(all.take(i as int) == all);
        Some(FrequencyTable { entries })
    }

    /// The number of labels in the table.
    pub fn len(&self) -> (n: usize)
        ensures
            n == self@.len(),
    {
        self.entries.len()
    }

    /// The index at which `key` stands, if the table holds it.
    fn find(&self, key: &str) -> (found: Option<usize>)
        ensures
            well_formed(self@),
            found matches Some(i) ==> i < self@.len() && self@[i as int].0 == key@ && has_label(
                self@,
                key@,
            ) && position_of(self@, key@) == i,
            found is None ==> !has_label(self@, key@),
    {
        proof {
            use_type_invariant(self);
        }
        let mut i: usize = 0;
        while i < self.entries.len()
            invariant
                i <= self.entries.len(),
                well_formed(self@),
                forall|j: int| 0 <= j < i ==> (#[trigger] self@[j]).0 != key@,
            decreases self.entries.len() - i,
        {
            if same_text(self.entries[i].0.as_str(), key) {
                proof {
                    lemma_position_unique(self@, key@, i as int);
                }
                return Some(i);
            }
            i += 1;
        }
        None
    }

    /// The count of `key`, if the table holds it.
    pub fn get(&self, key: &str) -> (found: Option<u64>)
        ensures
            found matches Some(n) ==> has_label(self@, key@) && n == count_of(self@, key@),
            found is None ==> !has_label(self@, key@),
    {
        match self.find(key) {
            Some(i) => Some(self.entries[i].1),
            None => None,
        }
    }

    /// Counts one more sighting of `key`.
    pub fn insert_or_increment(&mut self, key: &str)
        requires
            count_of(old(self)@, key@) < u64::MAX,
        ensures
            final(self)@ == bump(old(self)@, key@),
    {
        let found = self.find(key);
        proof {
            lemma_bump_well_formed(self@, key@);
        }
        // the entries are taken out while they change, so that the table is well formed
        // whenever it is looked at
        let mut entries: Vec<(String, u64)> = Vec::new();
        assert(entries_view(entries@) =~= Seq::<(Seq<char>, int)>::empty());
        core::mem::swap(&mut self.entries, &mut entries);
        match found {
            Some(i) => {
                let entry = &mut entries[i];
                entry.1 = entry.1 + 1;
            },
            None => {
                entries.push((key.to_owned(), 1));
            },
        }
        assert(entries_view(entries@) =~= bump(old(self)@, key@));
        core::mem::swap(&mut self.entries, &mut entries);
    }

    /// The table with its entries ordered by count, highest first.
    pub fn sorted(&self) -> (sorted: Self)
        ensures
            sorted@ == ranked(self@),
    {
        proof {
            use_type_invariant(self);
            lemma_ranked_keeps_counts(self@, Seq::empty());
        }
        FrequencyTable { entries: self.to_vec() }
    }

    /// The entries as `(label, count)` pairs, highest count first.
    pub fn to_vec(&self) -> (out: Vec<(String, u64)>)
        ensures
            entries_view(out@) == ranked(self@),
            descending(entries_view(out@)),
            out@.len() == self@.len(),
            entries_view(out@).to_multiset() == self@.to_multiset(),
    {
        let mut out: Vec<(String, u64)> = Vec::new();
        let mut i: usize = 0;
        assert(self@.take(0) =~= Seq::<(Seq<char>, int)>::empty());
        assert(entries_view(out@) =~= Seq::<(Seq<char>, int)>::empty());
        while i < self.entries.len()
            invariant
                i <= self.entries.len(),
                entries_view(out@) == ranked(self@.take(i as int)),
            decreases self.entries.len() - i,
        {
            let label = self.entries[i].0.clone();
            let count = self.entries[i].1;
            let ghost before = entries_view(out@);
            let mut p: usize = 0;
            proof {
                lemma_ranked(self@.take(i as int));
            }
            while p < out.len() && out[p].1 >= count
                invariant
                    p <= out.len(),
                    forall|k: int| 0 <= k < p ==> (#[trigger] entries_view(out@)[k]).1 >= count,
                decreases out.len() - p,
            {
                p += 1;
            }
            proof {
                lemma_rank_position_unique(before, count as int, p as int);
                assert(self@.take(i as int + 1).drop_last() == self@.take(i as int));
                assert(self@.take(i as int + 1).last() == (label@, count as int));
            }
            out.insert(p, (label, count));
            assert(entries_view(out@) =~= before.insert(p as int, (label@, count as int)));
            i += 1;
        }
        proof {
            assert(self@.take(i as int) == self@);
            lemma_ranked(self@);
        }
        out
    }
}

} // verus!
