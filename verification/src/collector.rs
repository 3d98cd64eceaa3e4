//! Harvesting an incrementally rendered list: each snapshot of the page is
//! merged into a set that keeps the order of first sight, until a stop
//! condition holds or too many snapshots in a row have brought nothing new.

use crate::seqs::{first_index, is_first, lemma_first_found, lemma_first_index};
use crate::text::starts_with;
use indexmap::IndexSet;
use vstd::prelude::*;

verus! {

/// `indexmap::IndexSet`, a hash set that keeps its items in the order of insertion.
#[verifier::external_type_specification]
#[verifier::external_body]
#[verifier::reject_recursive_types(T)]
#[verifier::reject_recursive_types(S)]
pub struct ExIndexSet<T, S>(IndexSet<T, S>);

/// The items of a set of strings, in the order in which the set holds them.
pub uninterp spec fn index_set_items(set: IndexSet<String>) -> Seq<Seq<char>>;

/// `IndexSet::new`: a set without items.
#[verifier::external_body]
fn index_set_new() -> (set: IndexSet<String>)
    ensures
        index_set_items(set) == Seq::<Seq<char>>::empty(),
{
    IndexSet::new()
}

/// `IndexSet::len`: the number of items.
#[verifier::external_body]
fn index_set_len(set: &IndexSet<String>) -> (n: usize)
    ensures
        n == index_set_items(*set).len(),
{
    set.len()
}

/// `IndexSet::insert`: an item that the set already holds leaves it as it was and
/// gives `false`; any other item is added behind the last one and gives `true`.
#[verifier::external_body]
fn index_set_insert(set: &mut IndexSet<String>, value: String) -> (added: bool)
    ensures
        added == !index_set_items(*old(set)).contains(value@),
        index_set_items(*final(set)) == if added {
            index_set_items(*old(set)).push(value@)
        } else {
            index_set_items(*old(set))
        },
{
    set.insert(value)
}

/// `IndexSet::get_index`: the item at a position, `None` from the length on.
#[verifier::external_body]
fn index_set_get(set: &IndexSet<String>, index: usize) -> (item: Option<&String>)
    ensures
        match item {
            Some(s) => index < index_set_items(*set).len() && s@ == index_set_items(*set)[index as int],
            None => index >= index_set_items(*set).len(),
        },
{
    set.get_index(index)
}

/// What comes of `acc` when the items of a snapshot are merged into it in
/// order: an item that is already there is dropped, any other is added at
/// the end.
pub open spec fn merge(acc: Seq<Seq<char>>, items: Seq<Seq<char>>) -> Seq<Seq<char>>
    decreases items.len(),
{
    if items.len() == 0 {
        acc
    } else {
        let merged = merge(acc, items.drop_last());
        if merged.contains(items.last()) {
            merged
        } else {
            merged.push(items.last())
        }
    }
}

/// A merge keeps what was there, in place, and adds nothing twice; what it
/// holds afterwards is what was there together with what the snapshot held.
pub proof fn lemma_merge(acc: Seq<Seq<char>>, items: Seq<Seq<char>>)
    ensures
        acc.is_prefix_of(merge(acc, items)),
        acc.no_duplicates() ==> merge(acc, items).no_duplicates(),
        forall|x: Seq<char>|
            #[trigger] merge(acc, items).contains(x) <==> acc.contains(x) || items.contains(x),
    decreases items.len(),
{
    if items.len() > 0 {
        let rest = items.drop_last();
        let last = items.last();
        lemma_merge(acc, rest);
        let merged = merge(acc, rest);
        assert forall|x: Seq<char>| #[trigger]
            merge(acc, items).contains(x) <==> acc.contains(x) || items.contains(x) by {
            if items.contains(x) {
                let i = choose|i: int| 0 <= i < items.len() && items[i] == x;
                if i < items.len() - 1 {
                    assert(rest[i] == x);
                    assert(rest.contains(x));
                }
            }
            if rest.contains(x) {
                let i = choose|i: int| 0 <= i < rest.len() && rest[i] == x;
                assert(items[i] == x);
            }
            assert(items[items.len() - 1] == last);
            if merged.contains(x) {
                let i = choose|i: int| 0 <= i < merged.len() && merged[i] == x;
                assert(merged.push(last)[i] == x);
            }
            if !merged.contains(last) {
                assert(merged.push(last)[merged.len() as int] == last);
            }
        }
    }
}

/// A snapshot whose items are all there already changes nothing.
pub proof fn lemma_merge_known(acc: Seq<Seq<char>>, items: Seq<Seq<char>>)
    requires
        forall|i: int| 0 <= i < items.len() ==> acc.contains(#[trigger] items[i]),
    ensures
        merge(acc, items) == acc,
    decreases items.len(),
{
    if items.len() > 0 {
        let rest = items.drop_last();
        assert forall|i: int| 0 <= i < rest.len() implies acc.contains(#[trigger] rest[i]) by {
            assert(rest[i] == items[i]);
        }
        lemma_merge_known(acc, rest);
        assert(acc.contains(items[items.len() - 1]));
    }
}

/// Merging the same snapshot a second time changes nothing.
pub proof fn lemma_merge_twice(acc: Seq<Seq<char>>, items: Seq<Seq<char>>)
    ensures
        merge(merge(acc, items), items) == merge(acc, items),
{
    lemma_merge(acc, items);
    assert forall|i: int| 0 <= i < items.len() implies merge(acc, items).contains(
        #[trigger] items[i],
    ) by {
        assert(items.contains(items[i]));
    }
    lemma_merge_known(merge(acc, items), items);
}

/// Merging two snapshots one after the other is merging the one followed by
/// the other.
pub proof fn lemma_merge_in_turn(acc: Seq<Seq<char>>, first: Seq<Seq<char>>, second: Seq<Seq<char>>)
    ensures
        merge(merge(acc, first), second) == merge(acc, first + second),
    decreases second.len(),
{
    if second.len() == 0 {
        assert(first + second == first);
    } else {
        lemma_merge_in_turn(acc, first, second.drop_last());
        assert((first + second).drop_last() == first + second.drop_last());
        assert((first + second).last() == second.last());
    }
}

/// The items equal to `x`.
pub open spec fn equal_to(x: Seq<char>) -> spec_fn(Seq<char>) -> bool {
    |y: Seq<char>| y == x
}

/// The position at which `x` is first seen in `seen`.
pub open spec fn first_seen(seen: Seq<Seq<char>>, x: Seq<char>) -> Option<int> {
    first_index(seen, equal_to(x))
}

/// Whether the items stand in the order in which they are first seen in
/// `seen`, each of them being seen there.
pub open spec fn in_order_of_first_sight(items: Seq<Seq<char>>, seen: Seq<Seq<char>>) -> bool {
    &&& forall|i: int| 0 <= i < items.len() ==> first_seen(seen, #[trigger] items[i]) is Some
    &&& forall|i: int, j: int|
        0 <= i < j < items.len() ==> first_seen(seen, #[trigger] items[i]).unwrap() < first_seen(
            seen,
            #[trigger] items[j],
        ).unwrap()
}

/// What is first seen at a position of a text is first seen there in every
/// longer text.
proof fn lemma_first_seen_extends(seen: Seq<Seq<char>>, more: Seq<Seq<char>>, x: Seq<char>)
    requires
        first_seen(seen, x) is Some,
    ensures
        first_seen(seen + more, x) == first_seen(seen, x),
{
    lemma_first_index(seen, equal_to(x));
    let k = first_seen(seen, x).unwrap();
    assert(is_first(seen + more, equal_to(x), k)) by {
        assert((seen + more)[k] == seen[k]);
        assert forall|j: int| 0 <= j < k implies !equal_to(x)(#[trigger] (seen + more)[j]) by {
            assert((seen + more)[j] == seen[j]);
        }
    }
    lemma_first_found(seen + more, equal_to(x), k);
}

/// The items of a merge stand in the order of first sight: of two of them,
/// the one that stands first is the one that comes first in what was there
/// followed by the snapshot.
pub proof fn lemma_merge_first_seen_order(acc: Seq<Seq<char>>, items: Seq<Seq<char>>)
    requires
        acc.no_duplicates(),
    ensures
        in_order_of_first_sight(merge(acc, items), acc + items),
    decreases items.len(),
{
    let seen = acc + items;
    let merged = merge(acc, items);
    if items.len() == 0 {
        assert(seen == acc);
        assert forall|i: int| 0 <= i < acc.len() implies first_seen(acc, #[trigger] acc[i]) == Some(
            i,
        ) by {
            assert(is_first(acc, equal_to(acc[i]), i));
            lemma_first_found(acc, equal_to(acc[i]), i);
        }
    } else {
        let rest = items.drop_last();
        let last = items.last();
        let before = merge(acc, rest);
        lemma_merge_first_seen_order(acc, rest);
        lemma_merge(acc, rest);
        assert(seen == (acc + rest) + seq![last]);
        assert forall|i: int| 0 <= i < before.len() implies first_seen(seen, #[trigger] before[i])
            == first_seen(acc + rest, before[i]) by {
            lemma_first_seen_extends(acc + rest, seq![last], before[i]);
        }
        if !before.contains(last) {
            let at = (acc + rest).len() as int;
            assert(is_first(seen, equal_to(last), at)) by {
                assert(seen[at] == last);
                assert forall|j: int| 0 <= j < at implies !equal_to(last)(#[trigger] seen[j]) by {
                    assert(seen[j] == (acc + rest)[j]);
                    if j < acc.len() {
                        assert(acc.contains(seen[j]));
                    } else {
                        assert(rest[j - acc.len()] == seen[j]);
                        assert(rest.contains(seen[j]));
                    }
                }
            }
            lemma_first_found(seen, equal_to(last), at);
            assert forall|i: int| 0 <= i < before.len() implies first_seen(
                seen,
                #[trigger] before[i],
            ).unwrap() < at by {
                lemma_first_index(acc + rest, equal_to(before[i]));
            }
            assert forall|i: int| 0 <= i < merged.len() implies first_seen(
                seen,
                #[trigger] merged[i],
            ) is Some by {
                if i < before.len() {
                    assert(merged[i] == before[i]);
                }
            }
            assert forall|i: int, j: int| 0 <= i < j < merged.len() implies first_seen(
                seen,
                #[trigger] merged[i],
            ).unwrap() < first_seen(seen, #[trigger] merged[j]).unwrap() by {
                assert(merged[i] == before[i]);
                if j < before.len() {
                    assert(merged[j] == before[j]);
                }
            }
        }
    }
}

/// A set of strings in the order of first sight.
#[derive(Debug, PartialEq, Eq)]
pub struct CollectedSet {
    items: IndexSet<String>,
}

impl View for CollectedSet {
    type V = Seq<Seq<char>>;

    closed spec fn view(&self) -> Seq<Seq<char>> {
        index_set_items(self.items)
    }
}

impl CollectedSet {
    /// No item occurs twice.
    pub open spec fn wf(&self) -> bool {
        self@.no_duplicates()
    }

    /// A set without items.
    pub fn new() -> (set: CollectedSet)
        ensures
            set@.len() == 0,
            set.wf(),
    {
        CollectedSet { items: index_set_new() }
    }

    /// The number of items.
    pub fn len(&self) -> (n: usize)
        ensures
            n == self@.len(),
    {
        index_set_len(&self.items)
    }

    /// The item at position `index`, `None` from the length on.
    pub fn get_index(&self, index: usize) -> (item: Option<&str>)
        ensures
            match item {
                Some(s) => index < self@.len() && s@ == self@[index as int],
                None => index >= self@.len(),
            },
    {
        match index_set_get(&self.items, index) {
            Some(s) => Some(s.as_str()),
            None => None,
        }
    }

    /// The item seen last, `None` in an empty set.
    pub fn last(&self) -> (item: Option<&str>)
        ensures
            match item {
                Some(s) => self@.len() > 0 && s@ == self@.last(),
                None => self@.len() == 0,
            },
    {
        let n = self.len();
        if n == 0 {
            None
        } else {
            self.get_index(n - 1)
        }
    }

    /// Adds an item at the end unless the set holds it already, and says
    /// whether it was added.
    pub fn insert(&mut self, value: String) -> (added: bool)
        requires
            old(self).wf(),
        ensures
            added == !old(self)@.contains(value@),
            final(self)@ == merge(old(self)@, seq![value@]),
            final(self).wf(),
    {
        proof {
            assert(seq![value@].drop_last() == Seq::<Seq<char>>::empty());
            assert(merge(self@, Seq::<Seq<char>>::empty()) == self@);
            lemma_merge(self@, seq![value@]);
        }
        index_set_insert(&mut self.items, value)
    }

    /// Merges the items of a snapshot into the set, and says how many were new.
    pub fn extend(&mut self, items: &Vec<String>) -> (added: usize)
        requires
            old(self).wf(),
        ensures
            final(self)@ == merge(old(self)@, items.deep_view()),
            old(self)@.is_prefix_of(final(self)@),
            added == final(self)@.len() - old(self)@.len(),
            final(self).wf(),
    {
        let ghost all = items.deep_view();
        let before = self.len();
        let mut i: usize = 0;
        while i < items.len()
            invariant
                i <= items.len(),
                all == items.deep_view(),
                self.wf(),
                self@ == merge(old(self)@, all.take(i as int)),
            decreases items.len() - i,
        {
            let item = items[i].clone();
            proof {
                assert(all.take(i + 1).drop_last() == all.take(i as int));
                assert(all.take(i + 1).last() == item@);
                lemma_merge(old(self)@, all.take(i + 1));
            }
            index_set_insert(&mut self.items, item);
            i += 1;
        }
        proof {
            assert(all.take(items.len() as int) == all);
            lemma_merge(old(self)@, all);
        }
        let after = self.len();
        after - before
    }

    /// The items as a vector, in the order of first sight.
    pub fn to_vec(&self) -> (items: Vec<String>)
        ensures
            items.deep_view() == self@,
    {
        let mut items: Vec<String> = Vec::new();
        let n = self.len();
        let mut i: usize = 0;
        while i < n
            invariant
                i <= n,
                n == self@.len(),
                items.deep_view() == self@.take(i as int),
            decreases n - i,
        {
            let ghost prev = items.deep_view();
            match index_set_get(&self.items, i) {
                Some(s) => {
                    items.push(s.clone());
                    assert(items.deep_view() == prev.push(s@));
                },
                None => {},
            }
            assert(self@.take(i + 1) == self@.take(i as int).push(self@[i as int]));
            i += 1;
        }
        assert(self@.take(n as int) == self@);
        items
    }
}

/// When a harvest has enough.
#[derive(Debug, Clone, PartialEq, Eq)]
pub enum StopCondition {
    /// Never: only the retry budget ends the harvest.
    Never,
    /// With at least `min_items` items, the one seen last starting with `prefix`.
    EnoughEndingWith { min_items: usize, prefix: String },
}

/// The content of a [`StopCondition`].
pub enum StopView {
    Never,
    EnoughEndingWith { min_items: usize, prefix: Seq<char> },
}

impl View for StopCondition {
    type V = StopView;

    open spec fn view(&self) -> StopView {
        match self {
            StopCondition::Never => StopView::Never,
            StopCondition::EnoughEndingWith { min_items, prefix } => StopView::EnoughEndingWith {
                min_items: *min_items,
                prefix: prefix@,
            },
        }
    }
}

/// Whether the items gathered so far meet the stop condition. An empty
/// harvest has no last item to test, and passes for that part.
pub open spec fn stop_met(stop: StopView, items: Seq<Seq<char>>) -> bool {
    match stop {
        StopView::Never => false,
        StopView::EnoughEndingWith { min_items, prefix } => items.len() >= min_items && (items.len()
            == 0 || prefix.is_prefix_of(items.last())),
    }
}

/// What a harvest asks for next.
#[derive(Debug, Clone, Copy, PartialEq, Eq, Structural)]
pub enum CollectAction {
    /// Scroll on, wait `wait_secs` seconds, and hand in the items of the
    /// page as it then is.
    Scroll { wait_secs: usize },
    /// Nothing more: the harvest is over.
    Done,
}

/// The state of a harvest: the items gathered, the number of snapshots in a
/// row that brought nothing new, and the settings.
pub struct CollectorView {
    pub items: Seq<Seq<char>>,
    pub retries: nat,
    pub max_retries: nat,
    pub retry_delay: nat,
    pub stop: StopView,
}

impl CollectorView {
    /// A harvest before its first snapshot.
    pub open spec fn start(stop: StopView, max_retries: nat, retry_delay: nat) -> CollectorView {
        CollectorView { items: Seq::empty(), retries: 0, max_retries, retry_delay, stop }
    }

    /// The harvest is over once the stop condition is met or the retry budget
    /// is used up.
    pub open spec fn finished(self) -> bool {
        stop_met(self.stop, self.items) || self.retries >= self.max_retries
    }

    /// The seconds to wait before the next snapshot: the delay, once more for
    /// every snapshot in a row that brought nothing new.
    pub open spec fn wait_secs(self) -> nat {
        self.retry_delay * (self.retries + 1)
    }

    /// What the harvest asks for next.
    pub open spec fn action(self) -> CollectAction {
        if self.finished() {
            CollectAction::Done
        } else {
            CollectAction::Scroll { wait_secs: self.wait_secs() as usize }
        }
    }

    /// The harvest after a snapshot: its items are merged in, and the retry
    /// count goes up by one where none was new and back to zero where one
    /// was. A harvest that is over takes nothing in.
    pub open spec fn absorb(self, snapshot: Seq<Seq<char>>) -> CollectorView {
        if self.finished() {
            self
        } else {
            let items = merge(self.items, snapshot);
            CollectorView {
                items,
                retries: if items.len() == self.items.len() {
                    self.retries + 1
                } else {
                    0
                },
                ..self
            }
        }
    }

    /// The harvest after the snapshots, taken in order for as long as it is
    /// not over.
    pub open spec fn run(self, snapshots: Seq<Seq<Seq<char>>>) -> CollectorView
        decreases snapshots.len(),
    {
        if snapshots.len() == 0 {
            self
        } else {
            self.absorb(snapshots[0]).run(snapshots.skip(1))
        }
    }
}

/// A harvest in progress.
#[derive(Debug, PartialEq, Eq)]
pub struct Collector {
    set: CollectedSet,
    retries: usize,
    max_retries: usize,
    retry_delay: usize,
    stop: StopCondition,
}

impl View for Collector {
    type V = CollectorView;

    closed spec fn view(&self) -> CollectorView {
        CollectorView {
            items: self.set@,
            retries: self.retries as nat,
            max_retries: self.max_retries as nat,
            retry_delay: self.retry_delay as nat,
            stop: self.stop@,
        }
    }
}

impl Collector {
    /// No item occurs twice, the retry count is within the budget, and the
    /// longest wait fits the machine's integers.
    pub open spec fn wf(&self) -> bool {
        &&& self@.items.no_duplicates()
        &&& self@.retries <= self@.max_retries
        &&& self@.retry_delay * self@.max_retries <= usize::MAX
    }

    /// A harvest before its first snapshot.
    pub fn new(stop: StopCondition, max_retries: usize, retry_delay: usize) -> (c: Collector)
        requires
            retry_delay * max_retries <= usize::MAX,
        ensures
            c@ == CollectorView::start(stop@, max_retries as nat, retry_delay as nat),
            c.wf(),
    {
        let c = Collector { set: CollectedSet::new(), retries: 0, max_retries, retry_delay, stop };
        assert(c@.items == Seq::<Seq<char>>::empty());
        c
    }

    /// Whether the items gathered so far meet the stop condition.
    fn stop_reached(&self) -> (met: bool)
        ensures
            met == stop_met(self@.stop, self@.items),
    {
        match &self.stop {
            StopCondition::Never => false,
            StopCondition::EnoughEndingWith { min_items, prefix } => {
                if self.set.len() < *min_items {
                    false
                } else {
                    match self.set.last() {
                        Some(last) => starts_with(last, prefix.as_str()),
                        None => true,
                    }
                }
            },
        }
    }

    /// What the harvest asks for next.
    pub fn action(&self) -> (action: CollectAction)
        requires
            self.wf(),
        ensures
            action == self@.action(),
    {
        if self.stop_reached() || self.retries >= self.max_retries {
            CollectAction::Done
        } else {
            assert(self.retry_delay * (self.retries + 1) <= self.retry_delay * self.max_retries)
                by (nonlinear_arith)
                requires
                    self.retries + 1 <= self.max_retries,
            ;
            CollectAction::Scroll { wait_secs: self.retry_delay * (self.retries + 1) }
        }
    }

    /// Takes a snapshot's items in, and says what the harvest asks for next.
    pub fn absorb(&mut self, snapshot: &Vec<String>) -> (action: CollectAction)
        requires
            old(self).wf(),
        ensures
            final(self)@ == old(self)@.absorb(snapshot.deep_view()),
            old(self)@.items.is_prefix_of(final(self)@.items),
            action == final(self)@.action(),
            final(self).wf(),
    {
        if !(self.stop_reached() || self.retries >= self.max_retries) {
            let added = self.set.extend(snapshot);
            if added == 0 {
                self.retries = self.retries + 1;
            } else {
                self.retries = 0;
            }
        }
        self.action()
    }

    /// The number of snapshots in a row that brought nothing new.
    pub fn retries(&self) -> (n: usize)
        ensures
            n == self@.retries,
    {
        self.retries
    }

    /// The items gathered so far, in the order of first sight.
    pub fn items(&self) -> (items: Vec<String>)
        ensures
            items.deep_view() == self@.items,
    {
        self.set.to_vec()
    }
}

/// Runs a harvest over snapshots that are at hand, in order and for as long
/// as the harvest is not over, and gives the items gathered.
pub fn collect_snapshots(
    stop: StopCondition,
    max_retries: usize,
    retry_delay: usize,
    snapshots: &Vec<Vec<String>>,
) -> (items: Vec<String>)
    requires
        retry_delay * max_retries <= usize::MAX,
    ensures
        items.deep_view() == CollectorView::start(
            stop@,
            max_retries as nat,
            retry_delay as nat,
        ).run(snapshots.deep_view()).items,
{
    let ghost start = CollectorView::start(stop@, max_retries as nat, retry_delay as nat);
    let ghost all = snapshots.deep_view();
    let mut collector = Collector::new(stop, max_retries, retry_delay);
    let mut i: usize = 0;
    assert(all.skip(0) == all);
    while i < snapshots.len()
        invariant
            i <= snapshots.len(),
            all == snapshots.deep_view(),
            collector.wf(),
            start.run(all) == collector@.run(all.skip(i as int)),
        decreases snapshots.len() - i,
    {
        proof {
            assert(all.skip(i as int)[0] == snapshots[i as int].deep_view());
            assert(all.skip(i as int).skip(1) == all.skip(i + 1));
        }
        collector.absorb(&snapshots[i]);
        i += 1;
    }
    collector.items()
}

/// A harvest whose snapshots all bring the same items, none of them new,
/// counts its retries up to the budget and keeps its items.
proof fn lemma_static_tail(c: CollectorView, fixed: Seq<Seq<char>>, snapshots: Seq<Seq<Seq<char>>>)
    requires
        !stop_met(c.stop, c.items),
        c.retries <= c.max_retries,
        merge(c.items, fixed) == c.items,
        forall|i: int| 0 <= i < snapshots.len() ==> #[trigger] snapshots[i] == fixed,
        snapshots.len() >= c.max_retries - c.retries,
    ensures
        c.run(snapshots) == (CollectorView { retries: c.max_retries, ..c }),
    decreases snapshots.len(),
{
    if snapshots.len() > 0 {
        let next = c.absorb(snapshots[0]);
        assert(snapshots[0] == fixed);
        assert forall|i: int| 0 <= i < snapshots.skip(1).len() implies #[trigger] snapshots.skip(
            1,
        )[i] == fixed by {
            assert(snapshots.skip(1)[i] == snapshots[i + 1]);
        }
        lemma_static_tail(next, fixed, snapshots.skip(1));
    }
}

/// On a page that never changes, a harvest ends by using up its retry budget
/// with exactly the items of the page, each once and in the order of first
/// sight. This needs a budget of at least one retry, as many snapshots as
/// the budget and one more, and a stop condition that the items do not meet.
pub proof fn lemma_static_source_converges(
    stop: StopView,
    max_retries: nat,
    retry_delay: nat,
    fixed: Seq<Seq<char>>,
    snapshots: Seq<Seq<Seq<char>>>,
)
    requires
        max_retries > 0,
        forall|i: int| 0 <= i < snapshots.len() ==> #[trigger] snapshots[i] == fixed,
        snapshots.len() > max_retries,
        !stop_met(stop, Seq::empty()),
        !stop_met(stop, merge(Seq::empty(), fixed)),
    ensures
        ({
            let end = CollectorView::start(stop, max_retries, retry_delay).run(snapshots);
            &&& end.finished()
            &&& end.retries == max_retries
            &&& end.items == merge(Seq::empty(), fixed)
            &&& end.items.no_duplicates()
            &&& forall|x: Seq<char>| #[trigger] end.items.contains(x) <==> fixed.contains(x)
        }),
{
    let start = CollectorView::start(stop, max_retries, retry_delay);
    let first = start.absorb(snapshots[0]);
    let gathered = merge(Seq::empty(), fixed);
    assert(snapshots[0] == fixed);
    assert(first.items == gathered);
    lemma_merge(Seq::empty(), fixed);
    lemma_merge_twice(Seq::empty(), fixed);
    assert forall|i: int| 0 <= i < snapshots.skip(1).len() implies #[trigger] snapshots.skip(
        1,
    )[i] == fixed by {
        assert(snapshots.skip(1)[i] == snapshots[i + 1]);
    }
    lemma_static_tail(first, fixed, snapshots.skip(1));
    let end = start.run(snapshots);
    assert(end == first.run(snapshots.skip(1)));
    assert(Seq::<Seq<char>>::empty().no_duplicates());
    assert forall|x: Seq<char>| #[trigger] end.items.contains(x) <==> fixed.contains(x) by {
        assert(!Seq::<Seq<char>>::empty().contains(x));
    }
}

} // verus!
