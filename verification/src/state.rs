//! The store of processed transactions: a bounded set of record identifiers
//! that drops its oldest entries once it has grown to its high-water mark.

use crate::text::{chars_of, parse_unsigned, parse_unsigned_chars};
use vstd::prelude::*;
use vstd::std_specs::cmp::PartialEqSpecImpl;

verus! {

/// Share of the store, in percent, that one eviction pass may remove.
pub const REMOVE_PERCENTAGE: usize = 20;

/// Largest serialized size of a store, in bytes, unless another is configured.
pub const MAX_VALUE_SIZE_TRANSACTION_STATE: u32 = 2_000_000;

/// Position of the last hyphen of `id`, or -1 where it has none.
pub open spec fn last_dash(id: Seq<char>) -> int
    decreases id.len(),
{
    if id.len() == 0 {
        -1
    } else if id.last() == '-' {
        id.len() - 1
    } else {
        last_dash(id.drop_last())
    }
}

/// The timestamp that an identifier carries: its last hyphen-delimited field,
/// read as a signed 64-bit integer. `None` where the identifier has no hyphen
/// or the field is no such integer.
pub open spec fn timestamp_of(id: Seq<char>) -> Option<int> {
    if last_dash(id) < 0 {
        None
    } else {
        match parse_unsigned(id.skip(last_dash(id) + 1), i64::MAX as nat) {
            Some(t) => Some(t as int),
            None => None,
        }
    }
}

/// Whether entry `j` is ranked before entry `i` for eviction: both carry a
/// timestamp, and `j`'s is smaller, or the same and `j` was inserted first.
pub open spec fn ranked_before(ids: Seq<Seq<char>>, j: int, i: int) -> bool {
    match (timestamp_of(ids[j]), timestamp_of(ids[i])) {
        (Some(tj), Some(ti)) => tj < ti || (tj == ti && j < i),
        _ => false,
    }
}

/// How many of the first `n` entries are ranked before entry `i`.
pub open spec fn rank_among(ids: Seq<Seq<char>>, i: int, n: nat) -> nat
    decreases n,
{
    if n == 0 {
        0
    } else {
        rank_among(ids, i, (n - 1) as nat) + if ranked_before(ids, n - 1, i) {
            1nat
        } else {
            0nat
        }
    }
}

/// How many entries one eviction pass removes from a store of `n` entries, at
/// most: a fifth of them, rounded down.
pub open spec fn remove_count(n: nat) -> nat {
    n * REMOVE_PERCENTAGE as nat / 100
}

/// Whether an eviction pass removes entry `i`: it carries a timestamp and
/// fewer than `remove_count` entries are ranked before it.
pub open spec fn evicted(ids: Seq<Seq<char>>, i: int) -> bool {
    timestamp_of(ids[i]) is Some && rank_among(ids, i, ids.len()) < remove_count(ids.len())
}

/// Those of the first `n` entries that an eviction pass keeps, in their order.
pub open spec fn survivors(ids: Seq<Seq<char>>, n: nat) -> Seq<Seq<char>>
    decreases n,
{
    if n == 0 {
        Seq::empty()
    } else if evicted(ids, n - 1) {
        survivors(ids, (n - 1) as nat)
    } else {
        survivors(ids, (n - 1) as nat).push(ids[n - 1])
    }
}

/// The store after one eviction pass.
pub open spec fn after_eviction(ids: Seq<Seq<char>>) -> Seq<Seq<char>> {
    survivors(ids, ids.len())
}

/// The store after the insertion of `id`: an eviction pass first where the
/// store has reached `mark` entries, then `id` at the end unless it is there.
pub open spec fn after_insert(ids: Seq<Seq<char>>, id: Seq<char>, mark: nat) -> Seq<Seq<char>> {
    let kept = if ids.len() >= mark {
        after_eviction(ids)
    } else {
        ids
    };
    if kept.contains(id) {
        kept
    } else {
        kept.push(id)
    }
}

/// The store after the insertion of each of `new_ids`, in their order.
pub open spec fn after_inserts(ids: Seq<Seq<char>>, new_ids: Seq<Seq<char>>, mark: nat) -> Seq<
    Seq<char>,
>
    decreases new_ids.len(),
{
    if new_ids.len() == 0 {
        ids
    } else {
        after_insert(after_inserts(ids, new_ids.drop_last(), mark), new_ids.last(), mark)
    }
}

/// The identifiers of transactions that were recorded already.
///
/// The store is a set: no identifier is held twice. Its entries are kept in
/// the order of their insertion, which breaks ties between equal timestamps
/// when the store evicts.
#[derive(Debug)]
pub struct TransactionState {
    processed_transactions: Vec<String>,
    max_value_size: u32,
}

impl View for TransactionState {
    type V = Seq<Seq<char>>;

    closed spec fn view(&self) -> Seq<Seq<char>> {
        self.processed_transactions@.map_values(|s: String| s@)
    }
}

impl PartialEq for TransactionState {
    fn eq(&self, other: &TransactionState) -> (equal: bool) {
        proof {
            use_type_invariant(self);
            use_type_invariant(other);
            self@.unique_seq_to_set();
            other@.unique_seq_to_set();
        }
        if self.processed_transactions.len() != other.processed_transactions.len() {
            return false;
        }
        let mut i: usize = 0;
        while i < self.processed_transactions.len()
            invariant
                i <= self.processed_transactions.len(),
                forall|j: int| 0 <= j < i ==> other@.contains(#[trigger] self@[j]),
            decreases self.processed_transactions.len() - i,
        {
            if !other.transaction_exists(self.processed_transactions[i].as_str()) {
                assert(self@.to_set().contains(self@[i as int]));
                return false;
            }
            i = i + 1;
        }
        proof {
            assert(self@.to_set().subset_of(other@.to_set())) by {
                assert forall|id: Seq<char>| self@.to_set().contains(id) implies other@.to_set().contains(
                    id,
                ) by {
                    let j = choose|j: int| 0 <= j < self@.len() && self@[j] == id;
                    assert(other@.contains(self@[j]));
                }
            }
            vstd::seq_lib::seq_to_set_is_finite(self@);
            vstd::seq_lib::seq_to_set_is_finite(other@);
            vstd::set_lib::lemma_subset_equality(self@.to_set(), other@.to_set());
        }
        true
    }
}

impl PartialEqSpecImpl for TransactionState {
    open spec fn obeys_eq_spec() -> bool {
        true
    }

    /// Two stores are equal when they hold the same identifiers.
    open spec fn eq_spec(&self, other: &TransactionState) -> bool {
        self@.to_set() == other@.to_set()
    }
}

impl Default for TransactionState {
    fn default() -> (state: TransactionState)
        ensures
            state@ == Seq::<Seq<char>>::empty(),
            state.max_value_size() == MAX_VALUE_SIZE_TRANSACTION_STATE,
    {
        TransactionState::new()
    }
}

impl Clone for TransactionState {
    fn clone(&self) -> (copy: TransactionState)
        ensures
            copy@ == self@,
            copy.max_value_size() == self.max_value_size(),
    {
        proof {
            use_type_invariant(self);
        }
        TransactionState {
            processed_transactions: self.transactions(),
            max_value_size: self.max_value_size,
        }
    }
}

impl TransactionState {
    /// The declared bound on the store's serialized size.
    pub closed spec fn max_value_size(&self) -> u32 {
        self.max_value_size
    }

    /// The number of entries at which an insertion evicts first.
    pub open spec fn high_water_mark(&self) -> nat {
        (self.max_value_size() / 100) as nat
    }

    /// Validity: no identifier occurs twice.
    #[verifier::type_invariant]
    pub closed spec fn well_formed(&self) -> bool {
        self@.no_duplicates()
    }

    /// An empty store with the default size bound.
    pub fn new() -> (state: TransactionState)
        ensures
            state@ == Seq::<Seq<char>>::empty(),
            state.max_value_size() == MAX_VALUE_SIZE_TRANSACTION_STATE,
            state.well_formed(),
    {
        TransactionState {
            processed_transactions: Vec::new(),
            max_value_size: MAX_VALUE_SIZE_TRANSACTION_STATE,
        }
    }

    /// An empty store whose serialized size is bounded by `max_value_size`
    /// bytes; its high-water mark is a hundredth of that.
    pub fn with_max_value_size(max_value_size: u32) -> (state: TransactionState)
        ensures
            state@ == Seq::<Seq<char>>::empty(),
            state.max_value_size() == max_value_size,
            state.well_formed(),
    {
        TransactionState { processed_transactions: Vec::new(), max_value_size }
    }

    /// The store that holds the given identifiers, as a store that was loaded
    /// from what was persisted of it: each identifier once, in the order of
    /// its first occurrence, and none evicted, however many there are.
    pub fn from_transactions(ids: Vec<String>, max_value_size: u32) -> (state: TransactionState)
        ensures
            state@ == after_inserts(
                Seq::empty(),
                ids@.map_values(|s: String| s@),
                (ids@.len() + 1) as nat,
            ),
            state.max_value_size() == max_value_size,
            state.well_formed(),
    {
        let ghost all = ids@.map_values(|s: String| s@);
        let ghost mark = (ids@.len() + 1) as nat;
        let ghost given = ids@;
        let mut kept: Vec<String> = Vec::new();
        assert(all.take(0) =~= Seq::<Seq<char>>::empty());
        for id in iter: ids
            invariant
                iter.seq() == given,
                all == given.map_values(|s: String| s@),
                mark == given.len() + 1,
                kept@.len() <= iter.index(),
                kept@.map_values(|s: String| s@).no_duplicates(),
                kept@.map_values(|s: String| s@) == after_inserts(
                    Seq::empty(),
                    all.take(iter.index() as int),
                    mark,
                ),
        {
            let ghost before = kept@.map_values(|s: String| s@);
            proof {
                let i = iter.index() as int;
                assert(all.take(i + 1).drop_last() =~= all.take(i));
                assert(all.take(i + 1).last() == id@);
            }
            let mut found = false;
            let mut j: usize = 0;
            while j < kept.len()
                invariant
                    j <= kept.len(),
                    before == kept@.map_values(|s: String| s@),
                    found == exists|k: int| 0 <= k < j && before[k] == id@,
                decreases kept.len() - j,
            {
                if kept[j] == id {
                    assert(before[j as int] == id@);
                    found = true;
                }
                j = j + 1;
            }
            if !found {
                kept.push(id);
                assert(kept@.map_values(|s: String| s@) =~= before.push(id@));
            }
        }
        assert(all.take(all.len() as int) =~= all);
        TransactionState { processed_transactions: kept, max_value_size }
    }

    /// The number of identifiers held.
    pub fn len(&self) -> (n: usize)
        ensures
            n == self@.len(),
    {
        self.processed_transactions.len()
    }

    /// The bound on the serialized size that the store was made with.
    pub fn size_bound(&self) -> (bound: u32)
        ensures
            bound == self.max_value_size(),
    {
        self.max_value_size
    }

    /// The identifiers held, oldest insertion first.
    pub fn transactions(&self) -> (ids: Vec<String>)
        ensures
            ids@.map_values(|s: String| s@) == self@,
    {
        let mut ids: Vec<String> = Vec::new();
        let mut i: usize = 0;
        while i < self.processed_transactions.len()
            invariant
                i <= self.processed_transactions.len(),
                ids@.map_values(|s: String| s@) == self@.take(i as int),
            decreases self.processed_transactions.len() - i,
        {
            ids.push(self.processed_transactions[i].clone());
            assert(ids@.map_values(|s: String| s@) =~= self@.take(i as int).push(self@[i as int]));
            assert(self@.take(i + 1) =~= self@.take(i as int).push(self@[i as int]));
            i = i + 1;
        }
        assert(self@.take(self@.len() as int) =~= self@);
        ids
    }

    /// Whether `transaction_id` is in the store.
    pub fn transaction_exists(&self, transaction_id: &str) -> (found: bool)
        ensures
            found == self@.contains(transaction_id@),
    {
        let wanted = transaction_id.to_owned();
        let mut i: usize = 0;
        while i < self.processed_transactions.len()
            invariant
                i <= self.processed_transactions.len(),
                wanted@ == transaction_id@,
                forall|j: int| 0 <= j < i ==> self@[j] != transaction_id@,
            decreases self.processed_transactions.len() - i,
        {
            if self.processed_transactions[i] == wanted {
                assert(self@[i as int] == transaction_id@);
                return true;
            }
            i = i + 1;
        }
        false
    }

    /// Records `transaction_id`. A store that has reached its high-water mark
    /// first drops the oldest fifth of its entries, ranked by the timestamp
    /// they carry; entries without a timestamp are never dropped. Recording
    /// an identifier that is held already changes nothing more.
    pub fn add_transaction(&mut self, transaction_id: String)
        ensures
            final(self)@ == after_insert(old(self)@, transaction_id@, old(self).high_water_mark()),
            final(self).max_value_size() == old(self).max_value_size(),
            final(self).well_formed(),
    {
        proof {
            use_type_invariant(&*self);
        }
        if self.processed_transactions.len() >= (self.max_value_size / 100) as usize {
            let kept = evict(&self.processed_transactions);
            self.processed_transactions = kept;
        }
        if !self.transaction_exists(transaction_id.as_str()) {
            let ghost before = self@;
            let mut ids: Vec<String> = Vec::new();
            core::mem::swap(&mut self.processed_transactions, &mut ids);
            ids.push(transaction_id);
            assert(ids@.map_values(|s: String| s@) =~= before.push(transaction_id@));
            self.processed_transactions = ids;
        }
    }
}

/// The timestamp that `id` carries, if any.
pub fn parse_timestamp(id: &str) -> (stamp: Option<i64>)
    ensures
        match timestamp_of(id@) {
            Some(t) => stamp == Some(t as i64),
            None => stamp is None,
        },
{
    let chars = chars_of(id);
    let mut k: usize = chars.len();
    assert(id@.take(k as int) =~= id@);
    while k > 0 && chars[k - 1] != '-'
        invariant
            k <= chars.len(),
            chars@ == id@,
            last_dash(id@) == last_dash(id@.take(k as int)),
        decreases k,
    {
        assert(id@.take(k as int).drop_last() =~= id@.take(k - 1));
        k = k - 1;
    }
    proof {
        if k == 0 {
            assert(id@.take(0).len() == 0);
        } else {
            assert(id@.take(k as int).last() == '-');
        }
    }
    if k == 0 {
        return None;
    }
    assert(last_dash(id@) == k - 1);
    match parse_unsigned_chars(&chars, k, i64::MAX as u128) {
        Some(v) => Some(v as i64),
        None => None,
    }
}

/// One eviction pass over `ids`.
fn evict(ids: &Vec<String>) -> (kept: Vec<String>)
    requires
        ids@.map_values(|s: String| s@).no_duplicates(),
    ensures
        kept@.map_values(|s: String| s@) == after_eviction(ids@.map_values(|s: String| s@)),
        kept@.map_values(|s: String| s@).no_duplicates(),
{
    let ghost view = ids@.map_values(|s: String| s@);
    let n = ids.len();
    let mut stamps: Vec<Option<i64>> = Vec::new();
    let mut i: usize = 0;
    while i < n
        invariant
            i <= n,
            n == ids.len(),
            view == ids@.map_values(|s: String| s@),
            stamps.len() == i,
            forall|j: int|
                0 <= j < i ==> match timestamp_of(view[j]) {
                    Some(t) => #[trigger] stamps[j] == Some(t as i64),
                    None => stamps[j] is None,
                },
        decreases n - i,
    {
        let stamp = parse_timestamp(ids[i].as_str());
        stamps.push(stamp);
        i = i + 1;
    }
    let quota: usize = n / 5;
    assert(quota == remove_count(n as nat));
    let mut kept: Vec<String> = Vec::new();
    let mut i: usize = 0;
    while i < n
        invariant
            i <= n,
            n == ids.len(),
            n == view.len(),
            view == ids@.map_values(|s: String| s@),
            stamps.len() == n,
            quota == remove_count(n as nat),
            forall|j: int|
                0 <= j < n ==> match timestamp_of(view[j]) {
                    Some(t) => #[trigger] stamps[j] == Some(t as i64),
                    None => stamps[j] is None,
                },
            kept@.map_values(|s: String| s@) == survivors(view, i as nat),
        decreases n - i,
    {
        let dropped = match stamps[i] {
            None => false,
            Some(ti) => {
                let mut count: usize = 0;
                let mut j: usize = 0;
                while j < n && count < quota
                    invariant
                        j <= n,
                        i < n,
                        n == view.len(),
                        stamps.len() == n,
                        stamps[i as int] == Some(ti),
                        timestamp_of(view[i as int]) is Some,
                        count <= j,
                        count == rank_among(view, i as int, j as nat),
                        forall|k: int|
                            0 <= k < n ==> match timestamp_of(view[k]) {
                                Some(t) => #[trigger] stamps[k] == Some(t as i64),
                                None => stamps[k] is None,
                            },
                    decreases n - j,
                {
                    let before = match stamps[j] {
                        Some(tj) => tj < ti || (tj == ti && j < i),
                        None => false,
                    };
                    assert(before == ranked_before(view, j as int, i as int));
                    if before {
                        count = count + 1;
                    }
                    j = j + 1;
                }
                proof {
                    lemma_rank_monotone(view, i as int, j as nat, n as nat);
                }
                count < quota
            },
        };
        assert(dropped == evicted(view, i as int));
        if !dropped {
            let ghost before = kept@.map_values(|s: String| s@);
            kept.push(ids[i].clone());
            assert(kept@.map_values(|s: String| s@) =~= before.push(view[i as int]));
        }
        i = i + 1;
    }
    proof {
        lemma_survivors_distinct(view, n as nat);
    }
    kept
}

/// After an insertion the store holds the identifier, whether or not the
/// insertion evicted.
pub proof fn lemma_insert_contains(ids: Seq<Seq<char>>, id: Seq<char>, mark: nat)
    ensures
        after_insert(ids, id, mark).contains(id),
{
    let kept = if ids.len() >= mark {
        after_eviction(ids)
    } else {
        ids
    };
    if !kept.contains(id) {
        assert(kept.push(id)[kept.len() as int] == id);
    }
}

/// An insertion keeps a store without duplicates free of duplicates.
pub proof fn lemma_insert_distinct(ids: Seq<Seq<char>>, id: Seq<char>, mark: nat)
    requires
        ids.no_duplicates(),
    ensures
        after_insert(ids, id, mark).no_duplicates(),
{
    lemma_survivors_distinct(ids, ids.len());
}

/// Inserting the same identifier twice leaves the store as one insertion
/// left it, and so its cardinality unchanged, provided the store is below
/// its high-water mark after the first insertion.
pub proof fn lemma_insert_twice(ids: Seq<Seq<char>>, id: Seq<char>, mark: nat)
    requires
        after_insert(ids, id, mark).len() < mark,
    ensures
        after_insert(after_insert(ids, id, mark), id, mark) == after_insert(ids, id, mark),
        after_insert(after_insert(ids, id, mark), id, mark).len() == after_insert(
            ids,
            id,
            mark,
        ).len(),
{
    lemma_insert_contains(ids, id, mark);
}

/// Inserting identifiers one after the other into a store that stays below
/// its high-water mark throughout loses nothing: the store then holds each
/// of them, and every identifier it held before.
pub proof fn lemma_inserts_below_mark(ids: Seq<Seq<char>>, new_ids: Seq<Seq<char>>, mark: nat)
    requires
        ids.len() + new_ids.len() <= mark,
    ensures
        after_inserts(ids, new_ids, mark).len() <= ids.len() + new_ids.len(),
        forall|i: int|
            0 <= i < new_ids.len() ==> after_inserts(ids, new_ids, mark).contains(
                #[trigger] new_ids[i],
            ),
        forall|id: Seq<char>| ids.contains(id) ==> after_inserts(ids, new_ids, mark).contains(id),
    decreases new_ids.len(),
{
    if new_ids.len() > 0 {
        let rest = new_ids.drop_last();
        let before = after_inserts(ids, rest, mark);
        let after = after_inserts(ids, new_ids, mark);
        lemma_inserts_below_mark(ids, rest, mark);
        lemma_insert_contains(before, new_ids.last(), mark);
        assert(after == after_insert(before, new_ids.last(), mark));
        assert forall|id: Seq<char>| before.contains(id) implies after.contains(id) by {
            if after != before {
                let k = choose|k: int| 0 <= k < before.len() && before[k] == id;
                assert(after[k] == id);
            }
        }
        assert forall|i: int| 0 <= i < new_ids.len() implies after.contains(
            #[trigger] new_ids[i],
        ) by {
            if i < rest.len() {
                assert(rest[i] == new_ids[i]);
                assert(before.contains(rest[i]));
            }
        }
    }
}

/// Among entries whose timestamps strictly increase with their position, an
/// entry's rank is its position.
pub proof fn lemma_rank_of_increasing(ids: Seq<Seq<char>>, i: int, n: nat)
    requires
        0 <= i < ids.len(),
        n <= ids.len(),
        increasing_timestamps(ids),
    ensures
        rank_among(ids, i, n) == if i < n {
            i as nat
        } else {
            n
        },
    decreases n,
{
    if n > 0 {
        lemma_rank_of_increasing(ids, i, (n - 1) as nat);
        assert(timestamp_of(ids[i]) is Some);
        assert(timestamp_of(ids[n - 1]) is Some);
        if n - 1 < i {
            assert(timestamp_of(ids[n - 1])->0 < timestamp_of(ids[i])->0);
        } else if i < n - 1 {
            assert(timestamp_of(ids[i])->0 < timestamp_of(ids[n - 1])->0);
        }
    }
}

/// Whether every entry carries a timestamp and the timestamps strictly
/// increase with the position.
pub open spec fn increasing_timestamps(ids: Seq<Seq<char>>) -> bool {
    &&& forall|i: int| 0 <= i < ids.len() ==> (#[trigger] timestamp_of(ids[i])) is Some
    &&& forall|i: int, j: int|
        0 <= i < j < ids.len() ==> (#[trigger] timestamp_of(ids[i]))->0 < (#[trigger] timestamp_of(
            ids[j],
        ))->0
}

/// Of entries whose timestamps strictly increase with their position, an
/// eviction pass keeps all but the first `remove_count`.
pub proof fn lemma_survivors_of_increasing(ids: Seq<Seq<char>>, n: nat)
    requires
        n <= ids.len(),
        increasing_timestamps(ids),
    ensures
        survivors(ids, n) == if n <= remove_count(ids.len()) {
            Seq::<Seq<char>>::empty()
        } else {
            ids.subrange(remove_count(ids.len()) as int, n as int)
        },
    decreases n,
{
    let quota = remove_count(ids.len());
    if n > 0 {
        lemma_survivors_of_increasing(ids, (n - 1) as nat);
        lemma_rank_of_increasing(ids, n - 1, ids.len());
        assert(timestamp_of(ids[n - 1]) is Some);
        assert(evicted(ids, n - 1) == (n - 1 < quota));
        if n - 1 >= quota {
            assert(ids.subrange(quota as int, n as int) =~= (if n - 1 <= quota {
                Seq::<Seq<char>>::empty()
            } else {
                ids.subrange(quota as int, n - 1)
            }).push(ids[n - 1]));
        }
    }
}

/// A store that has reached its high-water mark, and whose entries carry
/// strictly increasing timestamps, loses to the next insertion exactly its
/// oldest fifth, rounded down, and keeps the rest, with the new identifier
/// after them.
pub proof fn lemma_eviction_drops_oldest_fifth(ids: Seq<Seq<char>>, id: Seq<char>, mark: nat)
    requires
        ids.len() >= mark,
        increasing_timestamps(ids),
    ensures
        remove_count(ids.len()) == ids.len() / 5,
        after_eviction(ids) == ids.skip(remove_count(ids.len()) as int),
        after_insert(ids, id, mark) == if ids.skip(remove_count(ids.len()) as int).contains(id) {
            ids.skip(remove_count(ids.len()) as int)
        } else {
            ids.skip(remove_count(ids.len()) as int).push(id)
        },
{
    let quota = remove_count(ids.len());
    lemma_survivors_of_increasing(ids, ids.len());
    if ids.len() <= quota {
        assert(ids.len() == 0);
        assert(ids.skip(quota as int) =~= Seq::<Seq<char>>::empty());
    } else {
        assert(ids.skip(quota as int) =~= ids.subrange(quota as int, ids.len() as int));
    }
}

/// Counting over more entries never lowers a rank.
pub proof fn lemma_rank_monotone(ids: Seq<Seq<char>>, i: int, m: nat, n: nat)
    requires
        m <= n,
    ensures
        rank_among(ids, i, m) <= rank_among(ids, i, n),
    decreases n,
{
    if m < n {
        lemma_rank_monotone(ids, i, m, (n - 1) as nat);
    }
}

/// Every kept entry is one of the entries considered.
pub proof fn lemma_survivors_subset(ids: Seq<Seq<char>>, n: nat, id: Seq<char>)
    requires
        n <= ids.len(),
        survivors(ids, n).contains(id),
    ensures
        exists|i: int| 0 <= i < n && !evicted(ids, i) && ids[i] == id,
    decreases n,
{
    if n > 0 {
        let rest = survivors(ids, (n - 1) as nat);
        if evicted(ids, n - 1) {
            lemma_survivors_subset(ids, (n - 1) as nat, id);
        } else {
            let all = rest.push(ids[n - 1]);
            let k = choose|k: int| 0 <= k < all.len() && all[k] == id;
            if k < rest.len() {
                assert(rest[k] == id);
                lemma_survivors_subset(ids, (n - 1) as nat, id);
            } else {
                assert(ids[n - 1] == id);
            }
        }
    }
}

/// Every considered entry that is not evicted is kept.
pub proof fn lemma_survivors_superset(ids: Seq<Seq<char>>, n: nat, i: int)
    requires
        n <= ids.len(),
        0 <= i < n,
        !evicted(ids, i),
    ensures
        survivors(ids, n).contains(ids[i]),
    decreases n,
{
    let rest = survivors(ids, (n - 1) as nat);
    if i == n - 1 {
        assert(rest.push(ids[n - 1])[rest.len() as int] == ids[i]);
    } else {
        lemma_survivors_superset(ids, (n - 1) as nat, i);
        let k = choose|k: int| 0 <= k < rest.len() && rest[k] == ids[i];
        if !evicted(ids, n - 1) {
            assert(rest.push(ids[n - 1])[k] == ids[i]);
        }
    }
}

/// An eviction pass over a store without duplicates leaves no duplicates.
pub proof fn lemma_survivors_distinct(ids: Seq<Seq<char>>, n: nat)
    requires
        n <= ids.len(),
        ids.no_duplicates(),
    ensures
        survivors(ids, n).no_duplicates(),
        survivors(ids, n).len() <= n,
    decreases n,
{
    if n > 0 {
        lemma_survivors_distinct(ids, (n - 1) as nat);
        let rest = survivors(ids, (n - 1) as nat);
        if !evicted(ids, n - 1) {
            if rest.contains(ids[n - 1]) {
                lemma_survivors_subset(ids, (n - 1) as nat, ids[n - 1]);
            }
        }
    }
}

} // verus!
