use vstd::prelude::*;
use crate::order::Order;

verus! {

/// The first order of the sequence carrying the given id, if any. Under
/// `Ledger::wf` ids are unique, so this is the only one.
pub open spec fn find_order(s: Seq<Order>, id: u64) -> Option<Order>
    decreases s.len(),
{
    if s.len() == 0 {
        None
    } else if s[0].order_id == id {
        Some(s[0])
    } else {
        find_order(s.drop_first(), id)
    }
}

/// The sequence with the first order of the given id taken out; unchanged
/// when no order carries the id.
pub open spec fn remove_id(s: Seq<Order>, id: u64) -> Seq<Order>
    decreases s.len(),
{
    if s.len() == 0 {
        s
    } else if s[0].order_id == id {
        s.drop_first()
    } else {
        seq![s[0]] + remove_id(s.drop_first(), id)
    }
}

/// The store of open orders plus the monotonic id counter. The counter is
/// incremented exactly once per created order (including each recurring
/// successor), never decremented, and survives order deletion, so no id is
/// ever reused.
#[derive(Debug, PartialEq)]
pub struct Ledger {
    pub orders: Vec<Order>,
    pub last_order_id: u64,
}

/// Well-formedness of ledger contents: orders are sorted strictly ascending
/// by id (so ids are unique), and every id was assigned from the counter,
/// i.e. is at most `last_order_id`.
pub open spec fn orders_wf(orders: Seq<Order>, last_order_id: u64) -> bool {
    &&& forall|i: int, j: int|
        0 <= i < j < orders.len() ==> orders[i].order_id < orders[j].order_id
    &&& forall|i: int| 0 <= i < orders.len() ==> orders[i].order_id <= last_order_id
}

impl Ledger {
    pub open spec fn wf(self) -> bool {
        orders_wf(self.orders@, self.last_order_id)
    }

    /// A fresh, empty ledger; the first assigned id will be 1.
    pub fn new() -> (r: Ledger)
        ensures
            r.orders@ =~= Seq::<Order>::empty(),
            r.last_order_id == 0,
            r.wf(),
    {
        Ledger { orders: Vec::new(), last_order_id: 0 }
    }

    /// Assigns the next id to `order`, persists it and returns the id.
    pub fn create(&mut self, order: Order) -> (id: u64)
        requires
            old(self).wf(),
            old(self).last_order_id < u64::MAX,
        ensures
            final(self).wf(),
            id == old(self).last_order_id + 1,
            final(self).last_order_id == id,
            final(self).orders@ == old(self).orders@.push(
                Order { order_id: id, ..order },
            ),
    {
        let id = self.last_order_id + 1;
        self.last_order_id = id;
        let mut stored = order;
        stored.order_id = id;
        self.orders.push(stored);
        id
    }

    /// Looks an order up by id.
    pub fn get(&self, id: u64) -> (r: Option<&Order>)
        ensures
            match r {
                Some(o) => find_order(self.orders@, id) == Some(*o),
                None => find_order(self.orders@, id) is None,
            },
    {
        let n = self.orders.len();
        let mut i: usize = 0;
        assert(self.orders@.skip(0) =~= self.orders@);
        while i < n
            invariant
                i <= n,
                n == self.orders@.len(),
                find_order(self.orders@, id) == find_order(self.orders@.skip(i as int), id),
            decreases n - i,
        {
            assert(self.orders@.skip(i as int)[0] == self.orders@[i as int]);
            if self.orders[i].order_id == id {
                return Some(&self.orders[i]);
            }
            assert(self.orders@.skip(i as int).drop_first() =~= self.orders@.skip(i as int + 1));
            i = i + 1;
        }
        assert(self.orders@.skip(i as int) =~= Seq::<Order>::empty());
        None
    }

    /// Deletes the order with the given id; does nothing when the id is
    /// absent.
    pub fn remove(&mut self, id: u64)
        requires
            old(self).wf(),
        ensures
            final(self).wf(),
            final(self).last_order_id == old(self).last_order_id,
            final(self).orders@ == remove_id(old(self).orders@, id),
    {
        let n = self.orders.len();
        let mut i: usize = 0;
        while i < n
            invariant
                i <= n,
                n == self.orders@.len(),
                *self == *old(self),
                old(self).wf(),
                forall|k: int| 0 <= k < i ==> self.orders@[k].order_id != id,
            decreases n - i,
        {
            if self.orders[i].order_id == id {
                self.orders.remove(i);
                proof {
                    lemma_remove_id_at_first_index(old(self).orders@, id, i as int);
                    lemma_remove_id_keeps_sorted(old(self).orders@, id, old(self).last_order_id);
                }
                return;
            }
            i = i + 1;
        }
        proof {
            lemma_remove_id_absent(self.orders@, id);
        }
    }
}

/// Appending an order leaves lookups of every other id unchanged.
pub proof fn lemma_find_order_push_other(s: Seq<Order>, o: Order, id: u64)
    requires
        id != o.order_id,
    ensures
        find_order(s.push(o), id) == find_order(s, id),
    decreases s.len(),
{
    if s.len() == 0 {
        assert(s.push(o)[0] == o);
        assert(s.push(o).drop_first() =~= Seq::<Order>::empty());
        assert(find_order(Seq::<Order>::empty(), id) is None);
        assert(find_order(s.push(o), id) == find_order(s.push(o).drop_first(), id));
    } else {
        assert(s.push(o)[0] == s[0]);
        assert(s.push(o).drop_first() =~= s.drop_first().push(o));
        lemma_find_order_push_other(s.drop_first(), o, id);
    }
}

/// Removing one id leaves lookups of every other id unchanged, provided ids
/// are unique (as they are under `orders_wf`).
pub proof fn lemma_find_order_remove_other(s: Seq<Order>, removed: u64, id: u64)
    requires
        id != removed,
        forall|i: int, j: int| 0 <= i < j < s.len() ==> s[i].order_id != s[j].order_id,
    ensures
        find_order(remove_id(s, removed), id) == find_order(s, id),
    decreases s.len(),
{
    if s.len() > 0 {
        if s[0].order_id == removed {
            assert(remove_id(s, removed) == s.drop_first());
        } else {
            let rest = remove_id(s.drop_first(), removed);
            assert(remove_id(s, removed) == seq![s[0]] + rest);
            assert((seq![s[0]] + rest)[0] == s[0]);
            if s[0].order_id != id {
                assert((seq![s[0]] + rest).drop_first() =~= rest);
                lemma_find_order_remove_other(s.drop_first(), removed, id);
            }
        }
    }
}

/// Looking up an id that no order carries finds nothing.
pub proof fn lemma_find_order_absent(s: Seq<Order>, id: u64)
    requires
        forall|k: int| 0 <= k < s.len() ==> s[k].order_id != id,
    ensures
        find_order(s, id) is None,
    decreases s.len(),
{
    if s.len() > 0 {
        lemma_find_order_absent(s.drop_first(), id);
    }
}

/// Removing an id preserves ledger well-formedness.
pub proof fn lemma_remove_id_keeps_wf(s: Seq<Order>, id: u64, last_order_id: u64)
    requires
        orders_wf(s, last_order_id),
    ensures
        orders_wf(remove_id(s, id), last_order_id),
{
    lemma_remove_id_keeps_sorted(s, id, last_order_id);
}

/// Appending an order whose id is absent leaves lookups of that id finding
/// exactly the appended order.
pub proof fn lemma_find_order_push_fresh(s: Seq<Order>, o: Order)
    requires
        forall|k: int| 0 <= k < s.len() ==> s[k].order_id != o.order_id,
    ensures
        find_order(s.push(o), o.order_id) == Some(o),
    decreases s.len(),
{
    if s.len() == 0 {
        assert(s.push(o)[0] == o);
    } else {
        assert(s.push(o)[0] == s[0]);
        assert(s.push(o).drop_first() =~= s.drop_first().push(o));
        lemma_find_order_push_fresh(s.drop_first(), o);
    }
}

/// Removing the id of a freshly appended order restores the sequence.
pub proof fn lemma_remove_id_push_fresh(s: Seq<Order>, o: Order)
    requires
        forall|k: int| 0 <= k < s.len() ==> s[k].order_id != o.order_id,
    ensures
        remove_id(s.push(o), o.order_id) == s,
    decreases s.len(),
{
    if s.len() == 0 {
        assert(s.push(o)[0] == o);
        assert(s.push(o).drop_first() =~= s);
    } else {
        assert(s.push(o)[0] == s[0]);
        assert(s.push(o).drop_first() =~= s.drop_first().push(o));
        lemma_remove_id_push_fresh(s.drop_first(), o);
        assert(seq![s[0]] + s.drop_first() =~= s);
    }
}

/// Every element of `remove_id(s, id)` is also an element of `s`.
pub proof fn lemma_remove_id_element_of(s: Seq<Order>, id: u64, i: int)
    requires
        0 <= i < remove_id(s, id).len(),
    ensures
        exists|k: int| 0 <= k < s.len() && s[k] == remove_id(s, id)[i],
{
    lemma_remove_id_is_subseq_element(s, id, i);
}

/// When `s[i]` is the first order carrying `id`, removing the id removes
/// exactly index `i`.
proof fn lemma_remove_id_at_first_index(s: Seq<Order>, id: u64, i: int)
    requires
        0 <= i < s.len(),
        s[i].order_id == id,
        forall|k: int| 0 <= k < i ==> s[k].order_id != id,
    ensures
        remove_id(s, id) == s.remove(i),
    decreases i,
{
    if i == 0 {
        assert(remove_id(s, id) == s.drop_first());
        assert(s.drop_first() =~= s.remove(0));
    } else {
        lemma_remove_id_at_first_index(s.drop_first(), id, i - 1);
        assert(remove_id(s, id) == seq![s[0]] + remove_id(s.drop_first(), id));
        assert(s.drop_first().remove(i - 1) =~= s.remove(i).drop_first());
        assert(seq![s[0]] + s.remove(i).drop_first() =~= s.remove(i));
    }
}

/// Removing an absent id changes nothing.
proof fn lemma_remove_id_absent(s: Seq<Order>, id: u64)
    requires
        forall|k: int| 0 <= k < s.len() ==> s[k].order_id != id,
    ensures
        remove_id(s, id) == s,
    decreases s.len(),
{
    if s.len() > 0 {
        lemma_remove_id_absent(s.drop_first(), id);
        assert(seq![s[0]] + s.drop_first() =~= s);
    }
}

/// Removing an id from a strictly sorted, counter-bounded sequence leaves it
/// strictly sorted and counter-bounded.
proof fn lemma_remove_id_keeps_sorted(s: Seq<Order>, id: u64, last: u64)
    requires
        forall|i: int, j: int| 0 <= i < j < s.len() ==> s[i].order_id < s[j].order_id,
        forall|i: int| 0 <= i < s.len() ==> s[i].order_id <= last,
    ensures
        forall|i: int, j: int|
            0 <= i < j < remove_id(s, id).len()
                ==> remove_id(s, id)[i].order_id < remove_id(s, id)[j].order_id,
        forall|i: int| 0 <= i < remove_id(s, id).len() ==> remove_id(s, id)[i].order_id <= last,
    decreases s.len(),
{
    if s.len() > 0 && s[0].order_id != id {
        lemma_remove_id_keeps_sorted(s.drop_first(), id, last);
        let r = remove_id(s, id);
        assert(r == seq![s[0]] + remove_id(s.drop_first(), id));
        assert forall|i: int, j: int| 0 <= i < j < r.len() implies
            r[i].order_id < r[j].order_id by {
            lemma_remove_id_is_subseq_element(s.drop_first(), id, j - 1);
        }
        assert forall|i: int| 0 <= i < r.len() implies r[i].order_id <= last by {
            if i > 0 {
                lemma_remove_id_is_subseq_element(s.drop_first(), id, i - 1);
            }
        }
    }
}

/// Removing an id never lengthens the sequence.
proof fn lemma_remove_id_len(s: Seq<Order>, id: u64)
    ensures
        remove_id(s, id).len() <= s.len(),
    decreases s.len(),
{
    if s.len() > 0 && s[0].order_id != id {
        lemma_remove_id_len(s.drop_first(), id);
    }
}

/// Every element of `remove_id(s, id)` is an element of `s` at the same or
/// the following index.
proof fn lemma_remove_id_is_subseq_element(s: Seq<Order>, id: u64, i: int)
    requires
        0 <= i < remove_id(s, id).len(),
    ensures
        i < s.len() && remove_id(s, id)[i] == s[i] || i + 1 < s.len() && remove_id(s, id)[i]
            == s[i + 1],
    decreases s.len(),
{
    lemma_remove_id_len(s, id);
    if s.len() == 0 {
    } else if s[0].order_id == id {
        assert(remove_id(s, id) == s.drop_first());
        assert(s.drop_first()[i] == s[i + 1]);
    } else {
        let rest = remove_id(s.drop_first(), id);
        assert(remove_id(s, id) == seq![s[0]] + rest);
        if i == 0 {
            assert((seq![s[0]] + rest)[0] == s[0]);
        } else {
            lemma_remove_id_is_subseq_element(s.drop_first(), id, i - 1);
            assert((seq![s[0]] + rest)[i] == rest[i - 1]);
            if rest[i - 1] == s.drop_first()[i - 1] {
                assert(s.drop_first()[i - 1] == s[i]);
            } else {
                assert(s.drop_first()[i] == s[i + 1]);
            }
        }
    }
}

} // verus!
