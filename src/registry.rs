//! The registry of consumers: the widgets that read the visualization state on
//! their own schedule. Only its membership changes; it never touches the state.

use smallvec::SmallVec;
use vstd::prelude::*;
use vstd::slice::slice_to_vec;

verus! {

/// Consumer identities in a small vector that keeps the first two inline.
#[verifier::external_body]
pub struct IdList {
    items: SmallVec<[u64; 2]>,
}

/// The identities held by a list, in order.
pub uninterp spec fn consumer_ids(v: IdList) -> Seq<u64>;

/// Most consumers a registry holds: growing the vector beyond it could
/// overflow its capacity computation.
pub const MAX_CONSUMERS: usize = 0x0400_0000;

/// Relies on `SmallVec::new`: the vector starts empty.
#[verifier::external_body]
fn ids_new() -> (r: IdList)
    ensures
        consumer_ids(r) == Seq::<u64>::empty(),
{
    IdList { items: SmallVec::new() }
}

/// Relies on `SmallVec::push`: appends the item at the end. Its capacity
/// computation panics only far beyond `MAX_CONSUMERS` items.
#[verifier::external_body]
fn ids_push(v: &mut IdList, id: u64)
    requires
        consumer_ids(*old(v)).len() < MAX_CONSUMERS,
    ensures
        consumer_ids(*final(v)) == consumer_ids(*old(v)).push(id),
{
    v.items.push(id)
}

/// Relies on `SmallVec::as_slice`: the items, in order.
#[verifier::external_body]
fn ids_slice(v: &IdList) -> (r: &[u64])
    ensures
        r@ == consumer_ids(*v),
{
    v.items.as_slice()
}

/// Relies on `SmallVec::remove`: takes out the item at `index`, shifting the
/// later ones left; it panics when `index` is out of bounds.
#[verifier::external_body]
fn ids_remove(v: &mut IdList, index: usize) -> (r: u64)
    requires
        index < consumer_ids(*old(v)).len(),
    ensures
        r == consumer_ids(*old(v))[index as int],
        consumer_ids(*final(v)) == consumer_ids(*old(v)).remove(index as int),
{
    v.items.remove(index)
}

/// `s` without the first occurrence of `id`; `s` itself when it holds none.
pub open spec fn without_first(s: Seq<u64>, id: u64) -> Seq<u64>
    decreases s.len(),
{
    if s.len() == 0 {
        s
    } else if s[0] == id {
        s.drop_first()
    } else {
        seq![s[0]] + without_first(s.drop_first(), id)
    }
}

proof fn lemma_without_first_at(s: Seq<u64>, id: u64, i: int)
    requires
        0 <= i <= s.len(),
        forall|j: int| 0 <= j < i ==> s[j] != id,
        i < s.len() ==> s[i] == id,
    ensures
        without_first(s, id) == (if i < s.len() {
            s.remove(i)
        } else {
            s
        }),
    decreases i,
{
    if s.len() == 0 {
    } else if i == 0 {
        assert(s.remove(0) =~= s.drop_first());
    } else {
        let t = s.drop_first();
        lemma_without_first_at(t, id, i - 1);
        if i < s.len() {
            assert(seq![s[0]] + t.remove(i - 1) =~= s.remove(i));
        } else {
            assert(seq![s[0]] + t =~= s);
        }
    }
}

/// The consumers registered, in order of registration.
pub struct ConsumerRegistry {
    ids: IdList,
}

impl View for ConsumerRegistry {
    type V = Seq<u64>;

    closed spec fn view(&self) -> Seq<u64> {
        consumer_ids(self.ids)
    }
}

impl ConsumerRegistry {
    /// An empty registry.
    pub fn new() -> (r: ConsumerRegistry)
        ensures
            r@ == Seq::<u64>::empty(),
    {
        ConsumerRegistry { ids: ids_new() }
    }

    /// Adds the consumer `id` at the end. Registering a consumer twice is the
    /// caller's error; the registry does not check it.
    pub fn register(&mut self, id: u64)
        requires
            old(self)@.len() < MAX_CONSUMERS,
        ensures
            final(self)@ == old(self)@.push(id),
    {
        ids_push(&mut self.ids, id);
    }

    /// Removes the consumer `id` (its first registration), and says whether it
    /// was there; a consumer that is not registered leaves the registry as it is.
    pub fn unregister(&mut self, id: u64) -> (r: bool)
        ensures
            r == old(self)@.contains(id),
            final(self)@ == without_first(old(self)@, id),
            !r ==> final(self)@ == old(self)@,
    {
        let ids = ids_slice(&self.ids);
        let n = ids.len();
        let mut i: usize = 0;
        while i < n && ids[i] != id
            invariant
                n == ids@.len(),
                ids@ == self@,
                i <= n,
                forall|j: int| 0 <= j < i ==> ids@[j] != id,
            decreases n - i,
        {
            i = i + 1;
        }
        proof {
            lemma_without_first_at(self@, id, i as int);
        }
        if i < n {
            assert(self@[i as int] == id);
            ids_remove(&mut self.ids, i);
            true
        } else {
            proof {
                assert(!self@.contains(id));
            }
            false
        }
    }

    /// The number of registered consumers.
    pub fn len(&self) -> (r: usize)
        ensures
            r == self@.len(),
    {
        ids_slice(&self.ids).len()
    }

    /// Whether the consumer `id` is registered.
    pub fn contains(&self, id: u64) -> (r: bool)
        ensures
            r == self@.contains(id),
    {
        let ids = ids_slice(&self.ids);
        let n = ids.len();
        let mut i: usize = 0;
        while i < n
            invariant
                n == ids@.len(),
                ids@ == self@,
                i <= n,
                forall|j: int| 0 <= j < i ==> ids@[j] != id,
            decreases n - i,
        {
            if ids[i] == id {
                return true;
            }
            i = i + 1;
        }
        false
    }

    /// The registered consumers in order, to notify or restart each one.
    pub fn members(&self) -> (r: Vec<u64>)
        ensures
            r@ == self@,
    {
        slice_to_vec(ids_slice(&self.ids))
    }
}

} // verus!
