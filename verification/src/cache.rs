//! The address cache: a map from (service name, tag) to the last observed
//! address entry, with a per-key rotation cursor for round-robin selection.
//!
//! The cache is an explicitly constructed object handed to both the watch
//! loop and the selection policies; absence of a key means the target was
//! never successfully polled. Entries are replaced wholesale and never
//! mutated in place.

use crate::health::ServiceAddress;
use crate::watch::Policy;
use rand::Rng;
use vstd::prelude::*;

verus! {

/// The identity under which a watched service's addresses are stored:
/// the service name and the (possibly empty) tag, as a structured pair,
/// so that distinct (name, tag) pairs never collide.
pub ghost struct CacheKey {
    pub name: Seq<char>,
    pub tag: Seq<char>,
}

/// What the cache holds for one key: the change index at which the
/// addresses were observed, the addresses in response order, and the
/// round-robin cursor.
pub ghost struct CacheVal {
    pub index: u64,
    pub addresses: Seq<Seq<char>>,
    pub cursor: nat,
}

/// The key for `service_name` and `tag`.
pub open spec fn ck(name: Seq<char>, tag: Seq<char>) -> CacheKey {
    CacheKey { name, tag }
}

/// Where the rotation cursor stands after one round-robin pick:
/// advanced by one, wrapping to the front.
pub open spec fn next_cursor(c: nat, len: nat) -> nat {
    if c + 1 < len {
        c + 1
    } else {
        0
    }
}

/// A key is populated when it holds at least one address.
pub open spec fn populated(m: Map<CacheKey, CacheVal>, k: CacheKey) -> bool {
    m.contains_key(k) && m[k].addresses.len() > 0
}

/// What one round-robin pick on an entry returns: the address under the
/// cursor.
pub open spec fn rr_pick(v: CacheVal) -> Seq<char>
    recommends
        v.cursor < v.addresses.len(),
{
    v.addresses[v.cursor as int]
}

/// The entry after one round-robin pick: the same addresses and index,
/// with the cursor advanced by one, wrapping to the front.
pub open spec fn rr_next(v: CacheVal) -> CacheVal {
    CacheVal {
        index: v.index,
        addresses: v.addresses,
        cursor: next_cursor(v.cursor, v.addresses.len()),
    }
}

/// Law: consecutive round-robin picks on a stable two-address entry
/// alternate strictly between the two positions: the pick after the next
/// is the one not picked now, and two steps return to the first pick.
pub proof fn lemma_round_robin_alternates(v: CacheVal)
    requires
        v.addresses.len() == 2,
        v.cursor < 2,
    ensures
        rr_pick(v) == v.addresses[v.cursor as int],
        rr_pick(rr_next(v)) == v.addresses[1 - v.cursor as int],
        rr_pick(rr_next(rr_next(v))) == rr_pick(v),
{
}

/// Law: updates for two different keys never lose one another: after both
/// writes, each key holds its own writer's value, in either write order.
pub proof fn lemma_puts_independent(
    m: Map<CacheKey, CacheVal>,
    k1: CacheKey,
    v1: CacheVal,
    k2: CacheKey,
    v2: CacheVal,
)
    requires
        k1 != k2,
    ensures
        m.insert(k1, v1).insert(k2, v2)[k1] == v1,
        m.insert(k1, v1).insert(k2, v2)[k2] == v2,
        m.insert(k1, v1).insert(k2, v2) =~= m.insert(k2, v2).insert(k1, v1),
{
}

/// The failure a selection reports when no address is available for the
/// key, either because it was never polled or because the entry is empty.
#[derive(Debug, Clone, Copy, PartialEq, Eq, Structural)]
pub enum SelectError {
    NotFound,
}

impl SelectError {
    /// A short description of the failure.
    pub fn message(&self) -> (r: &'static str)
        ensures
            r@ == "no address available"@,
    {
        "no address available"
    }
}

struct CacheSlot {
    name: String,
    tag: String,
    entry: ServiceAddress,
    cursor: usize,
}

impl CacheSlot {
    spec fn key(self) -> CacheKey {
        CacheKey { name: self.name@, tag: self.tag@ }
    }

    spec fn val(self) -> CacheVal {
        CacheVal {
            index: self.entry.index,
            addresses: self.entry.addresses(),
            cursor: self.cursor as nat,
        }
    }

    spec fn cursor_ok(self) -> bool {
        self.cursor == 0 || (self.cursor as int) < self.entry.address@.len()
    }
}

spec fn map_of(s: Seq<CacheSlot>) -> Map<CacheKey, CacheVal>
    decreases s.len(),
{
    if s.len() == 0 {
        Map::empty()
    } else {
        map_of(s.drop_last()).insert(s.last().key(), s.last().val())
    }
}

proof fn lemma_map_of_absent(s: Seq<CacheSlot>, k: CacheKey)
    requires
        forall|i: int| 0 <= i < s.len() ==> (#[trigger] s[i].key()) != k,
    ensures
        !map_of(s).contains_key(k),
    decreases s.len(),
{
    if s.len() > 0 {
        lemma_map_of_absent(s.drop_last(), k);
    }
}

proof fn lemma_map_of_index(s: Seq<CacheSlot>, i: int)
    requires
        0 <= i < s.len(),
        forall|j: int| i < j < s.len() ==> (#[trigger] s[j].key()) != s[i].key(),
    ensures
        map_of(s).contains_key(s[i].key()),
        map_of(s)[s[i].key()] == s[i].val(),
    decreases s.len(),
{
    if i < s.len() - 1 {
        lemma_map_of_index(s.drop_last(), i);
    }
}

proof fn lemma_map_of_update(s: Seq<CacheSlot>, i: int, slot: CacheSlot)
    requires
        0 <= i < s.len(),
        slot.key() == s[i].key(),
        forall|j: int| i < j < s.len() ==> (#[trigger] s[j].key()) != s[i].key(),
    ensures
        map_of(s.update(i, slot)) =~= map_of(s).insert(slot.key(), slot.val()),
    decreases s.len(),
{
    if i == s.len() - 1 {
        assert(s.update(i, slot).drop_last() =~= s.drop_last());
        assert(s.update(i, slot).last() == slot);
    } else {
        lemma_map_of_update(s.drop_last(), i, slot);
        assert(s.update(i, slot).drop_last() =~= s.drop_last().update(i, slot));
        assert(s.update(i, slot).last() == s.last());
    }
}

/// The shared address cache: the single source of truth for which
/// addresses are known right now for each watched (service name, tag).
pub struct AddressCache {
    slots: Vec<CacheSlot>,
}

impl View for AddressCache {
    type V = Map<CacheKey, CacheVal>;

    closed spec fn view(&self) -> Map<CacheKey, CacheVal> {
        map_of(self.slots@)
    }
}

/// Relies on rand::Rng::gen_range over `0..n`: it returns a value of the
/// range, and panics only on an empty range, which `n > 0` rules out.
#[verifier::external_body]
fn random_below(n: usize) -> (r: usize)
    requires
        n > 0,
    ensures
        r < n,
{
    let mut rng = rand::thread_rng();
    rng.gen_range(0..n)
}

/// Compare a borrowed string slice with an owned string by contents.
fn str_eq_string(a: &str, b: &String) -> (r: bool)
    ensures
        r == (a@ == b@),
{
    let a2: String = a.to_owned();
    a2.eq(b)
}

impl AddressCache {
    #[verifier::type_invariant]
    spec fn wf(self) -> bool {
        &&& forall|i: int, j: int|
            0 <= i < j < self.slots@.len() ==> (#[trigger] self.slots@[i].key()) != (
            #[trigger] self.slots@[j].key())
        &&& forall|i: int| 0 <= i < self.slots@.len() ==> (#[trigger] self.slots@[i]).cursor_ok()
    }

    /// An empty cache: no key was ever polled.
    pub fn new() -> (c: AddressCache)
        ensures
            c@ == Map::<CacheKey, CacheVal>::empty(),
    {
        AddressCache { slots: Vec::new() }
    }

    /// The position of the slot for the key, if one exists.
    fn find_slot(&self, service_name: &str, tag: &str) -> (r: Option<usize>)
        ensures
            match r {
                Some(i) => i < self.slots@.len() && self.slots@[i as int].key() == ck(
                    service_name@,
                    tag@,
                ),
                None => forall|j: int|
                    0 <= j < self.slots@.len() ==> (#[trigger] self.slots@[j].key()) != ck(
                        service_name@,
                        tag@,
                    ),
            },
    {
        let n = self.slots.len();
        for i in 0..n
            invariant
                n == self.slots@.len(),
                forall|j: int|
                    0 <= j < i ==> (#[trigger] self.slots@[j].key()) != ck(service_name@, tag@),
        {
            if str_eq_string(service_name, &self.slots[i].name) && str_eq_string(
                tag,
                &self.slots[i].tag,
            ) {
                return Some(i);
            }
        }
        None
    }

    /// A non-blocking snapshot read: the entry last stored for the key,
    /// or nothing if the key was never successfully polled.
    pub fn get(&self, service_name: &str, tag: &str) -> (r: Option<&ServiceAddress>)
        ensures
            match r {
                Some(e) => {
                    &&& self@.contains_key(ck(service_name@, tag@))
                    &&& e.index == self@[ck(service_name@, tag@)].index
                    &&& e.addresses() == self@[ck(service_name@, tag@)].addresses
                },
                None => !self@.contains_key(ck(service_name@, tag@)),
            },
    {
        proof {
            use_type_invariant(self);
        }
        match self.find_slot(service_name, tag) {
            Some(i) => {
                proof {
                    lemma_map_of_index(self.slots@, i as int);
                }
                Some(&self.slots[i].entry)
            },
            None => {
                proof {
                    lemma_map_of_absent(self.slots@, ck(service_name@, tag@));
                }
                None
            },
        }
    }

    /// Atomic replace-or-insert: the key now holds exactly this entry,
    /// with its rotation cursor at the front; every other key is untouched.
    pub fn put(&mut self, service_name: &str, tag: &str, entry: ServiceAddress)
        ensures
            final(self)@ == old(self)@.insert(
                ck(service_name@, tag@),
                CacheVal { index: entry.index, addresses: entry.addresses(), cursor: 0 },
            ),
    {
        proof {
            use_type_invariant(&*self);
        }
        let ghost k = ck(service_name@, tag@);
        let ghost v = CacheVal { index: entry.index, addresses: entry.addresses(), cursor: 0 };
        let slot = CacheSlot { name: service_name.to_owned(), tag: tag.to_owned(), entry, cursor: 0 };
        let found = self.find_slot(service_name, tag);
        let mut slots: Vec<CacheSlot> = Vec::new();
        core::mem::swap(&mut self.slots, &mut slots);
        let ghost prior = slots@;
        match found {
            Some(i) => {
                proof {
                    lemma_map_of_update(prior, i as int, slot);
                }
                slots[i] = slot;
            },
            None => {
                proof {
                    lemma_map_of_absent(prior, k);
                }
                slots.push(slot);
                proof {
                    assert(slots@.drop_last() =~= prior);
                }
            },
        }
        core::mem::swap(&mut self.slots, &mut slots);
        proof {
            assert forall|i: int, j: int| 0 <= i < j < self.slots@.len() implies (
            #[trigger] self.slots@[i].key()) != (#[trigger] self.slots@[j].key()) by {
                if j < prior.len() {
                    assert(prior[i].key() != prior[j].key());
                }
            }
            assert(self@ =~= old(self)@.insert(k, v));
        }
    }

    /// The random policy: pick a uniformly random cached address for the
    /// key. Fails with NotFound exactly when the key was never polled or
    /// its entry holds no address. Each call is independent.
    pub fn random_policy(&self, service_name: &str, tag: &str) -> (r: Result<String, SelectError>)
        ensures
            r is Ok <==> populated(self@, ck(service_name@, tag@)),
            r matches Ok(a) ==> exists|i: int|
                0 <= i < self@[ck(service_name@, tag@)].addresses.len() && a@ == self@[ck(
                    service_name@,
                    tag@,
                )].addresses[i],
            r matches Err(e) ==> e == SelectError::NotFound,
    {
        match self.get(service_name, tag) {
            Some(e) => {
                let n = e.address.len();
                if n == 0 {
                    Err(SelectError::NotFound)
                } else {
                    let i = random_below(n);
                    let a = e.address[i].clone();
                    proof {
                        assert(a@ == e.addresses()[i as int]);
                    }
                    Ok(a)
                }
            },
            None => Err(SelectError::NotFound),
        }
    }

    /// The round-robin policy: return the address under the key's rotation
    /// cursor and advance the cursor by one with wraparound. Fails with
    /// NotFound exactly when no address is available, and then changes
    /// nothing.
    pub fn round_robin_policy(&mut self, service_name: &str, tag: &str) -> (r: Result<
        String,
        SelectError,
    >)
        ensures
            ({
                let k = ck(service_name@, tag@);
                let m = old(self)@;
                match r {
                    Ok(a) => {
                        &&& populated(m, k)
                        &&& m[k].cursor < m[k].addresses.len()
                        &&& a@ == rr_pick(m[k])
                        &&& final(self)@ == m.insert(k, rr_next(m[k]))
                    },
                    Err(e) => {
                        &&& e == SelectError::NotFound
                        &&& !populated(m, k)
                        &&& final(self)@ == m
                    },
                }
            }),
    {
        proof {
            use_type_invariant(&*self);
        }
        let ghost k = ck(service_name@, tag@);
        match self.find_slot(service_name, tag) {
            Some(i) => {
                proof {
                    lemma_map_of_index(self.slots@, i as int);
                }
                let n = self.slots[i].entry.address.len();
                if n == 0 {
                    Err(SelectError::NotFound)
                } else {
                    let ghost prior = self.slots@;
                    let c = self.slots[i].cursor;
                    let a = self.slots[i].entry.address[c].clone();
                    let newc = if c + 1 < n {
                        c + 1
                    } else {
                        0
                    };
                    let mut slots: Vec<CacheSlot> = Vec::new();
                    core::mem::swap(&mut self.slots, &mut slots);
                    slots[i].cursor = newc;
                    core::mem::swap(&mut self.slots, &mut slots);
                    proof {
                        assert(a@ == prior[i as int].val().addresses[c as int]);
                        lemma_map_of_update(prior, i as int, self.slots@[i as int]);
                        assert(final(self)@ =~= old(self)@.insert(
                            k,
                            CacheVal {
                                index: old(self)@[k].index,
                                addresses: old(self)@[k].addresses,
                                cursor: next_cursor(
                                    old(self)@[k].cursor,
                                    old(self)@[k].addresses.len(),
                                ),
                            },
                        ));
                        assert forall|x: int, y: int| 0 <= x < y < self.slots@.len() implies (
                        #[trigger] self.slots@[x].key()) != (#[trigger] self.slots@[y].key()) by {
                            assert(prior[x].key() != prior[y].key());
                        }
                    }
                    Ok(a)
                }
            },
            None => {
                proof {
                    lemma_map_of_absent(self.slots@, k);
                }
                Err(SelectError::NotFound)
            },
        }
    }

    /// Pick one address for the key according to the policy. Fails with
    /// NotFound exactly when no address is available. Selection never
    /// changes which entries are cached, nor any entry's index or
    /// addresses; only the key's rotation cursor may advance.
    pub fn select(&mut self, service_name: &str, tag: &str, policy: Policy) -> (r: Result<
        String,
        SelectError,
    >)
        ensures
            ({
                let k = ck(service_name@, tag@);
                let m = old(self)@;
                &&& (r is Ok <==> populated(m, k))
                &&& (r matches Ok(a) ==> exists|i: int|
                    0 <= i < m[k].addresses.len() && a@ == m[k].addresses[i])
                &&& (r matches Err(e) ==> e == SelectError::NotFound)
                &&& (policy == Policy::Random ==> final(self)@ == m)
                &&& final(self)@.dom() == m.dom()
                &&& forall|k2: CacheKey| #[trigger]
                    final(self)@.contains_key(k2) ==> final(self)@[k2].index == m[k2].index
                        && final(self)@[k2].addresses == m[k2].addresses
            }),
    {
        match policy {
            Policy::Random => self.random_policy(service_name, tag),
            Policy::RoundRobin => {
                let r = self.round_robin_policy(service_name, tag);
                proof {
                    if r is Ok {
                        let k = ck(service_name@, tag@);
                        assert(final(self)@.dom() =~= old(self)@.dom());
                        assert(r->Ok_0@ == old(self)@[k].addresses[old(self)@[k].cursor as int]);
                    }
                }
                r
            },
        }
    }
}

} // verus!
