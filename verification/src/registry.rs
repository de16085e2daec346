//! The shared device registry: an ordered collection of discovered peers,
//! at most one per id, first claim of an id wins. Peers are never evicted.
//! The orchestrator and the workers share one instance behind a lock; the
//! operations here are the short critical sections run under it.

use vstd::prelude::*;
use crate::pear::{spec_new_device, Device};

verus! {

/// Whether some device in `s` carries `id`.
pub open spec fn spec_contains_id(s: Seq<Device>, id: u32) -> bool {
    exists|i: int| 0 <= i < s.len() && s[i].id == id
}

/// No two devices in `s` share an id.
pub open spec fn spec_unique_ids(s: Seq<Device>) -> bool {
    forall|i: int, j: int| 0 <= i < j < s.len() ==> s[i].id != s[j].id
}

/// The first device in `s` carrying `id`, if any.
pub open spec fn spec_find(s: Seq<Device>, id: u32) -> Option<Device>
    decreases s.len(),
{
    if s.len() == 0 {
        None
    } else if s[0].id == id {
        Some(s[0])
    } else {
        spec_find(s.drop_first(), id)
    }
}

/// The registry after one registration attempt: unchanged when the id is
/// already claimed, otherwise extended by a fresh record for the peer.
pub open spec fn spec_register(s: Seq<Device>, id: u32, addr: [u8; 4]) -> Seq<Device> {
    if spec_contains_id(s, id) {
        s
    } else {
        s.push(spec_new_device(id, addr))
    }
}

/// `spec_find` succeeds exactly on the ids the registry contains, and the
/// record found carries the id it was looked up by.
pub proof fn lemma_find_contains(s: Seq<Device>, id: u32)
    ensures
        spec_find(s, id) is Some <==> spec_contains_id(s, id),
        spec_find(s, id) matches Some(d) ==> d.id == id && spec_contains_id(s, id),
    decreases s.len(),
{
    if s.len() > 0 && s[0].id != id {
        lemma_find_contains(s.drop_first(), id);
        assert forall|i: int| 0 <= i < s.len() && s[i].id == id implies spec_contains_id(
            s.drop_first(),
            id,
        ) by {
            assert(s.drop_first()[i - 1] == s[i]);
        }
    }
}

/// Looking an id up after pushing a record for a different id finds what it
/// found before; looking up the pushed id finds the pushed record if the id
/// was absent.
pub proof fn lemma_find_push(s: Seq<Device>, d: Device, id: u32)
    ensures
        d.id != id ==> spec_find(s.push(d), id) == spec_find(s, id),
        d.id == id && !spec_contains_id(s, id) ==> spec_find(s.push(d), id) == Some(d),
    decreases s.len(),
{
    let p = s.push(d);
    if s.len() == 0 {
        assert(p[0] == d);
        assert(p.drop_first() =~= Seq::<Device>::empty());
    } else {
        assert(p[0] == s[0]);
        assert(p.drop_first() =~= s.drop_first().push(d));
        assert(p.drop_first() == s.drop_first().push(d));
        if s[0].id != id {
            assert(spec_find(p, id) == spec_find(p.drop_first(), id));
            assert(spec_find(s, id) == spec_find(s.drop_first(), id));
            if !spec_contains_id(s, id) {
                assert(!spec_contains_id(s.drop_first(), id)) by {
                    if spec_contains_id(s.drop_first(), id) {
                        let i = choose|i: int|
                            0 <= i < s.drop_first().len() && s.drop_first()[i].id == id;
                        assert(s[i + 1].id == id);
                    }
                }
            }
            lemma_find_push(s.drop_first(), d, id);
        } else {
            assert(spec_contains_id(s, id)) by {
                assert(s[0].id == id);
            }
        }
    }
}

/// The shared registry of discovered peers.
pub struct Registry {
    devices: Vec<Device>,
}

impl View for Registry {
    type V = Seq<Device>;

    closed spec fn view(&self) -> Seq<Device> {
        self.devices@
    }
}

impl Registry {
    /// The registry invariant: at most one record per id.
    pub open spec fn wf(&self) -> bool {
        spec_unique_ids(self@)
    }

    /// An empty registry.
    pub fn new() -> (r: Registry)
        ensures
            r@ =~= Seq::<Device>::empty(),
            r.wf(),
    {
        Registry { devices: Vec::new() }
    }

    /// How many peers have been discovered.
    pub fn len(&self) -> (n: usize)
        ensures
            n == self@.len(),
    {
        self.devices.len()
    }

    /// The first record carrying `id`, if the id has been registered.
    pub fn find(&self, id: u32) -> (r: Option<Device>)
        ensures
            r == spec_find(self@, id),
    {
        let n = self.devices.len();
        let mut i: usize = 0;
        assert(self@.skip(0) =~= self@);
        while i < n
            invariant
                i <= n,
                n == self@.len(),
                spec_find(self@, id) == spec_find(self@.skip(i as int), id),
            decreases n - i,
        {
            let ghost rest = self@.skip(i as int);
            assert(rest[0] == self@[i as int]);
            if self.devices[i].id == id {
                return Some(self.devices[i]);
            }
            assert(rest.drop_first() =~= self@.skip(i as int + 1));
            i = i + 1;
        }
        assert(self@.skip(n as int) =~= Seq::<Device>::empty());
        None
    }

    /// Registers a peer unless its id is already claimed; a later claim of a
    /// registered id changes nothing, whatever address it comes from. Returns
    /// whether a record was added.
    pub fn register_if_absent(&mut self, id: u32, addr: [u8; 4]) -> (added: bool)
        requires
            old(self).wf(),
        ensures
            final(self).wf(),
            final(self)@ == spec_register(old(self)@, id, addr),
            added == !spec_contains_id(old(self)@, id),
    {
        proof {
            lemma_find_contains(self@, id);
        }
        match self.find(id) {
            Some(_) => false,
            None => {
                self.devices.push(Device::new(id, addr));
                assert(final(self).wf()) by {
                    assert(forall|i: int|
                        0 <= i < old(self)@.len() ==> final(self)@[i] == old(self)@[i]);
                }
                true
            },
        }
    }

    /// A snapshot of every discovered peer, in registration order.
    pub fn list(&self) -> (r: Vec<Device>)
        ensures
            r@ =~= self@,
    {
        let n = self.devices.len();
        let mut r: Vec<Device> = Vec::new();
        let mut i: usize = 0;
        while i < n
            invariant
                i <= n,
                n == self@.len(),
                r@ =~= self@.subrange(0, i as int),
            decreases n - i,
        {
            r.push(self.devices[i]);
            i = i + 1;
        }
        r
    }
}

/// Registering an id is idempotent: a second claim of the same id, from any
/// address, changes nothing, and exactly one record with the first-seen
/// address answers for the id.
pub proof fn lemma_register_idempotent(s: Seq<Device>, id: u32, addr1: [u8; 4], addr2: [u8; 4])
    ensures
        spec_register(spec_register(s, id, addr1), id, addr2) == spec_register(s, id, addr1),
        !spec_contains_id(s, id) ==> spec_find(spec_register(s, id, addr1), id) == Some(
            spec_new_device(id, addr1),
        ),
        spec_contains_id(spec_register(s, id, addr1), id),
{
    let s1 = spec_register(s, id, addr1);
    if spec_contains_id(s, id) {
        assert(spec_contains_id(s1, id));
    } else {
        assert(s1[s.len() as int].id == id);
        assert(spec_contains_id(s1, id));
        lemma_find_push(s, spec_new_device(id, addr1), id);
    }
}

/// Registration never disturbs what is already there: every record keeps its
/// place, and every registered id stays registered. Once a peer answers any
/// discovery round it is in every later snapshot.
pub proof fn lemma_register_preserves(s: Seq<Device>, id: u32, addr: [u8; 4], other: u32)
    ensures
        forall|i: int| 0 <= i < s.len() ==> spec_register(s, id, addr)[i] == s[i],
        spec_contains_id(s, other) ==> spec_contains_id(spec_register(s, id, addr), other),
        spec_unique_ids(s) ==> spec_unique_ids(spec_register(s, id, addr)),
{
    let s1 = spec_register(s, id, addr);
    assert(forall|i: int| 0 <= i < s.len() ==> s1[i] == s[i]);
    if spec_contains_id(s, other) {
        let i = choose|i: int| 0 <= i < s.len() && s[i].id == other;
        assert(s1[i].id == other);
    }
}

/// A batch of registrations with distinct, previously unseen ids grows the
/// registry by exactly one record per registration, every id in the batch is
/// registered afterwards, and nothing already present is disturbed; the order
/// the writers run in does not change the count. The fold models any
/// interleaving of writers, each registration one critical section.
pub open spec fn spec_register_all(s: Seq<Device>, regs: Seq<(u32, [u8; 4])>) -> Seq<Device>
    decreases regs.len(),
{
    if regs.len() == 0 {
        s
    } else {
        spec_register_all(spec_register(s, regs[0].0, regs[0].1), regs.drop_first())
    }
}

/// Whether the ids in `regs` are pairwise distinct.
pub open spec fn spec_distinct_ids(regs: Seq<(u32, [u8; 4])>) -> bool {
    forall|i: int, j: int| 0 <= i < j < regs.len() ==> regs[i].0 != regs[j].0
}

/// Registering N peers with distinct fresh ids leaves a registry of exactly
/// N more records, each batch id present; the result is a plain value, so the
/// snapshot is stable once the batch is done.
pub proof fn lemma_distinct_registrations(s: Seq<Device>, regs: Seq<(u32, [u8; 4])>)
    requires
        spec_distinct_ids(regs),
        forall|k: int| 0 <= k < regs.len() ==> !spec_contains_id(s, #[trigger] regs[k].0),
    ensures
        spec_register_all(s, regs).len() == s.len() + regs.len(),
        forall|k: int|
            0 <= k < regs.len() ==> spec_contains_id(
                spec_register_all(s, regs),
                #[trigger] regs[k].0,
            ),
        forall|other: u32|
            spec_contains_id(s, other) ==> spec_contains_id(spec_register_all(s, regs), other),
    decreases regs.len(),
{
    if regs.len() > 0 {
        let id0 = regs[0].0;
        let s1 = spec_register(s, id0, regs[0].1);
        assert(!spec_contains_id(s, id0));
        assert(s1.len() == s.len() + 1);
        assert(s1[s.len() as int].id == id0);
        assert(spec_contains_id(s1, id0));
        assert forall|k: int| 0 <= k < regs.drop_first().len() implies !spec_contains_id(
            s1,
            #[trigger] regs.drop_first()[k].0,
        ) by {
            assert(regs.drop_first()[k] == regs[k + 1]);
            assert(regs[k + 1].0 != id0);
            if spec_contains_id(s1, regs[k + 1].0) {
                let i = choose|i: int| 0 <= i < s1.len() && s1[i].id == regs[k + 1].0;
                if i < s.len() {
                    assert(spec_contains_id(s, regs[k + 1].0));
                }
            }
        }
        lemma_distinct_registrations(s1, regs.drop_first());
        assert forall|k: int| 0 <= k < regs.len() implies spec_contains_id(
            spec_register_all(s, regs),
            #[trigger] regs[k].0,
        ) by {
            if k == 0 {
                assert(spec_contains_id(s1, id0));
            } else {
                assert(regs.drop_first()[k - 1] == regs[k]);
            }
        }
        assert forall|other: u32| spec_contains_id(s, other) implies spec_contains_id(
            spec_register_all(s, regs),
            other,
        ) by {
            lemma_register_preserves(s, id0, regs[0].1, other);
        }
    }
}

} // verus!
