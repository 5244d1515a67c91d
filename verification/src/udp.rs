//! UDP: associations between clients and upstream sockets, and batches of
//! datagrams.

use crate::epoll;
use crate::slab;
use crate::sock;
use crate::sock::nix_storage_eq;
use crate::sock::storage_to_net;
use crate::sock::Family;
use crate::sock::NetAddr;
use crate::sock::SockAddr;
use crate::time;
use crate::time::longer_than;
use crate::token;
use crate::token::udp_token;
use crate::watch;
use crate::watch::listen_mask;
use std::collections::VecDeque;
use vstd::prelude::*;

verus! {

/// How many datagrams are received or sent at once, at most.
pub const UDP_BATCH_MAX: usize = 128;

/// How many bytes of a datagram are received.
pub const UDP_PKT_SIZE: usize = 1500;

/// A client and the upstream socket that stands for it.
pub struct UdpAssoc<F> {
    /// Where replies go to.
    pub client: SockAddr,
    /// The client's internet address, where it has one.
    pub net: Option<NetAddr>,
    /// When a datagram last went through.
    pub last_act: u64,
    pub io: F,
}

/// All associations, by slot.
pub struct UdpTable<F> {
    pub slots: Vec<Option<UdpAssoc<F>>>,
    pub free: VecDeque<usize>,
}

/// What a datagram of a client needs next.
#[derive(Clone, Copy, Debug, PartialEq, Eq, Structural)]
pub enum DatagramWork {
    /// Send it through the upstream socket in that slot.
    Forward(usize),
    /// Open an upstream socket and connect it to the remote end.
    OpenUpstream,
    /// Register the upstream socket with epoll, for that slot.
    Register { slot: usize, token: u64, mask: i32 },
    /// Nothing: the datagram is dropped.
    Drop,
}

/// The slot that is handed out next: the one that has been free for longest, or a
/// new one behind the others.
pub open spec fn next_slot<F>(slots: Seq<Option<UdpAssoc<F>>>, free: Seq<usize>) -> int {
    if free.len() > 0 {
        free[0] as int
    } else {
        slots.len() as int
    }
}

/// What tells clients apart: the internet address, or all bytes of the address
/// where there is none.
pub enum ClientKey {
    Net(NetAddr),
    Raw(Seq<u8>),
}

/// The key of an association.
pub open spec fn key_of<F>(a: UdpAssoc<F>) -> ClientKey {
    match a.net {
        Some(n) => ClientKey::Net(n),
        None => ClientKey::Raw(a.client.bytes@),
    }
}

/// Whether an association is that of a client.
pub open spec fn is_client<F>(a: UdpAssoc<F>, client: SockAddr) -> bool {
    match sock::net_of(client) {
        Some(n) => a.net == Some(n),
        None => a.client.bytes@ == client.bytes@,
    }
}

/// Whether a slot holds the association of a client.
pub open spec fn serves<F>(slot: Option<UdpAssoc<F>>, client: SockAddr) -> bool {
    match slot {
        Some(a) => is_client(a, client),
        None => false,
    }
}

/// Whether no slot holds the association of a client.
pub open spec fn unserved<F>(slots: Seq<Option<UdpAssoc<F>>>, client: SockAddr) -> bool {
    forall|j: int| 0 <= j < slots.len() ==> !serves(#[trigger] slots[j], client)
}

/// Whether no two associations are of the same client.
pub open spec fn keys_distinct<F>(slots: Seq<Option<UdpAssoc<F>>>) -> bool {
    forall|i: int, j: int|
        0 <= i < j < slots.len() && (#[trigger] slots[i]) is Some && (#[trigger] slots[j]) is Some
            ==> key_of(slots[i]->0) != key_of(slots[j]->0)
}

/// Whether an association has been idle for longer than `secs`.
pub open spec fn idle<F>(slot: Option<UdpAssoc<F>>, now: u64, secs: u64) -> bool {
    match slot {
        Some(a) => time::elapsed(now, a.last_act) > secs * time::SECOND,
        None => false,
    }
}

impl<F> UdpTable<F> {
    /// Every association has a sound address and knows its client's internet
    /// address, and no two are of the same client.
    pub open spec fn sound(self) -> bool {
        &&& forall|i: int|
            0 <= i < self.slots@.len() && (#[trigger] self.slots@[i]) is Some
                ==> self.slots@[i]->0.client.wf()
        &&& forall|i: int|
            0 <= i < self.slots@.len() && (#[trigger] self.slots@[i]) is Some
                ==> self.slots@[i]->0.net == sock::net_of(self.slots@[i]->0.client)
        &&& keys_distinct(self.slots@)
    }

    /// The table is sound, and its list of free slots is exact.
    pub open spec fn wf(self) -> bool {
        &&& self.sound()
        &&& slab::slab_wf(self.slots@, self.free@)
    }

    /// Whether a slot was handed out and is neither used nor free.
    pub open spec fn reserved(self, slot: usize) -> bool {
        &&& self.sound()
        &&& slot < self.slots@.len()
        &&& self.slots@[slot as int] is None
        &&& slab::slab_wf(self.slots@, self.free@.push(slot))
    }

    pub fn new() -> (t: UdpTable<F>)
        ensures
            t.slots@ == Seq::<Option<UdpAssoc<F>>>::empty(),
            t.free@ == Seq::<usize>::empty(),
            t.wf(),
    {
        UdpTable { slots: Vec::new(), free: VecDeque::new() }
    }

    fn find(&self, client: &SockAddr) -> (r: Option<usize>)
        ensures
            match r {
                Some(i) => {
                    &&& i < self.slots@.len()
                    &&& serves(self.slots@[i as int], *client)
                    &&& forall|j: int| 0 <= j < i ==> !serves(#[trigger] self.slots@[j], *client)
                },
                None => unserved(self.slots@, *client),
            },
    {
        let net: Option<NetAddr> = storage_to_net(client);
        let mut i: usize = 0;
        while i < self.slots.len()
            invariant
                i <= self.slots@.len(),
                net == sock::net_of(*client),
                forall|j: int| 0 <= j < i ==> !serves(#[trigger] self.slots@[j], *client),
            decreases self.slots@.len() - i,
        {
            let hit: bool = match &self.slots[i] {
                Some(a) => match net {
                    Some(n) => match a.net {
                        Some(m) => m == n,
                        None => false,
                    },
                    None => nix_storage_eq(&a.client, client),
                },
                None => false,
            };
            if hit {
                return Some(i);
            }
            i += 1;
        }
        None
    }

    /// Marks the association in a slot as used.
    fn touch(&mut self, slot: usize, now: u64)
        requires
            slot < old(self).slots@.len(),
            old(self).slots@[slot as int] is Some,
        ensures
            final(self).free@ == old(self).free@,
            final(self).slots@ == old(self).slots@.update(
                slot as int,
                Some(UdpAssoc { last_act: now, ..old(self).slots@[slot as int]->0 }),
            ),
            old(self).wf() ==> final(self).wf(),
    {
        match &mut self.slots[slot] {
            Some(a) => {
                a.last_act = now;
            },
            None => {},
        }
        assert(self.slots@ =~= old(self).slots@.update(
            slot as int,
            Some(UdpAssoc { last_act: now, ..old(self).slots@[slot as int]->0 }),
        ));
    }

    /// Finds the association of a client and marks it as used.
    pub fn lookup(&mut self, client: &SockAddr, now: u64) -> (r: Option<usize>)
        ensures
            match r {
                Some(i) => {
                    &&& i < old(self).slots@.len()
                    &&& serves(old(self).slots@[i as int], *client)
                    &&& forall|j: int|
                        0 <= j < i ==> !serves(#[trigger] old(self).slots@[j], *client)
                    &&& final(self).slots@ == old(self).slots@.update(
                        i as int,
                        Some(UdpAssoc { last_act: now, ..old(self).slots@[i as int]->0 }),
                    )
                    &&& final(self).free@ == old(self).free@
                },
                None => {
                    &&& unserved(old(self).slots@, *client)
                    &&& *final(self) == *old(self)
                },
            },
            old(self).wf() ==> final(self).wf(),
    {
        match self.find(client) {
            Some(i) => {
                self.touch(i, now);
                Some(i)
            },
            None => None,
        }
    }

    /// Hands out the slot that has been free for longest, or a new one.
    pub fn reserve(&mut self) -> (slot: usize)
        ensures
            old(self).wf() ==> final(self).reserved(slot),
            old(self).free@.len() > 0 ==> {
                &&& slot == old(self).free@[0]
                &&& final(self).free@ == old(self).free@.skip(1)
                &&& final(self).slots@ == old(self).slots@
            },
            old(self).free@.len() == 0 ==> {
                &&& slot == old(self).slots@.len()
                &&& final(self).free@ == old(self).free@
                &&& final(self).slots@ == old(self).slots@.push(None)
            },
    {
        match self.free.pop_front() {
            Some(slot) => {
                proof {
                    if old(self).wf() {
                        lemma_reserve_free(old(self).slots@, old(self).free@);
                    }
                }
                slot
            },
            None => {
                let slot: usize = self.slots.len();
                self.slots.push(None);
                proof {
                    if old(self).wf() {
                        lemma_reserve_new(old(self).slots@, old(self).free@);
                    }
                    if old(self).wf() {
                        lemma_keys_stay_distinct(old(self).slots@, self.slots@, -1);
                    }
                }
                slot
            },
        }
    }

    /// Gives a reserved slot back: it is reused after those that are free
    /// already.
    pub fn cancel(&mut self, slot: usize)
        ensures
            final(self).slots@ == old(self).slots@,
            final(self).free@ == old(self).free@.push(slot),
            old(self).reserved(slot) ==> final(self).wf(),
    {
        self.free.push_back(slot);
    }

    /// Puts the association of a new client into a reserved slot.
    pub fn commit(&mut self, slot: usize, client: SockAddr, io: F, now: u64)
        requires
            slot < old(self).slots@.len(),
        ensures
            final(self).free@ == old(self).free@,
            final(self).slots@ == old(self).slots@.update(
                slot as int,
                Some(UdpAssoc { client, net: sock::net_of(client), last_act: now, io }),
            ),
            old(self).reserved(slot) && unserved(old(self).slots@, client) && client.wf()
                ==> final(self).wf(),
    {
        let net: Option<NetAddr> = storage_to_net(&client);
        self.slots[slot] = Some(UdpAssoc { client, net, last_act: now, io });
        proof {
            let sound = old(self).reserved(slot) && unserved(old(self).slots@, client)
                && client.wf();
            if sound {
                lemma_commit(old(self).slots@, old(self).free@, slot, self.slots@[slot as int]->0);
                assert forall|j: int|
                    0 <= j < old(self).slots@.len() && (#[trigger] old(self).slots@[j]) is Some
                        && j != slot implies key_of(old(self).slots@[j]->0) != key_of(
                    self.slots@[slot as int]->0,
                ) by {
                    assert(!serves(old(self).slots@[j], client));
                }
                lemma_keys_stay_distinct(old(self).slots@, self.slots@, slot as int);
            }
        }
    }

    /// Begins to handle a datagram of a client: it goes through the client's
    /// upstream socket, or one is opened for the client.
    pub fn on_datagram(&mut self, client: &SockAddr, now: u64) -> (w: DatagramWork)
        ensures
            match w {
                DatagramWork::Forward(i) => {
                    &&& i < old(self).slots@.len()
                    &&& serves(old(self).slots@[i as int], *client)
                    &&& forall|j: int|
                        0 <= j < i ==> !serves(#[trigger] old(self).slots@[j], *client)
                    &&& final(self).slots@ == old(self).slots@.update(
                        i as int,
                        Some(UdpAssoc { last_act: now, ..old(self).slots@[i as int]->0 }),
                    )
                    &&& final(self).free@ == old(self).free@
                },
                DatagramWork::OpenUpstream => {
                    &&& unserved(old(self).slots@, *client)
                    &&& *final(self) == *old(self)
                },
                _ => false,
            },
            old(self).wf() ==> final(self).wf(),
    {
        match self.lookup(client, now) {
            Some(slot) => DatagramWork::Forward(slot),
            None => DatagramWork::OpenUpstream,
        }
    }

    /// Goes on once an upstream socket was opened, or could not be: it gets a slot,
    /// and is to be registered under the token of that slot.
    pub fn on_opened(&mut self, opened: bool) -> (w: DatagramWork)
        requires
            opened ==> token::UDP_BASE + next_slot(old(self).slots@, old(self).free@) <= u64::MAX,
        ensures
            !opened ==> w == DatagramWork::Drop && *final(self) == *old(self),
            opened ==> {
                let slot = next_slot(old(self).slots@, old(self).free@);
                &&& w matches DatagramWork::Register { slot: s, token: t, mask: m }
                &&& s == slot
                &&& t == token::UDP_BASE + slot
                &&& m == epoll::interest_bits(watch::listen_want())
                &&& old(self).free@.len() > 0 ==> final(self).free@ == old(self).free@.skip(1)
                    && final(self).slots@ == old(self).slots@
                &&& old(self).free@.len() == 0 ==> final(self).free@ == old(self).free@
                    && final(self).slots@ == old(self).slots@.push(None)
                &&& old(self).wf() ==> final(self).reserved(s)
            },
            forall|client: SockAddr|
                unserved(old(self).slots@, client) ==> #[trigger] unserved(
                    final(self).slots@,
                    client,
                ),
    {
        if opened {
            let slot: usize = self.reserve();
            DatagramWork::Register { slot, token: udp_token(slot), mask: listen_mask() }
        } else {
            DatagramWork::Drop
        }
    }

    /// Goes on once the upstream socket was registered, or could not be: the client
    /// gets its association, or the slot is given back.
    pub fn on_registered(
        &mut self,
        slot: usize,
        registered: bool,
        client: SockAddr,
        io: F,
        now: u64,
    ) -> (w: DatagramWork)
        requires
            slot < old(self).slots@.len(),
        ensures
            registered ==> {
                &&& w == DatagramWork::Forward(slot)
                &&& final(self).free@ == old(self).free@
                &&& final(self).slots@ == old(self).slots@.update(
                    slot as int,
                    Some(UdpAssoc { client, net: sock::net_of(client), last_act: now, io }),
                )
            },
            !registered ==> {
                &&& w == DatagramWork::Drop
                &&& final(self).free@ == old(self).free@.push(slot)
                &&& final(self).slots@ == old(self).slots@
            },
            old(self).reserved(slot) && unserved(old(self).slots@, client) && client.wf()
                ==> final(self).wf(),
    {
        if registered {
            self.commit(slot, client, io, now);
            DatagramWork::Forward(slot)
        } else {
            self.cancel(slot);
            DatagramWork::Drop
        }
    }

    /// Marks an association as used where replies were sent to its client.
    pub fn on_reply(&mut self, slot: usize, sent: usize, now: u64)
        ensures
            final(self).free@ == old(self).free@,
            final(self).slots@ == (if slot < old(self).slots@.len()
                && old(self).slots@[slot as int] is Some
                && sent > 0 {
                old(self).slots@.update(
                    slot as int,
                    Some(UdpAssoc { last_act: now, ..old(self).slots@[slot as int]->0 }),
                )
            } else {
                old(self).slots@
            }),
            old(self).wf() ==> final(self).wf(),
    {
        if slot < self.slots.len() && self.slots[slot].is_some() && sent > 0 {
            self.touch(slot, now);
        }
    }

    /// Ends all associations that have been idle for longer than `secs`, and
    /// hands them out with their slots.
    pub fn sweep(&mut self, now: u64, secs: u64) -> (r: Vec<(usize, UdpAssoc<F>)>)
        ensures
            slots_of(r@) == idle_slots(old(self).slots@, now, secs),
            forall|k: int|
                0 <= k < r@.len() ==> (#[trigger] r@[k]).0 < old(self).slots@.len()
                    && old(self).slots@[r@[k].0 as int] == Some(r@[k].1),
            final(self).free@ == old(self).free@ + idle_slots(old(self).slots@, now, secs),
            final(self).slots@.len() == old(self).slots@.len(),
            forall|i: int|
                0 <= i < old(self).slots@.len() ==> #[trigger] final(self).slots@[i] == (if idle(
                    old(self).slots@[i],
                    now,
                    secs,
                ) {
                    None
                } else {
                    old(self).slots@[i]
                }),
            old(self).wf() ==> final(self).wf(),
    {
        let mut r: Vec<(usize, UdpAssoc<F>)> = Vec::new();
        let ghost slots = self.slots@;
        let ghost was_free = self.free@;
        assert(slots_of(r@) =~= idle_slots(slots.take(0), now, secs));
        assert(self.free@ =~= was_free + idle_slots(slots.take(0), now, secs));
        let mut i: usize = 0;
        while i < self.slots.len()
            invariant
                i <= self.slots@.len(),
                self.slots@.len() == slots.len(),
                slots_of(r@) == idle_slots(slots.take(i as int), now, secs),
                self.free@ == was_free + idle_slots(slots.take(i as int), now, secs),
                forall|k: int|
                    0 <= k < r@.len() ==> (#[trigger] r@[k]).0 < slots.len()
                        && slots[r@[k].0 as int] == Some(r@[k].1),
                forall|j: int|
                    0 <= j < i ==> #[trigger] self.slots@[j] == (if idle(slots[j], now, secs) {
                        None
                    } else {
                        slots[j]
                    }),
                forall|j: int| i <= j < slots.len() ==> #[trigger] self.slots@[j] == slots[j],
                slab::slab_wf(slots, was_free) ==> slab::slab_wf(self.slots@, self.free@),
            decreases self.slots@.len() - i,
        {
            assert(slots.take(i + 1).drop_last() =~= slots.take(i as int));
            assert(slots.take(i + 1).last() == slots[i as int]);
            let due: bool = match &self.slots[i] {
                Some(a) => longer_than(now, a.last_act, secs),
                None => false,
            };
            if due {
                let ghost before = r@;
                let ghost held = self.slots@;
                let ghost listed = self.free@;
                match self.slots[i].take() {
                    Some(a) => {
                        r.push((i, a));
                    },
                    None => {},
                }
                self.free.push_back(i);
                proof {
                    assert(self.slots@ =~= held.update(i as int, None));
                    assert(slots_of(r@) =~= slots_of(before).push(i));
                    assert(self.free@ =~= was_free + idle_slots(slots.take(i + 1), now, secs));
                    if slab::slab_wf(held, listed) {
                        slab::lemma_release_slot(held, listed, i);
                    }
                }
            }
            i += 1;
        }
        assert(slots.take(i as int) =~= slots);
        proof {
            if old(self).wf() {
                lemma_keys_stay_distinct(slots, self.slots@, -1);
            }
        }
        r
    }
}

/// The slots of associations that have been idle for longer than `secs`, from
/// the first to the last.
pub open spec fn idle_slots<F>(slots: Seq<Option<UdpAssoc<F>>>, now: u64, secs: u64) -> Seq<usize>
    decreases slots.len(),
{
    if slots.len() == 0 {
        seq![]
    } else if idle(slots.last(), now, secs) {
        idle_slots(slots.drop_last(), now, secs).push((slots.len() - 1) as usize)
    } else {
        idle_slots(slots.drop_last(), now, secs)
    }
}

/// The slots of a list of associations with their slots.
pub open spec fn slots_of<F>(s: Seq<(usize, UdpAssoc<F>)>) -> Seq<usize> {
    s.map_values(|p: (usize, UdpAssoc<F>)| p.0)
}

/// Keys stay distinct where every association was there before with its key, but
/// for one in `slot` whose key is new.
proof fn lemma_keys_stay_distinct<F>(
    before: Seq<Option<UdpAssoc<F>>>,
    after: Seq<Option<UdpAssoc<F>>>,
    slot: int,
)
    requires
        keys_distinct(before),
        forall|i: int|
            0 <= i < after.len() && i != slot && (#[trigger] after[i]) is Some ==> i < before.len()
                && before[i] is Some && key_of(before[i]->0) == key_of(after[i]->0),
        0 <= slot < after.len() && after[slot] is Some ==> forall|j: int|
            0 <= j < before.len() && j != slot && (#[trigger] before[j]) is Some ==> key_of(
                before[j]->0,
            ) != key_of(after[slot]->0),
    ensures
        keys_distinct(after),
{
    assert forall|i: int, j: int|
        0 <= i < j < after.len() && (#[trigger] after[i]) is Some && (
        #[trigger] after[j]) is Some implies key_of(after[i]->0) != key_of(after[j]->0) by {
        if i == slot {
            assert(before[j] is Some);
        } else {
            assert(before[i] is Some);
            if j != slot {
                assert(before[j] is Some);
            }
        }
    }
}

proof fn lemma_reserve_free<F>(slots: Seq<Option<UdpAssoc<F>>>, free: Seq<usize>)
    requires
        slab::slab_wf(slots, free),
        free.len() > 0,
    ensures
        slab::slab_wf(slots, free.skip(1).push(free[0])),
{
    let turned = free.skip(1).push(free[0]);
    assert forall|i: int| 0 <= i < slots.len() && (#[trigger] slots[i]) is None implies slab::names(
        turned,
        i,
    ) by {
        assert(slab::names(free, i));
        let k = choose|k: int| 0 <= k < free.len() && free[k] == i;
        if k == 0 {
            assert(turned[free.len() - 1] == i);
        } else {
            assert(turned[k - 1] == i);
        }
    }
    assert forall|k: int| 0 <= k < turned.len() implies (#[trigger] turned[k]) < slots.len()
        && slots[turned[k] as int] is None by {
        if k < free.len() - 1 {
            assert(turned[k] == free[k + 1]);
        } else {
            assert(turned[k] == free[0]);
        }
    }
}

proof fn lemma_reserve_new<F>(slots: Seq<Option<UdpAssoc<F>>>, free: Seq<usize>)
    requires
        slab::slab_wf(slots, free),
        free.len() == 0,
        slots.len() <= usize::MAX,
    ensures
        slab::slab_wf(slots.push(None), free.push(slots.len() as usize)),
{
    let longer = slots.push(None);
    let named = free.push(slots.len() as usize);
    assert forall|i: int| 0 <= i < longer.len() && (#[trigger] longer[i]) is None implies slab::names(
        named,
        i,
    ) by {
        if i < slots.len() {
            assert(slots[i] is None);
            assert(slab::names(free, i));
        } else {
            assert(named[0] == i);
        }
    }
}

proof fn lemma_commit<F>(
    slots: Seq<Option<UdpAssoc<F>>>,
    free: Seq<usize>,
    slot: usize,
    a: UdpAssoc<F>,
)
    requires
        slot < slots.len(),
        slab::slab_wf(slots, free.push(slot)),
    ensures
        slab::slab_wf(slots.update(slot as int, Some(a)), free),
{
    let filled = slots.update(slot as int, Some(a));
    let all = free.push(slot);
    assert(all[free.len() as int] == slot);
    assert forall|i: int| 0 <= i < filled.len() && (#[trigger] filled[i]) is None implies slab::names(
        free,
        i,
    ) by {
        assert(slots[i] is None);
        assert(slab::names(all, i));
        let k = choose|k: int| 0 <= k < all.len() && all[k] == i;
        assert(free[k] == i);
    }
    assert forall|k: int| 0 <= k < free.len() implies (#[trigger] free[k]) < filled.len()
        && filled[free[k] as int] is None by {
        assert(all[k] == free[k]);
    }
    assert forall|j: int, k: int| 0 <= j < k < free.len() implies free[j] != free[k] by {
        assert(all[j] != all[k]);
    }
}

/// The association of a client is the one whose address has the same ip and
/// port, or the same bytes where there are no such.
pub proof fn law_client_is_known_by_its_endpoint<F>(a: UdpAssoc<F>, client: SockAddr)
    requires
        a.client.wf(),
        a.net == sock::net_of(a.client),
        client.wf(),
    ensures
        is_client(a, client) == sock::same_endpoint(a.client, client),
{
    if a.client.bytes@ == client.bytes@ {
        sock::law_same_bytes_are_the_same_endpoint(a.client, client);
    }
}

/// Once a new client's association is in its slot, that client is found there
/// and nowhere else.
pub proof fn law_committed_client_is_found<F>(
    slots: Seq<Option<UdpAssoc<F>>>,
    slot: int,
    client: SockAddr,
    io: F,
    now: u64,
    j: int,
)
    requires
        0 <= slot < slots.len(),
        0 <= j < slots.len(),
        unserved(slots, client),
    ensures
        ({
            let after = slots.update(
                slot,
                Some(UdpAssoc { client, net: sock::net_of(client), last_act: now, io }),
            );
            serves(after[j], client) <==> j == slot
        }),
{
    assert(!serves(slots[j], client));
}

/// An association through which a datagram went is not idle at that time.
pub proof fn law_used_association_is_not_idle<F>(a: UdpAssoc<F>, now: u64, secs: u64)
    requires
        a.last_act == now,
    ensures
        !idle(Some(a), now, secs),
{
    assert(secs * time::SECOND >= 0) by (nonlinear_arith)
        requires
            secs >= 0,
            time::SECOND >= 0,
    ;
}

/// How many datagrams one call may move: no more than asked for, than there is
/// room for, and than the limit.
pub open spec fn batch_limit(n: usize, room: usize) -> int {
    let least = if n <= room {
        n as int
    } else {
        room as int
    };
    if least <= UDP_BATCH_MAX {
        least
    } else {
        UDP_BATCH_MAX as int
    }
}

/// How many datagrams to ask for in one call; `None` where none is to be made.
pub fn batch_len(n: usize, room: usize) -> (r: Option<usize>)
    ensures
        match r {
            Some(k) => k > 0 && k == batch_limit(n, room),
            None => batch_limit(n, room) == 0,
        },
{
    let least: usize = if n <= room {
        n
    } else {
        room
    };
    if least == 0 {
        None
    } else if least <= UDP_BATCH_MAX {
        Some(least)
    } else {
        Some(UDP_BATCH_MAX)
    }
}

/// How many datagrams a call moved; none where it failed.
pub open spec fn moved_count(rc: i32) -> nat {
    if rc < 0 {
        0
    } else {
        rc as nat
    }
}

/// How many datagrams were sent, by what the call returned.
pub fn udp_sendmmsg_to(rc: i32) -> (n: usize)
    ensures
        n == moved_count(rc),
{
    if rc < 0 {
        0
    } else {
        rc as usize
    }
}

/// How many datagrams were received, by what the call returned, with the sizes
/// of those put into `lens`.
pub fn udp_recvmmsg(rc: i32, sizes: &Vec<u32>, lens: &mut Vec<u32>) -> (n: usize)
    requires
        moved_count(rc) <= sizes@.len(),
        moved_count(rc) <= old(lens)@.len(),
    ensures
        n == moved_count(rc),
        final(lens)@ == sizes@.take(n as int) + old(lens)@.skip(n as int),
{
    if rc < 0 {
        assert(lens@ =~= sizes@.take(0) + lens@.skip(0));
        return 0;
    }
    let n: usize = rc as usize;
    let ghost before = lens@;
    let mut i: usize = 0;
    while i < n
        invariant
            i <= n <= sizes@.len(),
            n <= lens@.len(),
            lens@.len() == before.len(),
            forall|j: int| 0 <= j < i ==> lens@[j] == sizes@[j],
            forall|j: int| i <= j < lens@.len() ==> lens@[j] == before[j],
        decreases n - i,
    {
        lens[i] = sizes[i];
        i += 1;
    }
    assert(lens@ =~= sizes@.take(n as int) + before.skip(n as int));
    n
}

/// An association serves a client exactly where it has the client's internet address,
/// or all its bytes where it has none; an empty slot serves nobody.
pub proof fn law_association_serves_its_client<F>(
    slots: Seq<Option<UdpAssoc<F>>>,
    a: UdpAssoc<F>,
    client: SockAddr,
    i: int,
)
    ensures
        sock::net_of(client) is Some ==> (is_client(a, client) <==> a.net == sock::net_of(client)),
        sock::net_of(client) is None ==> (is_client(a, client) <==> a.client.bytes@
            == client.bytes@),
        serves(Some(a), client) <==> is_client(a, client),
        !serves(None::<UdpAssoc<F>>, client),
        unserved(slots, client) && 0 <= i < slots.len() ==> !serves(slots[i], client),
        !unserved(slots, client) ==> exists|j: int|
            0 <= j < slots.len() && serves(#[trigger] slots[j], client),
{
}

/// Two sound associations have the same key exactly where they are of the same
/// endpoint: a table that keeps its keys apart keeps its clients apart.
pub proof fn law_keys_tell_clients_apart<F>(a: UdpAssoc<F>, b: UdpAssoc<F>)
    requires
        a.client.wf(),
        b.client.wf(),
        a.net == sock::net_of(a.client),
        b.net == sock::net_of(b.client),
    ensures
        key_of(a) == key_of(b) <==> sock::same_endpoint(a.client, b.client),
{
    sock::law_same_endpoint_is_the_same_ip_and_port(a.client, b.client);
    sock::law_endpoints_differ_where_their_bytes_do(a.client, b.client);
    sock::law_endpoints_differ_where_their_bytes_do(b.client, a.client);
}

/// A client with another ip or another port is not served by an association: it gets
/// one of its own.
pub proof fn law_other_client_is_not_served<F>(
    a: UdpAssoc<F>,
    client: SockAddr,
    p: [u8; 2],
    x: [u8; 4],
    q: [u8; 2],
    y: [u8; 4],
)
    requires
        a.client.family == (Family::Inet { port: p, addr: x }),
        client.family == (Family::Inet { port: q, addr: y }),
        a.net == sock::net_of(a.client),
    ensures
        is_client(a, client) <==> p@ == q@ && x@ == y@,
{
    sock::law_endpoints_differ_where_their_bytes_do(a.client, client);
    sock::law_endpoint_is_made_of_the_bytes(client);
}

/// An association is idle exactly once its last datagram is longer ago than its time.
pub proof fn law_idle_is_exact<F>(a: UdpAssoc<F>, now: u64, secs: u64)
    ensures
        idle(Some(a), now, secs) <==> now > a.last_act + secs * 1_000_000_000,
        !idle(None::<UdpAssoc<F>>, now, secs),
{
}

/// A sweep lists exactly the slots of idle associations, from the first to the last.
pub proof fn law_sweep_lists_exactly_the_idle<F>(
    slots: Seq<Option<UdpAssoc<F>>>,
    now: u64,
    secs: u64,
)
    requires
        slots.len() <= usize::MAX,
    ensures
        ({
            let all = idle_slots(slots, now, secs);
            &&& forall|k: int|
                0 <= k < all.len() ==> (#[trigger] all[k]) < slots.len() && idle(
                    slots[all[k] as int],
                    now,
                    secs,
                )
            &&& forall|j: int, k: int|
                0 <= j < k < all.len() ==> (#[trigger] all[j]) < (#[trigger] all[k])
            &&& forall|i: int|
                0 <= i < slots.len() && idle(#[trigger] slots[i], now, secs) ==> exists|k: int|
                    0 <= k < all.len() && (#[trigger] all[k]) == i
        }),
    decreases slots.len(),
{
    if slots.len() > 0 {
        let front = slots.drop_last();
        let before = idle_slots(front, now, secs);
        let all = idle_slots(slots, now, secs);
        law_sweep_lists_exactly_the_idle(front, now, secs);
        assert forall|k: int| 0 <= k < all.len() implies (#[trigger] all[k]) < slots.len() && idle(
            slots[all[k] as int],
            now,
            secs,
        ) by {
            if k < before.len() {
                assert(all[k] == before[k]);
            }
        }
        assert forall|j: int, k: int| 0 <= j < k < all.len() implies (#[trigger] all[j]) < (
        #[trigger] all[k]) by {
            assert(all[j] == before[j]);
            if k < before.len() {
                assert(all[k] == before[k]);
            }
        }
        assert forall|i: int|
            0 <= i < slots.len() && idle(#[trigger] slots[i], now, secs) implies exists|k: int|
            0 <= k < all.len() && (#[trigger] all[k]) == i by {
            if i < front.len() {
                assert(front[i] == slots[i]);
                let k = choose|k: int| 0 <= k < before.len() && (#[trigger] before[k]) == i;
                assert(all[k] == i);
            } else {
                assert(all[all.len() - 1] == i);
            }
        }
    }
}

/// A slot that was freed is used again before a new one, the first freed first.
pub proof fn law_freed_slots_are_used_first<F>(slots: Seq<Option<UdpAssoc<F>>>, free: Seq<usize>)
    ensures
        free.len() > 0 ==> next_slot(slots, free) == free[0],
        free.len() == 0 ==> next_slot(slots, free) == slots.len(),
{
}

/// A call moves no more datagrams than asked for, than there is room for and than 128,
/// and as many as one of these allows. A call that failed moved none.
pub proof fn law_batch_is_the_least_of_three(n: usize, room: usize, rc: i32)
    ensures
        batch_limit(n, room) <= n,
        batch_limit(n, room) <= room,
        batch_limit(n, room) <= 128,
        batch_limit(n, room) == n || batch_limit(n, room) == room || batch_limit(n, room) == 128,
        rc >= 0 ==> moved_count(rc) == rc,
        rc < 0 ==> moved_count(rc) == 0,
{
}

/// A list of associations with their slots is seen as its slots.
pub proof fn law_slots_are_listed<F>(s: Seq<(usize, UdpAssoc<F>)>, i: int)
    ensures
        slots_of(s).len() == s.len(),
        0 <= i < s.len() ==> slots_of(s)[i] == s[i].0,
{
}

/// A table is sound where every association has a sound address and knows its
/// internet address, no two have the same key, and the list of free slots is exact.
pub proof fn law_sound_table<F>(t: UdpTable<F>, slot: usize)
    ensures
        t.sound() <==> {
            &&& forall|i: int|
                0 <= i < t.slots@.len() && (#[trigger] t.slots@[i]) is Some
                    ==> t.slots@[i]->0.client.wf()
            &&& forall|i: int|
                0 <= i < t.slots@.len() && (#[trigger] t.slots@[i]) is Some ==> t.slots@[i]->0.net
                    == sock::net_of(t.slots@[i]->0.client)
            &&& forall|i: int, j: int|
                0 <= i < j < t.slots@.len() && (#[trigger] t.slots@[i]) is Some && (
                #[trigger] t.slots@[j]) is Some ==> key_of(t.slots@[i]->0) != key_of(
                    t.slots@[j]->0,
                )
        },
        t.wf() <==> t.sound() && slab::slab_wf(t.slots@, t.free@),
        t.reserved(slot) <==> t.sound() && slot < t.slots@.len() && t.slots@[slot as int] is None
            && slab::slab_wf(t.slots@, t.free@.push(slot)),
{
}

} // verus!
