//! The server's list of known clients, and what a client broadcast does to it.

use vstd::prelude::*;

verus! {

/// A network address as a plain number: the 32 bits of an IPv4 address or the
/// 128 bits of an IPv6 address.
#[derive(Clone, Copy, Debug, PartialEq, Eq, Structural)]
pub enum IpAddress {
    V4(u32),
    V6(u128),
}

/// What a client broadcasts while it looks for a server.
pub struct HandshakePacket {
    pub hostname: String,
    pub device_name: String,
    pub protocol_id: u64,
}

/// A client that discovery has found, with the address its broadcast came from.
pub struct ClientId {
    pub hostname: String,
    pub ip: IpAddress,
}

/// What the registry holds about one client.
pub struct ClientConnectionDesc {
    pub display_name: String,
    pub trusted: bool,
    pub manual_ips: Vec<IpAddress>,
}

/// The model of a [`ClientConnectionDesc`].
pub struct ClientDescView {
    pub display_name: Seq<char>,
    pub trusted: bool,
    pub manual_ips: Set<IpAddress>,
}

impl View for ClientConnectionDesc {
    type V = ClientDescView;

    open spec fn view(&self) -> ClientDescView {
        ClientDescView {
            display_name: self.display_name@,
            trusted: self.trusted,
            manual_ips: self.manual_ips@.to_set(),
        }
    }
}

struct ClientEntry {
    hostname: String,
    desc: ClientConnectionDesc,
}

/// The clients that the server knows, by hostname.
pub struct ClientRegistry {
    entries: Vec<ClientEntry>,
}

spec fn known(entries: Seq<ClientEntry>, hostname: Seq<char>) -> bool {
    exists|i: int| 0 <= i < entries.len() && #[trigger] entries[i].hostname@ == hostname
}

spec fn index_of(entries: Seq<ClientEntry>, hostname: Seq<char>) -> int {
    choose|i: int| 0 <= i < entries.len() && #[trigger] entries[i].hostname@ == hostname
}

spec fn distinct(entries: Seq<ClientEntry>) -> bool {
    forall|i: int, j: int|
        0 <= i < j < entries.len() ==> #[trigger] entries[i].hostname@ != #[trigger] entries[j].hostname@
}

spec fn as_map(entries: Seq<ClientEntry>) -> Map<Seq<char>, ClientDescView> {
    Map::new(
        |hostname: Seq<char>| known(entries, hostname),
        |hostname: Seq<char>| entries[index_of(entries, hostname)].desc@,
    )
}

proof fn lemma_index_of(entries: Seq<ClientEntry>, i: int)
    requires
        distinct(entries),
        0 <= i < entries.len(),
    ensures
        known(entries, entries[i].hostname@),
        index_of(entries, entries[i].hostname@) == i,
{
    let j = index_of(entries, entries[i].hostname@);
    assert(0 <= j < entries.len() && entries[j].hostname@ == entries[i].hostname@);
}

/// The model of a registry after a client was entered, unless it was known:
/// a new client is not trusted and has no manual address.
pub open spec fn with_client(
    clients: Map<Seq<char>, ClientDescView>,
    hostname: Seq<char>,
    display_name: Seq<char>,
) -> Map<Seq<char>, ClientDescView> {
    if clients.contains_key(hostname) {
        clients
    } else {
        clients.insert(
            hostname,
            ClientDescView { display_name, trusted: false, manual_ips: Set::empty() },
        )
    }
}

/// Whether some client of the registry lists the address as a manual one.
pub open spec fn is_manual_ip(clients: Map<Seq<char>, ClientDescView>, ip: IpAddress) -> bool {
    exists|hostname: Seq<char>|
        clients.contains_key(hostname) && (#[trigger] clients[hostname]).manual_ips.contains(ip)
}

impl View for ClientRegistry {
    type V = Map<Seq<char>, ClientDescView>;

    closed spec fn view(&self) -> Map<Seq<char>, ClientDescView> {
        as_map(self.entries@)
    }
}

impl ClientRegistry {
    /// No hostname occurs twice.
    pub closed spec fn wf(&self) -> bool {
        distinct(self.entries@)
    }

    /// The number of clients.
    pub closed spec fn count(&self) -> nat {
        self.entries@.len()
    }

    /// A registry without clients.
    pub fn new() -> (registry: ClientRegistry)
        ensures
            registry.wf(),
            registry@ == Map::<Seq<char>, ClientDescView>::empty(),
            registry.count() == 0,
    {
        let registry = ClientRegistry { entries: Vec::new() };
        assert(registry@ =~= Map::<Seq<char>, ClientDescView>::empty());
        registry
    }

    /// The number of clients.
    pub fn len(&self) -> (n: usize)
        ensures
            n == self.count(),
    {
        self.entries.len()
    }

    fn position(&self, hostname: &String) -> (found: Option<usize>)
        requires
            self.wf(),
        ensures
            found is Some <==> self@.contains_key(hostname@),
            found matches Some(i) ==> i < self.entries@.len() && self.entries@[i as int].hostname@
                == hostname@ && self@[hostname@] == self.entries@[i as int].desc@,
    {
        let mut i: usize = 0;
        while i < self.entries.len()
            invariant
                i <= self.entries@.len(),
                self.wf(),
                forall|k: int| 0 <= k < i ==> (#[trigger] self.entries@[k]).hostname@ != hostname@,
            decreases self.entries@.len() - i,
        {
            if self.entries[i].hostname == *hostname {
                proof {
                    lemma_index_of(self.entries@, i as int);
                }
                return Some(i);
            }
            i = i + 1;
        }
        assert(!known(self.entries@, hostname@));
        None
    }

    /// Whether the client is known.
    pub fn contains(&self, hostname: &String) -> (known: bool)
        requires
            self.wf(),
        ensures
            known == self@.contains_key(hostname@),
    {
        self.position(hostname).is_some()
    }

    /// Whether the client is known and trusted.
    pub fn is_trusted(&self, hostname: &String) -> (trusted: bool)
        requires
            self.wf(),
        ensures
            trusted == (self@.contains_key(hostname@) && self@[hostname@].trusted),
    {
        match self.position(hostname) {
            Some(i) => self.entries[i].desc.trusted,
            None => false,
        }
    }

    /// The display name of a known client.
    pub fn display_name(&self, hostname: &String) -> (name: Option<String>)
        requires
            self.wf(),
        ensures
            name is Some <==> self@.contains_key(hostname@),
            name matches Some(text) ==> text@ == self@[hostname@].display_name,
    {
        match self.position(hostname) {
            Some(i) => Some(self.entries[i].desc.display_name.clone()),
            None => None,
        }
    }

    /// Enters a client unless it is known. A new client is not trusted.
    /// Returns whether the registry changed.
    pub fn add_if_missing(&mut self, hostname: String, display_name: String) -> (added: bool)
        requires
            old(self).wf(),
        ensures
            final(self).wf(),
            final(self)@ == with_client(old(self)@, hostname@, display_name@),
            added == !old(self)@.contains_key(hostname@),
            final(self).count() == old(self).count() + (if added {
                1nat
            } else {
                0nat
            }),
    {
        if self.position(&hostname).is_some() {
            return false;
        }
        let ghost before = self.entries@;
        let ghost name = hostname@;
        let ghost shown = display_name@;
        let desc = ClientConnectionDesc { display_name, trusted: false, manual_ips: Vec::new() };
        self.entries.push(ClientEntry { hostname, desc });
        proof {
            let after = self.entries@;
            let last = before.len() as int;
            assert(!known(before, name));
            assert(distinct(after)) by {
                assert forall|i: int, j: int| 0 <= i < j < after.len() implies #[trigger] after[i].hostname@
                    != #[trigger] after[j].hostname@ by {
                    if j == last {
                        assert(before[i].hostname@ != name);
                    } else {
                        assert(after[i] == before[i] && after[j] == before[j]);
                    }
                }
            }
            assert(after[last].desc@.manual_ips =~= Set::<IpAddress>::empty());
            assert(after[last].desc@ == (ClientDescView {
                display_name: shown,
                trusted: false,
                manual_ips: Set::empty(),
            }));
            assert forall|h: Seq<char>| known(after, h) == (known(before, h) || h == name) by {
                if known(before, h) {
                    let i = index_of(before, h);
                    assert(after[i].hostname@ == h);
                }
                if h == name {
                    assert(after[last].hostname@ == h);
                }
                if known(after, h) {
                    let i = index_of(after, h);
                    if i != last {
                        assert(before[i].hostname@ == h);
                    }
                }
            }
            assert forall|h: Seq<char>| known(after, h) implies #[trigger] as_map(after)[h] == (
            if h == name {
                after[last].desc@
            } else {
                as_map(before)[h]
            }) by {
                let i = index_of(after, h);
                lemma_index_of(after, i);
                if i != last {
                    assert(before[i].hostname@ == h);
                    lemma_index_of(before, i);
                }
            }
            assert(as_map(after) =~= with_client(as_map(before), name, shown));
        }
        true
    }

    /// Marks a known client as trusted or not. Returns whether it is known.
    pub fn set_trusted(&mut self, hostname: &String, trusted: bool) -> (found: bool)
        requires
            old(self).wf(),
        ensures
            final(self).wf(),
            found == old(self)@.contains_key(hostname@),
            found ==> final(self)@ == old(self)@.insert(
                hostname@,
                ClientDescView { trusted, ..old(self)@[hostname@] },
            ),
            !found ==> final(self)@ == old(self)@,
            final(self).count() == old(self).count(),
    {
        match self.position(hostname) {
            None => false,
            Some(i) => {
                let ghost before = self.entries@;
                let entry = self.entries.remove(i);
                let desc = ClientConnectionDesc {
                    display_name: entry.desc.display_name,
                    trusted,
                    manual_ips: entry.desc.manual_ips,
                };
                self.entries.insert(i, ClientEntry { hostname: entry.hostname, desc });
                proof {
                    lemma_updated(before, self.entries@, i as int);
                    assert(self.entries@[i as int].desc@ == (ClientDescView {
                        trusted,
                        ..before[i as int].desc@
                    }));
                    assert(as_map(self.entries@) =~= as_map(before).insert(
                        hostname@,
                        ClientDescView { trusted, ..as_map(before)[hostname@] },
                    ));
                }
                true
            },
        }
    }

    /// Adds a manual address to a known client. Returns whether it is known.
    pub fn add_manual_ip(&mut self, hostname: &String, ip: IpAddress) -> (found: bool)
        requires
            old(self).wf(),
        ensures
            final(self).wf(),
            found == old(self)@.contains_key(hostname@),
            found ==> final(self)@ == old(self)@.insert(
                hostname@,
                ClientDescView {
                    manual_ips: old(self)@[hostname@].manual_ips.insert(ip),
                    ..old(self)@[hostname@]
                },
            ),
            !found ==> final(self)@ == old(self)@,
            final(self).count() == old(self).count(),
    {
        match self.position(hostname) {
            None => false,
            Some(i) => {
                let ghost before = self.entries@;
                let entry = self.entries.remove(i);
                let mut manual_ips = entry.desc.manual_ips;
                let ghost old_ips = manual_ips@;
                manual_ips.push(ip);
                let desc = ClientConnectionDesc {
                    display_name: entry.desc.display_name,
                    trusted: entry.desc.trusted,
                    manual_ips,
                };
                self.entries.insert(i, ClientEntry { hostname: entry.hostname, desc });
                proof {
                    lemma_updated(before, self.entries@, i as int);
                    assert(old_ips.push(ip).to_set() =~= old_ips.to_set().insert(ip)) by {
                        lemma_push_contains(old_ips, ip);
                        assert forall|a: IpAddress|
                            old_ips.push(ip).to_set().contains(a) == old_ips.to_set().insert(
                                ip,
                            ).contains(a) by {
                            assert(old_ips.push(ip).to_set().contains(a) == old_ips.push(
                                ip,
                            ).contains(a));
                            assert(old_ips.to_set().contains(a) == old_ips.contains(a));
                        }
                    }
                    assert(as_map(self.entries@) =~= as_map(before).insert(
                        hostname@,
                        ClientDescView {
                            manual_ips: as_map(before)[hostname@].manual_ips.insert(ip),
                            ..as_map(before)[hostname@]
                        },
                    ));
                }
                true
            },
        }
    }

    /// The manual addresses of all clients, each once.
    pub fn manual_ips(&self) -> (ips: Vec<IpAddress>)
        requires
            self.wf(),
        ensures
            ips@.no_duplicates(),
            forall|ip: IpAddress| #[trigger] ips@.contains(ip) <==> is_manual_ip(self@, ip),
    {
        let mut ips: Vec<IpAddress> = Vec::new();
        let mut i: usize = 0;
        while i < self.entries.len()
            invariant
                i <= self.entries@.len(),
                self.wf(),
                ips@.no_duplicates(),
                forall|ip: IpAddress|
                    #[trigger] ips@.contains(ip) <==> listed_before(self.entries@, i as int, ip),
            decreases self.entries@.len() - i,
        {
            let mut j: usize = 0;
            let ghost outer = ips@;
            let ghost list = self.entries@[i as int].desc.manual_ips@;
            assert(list.take(0) =~= Seq::<IpAddress>::empty());
            while j < self.entries[i as usize].desc.manual_ips.len()
                invariant
                    i < self.entries@.len(),
                    list == self.entries@[i as int].desc.manual_ips@,
                    j <= list.len(),
                    ips@.no_duplicates(),
                    forall|ip: IpAddress|
                        #[trigger] ips@.contains(ip) <==> (outer.contains(ip) || list.take(
                            j as int,
                        ).contains(ip)),
                decreases list.len() - j,
            {
                let candidate = self.entries[i].desc.manual_ips[j];
                let ghost inner = ips@;
                if !holds(&ips, candidate) {
                    ips.push(candidate);
                    proof {
                        lemma_push_contains(inner, candidate);
                    }
                }
                proof {
                    assert(list.take(j + 1) =~= list.take(j as int).push(candidate));
                    lemma_push_contains(list.take(j as int), candidate);
                    assert forall|ip: IpAddress| #[trigger]
                        ips@.contains(ip) <==> (outer.contains(ip) || list.take(j + 1).contains(
                            ip,
                        )) by {
                        assert(inner.contains(ip) <==> (outer.contains(ip) || list.take(
                            j as int,
                        ).contains(ip)));
                        assert(list.take(j as int).push(candidate).contains(ip) <==> (list.take(
                            j as int,
                        ).contains(ip) || ip == candidate));
                        assert(ips@.contains(ip) <==> (inner.contains(ip) || ip == candidate));
                    }
                }
                j = j + 1;
            }
            proof {
                assert(list.take(list.len() as int) =~= list);
                assert forall|ip: IpAddress| #[trigger]
                    ips@.contains(ip) <==> listed_before(self.entries@, i + 1, ip) by {
                    lemma_listed_step(self.entries@, i as int, ip);
                    assert(outer.contains(ip) <==> listed_before(self.entries@, i as int, ip));
                }
            }
            i = i + 1;
        }
        proof {
            let entries = self.entries@;
            assert forall|ip: IpAddress| #[trigger] ips@.contains(ip) <==> is_manual_ip(
                self@,
                ip,
            ) by {
                if listed_before(entries, entries.len() as int, ip) {
                    let k = choose|k: int|
                        0 <= k < entries.len() && (#[trigger] entries[k]).desc.manual_ips@.contains(
                            ip,
                        );
                    lemma_index_of(entries, k);
                    assert(self@.contains_key(entries[k].hostname@));
                    assert(self@[entries[k].hostname@].manual_ips.contains(ip));
                }
                if is_manual_ip(self@, ip) {
                    let h = choose|h: Seq<char>|
                        self@.contains_key(h) && (#[trigger] self@[h]).manual_ips.contains(ip);
                    let k = index_of(entries, h);
                    assert(entries[k].desc.manual_ips@.contains(ip));
                }
            }
        }
        ips
    }
}

spec fn listed_before(entries: Seq<ClientEntry>, upto: int, ip: IpAddress) -> bool {
    exists|k: int| 0 <= k < upto && (#[trigger] entries[k]).desc.manual_ips@.contains(ip)
}

proof fn lemma_listed_step(entries: Seq<ClientEntry>, i: int, ip: IpAddress)
    requires
        0 <= i < entries.len(),
    ensures
        listed_before(entries, i + 1, ip) <==> (listed_before(entries, i, ip)
            || entries[i].desc.manual_ips@.contains(ip)),
{
    if listed_before(entries, i, ip) {
        let k = choose|k: int| 0 <= k < i && (#[trigger] entries[k]).desc.manual_ips@.contains(ip);
        assert(0 <= k < i + 1 && entries[k].desc.manual_ips@.contains(ip));
    }
    if entries[i].desc.manual_ips@.contains(ip) {
        assert(0 <= i < i + 1 && entries[i].desc.manual_ips@.contains(ip));
    }
    if listed_before(entries, i + 1, ip) {
        let k = choose|k: int|
            0 <= k < i + 1 && (#[trigger] entries[k]).desc.manual_ips@.contains(ip);
        if k < i {
            assert(0 <= k < i && entries[k].desc.manual_ips@.contains(ip));
        }
    }
}

proof fn lemma_push_contains<A>(s: Seq<A>, x: A)
    ensures
        forall|a: A| #[trigger] s.push(x).contains(a) <==> (s.contains(a) || a == x),
{
    assert forall|a: A| s.push(x).contains(a) <==> (s.contains(a) || a == x) by {
        if s.contains(a) {
            let k = choose|k: int| 0 <= k < s.len() && s[k] == a;
            assert(s.push(x)[k] == a);
        }
        if a == x {
            assert(s.push(x)[s.len() as int] == a);
        }
        if s.push(x).contains(a) {
            let k = choose|k: int| 0 <= k < s.push(x).len() && s.push(x)[k] == a;
            if k < s.len() {
                assert(s[k] == a);
            }
        }
    }
}

proof fn lemma_updated(before: Seq<ClientEntry>, after: Seq<ClientEntry>, i: int)
    requires
        distinct(before),
        0 <= i < before.len(),
        after.len() == before.len(),
        after[i].hostname@ == before[i].hostname@,
        forall|k: int| 0 <= k < before.len() && k != i ==> after[k] == before[k],
    ensures
        distinct(after),
        forall|h: Seq<char>| known(after, h) == known(before, h),
        forall|h: Seq<char>|
            known(before, h) ==> #[trigger] as_map(after)[h] == (if h == before[i].hostname@ {
                after[i].desc@
            } else {
                as_map(before)[h]
            }),
{
    assert forall|a: int, b: int| 0 <= a < b < after.len() implies #[trigger] after[a].hostname@
        != #[trigger] after[b].hostname@ by {
        assert(after[a].hostname@ == before[a].hostname@);
        assert(after[b].hostname@ == before[b].hostname@);
    }
    assert forall|h: Seq<char>| known(after, h) == known(before, h) by {
        if known(before, h) {
            let k = index_of(before, h);
            assert(after[k].hostname@ == h);
        }
        if known(after, h) {
            let k = index_of(after, h);
            assert(before[k].hostname@ == h);
        }
    }
    assert forall|h: Seq<char>| known(before, h) implies #[trigger] as_map(after)[h] == (if h
        == before[i].hostname@ {
        after[i].desc@
    } else {
        as_map(before)[h]
    }) by {
        let k = index_of(before, h);
        lemma_index_of(before, k);
        assert(after[k].hostname@ == h);
        lemma_index_of(after, k);
    }
}

/// Whether the list holds the address.
fn holds(ips: &Vec<IpAddress>, ip: IpAddress) -> (found: bool)
    ensures
        found == ips@.contains(ip),
{
    let mut i: usize = 0;
    while i < ips.len()
        invariant
            i <= ips@.len(),
            forall|k: int| 0 <= k < i ==> ips@[k] != ip,
        decreases ips@.len() - i,
    {
        if ips[i] == ip {
            return true;
        }
        i = i + 1;
    }
    false
}

/// One step of discovery: the registry learns of the client that sent the
/// broadcast, and the client counts as found where it is trusted or every
/// client is.
pub fn client_discovery(
    registry: &mut ClientRegistry,
    auto_trust_clients: bool,
    packet: HandshakePacket,
    ip: IpAddress,
) -> (step: (Option<ClientId>, bool))
    requires
        old(registry).wf(),
    ensures
        final(registry).wf(),
        final(registry)@ == with_client(old(registry)@, packet.hostname@, packet.device_name@),
        step.1 == !old(registry)@.contains_key(packet.hostname@),
        step.0 is Some <==> (auto_trust_clients || final(registry)@[packet.hostname@].trusted),
        step.0 matches Some(id) ==> id.hostname@ == packet.hostname@ && id.ip == ip,
{
    let hostname = packet.hostname;
    let changed = registry.add_if_missing(hostname.clone(), packet.device_name);
    let trusted = registry.is_trusted(&hostname);
    if trusted || auto_trust_clients {
        (Some(ClientId { hostname, ip }), changed)
    } else {
        (None, changed)
    }
}

} // verus!
