use vstd::prelude::*;

verus! {

/// The authentication method an access point broadcasts with.
#[derive(Clone, Copy, PartialEq, Eq, Structural, Debug)]
pub enum AuthMethod {
    Wpa2Wpa3Personal,
}

/// The channel every access point is created on.
pub const AP_CHANNEL: u8 = 1;

/// One network the device is willing to join as a client.
#[derive(Debug, PartialEq, Eq)]
pub struct ClientNetworkConfig {
    pub ssid: String,
    pub password: String,
    pub channel: Option<u8>,
}

/// Mathematical picture of a client network entry.
pub struct ClientModel {
    pub ssid: Seq<char>,
    pub password: Seq<char>,
    pub channel: Option<u8>,
}

impl View for ClientNetworkConfig {
    type V = ClientModel;

    open spec fn view(&self) -> ClientModel {
        ClientModel { ssid: self.ssid@, password: self.password@, channel: self.channel }
    }
}

impl ClientNetworkConfig {
    /// A WPA2 client entry with no fixed channel.
    pub fn new(ssid: String, password: String) -> (r: ClientNetworkConfig)
        ensures
            r@ == (ClientModel { ssid: ssid@, password: password@, channel: None }),
    {
        ClientNetworkConfig { ssid, password, channel: None }
    }

    pub fn duplicate(&self) -> (r: ClientNetworkConfig)
        ensures
            r@ == self@,
    {
        ClientNetworkConfig {
            ssid: self.ssid.clone(),
            password: self.password.clone(),
            channel: self.channel,
        }
    }
}

/// The access point the device itself may broadcast.
#[derive(Debug, PartialEq, Eq)]
pub struct AccessPointConfig {
    pub ssid: String,
    pub password: String,
    pub channel: u8,
    pub auth_method: AuthMethod,
}

/// Mathematical picture of an access point configuration.
pub struct ApModel {
    pub ssid: Seq<char>,
    pub password: Seq<char>,
    pub channel: u8,
    pub auth_method: AuthMethod,
}

impl View for AccessPointConfig {
    type V = ApModel;

    open spec fn view(&self) -> ApModel {
        ApModel {
            ssid: self.ssid@,
            password: self.password@,
            channel: self.channel,
            auth_method: self.auth_method,
        }
    }
}

/// The access point that `set_access_point` installs for a name and key.
pub open spec fn wpa2_ap(ssid: Seq<char>, password: Seq<char>) -> ApModel {
    ApModel { ssid, password, channel: AP_CHANNEL, auth_method: AuthMethod::Wpa2Wpa3Personal }
}

/// The client entry that `register_client` installs for a name and key.
pub open spec fn wpa2_client(ssid: Seq<char>, password: Seq<char>) -> ClientModel {
    ClientModel { ssid, password, channel: None }
}

impl AccessPointConfig {
    /// A WPA2/WPA3 personal access point on the fixed channel.
    pub fn new(ssid: String, password: String) -> (r: AccessPointConfig)
        ensures
            r@ == wpa2_ap(ssid@, password@),
    {
        AccessPointConfig {
            ssid,
            password,
            channel: AP_CHANNEL,
            auth_method: AuthMethod::Wpa2Wpa3Personal,
        }
    }

    pub fn duplicate(&self) -> (r: AccessPointConfig)
        ensures
            r@ == self@,
    {
        AccessPointConfig {
            ssid: self.ssid.clone(),
            password: self.password.clone(),
            channel: self.channel,
            auth_method: self.auth_method,
        }
    }
}

/// What the store holds: client networks keyed by name, and at most one access point.
pub struct StoreModel {
    pub clients: Map<Seq<char>, ClientModel>,
    pub ap: Option<ApModel>,
}

/// True when `i` is a position of `s` whose entry is named `k`.
pub open spec fn named_at(s: Seq<ClientNetworkConfig>, k: Seq<char>, i: int) -> bool {
    0 <= i < s.len() && s[i].ssid@ == k
}

/// The map from names to entries that a sequence of uniquely named entries stands for.
pub open spec fn entries_map(s: Seq<ClientNetworkConfig>) -> Map<Seq<char>, ClientModel> {
    Map::new(
        |k: Seq<char>| exists|i: int| named_at(s, k, i),
        |k: Seq<char>| s[choose|i: int| named_at(s, k, i)]@,
    )
}

/// The names of a sequence of entries, in order.
pub open spec fn entry_names(s: Seq<ClientNetworkConfig>) -> Seq<Seq<char>> {
    s.map_values(|c: ClientNetworkConfig| c.ssid@)
}

/// The configuration the manager reconciles the radio against.
pub struct ConfigStore {
    clients: Vec<ClientNetworkConfig>,
    ap: Option<AccessPointConfig>,
}

impl View for ConfigStore {
    type V = StoreModel;

    closed spec fn view(&self) -> StoreModel {
        StoreModel {
            clients: entries_map(self.clients@),
            ap: match self.ap {
                Some(a) => Some(a@),
                None => None,
            },
        }
    }
}

proof fn lemma_map_of_unique_entries(s: Seq<ClientNetworkConfig>)
    requires
        entry_names(s).no_duplicates(),
    ensures
        entries_map(s).dom() == entry_names(s).to_set(),
        entries_map(s).dom().finite(),
        entries_map(s).dom().len() == s.len(),
        forall|i: int| 0 <= i < s.len() ==> #[trigger] entries_map(s).contains_key(s[i].ssid@),
        forall|i: int| 0 <= i < s.len() ==> #[trigger] entries_map(s)[s[i].ssid@] == s[i]@,
{
    let names = entry_names(s);
    assert forall|k: Seq<char>| entries_map(s).dom().contains(k) <==> names.to_set().contains(k) by {
        if entries_map(s).dom().contains(k) {
            let i = choose|i: int| named_at(s, k, i);
            assert(names[i] == k);
        }
        if names.to_set().contains(k) {
            let i = choose|i: int| 0 <= i < names.len() && names[i] == k;
            assert(named_at(s, k, i));
        }
    }
    assert(entries_map(s).dom() =~= names.to_set());
    names.unique_seq_to_set();
    assert forall|i: int| 0 <= i < s.len() implies #[trigger] entries_map(s).contains_key(s[i].ssid@) by {
        assert(named_at(s, s[i].ssid@, i));
    }
    assert forall|i: int| 0 <= i < s.len() implies #[trigger] entries_map(s)[s[i].ssid@] == s[i]@ by {
        let k = s[i].ssid@;
        assert(named_at(s, k, i));
        let j = choose|j: int| named_at(s, k, j);
        assert(names[i] == names[j]);
    }
}

impl ConfigStore {
    /// The store's invariant: no two client entries share a name.
    pub closed spec fn wf(&self) -> bool {
        entry_names(self.clients@).no_duplicates()
    }

    /// An empty store: no client networks, no access point.
    pub fn new() -> (r: ConfigStore)
        ensures
            r.wf(),
            r@.clients == Map::<Seq<char>, ClientModel>::empty(),
            r@.ap is None,
    {
        let r = ConfigStore { clients: Vec::new(), ap: None };
        assert(entries_map(r.clients@) =~= Map::<Seq<char>, ClientModel>::empty());
        r
    }

    /// The number of registered client networks.
    pub fn client_count(&self) -> (r: usize)
        requires
            self.wf(),
        ensures
            self@.clients.dom().finite(),
            r == self@.clients.len(),
    {
        proof {
            lemma_map_of_unique_entries(self.clients@);
        }
        self.clients.len()
    }

    /// Whether no client network is registered.
    pub fn has_no_clients(&self) -> (r: bool)
        requires
            self.wf(),
        ensures
            r == (self@.clients == Map::<Seq<char>, ClientModel>::empty()),
    {
        proof {
            lemma_map_of_unique_entries(self.clients@);
            if self.clients.len() == 0 {
                assert(self@.clients =~= Map::<Seq<char>, ClientModel>::empty());
            } else {
                assert(self@.clients.contains_key(self.clients@[0].ssid@));
            }
        }
        self.clients.len() == 0
    }

    /// The client entry registered under `ssid`, if any.
    pub fn lookup_client(&self, ssid: &String) -> (r: Option<&ClientNetworkConfig>)
        requires
            self.wf(),
        ensures
            r is Some == self@.clients.contains_key(ssid@),
            r matches Some(c) ==> c@ == self@.clients[ssid@],
    {
        proof {
            lemma_map_of_unique_entries(self.clients@);
        }
        let mut i: usize = 0;
        while i < self.clients.len()
            invariant
                self.wf(),
                i <= self.clients.len(),
                forall|j: int| 0 <= j < i ==> self.clients@[j].ssid@ != ssid@,
            decreases self.clients.len() - i,
        {
            if self.clients[i].ssid == *ssid {
                proof {
                    lemma_map_of_unique_entries(self.clients@);
                }
                assert(self@.clients[self.clients@[i as int].ssid@] == self.clients@[i as int]@);
                return Some(&self.clients[i]);
            }
            i = i + 1;
        }
        assert(!self@.clients.contains_key(ssid@));
        None
    }

    /// The access point configuration, if one is set.
    pub fn access_point(&self) -> (r: &Option<AccessPointConfig>)
        ensures
            r is Some == self@.ap is Some,
            r matches Some(a) ==> self@.ap == Some(a@),
    {
        &self.ap
    }

    /// Registers a client network under `ssid`; an earlier entry of that name is replaced.
    pub fn register_client(&mut self, ssid: String, password: String)
        requires
            old(self).wf(),
        ensures
            final(self).wf(),
            final(self)@.clients == old(self)@.clients.insert(ssid@, wpa2_client(ssid@, password@)),
            final(self)@.ap == old(self)@.ap,
    {
        let ghost s0 = self.clients@;
        proof {
            lemma_map_of_unique_entries(s0);
        }
        let mut i: usize = 0;
        while i < self.clients.len()
            invariant
                self.clients@ == s0,
                entry_names(s0).no_duplicates(),
                i <= s0.len(),
                forall|j: int| 0 <= j < i ==> s0[j].ssid@ != ssid@,
            ensures
                i <= s0.len(),
                forall|j: int| 0 <= j < i ==> s0[j].ssid@ != ssid@,
                i < s0.len() ==> s0[i as int].ssid@ == ssid@,
            decreases s0.len() - i,
        {
            if self.clients[i].ssid == ssid {
                break;
            }
            i = i + 1;
        }
        let entry = ClientNetworkConfig::new(ssid, password);
        let ghost k = entry.ssid@;
        if i < self.clients.len() {
            self.clients[i] = entry;
            proof {
                let s1 = self.clients@;
                assert(s1 == s0.update(i as int, entry));
                assert(entry_names(s1) =~= entry_names(s0).update(i as int, k));
                assert(entry_names(s1).no_duplicates()) by {
                    assert forall|a: int, b: int|
                        0 <= a < s1.len() && 0 <= b < s1.len() && a != b implies
                        entry_names(s1)[a] != entry_names(s1)[b] by {
                        assert(entry_names(s0)[i as int] == k);
                    }
                }
                lemma_map_of_unique_entries(s1);
                assert forall|key: Seq<char>|
                    #[trigger] entries_map(s1).contains_key(key) <==> entries_map(s0).insert(k, entry@).contains_key(key) by {
                    if entries_map(s1).contains_key(key) {
                        let j = choose|j: int| named_at(s1, key, j);
                        if j != i {
                            assert(named_at(s0, key, j));
                        }
                    }
                    if entries_map(s0).contains_key(key) && key != k {
                        let j = choose|j: int| named_at(s0, key, j);
                        assert(named_at(s1, key, j));
                    }
                    if key == k {
                        assert(named_at(s1, key, i as int));
                    }
                }
                assert forall|key: Seq<char>| #[trigger] entries_map(s1).contains_key(key) implies
                    entries_map(s1)[key] == entries_map(s0).insert(k, entry@)[key] by {
                    let j = choose|j: int| named_at(s1, key, j);
                    assert(entries_map(s1)[s1[j].ssid@] == s1[j]@);
                    if j != i {
                        assert(entries_map(s0)[s0[j].ssid@] == s0[j]@);
                    }
                }
                assert(entries_map(s1) =~= entries_map(s0).insert(k, entry@));
            }
        } else {
            self.clients.push(entry);
            proof {
                let s1 = self.clients@;
                assert(s1 == s0.push(entry));
                assert(entry_names(s1) =~= entry_names(s0).push(k));
                assert(entry_names(s1).no_duplicates()) by {
                    assert forall|a: int, b: int|
                        0 <= a < s1.len() && 0 <= b < s1.len() && a != b implies
                        entry_names(s1)[a] != entry_names(s1)[b] by {
                        if a < s0.len() && b < s0.len() {
                            assert(entry_names(s0)[a] != entry_names(s0)[b]);
                        }
                    }
                }
                lemma_map_of_unique_entries(s1);
                assert forall|key: Seq<char>|
                    #[trigger] entries_map(s1).contains_key(key) <==> entries_map(s0).insert(k, entry@).contains_key(key) by {
                    if entries_map(s1).contains_key(key) {
                        let j = choose|j: int| named_at(s1, key, j);
                        if j < s0.len() {
                            assert(named_at(s0, key, j));
                        }
                    }
                    if entries_map(s0).contains_key(key) {
                        let j = choose|j: int| named_at(s0, key, j);
                        assert(named_at(s1, key, j));
                    }
                    if key == k {
                        assert(named_at(s1, key, s0.len() as int));
                    }
                }
                assert forall|key: Seq<char>| #[trigger] entries_map(s1).contains_key(key) implies
                    entries_map(s1)[key] == entries_map(s0).insert(k, entry@)[key] by {
                    let j = choose|j: int| named_at(s1, key, j);
                    assert(entries_map(s1)[s1[j].ssid@] == s1[j]@);
                    if j < s0.len() {
                        assert(entries_map(s0)[s0[j].ssid@] == s0[j]@);
                    }
                }
                assert(entries_map(s1) =~= entries_map(s0).insert(k, entry@));
            }
        }
    }

    /// Sets the access point to a WPA2/WPA3 personal network on the fixed channel,
    /// replacing any earlier one.
    pub fn set_access_point(&mut self, ssid: String, password: String)
        requires
            old(self).wf(),
        ensures
            final(self).wf(),
            final(self)@.clients == old(self)@.clients,
            final(self)@.ap == Some(wpa2_ap(ssid@, password@)),
    {
        self.ap = Some(AccessPointConfig::new(ssid, password));
    }
}

} // verus!
