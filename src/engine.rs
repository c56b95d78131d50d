use vstd::prelude::*;

use crate::config::{AccessPointConfig, ApModel, ClientModel, ClientNetworkConfig, ConfigStore, StoreModel};

verus! {

/// One network seen by a radio scan.
#[derive(Debug, PartialEq, Eq)]
pub struct ScanEntry {
    pub ssid: String,
    pub signal_strength: u8,
}

impl View for ScanEntry {
    type V = (Seq<char>, u8);

    open spec fn view(&self) -> (Seq<char>, u8) {
        (self.ssid@, self.signal_strength)
    }
}

/// The scan as a sequence of (name, signal strength) pairs, in the driver's order.
pub open spec fn scan_model(scan: Seq<ScanEntry>) -> Seq<(Seq<char>, u8)> {
    scan.map_values(|e: ScanEntry| e@)
}

/// An error code reported by the radio driver.
#[derive(Clone, Copy, PartialEq, Eq, Structural, Debug)]
pub struct DriverError {
    pub code: i32,
}

/// Why a reconciliation pass failed.
#[derive(Debug, PartialEq, Eq)]
pub enum WifiError {
    Fatal(String),
    NetworkNotFound(String),
}

/// Mathematical picture of a `WifiError`.
pub enum ErrorModel {
    Fatal(Seq<char>),
    NetworkNotFound(Seq<char>),
}

impl View for WifiError {
    type V = ErrorModel;

    open spec fn view(&self) -> ErrorModel {
        match self {
            WifiError::Fatal(m) => ErrorModel::Fatal(m@),
            WifiError::NetworkNotFound(n) => ErrorModel::NetworkNotFound(n@),
        }
    }
}

/// The message of the error that any driver failure converts to.
pub open spec fn driver_failure_message() -> Seq<char> {
    "Unknown error during wifi operation"@
}

/// The message reported when the access point could not be brought up.
pub open spec fn ap_failure_message() -> Seq<char> {
    "Failed to create AP"@
}

impl From<DriverError> for WifiError {
    fn from(e: DriverError) -> (r: WifiError)
        ensures
            r@ == ErrorModel::Fatal(driver_failure_message()),
    {
        WifiError::Fatal("Unknown error during wifi operation".to_owned())
    }
}

// The error holds a `String`, which no spec function can build: callers go by the
// `ensures` of `from`.
impl vstd::std_specs::convert::FromSpecImpl<DriverError> for WifiError {
    open spec fn obeys_from_spec() -> bool {
        false
    }

    open spec fn from_spec(v: DriverError) -> WifiError {
        arbitrary()
    }
}

/// What the manager reports after each reconciliation pass or idle period.
#[derive(Debug, PartialEq, Eq)]
pub enum WifiStatus {
    Connected(String, u8),
    ApOnly(String),
    Disconnected,
    Error(WifiError),
}

/// Mathematical picture of a `WifiStatus`.
pub enum StatusModel {
    Connected(Seq<char>, u8),
    ApOnly(Seq<char>),
    Disconnected,
    Error(ErrorModel),
}

impl View for WifiStatus {
    type V = StatusModel;

    open spec fn view(&self) -> StatusModel {
        match self {
            WifiStatus::Connected(n, s) => StatusModel::Connected(n@, *s),
            WifiStatus::ApOnly(n) => StatusModel::ApOnly(n@),
            WifiStatus::Disconnected => StatusModel::Disconnected,
            WifiStatus::Error(e) => StatusModel::Error(e@),
        }
    }
}

/// What the radio should be doing.
#[derive(Debug, PartialEq, Eq)]
pub enum RadioTarget {
    AccessPointOnly(AccessPointConfig),
    Client(ClientNetworkConfig),
    Mixed(ClientNetworkConfig, AccessPointConfig),
    Idle,
}

/// Mathematical picture of a `RadioTarget`.
pub enum TargetModel {
    AccessPointOnly(ApModel),
    Client(ClientModel),
    Mixed(ClientModel, ApModel),
    Idle,
}

impl View for RadioTarget {
    type V = TargetModel;

    open spec fn view(&self) -> TargetModel {
        match self {
            RadioTarget::AccessPointOnly(a) => TargetModel::AccessPointOnly(a@),
            RadioTarget::Client(c) => TargetModel::Client(c@),
            RadioTarget::Mixed(c, a) => TargetModel::Mixed(c@, a@),
            RadioTarget::Idle => TargetModel::Idle,
        }
    }
}

/// True when position `i` of the scan is the first one whose name is a known client network.
pub open spec fn is_first_known(
    clients: Map<Seq<char>, ClientModel>,
    scan: Seq<(Seq<char>, u8)>,
    i: int,
) -> bool {
    &&& 0 <= i < scan.len()
    &&& clients.contains_key(scan[i].0)
    &&& forall|j: int| 0 <= j < i ==> !clients.contains_key(#[trigger] scan[j].0)
}

/// The position of the first scanned network that is a known client network, if any.
pub open spec fn first_known(
    clients: Map<Seq<char>, ClientModel>,
    scan: Seq<(Seq<char>, u8)>,
) -> Option<int> {
    if exists|i: int| is_first_known(clients, scan, i) {
        Some(choose|i: int| is_first_known(clients, scan, i))
    } else {
        None
    }
}

/// At most one position of a scan is the first known one.
pub proof fn lemma_first_known_unique(
    clients: Map<Seq<char>, ClientModel>,
    scan: Seq<(Seq<char>, u8)>,
    i: int,
)
    requires
        is_first_known(clients, scan, i),
    ensures
        first_known(clients, scan) == Some(i),
{
    let j = choose|j: int| is_first_known(clients, scan, j);
    if j < i {
        assert(!clients.contains_key(scan[j].0));
    } else if i < j {
        assert(!clients.contains_key(scan[i].0));
    }
}

/// No scanned network is a known client network.
pub proof fn lemma_first_known_none(clients: Map<Seq<char>, ClientModel>, scan: Seq<(Seq<char>, u8)>)
    requires
        forall|j: int| 0 <= j < scan.len() ==> !clients.contains_key(#[trigger] scan[j].0),
    ensures
        first_known(clients, scan) is None,
{
}

/// The target for joining `client`: together with the access point when one is set.
pub open spec fn client_target(store: StoreModel, client: ClientModel) -> TargetModel {
    match store.ap {
        Some(a) => TargetModel::Mixed(client, a),
        None => TargetModel::Client(client),
    }
}

/// The position of the first scanned network that the store knows as a client network:
/// the driver's order decides, signal strength plays no part.
pub fn select_network(store: &ConfigStore, scan: &Vec<ScanEntry>) -> (r: Option<usize>)
    requires
        store.wf(),
    ensures
        r matches Some(i) ==> first_known(store@.clients, scan_model(scan@)) == Some(i as int),
        r is None ==> first_known(store@.clients, scan_model(scan@)) is None,
{
    let ghost s = scan_model(scan@);
    let mut i: usize = 0;
    while i < scan.len()
        invariant
            store.wf(),
            s == scan_model(scan@),
            i <= scan.len(),
            forall|j: int| 0 <= j < i ==> !store@.clients.contains_key(#[trigger] s[j].0),
        decreases scan.len() - i,
    {
        if store.lookup_client(&scan[i].ssid).is_some() {
            proof {
                lemma_first_known_unique(store@.clients, s, i as int);
            }
            return Some(i);
        }
        i = i + 1;
    }
    proof {
        lemma_first_known_none(store@.clients, s);
    }
    None
}

/// Builds the target that joins the client network registered as `client`.
pub fn make_client_target(store: &ConfigStore, client: &ClientNetworkConfig) -> (r: RadioTarget)
    ensures
        r@ == client_target(store@, client@),
{
    match store.access_point() {
        Some(a) => RadioTarget::Mixed(client.duplicate(), a.duplicate()),
        None => RadioTarget::Client(client.duplicate()),
    }
}

} // verus!
