use vstd::prelude::*;

use crate::config::{wpa2_ap, wpa2_client, ConfigStore, StoreModel};
use crate::engine::{
    ap_failure_message, client_target, driver_failure_message, first_known, make_client_target,
    scan_model, select_network, ErrorModel, RadioTarget, ScanEntry, StatusModel, TargetModel,
    DriverError, WifiError, WifiStatus,
};

verus! {

/// A configuration change requested of the manager.
#[derive(Debug, PartialEq, Eq)]
pub enum WifiCommand {
    /// Join this network (name, key) whenever a scan sees it.
    ConnectWPA2PSK(String, String),
    /// Broadcast an access point with this name and key.
    CreateApWPA2PSK(String, String),
}

/// Mathematical picture of a `WifiCommand`.
pub enum CommandModel {
    ConnectWPA2PSK(Seq<char>, Seq<char>),
    CreateApWPA2PSK(Seq<char>, Seq<char>),
}

impl View for WifiCommand {
    type V = CommandModel;

    open spec fn view(&self) -> CommandModel {
        match self {
            WifiCommand::ConnectWPA2PSK(n, k) => CommandModel::ConnectWPA2PSK(n@, k@),
            WifiCommand::CreateApWPA2PSK(n, k) => CommandModel::CreateApWPA2PSK(n@, k@),
        }
    }
}

/// What happened outside the manager since its last step.
#[derive(Debug, PartialEq, Eq)]
pub enum Event {
    /// A command arrived.
    Command(WifiCommand),
    /// The rescan period passed with no command.
    Timeout,
    /// The scan that the manager asked for finished.
    ScanFinished(Result<Vec<ScanEntry>, DriverError>),
    /// The configuration that the manager asked the radio to apply was applied, or not.
    ApplyFinished(Result<(), DriverError>),
}

/// Mathematical picture of an `Event`.
pub enum EventModel {
    Command(CommandModel),
    Timeout,
    ScanFinished(Result<Seq<(Seq<char>, u8)>, DriverError>),
    ApplyFinished(Result<(), DriverError>),
}

impl View for Event {
    type V = EventModel;

    open spec fn view(&self) -> EventModel {
        match self {
            Event::Command(c) => EventModel::Command(c@),
            Event::Timeout => EventModel::Timeout,
            Event::ScanFinished(Ok(s)) => EventModel::ScanFinished(Ok(scan_model(s@))),
            Event::ScanFinished(Err(e)) => EventModel::ScanFinished(Err(*e)),
            Event::ApplyFinished(r) => EventModel::ApplyFinished(*r),
        }
    }
}

/// What the manager asks of the radio or its observer next.
#[derive(Debug, PartialEq, Eq)]
pub enum Action {
    /// Scan for networks and hand back the result.
    Scan,
    /// Apply this configuration to the radio and hand back whether it worked.
    Apply(RadioTarget),
    /// Send this status to the observer; the pass is over.
    Report(WifiStatus),
}

/// Mathematical picture of an `Action`.
pub enum ActionModel {
    Scan,
    Apply(TargetModel),
    Report(StatusModel),
}

impl View for Action {
    type V = ActionModel;

    open spec fn view(&self) -> ActionModel {
        match self {
            Action::Scan => ActionModel::Scan,
            Action::Apply(t) => ActionModel::Apply(t@),
            Action::Report(s) => ActionModel::Report(s@),
        }
    }
}

/// Where a reconciliation pass stands, with what to report once the radio answers.
#[derive(Debug, PartialEq, Eq)]
enum Pending {
    Ready,
    Scanning,
    Applying(WifiStatus, WifiError),
}

/// Where a reconciliation pass stands.
pub enum PendingModel {
    /// Waiting for a command or the end of the rescan period.
    Ready,
    /// Waiting for a scan.
    Scanning,
    /// Waiting for a configuration to be applied: the status to report on success,
    /// and the error to report on failure.
    Applying(StatusModel, ErrorModel),
}

/// Mathematical picture of a `WifiActor`.
pub struct ActorModel {
    pub store: StoreModel,
    pub pending: PendingModel,
}

/// The store after a command.
pub open spec fn store_after(store: StoreModel, cmd: CommandModel) -> StoreModel {
    match cmd {
        CommandModel::ConnectWPA2PSK(n, k) => StoreModel {
            clients: store.clients.insert(n, wpa2_client(n, k)),
            ap: store.ap,
        },
        CommandModel::CreateApWPA2PSK(n, k) => StoreModel {
            clients: store.clients,
            ap: Some(wpa2_ap(n, k)),
        },
    }
}

/// How a reconciliation pass starts on a store: with no client networks it brings up the
/// access point alone (no scan), or reports `Disconnected` when there is none; otherwise
/// it scans.
pub open spec fn begin_pass(store: StoreModel) -> (PendingModel, ActionModel) {
    if store.clients.dom() == Set::<Seq<char>>::empty() {
        match store.ap {
            Some(a) => (
                PendingModel::Applying(
                    StatusModel::ApOnly(a.ssid),
                    ErrorModel::Fatal(ap_failure_message()),
                ),
                ActionModel::Apply(TargetModel::AccessPointOnly(a)),
            ),
            None => (PendingModel::Ready, ActionModel::Report(StatusModel::Disconnected)),
        }
    } else {
        (PendingModel::Scanning, ActionModel::Scan)
    }
}

/// How a pass goes on after a scan: the first scanned network that is a known client
/// network is joined (with the access point, when one is set); no fallback to a later
/// one. No known network in the scan: `Disconnected`. A failed scan: the driver error.
pub open spec fn after_scan(
    store: StoreModel,
    scan: Result<Seq<(Seq<char>, u8)>, DriverError>,
) -> (PendingModel, ActionModel) {
    match scan {
        Err(_) => (
            PendingModel::Ready,
            ActionModel::Report(StatusModel::Error(ErrorModel::Fatal(driver_failure_message()))),
        ),
        Ok(s) => match first_known(store.clients, s) {
            Some(i) => (
                PendingModel::Applying(
                    StatusModel::Connected(s[i].0, s[i].1),
                    ErrorModel::NetworkNotFound(s[i].0),
                ),
                ActionModel::Apply(client_target(store, store.clients[s[i].0])),
            ),
            None => (PendingModel::Ready, ActionModel::Report(StatusModel::Disconnected)),
        },
    }
}

/// Whether a state waits for an event of this kind.
pub open spec fn awaits(pending: PendingModel, ev: EventModel) -> bool {
    match pending {
        PendingModel::Ready => ev is Command || ev is Timeout,
        PendingModel::Scanning => ev is ScanFinished,
        PendingModel::Applying(_, _) => ev is ApplyFinished,
    }
}

/// One step of the manager: the next state and the action to perform.
pub open spec fn step_spec(m: ActorModel, ev: EventModel) -> (ActorModel, ActionModel) {
    match ev {
        EventModel::Command(c) => {
            let store = store_after(m.store, c);
            let (p, a) = begin_pass(store);
            (ActorModel { store, pending: p }, a)
        },
        EventModel::Timeout => (
            ActorModel { store: m.store, pending: PendingModel::Ready },
            ActionModel::Report(StatusModel::Disconnected),
        ),
        EventModel::ScanFinished(r) => {
            let (p, a) = after_scan(m.store, r);
            (ActorModel { store: m.store, pending: p }, a)
        },
        EventModel::ApplyFinished(r) => {
            let a = match (m.pending, r) {
                (PendingModel::Applying(ok, _), Ok(_)) => ActionModel::Report(ok),
                (PendingModel::Applying(_, err), Err(_)) => ActionModel::Report(
                    StatusModel::Error(err),
                ),
                _ => ActionModel::Report(StatusModel::Disconnected),
            };
            (ActorModel { store: m.store, pending: PendingModel::Ready }, a)
        },
    }
}

/// The manager's decisions: it owns the configuration and, fed the events that the radio
/// and the command queue produce, says what to do next.
pub struct WifiActor {
    store: ConfigStore,
    pending: Pending,
}

impl View for WifiActor {
    type V = ActorModel;

    closed spec fn view(&self) -> ActorModel {
        ActorModel {
            store: self.store@,
            pending: match self.pending {
                Pending::Ready => PendingModel::Ready,
                Pending::Scanning => PendingModel::Scanning,
                Pending::Applying(s, e) => PendingModel::Applying(s@, e@),
            },
        }
    }
}

impl WifiActor {
    /// The manager's invariant: its store is well formed.
    pub closed spec fn wf(&self) -> bool {
        self.store.wf()
    }

    /// A manager with an empty configuration, waiting for its first command.
    pub fn new() -> (r: WifiActor)
        ensures
            r.wf(),
            r@.store.clients == Map::<Seq<char>, crate::config::ClientModel>::empty(),
            r@.store.ap is None,
            r@.pending is Ready,
    {
        WifiActor { store: ConfigStore::new(), pending: Pending::Ready }
    }

    /// The configuration the manager holds.
    pub fn store(&self) -> (r: &ConfigStore)
        requires
            self.wf(),
        ensures
            r.wf(),
            r@ == self@.store,
    {
        &self.store
    }

    /// Whether the manager waits for an event of this kind.
    pub fn accepts(&self, ev: &Event) -> (r: bool)
        ensures
            r == awaits(self@.pending, ev@),
    {
        match (&self.pending, ev) {
            (Pending::Ready, Event::Command(_)) => true,
            (Pending::Ready, Event::Timeout) => true,
            (Pending::Scanning, Event::ScanFinished(_)) => true,
            (Pending::Applying(_, _), Event::ApplyFinished(_)) => true,
            _ => false,
        }
    }

    fn begin_pass(&mut self) -> (r: Action)
        requires
            old(self).wf(),
        ensures
            final(self).wf(),
            final(self)@.store == old(self)@.store,
            (final(self)@.pending, r@) == begin_pass(old(self)@.store),
    {
        if self.store.has_no_clients() {
            assert(self@.store.clients.dom() =~= Set::<Seq<char>>::empty());
            match self.store.access_point() {
                Some(a) => {
                    let ap = a.duplicate();
                    let name = ap.ssid.clone();
                    self.pending = Pending::Applying(
                        WifiStatus::ApOnly(name),
                        WifiError::Fatal("Failed to create AP".to_owned()),
                    );
                    Action::Apply(RadioTarget::AccessPointOnly(ap))
                },
                None => {
                    self.pending = Pending::Ready;
                    Action::Report(WifiStatus::Disconnected)
                },
            }
        } else {
            assert(self@.store.clients.dom() != Set::<Seq<char>>::empty()) by {
                if self@.store.clients.dom() == Set::<Seq<char>>::empty() {
                    assert(self@.store.clients =~= Map::<Seq<char>, crate::config::ClientModel>::empty());
                }
            }
            self.pending = Pending::Scanning;
            Action::Scan
        }
    }

    fn after_scan(&mut self, scan: Result<Vec<ScanEntry>, DriverError>) -> (r: Action)
        requires
            old(self).wf(),
        ensures
            final(self).wf(),
            final(self)@.store == old(self)@.store,
            (final(self)@.pending, r@) == after_scan(
                old(self)@.store,
                match scan {
                    Ok(s) => Ok(scan_model(s@)),
                    Err(e) => Err(e),
                },
            ),
    {
        match scan {
            Err(e) => {
                self.pending = Pending::Ready;
                Action::Report(WifiStatus::Error(WifiError::from(e)))
            },
            Ok(entries) => match select_network(&self.store, &entries) {
                Some(i) => {
                    let entry = &entries[i];
                    let client = self.store.lookup_client(&entry.ssid);
                    match client {
                        Some(c) => {
                            let target = make_client_target(&self.store, c);
                            self.pending = Pending::Applying(
                                WifiStatus::Connected(entry.ssid.clone(), entry.signal_strength),
                                WifiError::NetworkNotFound(entry.ssid.clone()),
                            );
                            Action::Apply(target)
                        },
                        None => {
                            self.pending = Pending::Ready;
                            Action::Report(WifiStatus::Disconnected)
                        },
                    }
                },
                None => {
                    self.pending = Pending::Ready;
                    Action::Report(WifiStatus::Disconnected)
                },
            },
        }
    }

    /// Takes one event and says what to do next. A command changes the configuration
    /// and starts a reconciliation pass; the rescan period passing reports `Disconnected`
    /// and changes nothing; a scan or an apply result carries the pass on.
    pub fn step(&mut self, ev: Event) -> (r: Action)
        requires
            old(self).wf(),
            awaits(old(self)@.pending, ev@),
        ensures
            final(self).wf(),
            (final(self)@, r@) == step_spec(old(self)@, ev@),
    {
        match ev {
            Event::Command(WifiCommand::ConnectWPA2PSK(ssid, key)) => {
                self.store.register_client(ssid, key);
                self.begin_pass()
            },
            Event::Command(WifiCommand::CreateApWPA2PSK(ssid, key)) => {
                self.store.set_access_point(ssid, key);
                self.begin_pass()
            },
            Event::Timeout => {
                self.pending = Pending::Ready;
                Action::Report(WifiStatus::Disconnected)
            },
            Event::ScanFinished(scan) => self.after_scan(scan),
            Event::ApplyFinished(result) => {
                let mut pending = Pending::Ready;
                std::mem::swap(&mut pending, &mut self.pending);
                match (pending, result) {
                    (Pending::Applying(ok, _), Ok(())) => Action::Report(ok),
                    (Pending::Applying(_, err), Err(_)) => Action::Report(WifiStatus::Error(err)),
                    _ => Action::Report(WifiStatus::Disconnected),
                }
            },
        }
    }
}

} // verus!
