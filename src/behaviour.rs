use vstd::prelude::*;

use crate::actor::{
    step_spec, store_after, ActionModel, ActorModel, CommandModel, EventModel, PendingModel,
};
use crate::config::{wpa2_ap, wpa2_client, ClientModel, StoreModel};
use crate::engine::{first_known, is_first_known, lemma_first_known_unique, StatusModel, TargetModel};

verus! {

/// The store after registering each (name, key) pair in turn.
pub open spec fn register_all(store: StoreModel, regs: Seq<(Seq<char>, Seq<char>)>) -> StoreModel
    decreases regs.len(),
{
    if regs.len() == 0 {
        store
    } else {
        let last = regs.last();
        store_after(register_all(store, regs.drop_last()), CommandModel::ConnectWPA2PSK(last.0, last.1))
    }
}

/// The names of a sequence of registrations, in order.
pub open spec fn reg_names(regs: Seq<(Seq<char>, Seq<char>)>) -> Seq<Seq<char>> {
    regs.map_values(|r: (Seq<char>, Seq<char>)| r.0)
}

/// Registering client networks one after the other leaves the access point alone, adds
/// exactly the registered names to the known ones, and keeps for each name the key of its
/// last registration.
pub proof fn lemma_register_all(store: StoreModel, regs: Seq<(Seq<char>, Seq<char>)>)
    ensures
        register_all(store, regs).ap == store.ap,
        register_all(store, regs).clients.dom() == store.clients.dom() + reg_names(regs).to_set(),
        forall|i: int|
            0 <= i < regs.len() && (forall|j: int| i < j < regs.len() ==> regs[j].0 != regs[i].0)
                ==> #[trigger] register_all(store, regs).clients[regs[i].0] == wpa2_client(
                regs[i].0,
                regs[i].1,
            ),
        forall|n: Seq<char>|
            !reg_names(regs).contains(n) && #[trigger] register_all(store, regs).clients.dom().contains(n)
                ==> register_all(store, regs).clients[n] == store.clients[n],
    decreases regs.len(),
{
    if regs.len() > 0 {
        let prev = regs.drop_last();
        lemma_register_all(store, prev);
        let last = regs.last();
        assert(reg_names(regs) =~= reg_names(prev).push(last.0));
        assert(reg_names(regs).to_set() =~= reg_names(prev).to_set().insert(last.0)) by {
            assert(reg_names(regs)[regs.len() - 1] == last.0);
            assert forall|n: Seq<char>| reg_names(regs).to_set().contains(n)
                implies reg_names(prev).to_set().insert(last.0).contains(n) by {
                let k = choose|k: int| 0 <= k < reg_names(regs).len() && reg_names(regs)[k] == n;
                if k < prev.len() {
                    assert(reg_names(prev)[k] == n);
                }
            }
            assert forall|n: Seq<char>| reg_names(prev).to_set().contains(n)
                implies reg_names(regs).to_set().contains(n) by {
                let k = choose|k: int| 0 <= k < reg_names(prev).len() && reg_names(prev)[k] == n;
                assert(reg_names(regs)[k] == n);
            }
        }
        assert(register_all(store, regs).clients.dom() =~= store.clients.dom()
            + reg_names(regs).to_set());
        assert forall|i: int|
            0 <= i < regs.len() && (forall|j: int| i < j < regs.len() ==> regs[j].0 != regs[i].0)
                implies #[trigger] register_all(store, regs).clients[regs[i].0] == wpa2_client(
                regs[i].0,
                regs[i].1,
            ) by {
            if i < regs.len() - 1 {
                assert(regs[regs.len() - 1].0 != regs[i].0);
                assert(prev[i] == regs[i]);
                assert forall|j: int| i < j < prev.len() implies prev[j].0 != prev[i].0 by {
                    assert(prev[j] == regs[j]);
                }
            }
        }
        assert forall|n: Seq<char>|
            !reg_names(regs).contains(n) && #[trigger] register_all(store, regs).clients.dom().contains(n)
                implies register_all(store, regs).clients[n] == store.clients[n] by {
            assert(reg_names(regs)[regs.len() - 1] == last.0);
            if reg_names(prev).contains(n) {
                let k = choose|k: int| 0 <= k < reg_names(prev).len() && reg_names(prev)[k] == n;
                assert(reg_names(regs)[k] == n);
            }
        }
    }
}

/// Registering client networks with pairwise distinct names on a store that knows none
/// leaves exactly one entry per name.
pub proof fn lemma_register_distinct(store: StoreModel, regs: Seq<(Seq<char>, Seq<char>)>)
    requires
        store.clients == Map::<Seq<char>, ClientModel>::empty(),
        reg_names(regs).no_duplicates(),
    ensures
        register_all(store, regs).clients.dom() == reg_names(regs).to_set(),
        register_all(store, regs).clients.dom().finite(),
        register_all(store, regs).clients.len() == regs.len(),
        forall|i: int|
            0 <= i < regs.len() ==> #[trigger] register_all(store, regs).clients[regs[i].0]
                == wpa2_client(regs[i].0, regs[i].1),
{
    lemma_register_all(store, regs);
    assert(store.clients.dom() + reg_names(regs).to_set() =~= reg_names(regs).to_set());
    reg_names(regs).unique_seq_to_set();
    assert forall|i: int| 0 <= i < regs.len() implies #[trigger] register_all(store, regs).clients[regs[i].0]
        == wpa2_client(regs[i].0, regs[i].1) by {
        assert forall|j: int| i < j < regs.len() implies regs[j].0 != regs[i].0 by {
            assert(reg_names(regs)[i] != reg_names(regs)[j]);
        }
    }
}

/// A waiting manager given a client network while no access point is set scans; when the
/// scan shows that network before any other known one, the manager joins it alone, and once
/// that is applied reports it connected with the strength the scan gave.
pub proof fn lemma_client_only_connects(
    m: ActorModel,
    name: Seq<char>,
    key: Seq<char>,
    scan: Seq<(Seq<char>, u8)>,
    i: int,
)
    requires
        m.pending is Ready,
        m.store.ap is None,
        0 <= i < scan.len(),
        scan[i].0 == name,
        forall|j: int| 0 <= j < i ==> scan[j].0 != name && !m.store.clients.contains_key(#[trigger] scan[j].0),
    ensures
        ({
            let (m1, a1) = step_spec(m, EventModel::Command(CommandModel::ConnectWPA2PSK(name, key)));
            let (m2, a2) = step_spec(m1, EventModel::ScanFinished(Ok(scan)));
            let (m3, a3) = step_spec(m2, EventModel::ApplyFinished(Ok(())));
            &&& a1 == ActionModel::Scan
            &&& a2 == ActionModel::Apply(TargetModel::Client(wpa2_client(name, key)))
            &&& a3 == ActionModel::Report(StatusModel::Connected(name, scan[i].1))
            &&& m3.pending is Ready
        }),
{
    let (m1, a1) = step_spec(m, EventModel::Command(CommandModel::ConnectWPA2PSK(name, key)));
    assert(m1.store.clients.contains_key(name));
    assert(m1.store.clients.dom() != Set::<Seq<char>>::empty()) by {
        assert(m1.store.clients.dom().contains(name));
    }
    assert(is_first_known(m1.store.clients, scan, i));
    lemma_first_known_unique(m1.store.clients, scan, i);
}

/// A waiting manager with no client networks, given an access point, brings it up alone
/// without scanning, and once that is applied reports the access point's name.
pub proof fn lemma_ap_only(m: ActorModel, name: Seq<char>, key: Seq<char>)
    requires
        m.pending is Ready,
        m.store.clients == Map::<Seq<char>, ClientModel>::empty(),
    ensures
        ({
            let (m1, a1) = step_spec(m, EventModel::Command(CommandModel::CreateApWPA2PSK(name, key)));
            let (m2, a2) = step_spec(m1, EventModel::ApplyFinished(Ok(())));
            &&& a1 == ActionModel::Apply(TargetModel::AccessPointOnly(wpa2_ap(name, key)))
            &&& a2 == ActionModel::Report(StatusModel::ApOnly(name))
            &&& m2.pending is Ready
        }),
{
    assert(m.store.clients.dom() =~= Set::<Seq<char>>::empty());
}

/// With an access point set, the known network that a scan shows first is joined together
/// with the access point, and the pass reports that client network as connected.
pub proof fn lemma_mixed_connects(m: ActorModel, scan: Seq<(Seq<char>, u8)>, i: int)
    requires
        m.pending is Scanning,
        m.store.ap is Some,
        is_first_known(m.store.clients, scan, i),
    ensures
        ({
            let (m1, a1) = step_spec(m, EventModel::ScanFinished(Ok(scan)));
            let (m2, a2) = step_spec(m1, EventModel::ApplyFinished(Ok(())));
            &&& a1 == ActionModel::Apply(
                TargetModel::Mixed(m.store.clients[scan[i].0], m.store.ap.unwrap()),
            )
            &&& a2 == ActionModel::Report(StatusModel::Connected(scan[i].0, scan[i].1))
            &&& m2.store == m.store
        }),
{
    lemma_first_known_unique(m.store.clients, scan, i);
}

/// A scan that shows none of the known networks ends the pass with `Disconnected` and
/// leaves the configuration as it was.
pub proof fn lemma_no_known_network(m: ActorModel, scan: Seq<(Seq<char>, u8)>)
    requires
        m.pending is Scanning,
        forall|j: int| 0 <= j < scan.len() ==> !m.store.clients.contains_key(#[trigger] scan[j].0),
    ensures
        step_spec(m, EventModel::ScanFinished(Ok(scan))) == (
            ActorModel { store: m.store, pending: PendingModel::Ready },
            ActionModel::Report(StatusModel::Disconnected),
        ),
{
    assert(first_known(m.store.clients, scan) is None);
}

/// Of two known networks in one scan, with no known one before them, the earlier in the
/// scan's order is joined, whatever their signal strengths.
pub proof fn lemma_earlier_known_wins(m: ActorModel, scan: Seq<(Seq<char>, u8)>, i: int, j: int)
    requires
        m.pending is Scanning,
        0 <= i < j < scan.len(),
        m.store.clients.contains_key(scan[i].0),
        m.store.clients.contains_key(scan[j].0),
        forall|l: int| 0 <= l < i ==> !m.store.clients.contains_key(#[trigger] scan[l].0),
    ensures
        first_known(m.store.clients, scan) == Some(i),
        ({
            let (m1, a1) = step_spec(m, EventModel::ScanFinished(Ok(scan)));
            let (m2, a2) = step_spec(m1, EventModel::ApplyFinished(Ok(())));
            a2 == ActionModel::Report(StatusModel::Connected(scan[i].0, scan[i].1))
        }),
{
    assert(is_first_known(m.store.clients, scan, i));
    lemma_first_known_unique(m.store.clients, scan, i);
}

/// When the rescan period passes with no command, the manager reports `Disconnected` once
/// and its configuration stays as it was.
pub proof fn lemma_idle_tick(m: ActorModel)
    requires
        m.pending is Ready,
    ensures
        step_spec(m, EventModel::Timeout) == (
            ActorModel { store: m.store, pending: PendingModel::Ready },
            ActionModel::Report(StatusModel::Disconnected),
        ),
{
}

} // verus!
