//! Connection acquisition: the decisions of the retry protocol, and the
//! device-list bookkeeping around it.
//!
//! Opening a device, resolving its service and reading a characteristic are
//! the transport's work; this module decides, from each attempt's outcome,
//! whether the handle is usable, whether to retry the same device, or
//! whether to move on to the next candidate. The liveness rule is central: a
//! battery probe that reads zero marks the connection suspicious, and no
//! such attempt ever yields a handle.

use vstd::prelude::*;

verus! {

/// How the target cube is addressed: by its paired-device identity, or by a
/// raw BLE address.
#[derive(Debug, Copy, Clone, PartialEq, Eq, Structural)]
pub enum ConnectMode {
    PairedId,
    Address,
}

/// What one connection attempt came to, as the transport reports it: the
/// open itself failed, the cube's service was missing, the battery probe
/// could not be read, or the probe returned a level.
#[derive(Debug, Copy, Clone, PartialEq, Eq, Structural)]
pub enum ProbeOutcome {
    OpenFailed,
    ServiceNotFound,
    BatteryReadFailed,
    BatteryLevel(u8),
}

/// What the retry protocol does next: keep the handle, retry the same
/// device, or move on to the next candidate.
#[derive(Debug, Copy, Clone, PartialEq, Eq, Structural)]
pub enum ConnectDecision {
    Accept,
    RetrySame,
    TryNext,
}

/// The retry protocol's decision table. A handle is kept only on a battery
/// level above zero; zero marks the connection suspicious and the same
/// device is retried. A missing service is fatal for that device. A failed
/// open or probe read moves to the next candidate when searching the paired
/// list, and retries when a fixed address was given (there is no next
/// candidate to move to).
pub open spec fn probe_decision_model(mode: ConnectMode, outcome: ProbeOutcome) -> ConnectDecision {
    match outcome {
        ProbeOutcome::BatteryLevel(level) => if level == 0 {
            ConnectDecision::RetrySame
        } else {
            ConnectDecision::Accept
        },
        ProbeOutcome::ServiceNotFound => ConnectDecision::TryNext,
        ProbeOutcome::BatteryReadFailed => match mode {
            ConnectMode::PairedId => ConnectDecision::TryNext,
            ConnectMode::Address => ConnectDecision::RetrySame,
        },
        ProbeOutcome::OpenFailed => match mode {
            ConnectMode::PairedId => ConnectDecision::TryNext,
            ConnectMode::Address => ConnectDecision::RetrySame,
        },
    }
}

/// Decides what the retry loop does after one connection attempt.
pub fn probe_decision(mode: ConnectMode, outcome: &ProbeOutcome) -> (d: ConnectDecision)
    ensures
        d == probe_decision_model(mode, *outcome),
{
    match outcome {
        ProbeOutcome::BatteryLevel(level) => {
            if *level == 0 {
                ConnectDecision::RetrySame
            } else {
                ConnectDecision::Accept
            }
        },
        ProbeOutcome::ServiceNotFound => ConnectDecision::TryNext,
        ProbeOutcome::BatteryReadFailed => match mode {
            ConnectMode::PairedId => ConnectDecision::TryNext,
            ConnectMode::Address => ConnectDecision::RetrySame,
        },
        ProbeOutcome::OpenFailed => match mode {
            ConnectMode::PairedId => ConnectDecision::TryNext,
            ConnectMode::Address => ConnectDecision::RetrySame,
        },
    }
}

/// Liveness is asserted here and only here: an attempt yields a handle
/// exactly when its battery probe read a level above zero. In particular, a
/// probe that read zero never produces a handle — the loop retries or
/// reports failure instead.
pub proof fn lemma_no_handle_for_dead_battery(mode: ConnectMode, outcome: ProbeOutcome)
    ensures
        probe_decision_model(mode, outcome) == ConnectDecision::Accept <==> (outcome matches
            ProbeOutcome::BatteryLevel(level) && level > 0),
{
}

/// Collects the device identities that an enumeration of paired cubes
/// produced, in order. Fails — as the enumeration does — when any entry
/// came without an identity.
pub fn get_ble_devices(ids: &Vec<Option<String>>) -> (r: Result<Vec<String>, String>)
    ensures
        r is Ok <==> (forall|i: int| 0 <= i < ids@.len() ==> (#[trigger] ids@[i]) is Some),
        r matches Ok(list) ==> {
            &&& list@.len() == ids@.len()
            &&& forall|i: int| 0 <= i < ids@.len() ==> (#[trigger] list@[i])@ == ids@[i]->0@
        },
{
    let mut out: Vec<String> = Vec::new();
    let mut i: usize = 0;
    while i < ids.len()
        invariant
            i <= ids@.len(),
            out@.len() == i,
            forall|j: int| 0 <= j < i ==> (#[trigger] ids@[j]) is Some,
            forall|j: int| 0 <= j < i ==> (#[trigger] out@[j])@ == ids@[j]->0@,
        decreases ids@.len() - i,
    {
        match &ids[i] {
            Some(id) => out.push(id.clone()),
            None => {
                return Err("Error: get_id()".to_string());
            },
        }
        i = i + 1;
    }
    Ok(out)
}

/// The outcome of watching advertisements for one address: the address
/// itself, once, when some observed advertisement carried it; nothing
/// otherwise. The watching is the transport's; this keeps its bookkeeping.
pub fn get_ble_device_from_address(address: u64, observed: &Vec<u64>) -> (r: Result<
    Vec<u64>,
    String,
>)
    ensures
        r is Ok,
        r matches Ok(list) ==> {
            &&& observed@.contains(address) ==> list@ == seq![address]
            &&& !observed@.contains(address) ==> list@ == Seq::<u64>::empty()
        },
{
    let mut found = false;
    let mut i: usize = 0;
    while i < observed.len()
        invariant
            i <= observed@.len(),
            found == exists|j: int| 0 <= j < i && observed@[j] == address,
        decreases observed@.len() - i,
    {
        if !found && observed[i] == address {
            found = true;
        }
        i = i + 1;
    }
    let mut adrs_list: Vec<u64> = Vec::new();
    if found {
        adrs_list.push(address);
        proof {
            assert(adrs_list@ =~= seq![address]);
        }
    } else {
        proof {
            assert(adrs_list@ =~= Seq::<u64>::empty());
        }
    }
    Ok(adrs_list)
}

} // verus!
