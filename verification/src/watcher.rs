//! What the plugin does when devices come and go.
//!
//! The watcher scans the bus when it starts and whenever a device is plugged
//! in, and starts a session for every N1 that is not registered yet. When a
//! device is unplugged, it cancels the session of that device and withdraws
//! the device from the host.

use crate::device::{device_id, get_device_id, HidInfo};
use crate::registry::IdMap;
use tokio_util::sync::CancellationToken;
use vstd::prelude::*;

verus! {

/// A device was plugged in or unplugged, as the bus reports it.
#[derive(Debug)]
pub enum LifecycleEvent {
    Connected(HidInfo),
    Disconnected(HidInfo),
}

/// A session that is about to start: the id of its device, and the token by
/// which the watcher can cancel it.
#[derive(Debug)]
pub struct Session {
    pub id: String,
    pub token: CancellationToken,
}

/// What the watcher does next.
#[derive(Debug, PartialEq, Eq)]
pub enum WatcherAction {
    /// Scan the bus for devices without a session.
    Rescan,
    /// Withdraw the device with this id from the host.
    Unregister { id: String },
    /// Go on waiting.
    Wait,
    /// The bus reports no more events: stop watching.
    Stop,
}

/// The id of the device for which a scan that finds `dev` starts a session:
/// `dev` has to be an N1 with a serial number that is not registered yet.
pub open spec fn claimable(dev: HidInfo, devices: Map<Seq<char>, ()>) -> Option<Seq<char>> {
    match device_id(dev) {
        Some(id) => if devices.contains_key(id) {
            None
        } else {
            Some(id)
        },
        None => None,
    }
}

/// The id of the device whose session ends with `event`, if there is one.
pub open spec fn departed(event: Option<LifecycleEvent>) -> Option<Seq<char>> {
    match event {
        Some(LifecycleEvent::Disconnected(dev)) => device_id(dev),
        _ => None,
    }
}

/// Looks at a device that a scan has found. Where it needs a session, a
/// fresh token is filed under its id, in place of any that was there, and
/// the session is handed out with the same token.
pub fn claim_session(
    dev: &HidInfo,
    devices: &IdMap<()>,
    tokens: &mut IdMap<CancellationToken>,
) -> (session: Option<Session>)
    ensures
        session is Some <==> claimable(*dev, devices@) is Some,
        session is Some ==> {
            &&& session->0.id@ == claimable(*dev, devices@)->0
            &&& final(tokens)@ == old(tokens)@.insert(session->0.id@, session->0.token)
        },
        session is None ==> final(tokens)@ == old(tokens)@,
{
    match get_device_id(dev) {
        Some(id) => {
            if devices.contains_key(&id) {
                None
            } else {
                let token = CancellationToken::new();
                tokens.insert(id.clone(), token.clone());
                Some(Session { id, token })
            }
        },
        None => None,
    }
}

/// Takes the next event from the bus, or `None` when the bus has closed.
///
/// When an N1 was unplugged, the token of its session is taken out of the
/// token table and cancelled, and the device leaves the device table. No
/// other event changes the tables.
pub fn on_lifecycle_event(
    event: Option<LifecycleEvent>,
    devices: &mut IdMap<()>,
    tokens: &mut IdMap<CancellationToken>,
) -> (action: WatcherAction)
    ensures
        match event {
            None => action is Stop,
            Some(LifecycleEvent::Connected(_)) => action is Rescan,
            Some(LifecycleEvent::Disconnected(dev)) => match device_id(dev) {
                Some(id) => action matches WatcherAction::Unregister { id: gone } && gone@ == id,
                None => action is Wait,
            },
        },
        match departed(event) {
            Some(id) => {
                &&& final(devices)@ == old(devices)@.remove(id)
                &&& final(tokens)@ == old(tokens)@.remove(id)
            },
            None => {
                &&& final(devices)@ == old(devices)@
                &&& final(tokens)@ == old(tokens)@
            },
        },
{
    match event {
        None => WatcherAction::Stop,
        Some(LifecycleEvent::Connected(_)) => WatcherAction::Rescan,
        Some(LifecycleEvent::Disconnected(dev)) => match get_device_id(&dev) {
            Some(id) => {
                if let Some(token) = tokens.remove(&id) {
                    token.cancel();
                }
                devices.remove(&id);
                WatcherAction::Unregister { id }
            },
            None => WatcherAction::Wait,
        },
    }
}

} // verus!
