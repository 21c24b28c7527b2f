//! The device-listing and connection-management logic.
//!
//! Enumerating devices and opening a serial channel are host work that a
//! shell around this library performs; every decision in between is made
//! here, as a function of the outcomes the shell hands in. A connect attempt
//! runs in two verified steps: `plan_connect` turns a fresh enumeration and
//! the requested port into the action to take, and `finish_connect` turns
//! the outcome of the open step into the final result, storing the new
//! connection on success. `list_devices` turns an enumeration into the port
//! listing handed to the user.

use vstd::prelude::*;

use crate::device::DeviceDescriptor;
use crate::device::find_port_index;
use crate::device::first_match;
use crate::device::has_port;
use crate::device::list_ports;
use crate::device::port_names;
use crate::error::ConnectError;
use crate::state::AppState;
use crate::state::Connection;
use crate::state::stored;

verus! {

/// What a connect attempt does after the fresh enumeration: either fail
/// outright, or open the device at this index of the enumeration.
pub enum ConnectAction {
    Fail(ConnectError),
    Open(usize),
}

/// An enumeration outcome, as contracts speak of it: the descriptors the
/// host yielded, or the failure's message.
pub open spec fn enum_model(found: Result<Vec<DeviceDescriptor>, String>) -> Result<
    Seq<DeviceDescriptor>,
    Seq<char>,
> {
    match found {
        Ok(devices) => Ok(devices@),
        Err(m) => Err(m@),
    }
}

/// Everything a device listing must satisfy, given the enumeration outcome:
/// a successful enumeration yields exactly its port names, in order, and a
/// failed one yields an enumeration error carrying its message.
pub open spec fn listing_outcome(
    found: Result<Seq<DeviceDescriptor>, Seq<char>>,
    r: Result<Vec<String>, ConnectError>,
) -> bool {
    &&& (found matches Ok(ds) ==> r matches Ok(ports) && ports@.len() == ds.len() && (forall|
        i: int,
    |
        0 <= i < ds.len() ==> ports@[i]@ == port_names(ds)[i]))
    &&& (found matches Err(m) ==> r matches Err(ConnectError::Enumeration(m2)) && m2@ == m)
}

/// Everything a connect plan must satisfy, given the enumeration outcome and
/// the requested port: open the first matching device when one exists, fail
/// with a device-not-found error naming the port when none does, and fail
/// with an enumeration error when the enumeration itself failed.
pub open spec fn plan_outcome(
    found: Result<Seq<DeviceDescriptor>, Seq<char>>,
    port: Seq<char>,
    a: ConnectAction,
) -> bool {
    &&& (found matches Ok(ds) ==> {
        &&& (has_port(ds, port) ==> {
            &&& a matches ConnectAction::Open(i)
            &&& first_match(ds, port, i as int)
        })
        &&& (!has_port(ds, port) ==> {
            &&& a matches ConnectAction::Fail(ConnectError::DeviceNotFound(p))
            &&& p@ == port
        })
    })
    &&& (found matches Err(m) ==> a matches ConnectAction::Fail(ConnectError::Enumeration(m2))
        && m2@ == m)
}

/// The port listing handed to the user, given a fresh enumeration outcome.
pub fn list_devices(found: Result<Vec<DeviceDescriptor>, String>) -> (r: Result<
    Vec<String>,
    ConnectError,
>)
    ensures
        listing_outcome(enum_model(found), r),
{
    match found {
        Ok(devices) => Ok(list_ports(&devices)),
        Err(m) => Err(ConnectError::Enumeration(m)),
    }
}

/// The action a connect attempt takes after the fresh enumeration: the
/// decision depends on nothing but the enumeration and the requested port.
pub fn plan_connect(found: Result<Vec<DeviceDescriptor>, String>, port: &String) -> (a:
    ConnectAction)
    ensures
        plan_outcome(enum_model(found), port@, a),
{
    match found {
        Ok(devices) => match find_port_index(&devices, port) {
            Some(i) => ConnectAction::Open(i),
            None => ConnectAction::Fail(ConnectError::DeviceNotFound(port.clone())),
        },
        Err(m) => ConnectAction::Fail(ConnectError::Enumeration(m)),
    }
}

/// The end of a connect attempt, given the outcome of the open step: a
/// successful open stores the new connection, tagged with the requested
/// port, in place of whatever the state held; a failed open leaves the state
/// exactly as it was and reports a connection error with the underlying
/// message.
pub fn finish_connect<H>(
    state: &mut AppState<H>,
    port: String,
    opened: Result<H, String>,
) -> (r: Result<(), ConnectError>)
    ensures
        opened matches Ok(h) ==> r is Ok && *(final(state)) == stored(
            *old(state),
            (Connection { port: port, handle: h }),
        ),
        opened matches Err(m) ==> r matches Err(ConnectError::Connection(m2)) && m2 == m && *(
        final(state)) == *old(state),
{
    match opened {
        Ok(h) => {
            state.set_connection(Connection { port, handle: h });
            Ok(())
        },
        Err(m) => Err(ConnectError::Connection(m)),
    }
}

/// Law: an enumeration that succeeds while no devices are attached yields an
/// empty port listing, not an error.
pub proof fn lemma_empty_enumeration_lists_nothing(
    found: Result<Seq<DeviceDescriptor>, Seq<char>>,
    r: Result<Vec<String>, ConnectError>,
)
    requires
        listing_outcome(found, r),
        found matches Ok(ds) && ds.len() == 0,
    ensures
        r matches Ok(ports) && ports@.len() == 0,
{
}

/// Law: a port absent from the fresh enumeration always makes the connect
/// attempt fail with a device-not-found error naming that port. The plan
/// depends on nothing but the enumeration and the port, so no prior
/// successful connect can change this.
pub proof fn lemma_absent_port_always_fails(
    found: Result<Seq<DeviceDescriptor>, Seq<char>>,
    port: Seq<char>,
    a: ConnectAction,
)
    requires
        plan_outcome(found, port, a),
        found matches Ok(ds) && !has_port(ds, port),
    ensures
        a matches ConnectAction::Fail(ConnectError::DeviceNotFound(p)) && p@ == port,
{
}

/// Law: a failed enumeration ends the connect attempt during planning, with
/// an enumeration error carrying the underlying message; no device is
/// opened, and the state cell, which only `finish_connect` writes, is never
/// reached.
pub proof fn lemma_enumeration_failure_plans_no_open(
    found: Result<Seq<DeviceDescriptor>, Seq<char>>,
    port: Seq<char>,
    a: ConnectAction,
)
    requires
        plan_outcome(found, port, a),
        found matches Err(_),
    ensures
        a matches ConnectAction::Fail(e) && e is Enumeration,
        a !is Open,
{
}

} // verus!
