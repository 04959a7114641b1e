//! The adapter manager: the handle to the radio, and the tasks that start
//! from it.

use vstd::prelude::*;
use crate::btuuid::{
    assigned_numbers, fitness_machine_service, indoor_bike_data_characteristic, FITNESS_MACHINE,
    INDOOR_BIKE_DATA,
};
use crate::discovery::Discovery;
use crate::error::Error;
use crate::session::Session;

verus! {

/// The radio, once it is known to be usable.
///
/// `A` is the handle that the radio stack gives out. It is shared by the
/// discovery and session tasks; the stack serializes access to the
/// hardware.
pub struct BT<A> {
    adapter: A,
}

impl<A> BT<A> {
    /// The handle to the radio.
    pub closed spec fn spec_adapter(&self) -> A {
        self.adapter
    }

    /// Takes what the host answered when it was asked for its first radio
    /// and, where there is one, whether the wait for it to become ready
    /// ended well.
    ///
    /// There is one check and no retry: without a radio, or with one that
    /// did not become ready, the result is `AdapterUnavailable`.
    pub fn init(adapter: Option<A>, ready: bool) -> (r: Result<BT<A>, Error>)
        ensures
            r is Ok <==> adapter is Some && ready,
            r matches Ok(bt) ==> bt.spec_adapter() == adapter->Some_0,
            r matches Err(error) ==> error == Error::AdapterUnavailable,
    {
        match adapter {
            Some(adapter) => {
                if ready {
                    Ok(BT { adapter })
                } else {
                    Err(Error::AdapterUnavailable)
                }
            },
            None => Err(Error::AdapterUnavailable),
        }
    }

    /// The handle to the radio.
    pub fn adapter(&self) -> (adapter: &A)
        ensures
            *adapter == self.spec_adapter(),
    {
        &self.adapter
    }

    /// Begins the task of a scan for devices that advertise the
    /// fitness-machine service.
    pub fn discover_devices(&self) -> (scan: Discovery)
        ensures
            scan == Discovery::spec_new(FITNESS_MACHINE),
    {
        proof {
            assigned_numbers();
        }
        Discovery::new(fitness_machine_service())
    }

    /// Begins the task of a session: it will look for the indoor-bike-data
    /// characteristic of the fitness-machine service.
    pub fn connect(&self) -> (session: Session)
        ensures
            session == Session::spec_new(FITNESS_MACHINE, INDOOR_BIKE_DATA),
    {
        proof {
            assigned_numbers();
        }
        Session::new(fitness_machine_service(), indoor_bike_data_characteristic())
    }
}

} // verus!
