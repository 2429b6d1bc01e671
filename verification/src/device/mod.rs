//! Devices
pub mod block;

use vstd::prelude::*;
use std::collections::BTreeMap;
use std::sync::Arc;
use crate::device::block::BlockDevice;

verus! {

broadcast use vstd::laws_cmp::group_laws_cmp, vstd::std_specs::btree::group_btree_axioms;

/// The device id is a unique identifier for a device
#[derive(Debug, Clone, Copy, PartialEq, Eq, Structural)]
pub struct DeviceId(pub u64);

impl From<u64> for DeviceId {
    fn from(value: u64) -> (id: DeviceId) {
        DeviceId(value)
    }
}

impl vstd::std_specs::convert::FromSpecImpl<u64> for DeviceId {
    open spec fn obeys_from_spec() -> bool {
        true
    }

    open spec fn from_spec(v: u64) -> DeviceId {
        DeviceId(v)
    }
}

/// A device register
pub struct DeviceRegister<T> {
    devices: BTreeMap<u64, T>,
    next_id: u64,
}

impl<T> DeviceRegister<T> {
    /// The registered devices, by device id.
    pub closed spec fn devices(&self) -> Map<u64, T> {
        self.devices@
    }

    /// The id given to the last device registered, zero before the first.
    pub closed spec fn last_id(&self) -> u64 {
        self.next_id
    }

    /// Every registered device has an id that was given out.
    pub closed spec fn wf(&self) -> bool {
        forall|id: u64| #[trigger] self.devices@.contains_key(id) ==> 0 < id <= self.next_id
    }

    /// Create a new device register
    pub fn new() -> (register: DeviceRegister<T>)
        ensures
            register.wf(),
            register.devices() == Map::<u64, T>::empty(),
            register.last_id() == 0,
    {
        DeviceRegister { devices: BTreeMap::new(), next_id: 0 }
    }

    /// Register a new device under the next device id and return that id
    pub fn register(&mut self, device: T) -> (id: DeviceId)
        requires
            old(self).wf(),
            old(self).last_id() < u64::MAX,
        ensures
            final(self).wf(),
            id.0 == old(self).last_id() + 1,
            final(self).last_id() == id.0,
            !old(self).devices().contains_key(id.0),
            final(self).devices() == old(self).devices().insert(id.0, device),
    {
        self.next_id = self.next_id + 1;
        let device_id = DeviceId::from(self.next_id);
        self.devices.insert(device_id.0, device);
        device_id
    }
}

/// The device manager stores device registers for all device types
pub struct DeviceManager<B> {
    pub block_devices: DeviceRegister<Arc<B>>,
}

impl<B: BlockDevice> DeviceManager<B> {
    /// Create a new device manager
    pub fn new() -> (manager: DeviceManager<B>)
        ensures
            manager.block_devices.wf(),
            manager.block_devices.devices() == Map::<u64, Arc<B>>::empty(),
            manager.block_devices.last_id() == 0,
    {
        DeviceManager { block_devices: DeviceRegister::new() }
    }
}

} // verus!
