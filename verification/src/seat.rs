//! The capability tracker: which input devices the seat offers, and the one
//! handle the panel may hold for each class of device.

use vstd::prelude::*;

verus! {

/// A capability that a seat can announce or revoke.
#[derive(Clone, Copy, Debug, PartialEq, Eq)]
pub enum Capability {
    Keyboard,
    Pointer,
    Touch,
}

/// The classes of input device that the panel holds a handle for.
#[derive(Clone, Copy, Debug, PartialEq, Eq)]
pub enum DeviceKind {
    Keyboard,
    Pointer,
}

/// Stands for a device object on the compositor's side, by its object id.
#[derive(Clone, Copy, Debug, PartialEq, Eq)]
pub struct DeviceHandle {
    pub id: u32,
}

/// The place of one class of device: whether the seat offers the class, the
/// live handle, if there is one, and whether a device of this class was ever
/// held.
#[derive(Clone, Copy, Debug, PartialEq, Eq)]
pub struct DeviceSlot {
    pub announced: bool,
    pub handle: Option<DeviceHandle>,
    pub established: bool,
}

/// The device class that a capability calls for; the panel takes no touch
/// input.
pub open spec fn device_class(capability: Capability) -> Option<DeviceKind> {
    match capability {
        Capability::Keyboard => Some(DeviceKind::Keyboard),
        Capability::Pointer => Some(DeviceKind::Pointer),
        Capability::Touch => None,
    }
}

impl Capability {
    /// The device class that this capability calls for.
    pub fn device_kind(self) -> (kind: Option<DeviceKind>)
        ensures
            kind == device_class(self),
    {
        match self {
            Capability::Keyboard => Some(DeviceKind::Keyboard),
            Capability::Pointer => Some(DeviceKind::Pointer),
            Capability::Touch => None,
        }
    }
}

impl DeviceSlot {
    /// The slot of a class that the seat has not offered yet.
    pub open spec fn vacant() -> DeviceSlot {
        DeviceSlot { announced: false, handle: None, established: false }
    }

    /// A handle is held only for a class that the seat offers, and a slot
    /// that holds one has been established.
    pub open spec fn wf(self) -> bool {
        self.handle is Some ==> self.announced && self.established
    }

    /// The seat offers the class, and no handle of it is live: a device may
    /// be taken in.
    pub open spec fn awaits(self) -> bool {
        self.announced && self.handle is None
    }

    /// The slot after its capability was announced.
    pub open spec fn after_announce(self) -> DeviceSlot {
        DeviceSlot { announced: true, ..self }
    }

    /// The slot after the seat granted `handle`: a slot that awaits a device
    /// takes it, any other stays as it is.
    pub open spec fn after_grant(self, handle: DeviceHandle) -> DeviceSlot {
        if self.awaits() {
            DeviceSlot { handle: Some(handle), established: true, ..self }
        } else {
            self
        }
    }

    /// The handle that must go back to the seat when `handle` is granted: the
    /// new one, unless the slot takes it.
    pub open spec fn surplus(self, handle: DeviceHandle) -> Option<DeviceHandle> {
        if self.awaits() {
            None
        } else {
            Some(handle)
        }
    }

    /// The slot after its capability was revoked.
    pub open spec fn after_revoke(self) -> DeviceSlot {
        DeviceSlot { announced: false, handle: None, ..self }
    }

    /// A refused device ends the session only while no device of this class
    /// was ever held; afterwards the panel goes on without one.
    pub open spec fn refusal_is_fatal(self) -> bool {
        !self.established
    }

    /// The slot of a class that the seat has not offered yet.
    pub fn new() -> (slot: DeviceSlot)
        ensures
            slot == DeviceSlot::vacant(),
    {
        DeviceSlot { announced: false, handle: None, established: false }
    }

    /// Records that the seat offers the class, and says whether a device has
    /// to be asked for: it has, unless a handle is live.
    pub fn announce(&mut self) -> (wanted: bool)
        ensures
            *final(self) == old(self).after_announce(),
            wanted == (old(self).handle is None),
    {
        self.announced = true;
        self.handle.is_none()
    }

    /// Takes a granted handle into a slot that awaits one. Any other slot
    /// keeps what it has and hands the new handle back for release.
    pub fn grant(&mut self, handle: DeviceHandle) -> (surplus: Option<DeviceHandle>)
        ensures
            *final(self) == old(self).after_grant(handle),
            surplus == old(self).surplus(handle),
    {
        if self.announced && self.handle.is_none() {
            self.handle = Some(handle);
            self.established = true;
            None
        } else {
            Some(handle)
        }
    }

    /// Records that the seat no longer offers the class, and hands out the
    /// handle that was held, for release.
    pub fn revoke(&mut self) -> (released: Option<DeviceHandle>)
        ensures
            *final(self) == old(self).after_revoke(),
            released == old(self).handle,
    {
        let released = self.handle;
        self.announced = false;
        self.handle = None;
        released
    }
}

} // verus!
