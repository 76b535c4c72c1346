//! The ways a session can fail.

use vstd::prelude::*;
use crate::render::RenderStage;
use crate::seat::DeviceKind;

verus! {

/// A failure that ends the session.
#[derive(Clone, Copy, Debug, PartialEq, Eq)]
pub enum PanelError {
    /// Something arrived out of sequence: the connection and the panel no
    /// longer agree on where they are.
    ProtocolDesync,
    /// The seat announced a device of this class and then refused the first
    /// request for it.
    CapabilityAcquisitionFailure(DeviceKind),
    /// A render cycle failed at this step. Nothing of the cycle is submitted.
    RenderFailure(RenderStage),
}

} // verus!
