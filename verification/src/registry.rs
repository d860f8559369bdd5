//! Updates of the device registry.
use crate::model::DeviceId;
use vstd::prelude::*;

verus! {

/// A device goes offline, named by its id or by its UDN.
#[derive(Debug, Clone)]
pub enum DeviceUpdate {
    OfflineById(DeviceId),
    OfflineByUdn(String),
}

} // verus!
