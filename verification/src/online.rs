//! Online/offline bookkeeping of a discovered device.
use vstd::prelude::*;

verus! {

/// A point of the system clock.
#[verifier::external_type_specification]
#[verifier::external_body]
pub struct ExSystemTime(std::time::SystemTime);

/// The Unix epoch (`std::time::UNIX_EPOCH`).
#[verifier::external_body]
fn unix_epoch() -> std::time::SystemTime {
    std::time::UNIX_EPOCH
}

/// The current system time (`SystemTime::now`); nothing is promised of it.
#[verifier::external_body]
fn system_now() -> std::time::SystemTime {
    std::time::SystemTime::now()
}

/// Connection state of a device: whether it is online, when it was last
/// seen, and how long an announcement stays valid.
#[derive(Debug)]
pub struct DeviceConnectionState {
    online: bool,
    last_seen: std::time::SystemTime,
    max_age: u32,
}

impl Clone for DeviceConnectionState {
    fn clone(&self) -> (r: Self)
        ensures
            r.spec_online() == self.spec_online(),
            r.spec_max_age() == self.spec_max_age(),
    {
        DeviceConnectionState { online: self.online, last_seen: self.last_seen, max_age: self.max_age }
    }
}

/// Access to the connection state of a device.
pub trait DeviceOnline {
    /// Whether the device is online.
    fn is_online(&self) -> bool;

    /// When the device was last seen.
    fn last_seen(&self) -> std::time::SystemTime;

    /// Records that the device was seen now, with the validity of its
    /// announcement.
    fn has_been_seen_now(&self, max_age: u32);

    /// Records that the device went offline.
    fn mark_as_offline(&self);

    /// How long an announcement stays valid, in seconds.
    fn max_age(&self) -> u32;
}

impl DeviceConnectionState {
    /// Whether the device is online.
    pub closed spec fn spec_online(&self) -> bool {
        self.online
    }

    /// How long an announcement stays valid.
    pub closed spec fn spec_max_age(&self) -> u32 {
        self.max_age
    }

    /// When the device was last seen.
    pub closed spec fn spec_last_seen(&self) -> std::time::SystemTime {
        self.last_seen
    }

    /// A device never seen: offline, seen at the Unix epoch, with the
    /// default validity of 1800 seconds.
    pub fn make() -> (r: DeviceConnectionState)
        ensures
            !r.spec_online(),
            r.spec_max_age() == 1800,
    {
        DeviceConnectionState { online: false, last_seen: unix_epoch(), max_age: 1800 }
    }

    /// Whether the device is online.
    pub fn is_online(&self) -> (r: bool)
        ensures
            r == self.spec_online(),
    {
        self.online
    }

    /// When the device was last seen.
    pub fn last_seen(&self) -> (r: std::time::SystemTime)
        ensures
            r == self.spec_last_seen(),
    {
        self.last_seen
    }

    /// How long an announcement stays valid.
    pub fn max_age(&self) -> (r: u32)
        ensures
            r == self.spec_max_age(),
    {
        self.max_age
    }

    /// Records that the device was seen now: it is online again, with the
    /// announced validity.
    pub fn has_been_seen_now(&mut self, max_age: u32)
        ensures
            final(self).spec_max_age() == max_age,
            final(self).spec_online(),
    {
        self.last_seen = system_now();
        self.max_age = max_age;
        self.online = true;
    }

    /// Records that the device went offline.
    pub fn mark_as_offline(&mut self)
        ensures
            !final(self).spec_online(),
            final(self).spec_max_age() == old(self).spec_max_age(),
    {
        self.online = false;
    }
}

} // verus!
