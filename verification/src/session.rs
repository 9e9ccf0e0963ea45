//! Controllable audio entities: the default output device and one running
//! process's audio stream, unified behind a closed sum type.
//!
//! A session never holds a live host object; it records the opaque handle
//! value the surrounding layer assigned to that object, together with the
//! display name and, for application sessions, the correlation token passed
//! on every mutating call.

use vstd::prelude::*;
use crate::VolumeLevel;

verus! {

/// The session bound to the system's default render device.
#[derive(Debug)]
pub struct EndPointSession {
    /// Handle of the device-level volume-control capability.
    pub endpoint_volume: u64,
    /// Display name; the registry names its endpoint session "master".
    pub name: String,
}

impl EndPointSession {
    /// Builds an endpoint session around a device volume-control handle.
    pub fn new(endpoint_volume: u64, name: String) -> (r: Self)
        ensures
            r.endpoint_volume == endpoint_volume,
            r.name == name,
    {
        EndPointSession { endpoint_volume, name }
    }
}

/// The session bound to one running process's audio stream.
#[derive(Debug)]
pub struct ApplicationSession {
    /// Handle of the per-process volume-control capability.
    pub simple_audio_volume: u64,
    /// Display name derived from the process image filename.
    pub name: String,
    /// Correlation token passed on every mutating call, so the process's own
    /// change notifications are not mistaken for ours.
    pub guid: u128,
}

impl ApplicationSession {
    /// Builds an application session around a per-process volume handle and
    /// a freshly generated correlation token.
    pub fn new(simple_audio_volume: u64, name: String, guid: u128) -> (r: Self)
        ensures
            r.simple_audio_volume == simple_audio_volume,
            r.name == name,
            r.guid == guid,
    {
        ApplicationSession { simple_audio_volume, name, guid }
    }
}

/// Any controllable audio entity: exactly the two variants exist.
#[derive(Debug)]
pub enum Session {
    EndPoint(EndPointSession),
    Application(ApplicationSession),
}

/// A volume write for the surrounding layer to perform on the host.
#[derive(Clone, Copy, Debug, PartialEq, Eq, Structural)]
pub struct VolumeCommand {
    /// Handle of the capability to write through.
    pub target: u64,
    /// The level to set.
    pub level: VolumeLevel,
    /// Correlation token to pass; zero opts out of self-notification
    /// suppression.
    pub context: u128,
}

/// A mute write for the surrounding layer to perform on the host.
#[derive(Clone, Copy, Debug, PartialEq, Eq, Structural)]
pub struct MuteCommand {
    /// Handle of the capability to write through.
    pub target: u64,
    /// The mute flag to set.
    pub mute: bool,
    /// Correlation token to pass; zero opts out of self-notification
    /// suppression.
    pub context: u128,
}

impl Session {
    /// The session's display name.
    pub open spec fn spec_name(&self) -> Seq<char> {
        match self {
            Session::EndPoint(e) => e.name@,
            Session::Application(a) => a.name@,
        }
    }

    /// The handle of the volume-control capability the session writes
    /// through.
    pub open spec fn spec_handle(&self) -> u64 {
        match self {
            Session::EndPoint(e) => e.endpoint_volume,
            Session::Application(a) => a.simple_audio_volume,
        }
    }

    /// The correlation token the session passes on mutating calls: the
    /// endpoint session opts out with zero, an application session uses its
    /// own token.
    pub open spec fn spec_context(&self) -> u128 {
        match self {
            Session::EndPoint(_) => 0u128,
            Session::Application(a) => a.guid,
        }
    }

    /// Returns the session's display name.
    pub fn get_name(&self) -> (r: String)
        ensures
            r@ == self.spec_name(),
    {
        match self {
            Session::EndPoint(e) => e.name.clone(),
            Session::Application(a) => a.name.clone(),
        }
    }

    /// Capability-narrowing escape hatch: only the endpoint session exposes
    /// the device-level volume handle, other variants return nothing.
    pub fn get_audio_endpoint_volume(&self) -> (r: Option<u64>)
        ensures
            match self {
                Session::EndPoint(e) => r == Some(e.endpoint_volume),
                Session::Application(_) => r is None,
            },
    {
        match self {
            Session::EndPoint(e) => Some(e.endpoint_volume),
            Session::Application(_) => None,
        }
    }

    /// Degrade-on-failure read policy: the level the host reported, or
    /// silence when the read failed (for instance because the underlying
    /// host object is gone).
    pub fn get_volume(&self, host_read: Option<VolumeLevel>) -> (r: VolumeLevel)
        ensures
            host_read is Some ==> r == host_read->0,
            host_read is None ==> r.units == 0,
    {
        match host_read {
            Some(v) => v,
            None => VolumeLevel::silent(),
        }
    }

    /// Degrade-on-failure read policy for the mute flag: the value the host
    /// reported, or unmuted when the read failed.
    pub fn get_mute(&self, host_read: Option<bool>) -> (r: bool)
        ensures
            host_read is Some ==> r == host_read->0,
            host_read is None ==> r == false,
    {
        match host_read {
            Some(m) => m,
            None => false,
        }
    }

    /// The volume write to perform: aimed at this session's capability
    /// handle, carrying this session's correlation token.
    pub fn set_volume(&self, vol: VolumeLevel) -> (c: VolumeCommand)
        requires
            vol.wf(),
        ensures
            c.target == self.spec_handle(),
            c.level == vol,
            c.context == self.spec_context(),
    {
        VolumeCommand { target: self.handle(), level: vol, context: self.context() }
    }

    /// The mute write to perform: aimed at this session's capability handle,
    /// carrying this session's correlation token.
    pub fn set_mute(&self, mute: bool) -> (c: MuteCommand)
        ensures
            c.target == self.spec_handle(),
            c.mute == mute,
            c.context == self.spec_context(),
    {
        MuteCommand { target: self.handle(), mute, context: self.context() }
    }

    /// Exact, case-sensitive comparison of the session's name against a
    /// query.
    pub fn name_matches(&self, name: &String) -> (r: bool)
        ensures
            r == (self.spec_name() == name@),
    {
        match self {
            Session::EndPoint(e) => e.name == *name,
            Session::Application(a) => a.name == *name,
        }
    }

    /// Returns the capability handle the session writes through.
    pub fn handle(&self) -> (r: u64)
        ensures
            r == self.spec_handle(),
    {
        match self {
            Session::EndPoint(e) => e.endpoint_volume,
            Session::Application(a) => a.simple_audio_volume,
        }
    }

    /// Returns the correlation token the session passes on mutating calls.
    pub fn context(&self) -> (r: u128)
        ensures
            r == self.spec_context(),
    {
        match self {
            Session::EndPoint(_) => 0u128,
            Session::Application(a) => a.guid,
        }
    }
}

} // verus!
