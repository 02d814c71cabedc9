//! Supermicro OEM resources: the KCS interface and the system
//! lockdown resource.

use vstd::prelude::*;

verus! {

/// Privilege associated with a KCS interface.
#[derive(Debug, Clone, Copy, PartialEq, Eq, Structural)]
pub enum Privilege {
    /// Administrator privilege.
    Administrator,
    /// Operator privilege.
    Operator,
    /// User privilege.
    User,
}

/// The data of a Supermicro KCS interface resource read by the
/// accessors.
#[derive(Debug)]
pub struct KcsInterfaceData {
    /// The privilege of the interface.
    pub privilege: Option<Privilege>,
}

/// Supermicro KCS interface resource.
#[derive(Debug)]
pub struct KcsInterface {
    data: KcsInterfaceData,
}

impl KcsInterface {
    /// The wrapped resource data.
    pub closed spec fn raw_view(&self) -> KcsInterfaceData {
        self.data
    }

    /// Wrap the fetched KCS interface data.
    pub fn new(data: KcsInterfaceData) -> (r: KcsInterface)
        ensures
            r.raw_view() == data,
    {
        KcsInterface { data }
    }

    /// Get the raw data for this Supermicro KCS interface.
    pub fn raw(&self) -> (r: &KcsInterfaceData)
        ensures
            *r == self.raw_view(),
    {
        &self.data
    }

    /// Privilege associated with this KCS interface.
    pub fn privilege(&self) -> (r: Option<Privilege>)
        ensures
            r == self.raw_view().privilege,
    {
        self.data.privilege
    }
}

/// The data of a Supermicro system lockdown resource read by the
/// accessors.
#[derive(Debug)]
pub struct SysLockdownData {
    /// The lockdown state.
    pub sys_lockdown_enabled: Option<bool>,
}

/// Supermicro system lockdown resource.
#[derive(Debug)]
pub struct SysLockdown {
    data: SysLockdownData,
}

impl SysLockdown {
    /// The wrapped resource data.
    pub closed spec fn raw_view(&self) -> SysLockdownData {
        self.data
    }

    /// Wrap the fetched system lockdown data.
    pub fn new(data: SysLockdownData) -> (r: SysLockdown)
        ensures
            r.raw_view() == data,
    {
        SysLockdown { data }
    }

    /// Get the raw data for this Supermicro system lockdown resource.
    pub fn raw(&self) -> (r: &SysLockdownData)
        ensures
            *r == self.raw_view(),
    {
        &self.data
    }

    /// System lockdown enabled state.
    pub fn sys_lockdown_enabled(&self) -> (r: Option<bool>)
        ensures
            r == self.raw_view().sys_lockdown_enabled,
    {
        self.data.sys_lockdown_enabled
    }
}

} // verus!
