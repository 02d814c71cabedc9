//! Lenovo OEM extensions: manager properties (with two incompatible
//! schema generations), the security service, and the computer
//! system front-panel USB settings.

use vstd::prelude::*;

verus! {

/// Front panel mode of the USB management port.
#[derive(Debug, Clone, Copy, PartialEq, Eq, Structural)]
pub enum FpMode {
    /// The port is assigned to the server.
    Server,
    /// The port is assigned to the BMC.
    Bmc,
    /// The port is shared.
    Shared,
}

/// Direction the USB management port is switching to.
#[derive(Debug, Clone, Copy, PartialEq, Eq, Structural)]
pub enum PortSwitchingTo {
    /// Switching to the server.
    Server,
    /// Switching to the BMC.
    Bmc,
}

/// Front-panel USB port settings; each field is optional and
/// nullable.
#[derive(Debug)]
pub struct UsbPortSettings {
    /// Front panel mode.
    pub fp_mode: Option<Option<FpMode>>,
    /// Port switching direction.
    pub port_switching_to: Option<Option<PortSwitchingTo>>,
}

/// Lenovo computer system properties read by the accessors: the two
/// alternative homes of the USB port settings.
#[derive(Debug)]
pub struct LenovoSystemProperties {
    /// The preferred `USBManagementPortAssignment` variant.
    pub usb_management_port_assignment: Option<Option<UsbPortSettings>>,
    /// The older `FrontPanelUSB` variant.
    pub front_panel_usb: Option<Option<UsbPortSettings>>,
}

/// Lenovo OEM extension of a computer system.
#[derive(Debug)]
pub struct LenovoComputerSystem {
    data: LenovoSystemProperties,
}

/// The USB port settings a system reports: the port assignment
/// variant is preferred over the front panel variant.
pub open spec fn chosen_usb_settings(d: LenovoSystemProperties) -> Option<Option<UsbPortSettings>> {
    if d.usb_management_port_assignment is Some {
        d.usb_management_port_assignment
    } else {
        d.front_panel_usb
    }
}

/// The front panel mode of the chosen settings, flattened through
/// the nullable layers.
pub open spec fn spec_front_panel_mode(d: LenovoSystemProperties) -> Option<FpMode> {
    match chosen_usb_settings(d) {
        Some(Some(s)) => match s.fp_mode {
            Some(Some(m)) => Some(m),
            _ => None,
        },
        _ => None,
    }
}

/// The switching direction of the chosen settings, flattened through
/// the nullable layers.
pub open spec fn spec_port_switching_to(d: LenovoSystemProperties) -> Option<PortSwitchingTo> {
    match chosen_usb_settings(d) {
        Some(Some(s)) => match s.port_switching_to {
            Some(Some(m)) => Some(m),
            _ => None,
        },
        _ => None,
    }
}

impl LenovoComputerSystem {
    /// Wrap the parsed Lenovo system properties.
    pub fn new(data: LenovoSystemProperties) -> (r: LenovoComputerSystem)
        ensures
            r.raw_view() == data,
    {
        LenovoComputerSystem { data }
    }

    /// The wrapped properties.
    pub closed spec fn raw_view(&self) -> LenovoSystemProperties {
        self.data
    }

    /// Get the raw properties for this Lenovo computer system.
    pub fn raw(&self) -> (r: &LenovoSystemProperties)
        ensures
            *r == self.raw_view(),
    {
        &self.data
    }

    /// Front panel mode.
    pub fn front_panel_mode(&self) -> (r: Option<FpMode>)
        ensures
            r == spec_front_panel_mode(self.raw_view()),
    {
        let chosen = if self.data.usb_management_port_assignment.is_some() {
            &self.data.usb_management_port_assignment
        } else {
            &self.data.front_panel_usb
        };
        match chosen {
            Some(Some(s)) => match s.fp_mode {
                Some(Some(m)) => Some(m),
                _ => None,
            },
            _ => None,
        }
    }

    /// USB management port switching direction.
    pub fn port_switching_to(&self) -> (r: Option<PortSwitchingTo>)
        ensures
            r == spec_port_switching_to(self.raw_view()),
    {
        let chosen = if self.data.usb_management_port_assignment.is_some() {
            &self.data.usb_management_port_assignment
        } else {
            &self.data.front_panel_usb
        };
        match chosen {
            Some(Some(s)) => match s.port_switching_to {
                Some(Some(m)) => Some(m),
                _ => None,
            },
            _ => None,
        }
    }
}

/// Host-side IPMI access state via the KCS protocol.
#[derive(Debug, Clone, Copy, PartialEq, Eq, Structural)]
pub enum KcsState {
    /// KCS access is enabled.
    Enabled,
    /// KCS access is disabled.
    Disabled,
}

/// Older Lenovo manager properties: KCS access as a boolean.
#[derive(Debug)]
pub struct LenovoManagerV01 {
    /// Whether KCS access is enabled.
    pub kcs_enabled: Option<bool>,
}

/// Newer Lenovo manager properties: KCS access as a state.
#[derive(Debug)]
pub struct LenovoManagerV10 {
    /// The KCS access state.
    pub kcs_enabled: Option<KcsState>,
}

/// Lenovo publishes two incompatible manager schemas: one carries
/// `KCSEnabled` as a boolean, the other as an enabled/disabled state.
#[derive(Debug)]
pub enum LenovoManagerSchema {
    /// `KCSEnabled` as a boolean.
    V0_1(LenovoManagerV01),
    /// `KCSEnabled` as a state.
    V1_0(LenovoManagerV10),
}

/// Lenovo OEM extension of a manager.
#[derive(Debug)]
pub struct LenovoManager {
    data: LenovoManagerSchema,
}

/// The KCS access state a manager reports, with the boolean form of
/// the older schema mapped onto the state form.
pub open spec fn spec_kcs_enabled(d: LenovoManagerSchema) -> Option<KcsState> {
    match d {
        LenovoManagerSchema::V0_1(v) => match v.kcs_enabled {
            Some(true) => Some(KcsState::Enabled),
            Some(false) => Some(KcsState::Disabled),
            None => None,
        },
        LenovoManagerSchema::V1_0(v) => v.kcs_enabled,
    }
}

impl LenovoManager {
    /// Wrap the parsed Lenovo manager properties.
    pub fn new(data: LenovoManagerSchema) -> (r: LenovoManager)
        ensures
            r.raw_view() == data,
    {
        LenovoManager { data }
    }

    /// The wrapped properties.
    pub closed spec fn raw_view(&self) -> LenovoManagerSchema {
        self.data
    }

    /// Get the raw schema data for this Lenovo manager.
    pub fn raw(&self) -> (r: &LenovoManagerSchema)
        ensures
            *r == self.raw_view(),
    {
        &self.data
    }

    /// Host-side IPMI access via the KCS protocol.
    pub fn kcs_enabled(&self) -> (r: Option<KcsState>)
        ensures
            r == spec_kcs_enabled(self.raw_view()),
    {
        match &self.data {
            LenovoManagerSchema::V0_1(v) => match v.kcs_enabled {
                Some(true) => Some(KcsState::Enabled),
                Some(false) => Some(KcsState::Disabled),
                None => None,
            },
            LenovoManagerSchema::V1_0(v) => v.kcs_enabled,
        }
    }
}

/// Firmware rollback state of the security service.
#[derive(Debug, Clone, Copy, PartialEq, Eq, Structural)]
pub enum FwRollbackState {
    /// Rollback is enabled.
    Enabled,
    /// Rollback is disabled.
    Disabled,
}

/// Security configurator settings; the field is optional and
/// nullable.
#[derive(Debug)]
pub struct SecurityConfigurator {
    /// Firmware rollback state.
    pub fw_rollback: Option<Option<FwRollbackState>>,
}

/// Lenovo OEM security service of a manager.
#[derive(Debug)]
pub struct LenovoSecurityService {
    /// The configurator settings, optional and nullable.
    pub configurator: Option<Option<SecurityConfigurator>>,
}

/// The firmware rollback state a security service reports, flattened
/// through the nullable layers.
pub open spec fn spec_fw_rollback(s: LenovoSecurityService) -> Option<FwRollbackState> {
    match s.configurator {
        Some(Some(c)) => match c.fw_rollback {
            Some(Some(f)) => Some(f),
            _ => None,
        },
        _ => None,
    }
}

impl LenovoSecurityService {
    /// Whether firmware rollback is enabled.
    pub fn fw_rollback(&self) -> (r: Option<FwRollbackState>)
        ensures
            r == spec_fw_rollback(*self),
    {
        match &self.configurator {
            Some(Some(c)) => match c.fw_rollback {
                Some(Some(f)) => Some(f),
                _ => None,
            },
            _ => None,
        }
    }
}

} // verus!
