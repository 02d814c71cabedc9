//! Platform classification and per-platform workarounds.
//!
//! On first service root retrieval the platform is classified, and
//! specific workarounds are then applied for each platform class. A
//! platform is not a vendor: it is a class of devices that share the
//! same set of quirks.

use vstd::prelude::*;

verus! {

/// What the quirk classification reads from a Redfish service root:
/// the vendor and product (optional and nullable), the protocol
/// version, and the identifier of the OEM section.
#[derive(Debug)]
pub struct ServiceRoot {
    /// The vendor associated with the service; `Some(None)` is an
    /// explicit null.
    pub vendor: Option<Option<String>>,
    /// The product associated with the service; `Some(None)` is an
    /// explicit null.
    pub product: Option<Option<String>>,
    /// The Redfish protocol version of the service.
    pub redfish_version: Option<String>,
    /// The identifier of the OEM object of the root resource.
    pub oem_id: Option<String>,
}

impl ServiceRoot {
    /// The vendor string, when present and not null.
    pub fn vendor(&self) -> (r: Option<&String>)
        ensures
            r is Some <==> self.vendor matches Some(Some(_)),
            r matches Some(v) ==> self.vendor == Some(Some(*v)),
    {
        match &self.vendor {
            Some(Some(v)) => Some(v),
            _ => None,
        }
    }

    /// The product string, when present and not null.
    pub fn product(&self) -> (r: Option<&String>)
        ensures
            r is Some <==> self.product matches Some(Some(_)),
            r matches Some(p) ==> self.product == Some(Some(*p)),
    {
        match &self.product {
            Some(Some(p)) => Some(p),
            _ => None,
        }
    }
}

/// A class of devices that share the same set of quirks.
#[derive(Debug)]
pub enum Platform {
    /// HPE iLO class.
    Hpe,
    /// Dell iDRAC class.
    Dell,
    /// AMI Viking class.
    AmiViking,
    /// NVIDIA class.
    Nvidia,
    /// Lenovo on AMI class.
    LenovoAmi,
}

/// The vendor string of a root, as characters.
pub open spec fn root_vendor_view(root: ServiceRoot) -> Option<Seq<char>> {
    match root.vendor {
        Some(Some(s)) => Some(s@),
        _ => None,
    }
}

/// The OEM identifier of a root, as characters.
pub open spec fn root_oem_view(root: ServiceRoot) -> Option<Seq<char>> {
    match root.oem_id {
        Some(s) => Some(s@),
        None => None,
    }
}

/// The protocol version of a root, as characters.
pub open spec fn root_version_view(root: ServiceRoot) -> Option<Seq<char>> {
    match root.redfish_version {
        Some(s) => Some(s@),
        None => None,
    }
}

/// The platform class of a service root: by vendor, with the Lenovo
/// AMI and AMI Viking classes requiring the matching OEM identifier
/// or protocol version.
pub open spec fn classify(root: ServiceRoot) -> Option<Platform> {
    let vendor = root_vendor_view(root);
    let oem = root_oem_view(root);
    let version = root_version_view(root);
    if vendor == Some("HPE"@) {
        Some(Platform::Hpe)
    } else if vendor == Some("Dell"@) {
        Some(Platform::Dell)
    } else if vendor == Some("Lenovo"@) && oem == Some("Ami"@) {
        Some(Platform::LenovoAmi)
    } else if vendor == Some("AMI"@) && version == Some("1.11.0"@) {
        Some(Platform::AmiViking)
    } else if vendor == Some("NVIDIA"@) {
        Some(Platform::Nvidia)
    } else {
        None
    }
}

/// The protocol features a service advertises that the quirks can
/// veto: the two expand capabilities.
#[derive(Debug, PartialEq, Eq, Structural)]
pub struct ProtocolFeatures {
    /// Expanding whole collections is supported.
    pub expand_all: bool,
    /// Expanding without following links is supported.
    pub no_links: bool,
}

/// Configuration of slot-defined user accounts: the BMC cannot create
/// or delete accounts, only update pre-created slots.
#[derive(Debug)]
pub struct SlotDefinedConfig {
    /// First slot available for ordinary accounts.
    pub min_slot: Option<u32>,
    /// Hide disabled slots from account listings.
    pub hide_disabled: bool,
    /// Disable an account instead of deleting it.
    pub disable_account_on_delete: bool,
}

/// Quirks of individual platforms.
#[derive(Debug)]
pub struct BmcQuirks {
    platform: Option<Platform>,
}

impl BmcQuirks {
    /// The classified platform.
    pub closed spec fn platform_of(&self) -> Option<Platform> {
        self.platform
    }

    /// Classify the platform of a service root.
    pub fn new(root: &ServiceRoot) -> (r: BmcQuirks)
        ensures
            r.platform_of() == classify(*root),
    {
        let vendor = root.vendor();
        let platform = match vendor {
            Some(v) => {
                if crate::edmx::schema::str_eq(v.as_str(), "HPE") {
                    Some(Platform::Hpe)
                } else if crate::edmx::schema::str_eq(v.as_str(), "Dell") {
                    Some(Platform::Dell)
                } else if crate::edmx::schema::str_eq(v.as_str(), "Lenovo") && (match
                &root.oem_id {
                    Some(o) => crate::edmx::schema::str_eq(o.as_str(), "Ami"),
                    None => false,
                }) {
                    Some(Platform::LenovoAmi)
                } else if crate::edmx::schema::str_eq(v.as_str(), "AMI") && (match
                &root.redfish_version {
                    Some(w) => crate::edmx::schema::str_eq(w.as_str(), "1.11.0"),
                    None => false,
                }) {
                    Some(Platform::AmiViking)
                } else if crate::edmx::schema::str_eq(v.as_str(), "NVIDIA") {
                    Some(Platform::Nvidia)
                } else {
                    None
                }
            },
            None => None,
        };
        BmcQuirks { platform }
    }

    /// An account type is required by the schema, but some vendors
    /// omit it.
    pub fn bug_no_account_type_in_accounts(&self) -> (r: bool)
        ensures
            r == (self.platform_of() matches Some(Platform::Hpe)),
    {
        match &self.platform {
            Some(Platform::Hpe) => true,
            _ => false,
        }
    }

    /// Null entries appear in remote role mappings.
    pub fn bug_null_in_remote_role_mapping(&self) -> (r: bool)
        ensures
            r == (self.platform_of() matches Some(Platform::AmiViking)),
    {
        match &self.platform {
            Some(Platform::AmiViking) => true,
            _ => false,
        }
    }

    /// Accounts exist only as pre-created slots: updating a slot
    /// creates an account, disabling it deletes one.
    pub fn slot_defined_user_accounts(&self) -> (r: Option<SlotDefinedConfig>)
        ensures
            r is Some <==> self.platform_of() matches Some(Platform::Dell),
            r matches Some(cfg) ==> cfg.min_slot == Some(3u32) && cfg.hide_disabled
                && cfg.disable_account_on_delete,
    {
        match &self.platform {
            Some(Platform::Dell) => Some(
                SlotDefinedConfig {
                    min_slot: Some(3),
                    hide_disabled: true,
                    disable_account_on_delete: true,
                },
            ),
            _ => None,
        }
    }

    /// The firmware inventory release date is set to a zero time.
    pub fn fw_inventory_wrong_release_date(&self) -> (r: bool)
        ensures
            r == (self.platform_of() matches Some(Platform::Dell)),
    {
        match &self.platform {
            Some(Platform::Dell) => true,
            _ => false,
        }
    }

    /// Additional invalid fields appear under `Links.ContainedBy` of
    /// a chassis resource.
    pub fn bug_invalid_contained_by_fields(&self) -> (r: bool)
        ensures
            r == (self.platform_of() matches Some(Platform::AmiViking)),
    {
        match &self.platform {
            Some(Platform::AmiViking) => true,
            _ => false,
        }
    }

    /// Navigation properties are missing from the root object.
    pub fn bug_missing_root_nav_properties(&self) -> (r: bool)
        ensures
            r == (self.platform_of() matches Some(Platform::AmiViking)),
    {
        match &self.platform {
            Some(Platform::AmiViking) => true,
            _ => false,
        }
    }

    /// The required chassis type property is missing from a chassis
    /// resource.
    pub fn bug_missing_chassis_type_field(&self) -> (r: bool)
        ensures
            r == (self.platform_of() matches Some(Platform::AmiViking)),
    {
        match &self.platform {
            Some(Platform::AmiViking) => true,
            _ => false,
        }
    }

    /// The required name property is missing from a chassis resource.
    pub fn bug_missing_chassis_name_field(&self) -> (r: bool)
        ensures
            r == (self.platform_of() matches Some(Platform::AmiViking)),
    {
        match &self.platform {
            Some(Platform::AmiViking) => true,
            _ => false,
        }
    }

    /// The required name property is missing from the update service.
    pub fn bug_missing_update_service_name_field(&self) -> (r: bool)
        ensures
            r == (self.platform_of() matches Some(Platform::AmiViking)),
    {
        match &self.platform {
            Some(Platform::AmiViking) => true,
            _ => false,
        }
    }

    /// `LastResetTime` is set to an invalid zero date that cannot be
    /// parsed as a date-time offset.
    pub fn computer_systems_wrong_last_reset_time(&self) -> (r: bool)
        ensures
            r == (self.platform_of() matches Some(Platform::Dell)),
    {
        match &self.platform {
            Some(Platform::Dell) => true,
            _ => false,
        }
    }

    /// Event records in SSE payloads do not include `MemberId`.
    pub fn event_service_sse_no_member_id(&self) -> (r: bool)
        ensures
            r == (self.platform_of() matches Some(Platform::Nvidia)),
    {
        match &self.platform {
            Some(Platform::Nvidia) => true,
            _ => false,
        }
    }

    /// Event records in SSE payloads use compact timezone offsets in
    /// `EventTimestamp`, such as `-0600`.
    pub fn event_service_sse_wrong_timestamp_offset(&self) -> (r: bool)
        ensures
            r == (self.platform_of() matches Some(Platform::Dell)),
    {
        match &self.platform {
            Some(Platform::Dell) => true,
            _ => false,
        }
    }

    /// Event records in SSE payloads use unsupported `EventType`
    /// values.
    pub fn event_service_sse_wrong_event_type(&self) -> (r: bool)
        ensures
            r == (self.platform_of() matches Some(Platform::Nvidia)),
    {
        match &self.platform {
            Some(Platform::Nvidia) => true,
            _ => false,
        }
    }

    /// SSE payloads do not include `@odata.id`, whatever the
    /// platform.
    pub fn event_service_sse_no_odata_id(&self) -> (r: bool)
        ensures
            r,
    {
        true
    }

    /// The advertised protocol features with the expand capabilities
    /// withdrawn on the platforms where expand does not work according
    /// to the specification.
    pub fn adjust_protocol_features(&self, features: ProtocolFeatures) -> (r: ProtocolFeatures)
        ensures
            self.platform_of() matches Some(Platform::AmiViking) ==> r == (ProtocolFeatures {
                expand_all: false,
                no_links: false,
            }),
            !(self.platform_of() matches Some(Platform::AmiViking)) ==> r == features,
    {
        if self.expand_is_not_working_properly() {
            ProtocolFeatures { expand_all: false, no_links: false }
        } else {
            features
        }
    }

    /// The expand query parameter does not work according to the
    /// specification; the expand interface is disabled.
    pub fn expand_is_not_working_properly(&self) -> (r: bool)
        ensures
            r == (self.platform_of() matches Some(Platform::AmiViking)),
    {
        match &self.platform {
            Some(Platform::AmiViking) => true,
            _ => false,
        }
    }
}

} // verus!
