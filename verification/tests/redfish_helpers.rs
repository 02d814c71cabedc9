//! Tests of the Redfish-side helpers: platform quirks, account
//! payload patches, OEM models, credentials and MAC addresses.

use csdl_compiler::account_patch::append_default_account_type;
use csdl_compiler::account_patch::remove_nulls_from_account;
use csdl_compiler::credentials::BmcCredentials;
use csdl_compiler::json::JsonVal;
use csdl_compiler::json::obj_get_field;
use csdl_compiler::mac_address::MacAddress;
use csdl_compiler::oem::dell::AttributeValue;
use csdl_compiler::oem::dell::DellAttributes;
use csdl_compiler::oem::lenovo::FpMode;
use csdl_compiler::oem::lenovo::KcsState;
use csdl_compiler::oem::lenovo::LenovoComputerSystem;
use csdl_compiler::oem::lenovo::LenovoManager;
use csdl_compiler::oem::lenovo::LenovoManagerSchema;
use csdl_compiler::oem::lenovo::LenovoManagerV01;
use csdl_compiler::oem::lenovo::LenovoManagerV10;
use csdl_compiler::oem::lenovo::LenovoSecurityService;
use csdl_compiler::oem::lenovo::LenovoSystemProperties;
use csdl_compiler::oem::lenovo::PortSwitchingTo;
use csdl_compiler::oem::lenovo::SecurityConfigurator;
use csdl_compiler::oem::lenovo::UsbPortSettings;
use csdl_compiler::oem::lenovo::FwRollbackState;
use csdl_compiler::oem::supermicro::KcsInterface;
use csdl_compiler::oem::supermicro::KcsInterfaceData;
use csdl_compiler::oem::supermicro::Privilege;
use csdl_compiler::oem::supermicro::SysLockdown;
use csdl_compiler::oem::supermicro::SysLockdownData;
use csdl_compiler::quirks::BmcQuirks;
use csdl_compiler::quirks::ProtocolFeatures;
use csdl_compiler::quirks::ServiceRoot;

fn root(vendor: Option<&str>, oem: Option<&str>, version: Option<&str>) -> ServiceRoot {
    ServiceRoot {
        vendor: vendor.map(|v| Some(String::from(v))),
        product: None,
        redfish_version: version.map(String::from),
        oem_id: oem.map(String::from),
    }
}

#[test]
fn quirks_classify_platforms() {
    let hpe = BmcQuirks::new(&root(Some("HPE"), None, None));
    assert!(hpe.bug_no_account_type_in_accounts());
    assert!(!hpe.bug_null_in_remote_role_mapping());
    assert!(hpe.slot_defined_user_accounts().is_none());

    let dell = BmcQuirks::new(&root(Some("Dell"), None, None));
    assert!(dell.fw_inventory_wrong_release_date());
    assert!(dell.computer_systems_wrong_last_reset_time());
    assert!(dell.event_service_sse_wrong_timestamp_offset());
    let slots = dell.slot_defined_user_accounts().expect("slot accounts on this platform");
    assert_eq!(slots.min_slot, Some(3));
    assert!(slots.hide_disabled);
    assert!(slots.disable_account_on_delete);

    let viking = BmcQuirks::new(&root(Some("AMI"), None, Some("1.11.0")));
    assert!(viking.bug_null_in_remote_role_mapping());
    assert!(viking.bug_invalid_contained_by_fields());
    assert!(viking.bug_missing_root_nav_properties());
    assert!(viking.bug_missing_chassis_type_field());
    assert!(viking.bug_missing_chassis_name_field());
    assert!(viking.bug_missing_update_service_name_field());
    assert!(viking.expand_is_not_working_properly());

    let ami_other = BmcQuirks::new(&root(Some("AMI"), None, Some("1.9.0")));
    assert!(!ami_other.bug_missing_root_nav_properties());

    let nvidia = BmcQuirks::new(&root(Some("NVIDIA"), None, None));
    assert!(nvidia.event_service_sse_no_member_id());
    assert!(nvidia.event_service_sse_wrong_event_type());
    assert!(nvidia.event_service_sse_no_odata_id());

    let lenovo_ami = BmcQuirks::new(&root(Some("Lenovo"), Some("Ami"), None));
    assert!(!lenovo_ami.bug_missing_root_nav_properties());
    assert!(lenovo_ami.event_service_sse_no_odata_id());

    let unknown = BmcQuirks::new(&root(None, None, None));
    assert!(!unknown.bug_no_account_type_in_accounts());
    assert!(!unknown.expand_is_not_working_properly());

    let null_vendor = BmcQuirks::new(&ServiceRoot {
        vendor: Some(None),
        product: None,
        redfish_version: None,
        oem_id: None,
    });
    assert!(!null_vendor.bug_no_account_type_in_accounts());
}

#[test]
fn quirks_withdraw_expand_features_on_broken_platforms() {
    let advertised = ProtocolFeatures { expand_all: true, no_links: true };
    let viking = BmcQuirks::new(&root(Some("AMI"), None, Some("1.11.0")));
    let adjusted = viking.adjust_protocol_features(advertised);
    assert!(!adjusted.expand_all);
    assert!(!adjusted.no_links);

    let advertised = ProtocolFeatures { expand_all: true, no_links: false };
    let dell = BmcQuirks::new(&root(Some("Dell"), None, None));
    let kept = dell.adjust_protocol_features(advertised);
    assert!(kept.expand_all);
    assert!(!kept.no_links);
}

#[test]
fn account_type_default_is_appended_only_when_missing() {
    let payload = JsonVal::Obj(vec![(String::from("Name"), JsonVal::Str(String::from("Admin")))]);
    let patched = append_default_account_type(payload);
    let fields = match &patched {
        JsonVal::Obj(fields) => fields,
        _ => panic!("patched payload is not an object"),
    };
    match obj_get_field(fields, "AccountTypes") {
        Some(JsonVal::Arr(types)) => {
            assert_eq!(types.len(), 1);
            match &types[0] {
                JsonVal::Str(s) => assert_eq!(s.as_str(), "Redfish"),
                _ => panic!("default account type must be a string"),
            }
        },
        _ => panic!("missing default account types"),
    }

    let existing = JsonVal::Obj(vec![(
        String::from("AccountTypes"),
        JsonVal::Arr(vec![JsonVal::Str(String::from("IPMI"))]),
    )]);
    let untouched = append_default_account_type(existing);
    let fields = match &untouched {
        JsonVal::Obj(fields) => fields,
        _ => panic!("payload is not an object"),
    };
    match obj_get_field(fields, "AccountTypes") {
        Some(JsonVal::Arr(types)) => {
            assert_eq!(types.len(), 1);
            match &types[0] {
                JsonVal::Str(s) => assert_eq!(s.as_str(), "IPMI"),
                _ => panic!("existing account type must stay"),
            }
        },
        _ => panic!("existing account types must stay"),
    }
}

#[test]
fn null_role_mappings_are_dropped() {
    let payload = JsonVal::Obj(vec![(
        String::from("LDAP"),
        JsonVal::Obj(vec![(
            String::from("RemoteRoleMapping"),
            JsonVal::Arr(vec![
                JsonVal::Null,
                JsonVal::Obj(vec![(
                    String::from("LocalRole"),
                    JsonVal::Str(String::from("Administrator")),
                )]),
                JsonVal::Null,
            ]),
        )]),
    )]);
    let patched = remove_nulls_from_account(payload);
    let fields = match &patched {
        JsonVal::Obj(fields) => fields,
        _ => panic!("patched payload is not an object"),
    };
    let ldap = match obj_get_field(fields, "LDAP") {
        Some(JsonVal::Obj(p)) => p,
        _ => panic!("provider must stay an object"),
    };
    match obj_get_field(ldap, "RemoteRoleMapping") {
        Some(JsonVal::Arr(mapping)) => {
            assert_eq!(mapping.len(), 1);
            assert!(matches!(mapping[0], JsonVal::Obj(_)));
        },
        _ => panic!("role mapping must stay an array"),
    }
}

#[test]
fn lenovo_computer_system_prefers_port_assignment() {
    let preferred = LenovoComputerSystem::new(LenovoSystemProperties {
        usb_management_port_assignment: Some(Some(UsbPortSettings {
            fp_mode: Some(Some(FpMode::Bmc)),
            port_switching_to: Some(Some(PortSwitchingTo::Server)),
        })),
        front_panel_usb: Some(Some(UsbPortSettings {
            fp_mode: Some(Some(FpMode::Server)),
            port_switching_to: None,
        })),
    });
    assert_eq!(preferred.front_panel_mode(), Some(FpMode::Bmc));
    assert_eq!(preferred.port_switching_to(), Some(PortSwitchingTo::Server));

    let fallback = LenovoComputerSystem::new(LenovoSystemProperties {
        usb_management_port_assignment: None,
        front_panel_usb: Some(Some(UsbPortSettings {
            fp_mode: Some(Some(FpMode::Shared)),
            port_switching_to: Some(None),
        })),
    });
    assert_eq!(fallback.front_panel_mode(), Some(FpMode::Shared));
    assert_eq!(fallback.port_switching_to(), None);

    let absent = LenovoComputerSystem::new(LenovoSystemProperties {
        usb_management_port_assignment: None,
        front_panel_usb: None,
    });
    assert_eq!(absent.front_panel_mode(), None);
    assert_eq!(absent.port_switching_to(), None);
}

#[test]
fn lenovo_manager_maps_boolean_kcs_state() {
    let old_enabled = LenovoManager::new(LenovoManagerSchema::V0_1(LenovoManagerV01 {
        kcs_enabled: Some(true),
    }));
    assert_eq!(old_enabled.kcs_enabled(), Some(KcsState::Enabled));

    let old_disabled = LenovoManager::new(LenovoManagerSchema::V0_1(LenovoManagerV01 {
        kcs_enabled: Some(false),
    }));
    assert_eq!(old_disabled.kcs_enabled(), Some(KcsState::Disabled));

    let new_state = LenovoManager::new(LenovoManagerSchema::V1_0(LenovoManagerV10 {
        kcs_enabled: Some(KcsState::Disabled),
    }));
    assert_eq!(new_state.kcs_enabled(), Some(KcsState::Disabled));
}

#[test]
fn lenovo_security_fw_rollback_flattens_nullable_layers() {
    let disabled = LenovoSecurityService {
        configurator: Some(Some(SecurityConfigurator {
            fw_rollback: Some(Some(FwRollbackState::Disabled)),
        })),
    };
    assert_eq!(disabled.fw_rollback(), Some(FwRollbackState::Disabled));

    let null_configurator = LenovoSecurityService { configurator: Some(None) };
    assert_eq!(null_configurator.fw_rollback(), None);
}

#[test]
fn supermicro_resources_expose_their_fields() {
    let kcs = KcsInterface::new(KcsInterfaceData { privilege: Some(Privilege::Administrator) });
    assert_eq!(kcs.privilege(), Some(Privilege::Administrator));
    assert_eq!(kcs.raw().privilege, Some(Privilege::Administrator));

    let lockdown = SysLockdown::new(SysLockdownData { sys_lockdown_enabled: Some(false) });
    assert_eq!(lockdown.sys_lockdown_enabled(), Some(false));
}

#[test]
fn dell_attributes_typed_accessors() {
    let attrs = DellAttributes {
        attributes: Some(vec![
            (
                String::from("CurrentNIC.1.MTU"),
                Some(AttributeValue::Integer(1500)),
            ),
            (
                String::from("CurrentNIC.1.Hostname"),
                Some(AttributeValue::Str(String::from("idrac-embedded"))),
            ),
            (
                String::from("CurrentNIC.1.ProxyEnabled"),
                Some(AttributeValue::Bool(false)),
            ),
            (String::from("CurrentNIC.1.OptionalNull"), None),
        ]),
    };

    let mtu = attrs.attribute("CurrentNIC.1.MTU").expect("known attribute");
    assert_eq!(mtu.integer_value(), Some(1500));
    assert_eq!(mtu.str_value(), None);
    assert!(!mtu.is_null());

    let host = attrs.attribute("CurrentNIC.1.Hostname").expect("known attribute");
    assert_eq!(host.str_value(), Some("idrac-embedded"));

    let proxy = attrs.attribute("CurrentNIC.1.ProxyEnabled").expect("known attribute");
    assert_eq!(proxy.bool_value(), Some(false));

    let null = attrs.attribute("CurrentNIC.1.OptionalNull").expect("known attribute");
    assert!(null.is_null());

    assert!(attrs.attribute("CurrentNIC.1.Unknown").is_none());
    let empty = DellAttributes { attributes: None };
    assert!(empty.attribute("CurrentNIC.1.MTU").is_none());
}

#[test]
fn credentials_redact_the_password() {
    let creds = BmcCredentials::new(String::from("root"), String::from("SECRET-REDACTED"));
    assert_eq!(creds.password(), "SECRET-REDACTED");
    let shown = creds.redacted();
    assert_eq!(shown, "BmcCredentials(username: root, password: [REDACTED])");
}

#[test]
fn mac_address_keeps_the_server_string() {
    let mac = MacAddress::new("aa:bb:cc:dd:ee:ff");
    assert_eq!(mac.as_str(), "aa:bb:cc:dd:ee:ff");
}
