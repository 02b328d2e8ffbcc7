use unifi_search_tool::unifi::devices::{
    lookup_label, DeviceLabel, DeviceState, UnifiDevice, UnifiDeviceBasic, UnifiSite, LABELS,
    LABEL_COUNT,
};

fn device(device_type: &str, device_model: &str, name: Option<&str>) -> UnifiDeviceBasic {
    UnifiDeviceBasic {
        mac: "00:1a:2b:3c:4d:5e".to_string(),
        state: DeviceState::Connected,
        adopted: true,
        device_type: device_type.to_string(),
        device_model: device_model.to_string(),
        gateway_mode: None,
        name_option: name.map(|n| n.to_string()),
        device_label_option: None,
        site: "Main Office".to_string(),
    }
}

#[test]
fn state_codes_are_decoded() {
    assert_eq!(DeviceState::from_code(0), DeviceState::Offline);
    assert_eq!(DeviceState::from_code(1), DeviceState::Connected);
    assert_eq!(DeviceState::from_code(2), DeviceState::PendingAdoption);
    assert_eq!(DeviceState::from_code(4), DeviceState::Updating);
    assert_eq!(DeviceState::from_code(5), DeviceState::Provisioning);
    assert_eq!(DeviceState::from_code(6), DeviceState::Unreachable);
    assert_eq!(DeviceState::from_code(7), DeviceState::Adopting);
    assert_eq!(DeviceState::from_code(9), DeviceState::AdoptionError);
    assert_eq!(DeviceState::from_code(10), DeviceState::AdoptionFailed);
    assert_eq!(DeviceState::from_code(11), DeviceState::Isolated);
}

#[test]
fn unknown_state_codes_fall_back() {
    for code in [3u64, 8, 12, 255, 256, u64::MAX] {
        assert_eq!(DeviceState::from_code(code), DeviceState::Unknown);
    }
    assert_eq!(DeviceState::from_code(3).as_str(), "Unknown");
}

#[test]
fn states_have_words() {
    assert_eq!(DeviceState::Offline.as_str(), "Offline");
    assert_eq!(DeviceState::Connected.as_str(), "Connected");
    assert_eq!(DeviceState::PendingAdoption.as_str(), "Pending Adoption");
    assert_eq!(DeviceState::Updating.as_str(), "Updating");
    assert_eq!(DeviceState::Provisioning.as_str(), "Provisioning");
    assert_eq!(DeviceState::Unreachable.as_str(), "Unreachable");
    assert_eq!(DeviceState::Adopting.as_str(), "Adopting");
    assert_eq!(DeviceState::AdoptionError.as_str(), "Adoption Error");
    assert_eq!(DeviceState::AdoptionFailed.as_str(), "Adoption Failed");
    assert_eq!(DeviceState::Isolated.as_str(), "Isolated");
}

#[test]
fn known_products_have_names() {
    assert_eq!(lookup_label("uap", "BZ2"), Some("UAP / Access Point"));
    assert_eq!(lookup_label("uap", "U7PG2"), Some("UAP-AC-Pro / Access Point AC Pro"));
    assert_eq!(lookup_label("uap", "p2N"), Some("PICOM2HP / PicoStation M2 HP"));
    assert_eq!(lookup_label("usw", "US8P150"), Some("US-8-150W / Switch 8 PoE (150 W)"));
    assert_eq!(lookup_label("usw", "USXG24"), Some("USW-EnterpriseXG-24 / Switch Enterprise XG 24"));
    assert_eq!(lookup_label("ugw", "UGW3"), Some("USG-3P / Security Gateway"));
    assert_eq!(lookup_label("uxg", "UXGPRO"), Some("UXG-Pro / Next-Generation Gateway Pro"));
    assert_eq!(lookup_label("ubb", "UBBXG"), Some("UBB-XG / Building-to-Building Bridge XG"));
    assert_eq!(lookup_label("uas", "UASXG"), Some("UAS-XG / Application Server XG"));
    assert_eq!(lookup_label("udm", "UDMPRO"), Some("UDM-Pro / Dream Machine Pro"));
    assert_eq!(lookup_label("uck", "UCK-v2"), Some("UCK / Cloud Key"));
    assert_eq!(lookup_label("uph", "UP7c"), Some("UVP-Executive / Phone Executive"));
}

#[test]
fn unknown_products_have_no_name() {
    assert_eq!(lookup_label("uap", "NOPE"), None);
    assert_eq!(lookup_label("xyz", "BZ2"), None);
    assert_eq!(lookup_label("usw", "BZ2"), None);
    assert_eq!(lookup_label("UAP", "BZ2"), None);
    assert_eq!(lookup_label("uap", "bz2"), None);
    assert_eq!(lookup_label("", ""), None);
}

#[test]
fn every_row_of_the_table_is_found() {
    assert_eq!(LABELS.len(), LABEL_COUNT);
    for row in LABELS.iter() {
        assert_eq!(lookup_label(row.0, row.1), Some(row.2));
    }
}

#[test]
fn label_is_noted_in_the_device() {
    let mut known = device("usw", "US24", None);
    known.create_device_label();
    assert_eq!(known.device_label_option, Some("USW-24-G1 / Switch 24"));
    let mut unknown = device("usw", "FUTURE", None);
    unknown.device_label_option = Some("stale");
    unknown.create_device_label();
    assert_eq!(unknown.device_label_option, None);
    assert_eq!(unknown.mac, "00:1a:2b:3c:4d:5e");
    assert_eq!(unknown.site, "Main Office");
}

#[test]
fn shown_label_prefers_the_name() {
    assert_eq!(
        device("uap", "U7PG2", Some("Lobby AP")).shown_label(),
        DeviceLabel::Name("Lobby AP".to_string())
    );
    assert_eq!(
        device("uap", "U7PG2", None).shown_label(),
        DeviceLabel::Model("UAP-AC-Pro / Access Point AC Pro".to_string())
    );
    assert_eq!(
        device("uap", "FUTURE", None).shown_label(),
        DeviceLabel::Model("UAP / FUTURE".to_string())
    );
}

#[test]
fn type_is_shown_in_upper_case() {
    assert_eq!(device("usw", "x1y", None).type_and_model(), "USW / x1y");
    assert_eq!(device("Mixed-case", "m", None).type_and_model(), "MIXED-CASE / m");
}

#[test]
fn found_device_is_summed_up() {
    let mut found = device("udm", "UDMPRO", None);
    found.state = DeviceState::Offline;
    found.adopted = false;
    let shown = UnifiDevice::from_basic(&found);
    assert_eq!(
        shown,
        UnifiDevice {
            mac_found: "00:1a:2b:3c:4d:5e".to_string(),
            device_label: DeviceLabel::Model("UDM-Pro / Dream Machine Pro".to_string()),
            site: "Main Office".to_string(),
            state: "Offline",
            adopted: false,
        }
    );
}

#[test]
fn copies_are_equal() {
    let site = UnifiSite { code: "default".to_string(), desc: "Main Office".to_string() };
    assert_eq!(site.clone(), site);
    let d = device("uap", "BZ2", Some("n"));
    assert_eq!(d.clone(), d);
}
