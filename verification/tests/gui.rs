use unifi_search_tool::gui::popup::{GuiError, GuiErrorLevel, PopupWindow};
use unifi_search_tool::gui::{
    handle_button_click, request_cancel, strip_trailing_slash, CancelSignal, GuiInputFields,
};
use unifi_search_tool::mac_address::MacAddress;
use unifi_search_tool::unifi::api::{HttpOutcome, UnifiAPIError};
use unifi_search_tool::unifi::devices::{DeviceState, UnifiDeviceBasic};
use unifi_search_tool::unifi::search::{Progress, UnifiSearchInfo, UnifiSearchStatus};

fn fields() -> GuiInputFields {
    GuiInputFields {
        username_input: "admin".to_string(),
        password_input: "secret".to_string(),
        server_url_input: "https://unifi.example:8443/".to_string(),
        mac_addr_input: "00-1a-2b-3c-4d-5e".to_string(),
        invalid_certs_checked: true,
        remember_pass_checked: false,
    }
}

fn device() -> UnifiDeviceBasic {
    UnifiDeviceBasic {
        mac: "00:1a:2b:3c:4d:5e".to_string(),
        state: DeviceState::Connected,
        adopted: true,
        device_type: "uap".to_string(),
        device_model: "U7PG2".to_string(),
        gateway_mode: None,
        name_option: None,
        device_label_option: None,
        site: "Warehouse".to_string(),
    }
}

fn message(title: &str, desc: &str, err_lvl: GuiErrorLevel) -> GuiError {
    GuiError { title: title.to_string(), desc: desc.to_string(), err_lvl }
}

#[test]
fn messages_are_titled_by_level() {
    assert_eq!(
        GuiError::new_info("Device Not Found", "d".to_string()),
        message("Device Not Found", "d", GuiErrorLevel::Info)
    );
    assert_eq!(
        GuiError::new_standard("Login Failed", "d".to_string()),
        message("Error: Login Failed", "d", GuiErrorLevel::Standard)
    );
    assert_eq!(
        GuiError::new_critical("Json Parsing Error", "d".to_string()),
        message("Critical Error: Json Parsing Error", "d", GuiErrorLevel::Critical)
    );
    assert_eq!(
        GuiError::new_standard_with_code("Login Failed", "d".to_string(), 103),
        message("Error 103: Login Failed", "d", GuiErrorLevel::Standard)
    );
    assert_eq!(
        GuiError::new_critical_with_code("API Parsing Error", "d".to_string(), 304),
        message("Critical Error 304: API Parsing Error", "d", GuiErrorLevel::Critical)
    );
    assert_eq!(
        GuiError::new_standard_with_code("t", String::new(), 0),
        message("Error 0: t", "", GuiErrorLevel::Standard)
    );
}

#[test]
fn click_with_an_empty_field_asks_for_it() {
    for empty in 0..4 {
        let mut f = fields();
        match empty {
            0 => f.username_input.clear(),
            1 => f.password_input.clear(),
            2 => f.server_url_input.clear(),
            _ => f.mac_addr_input.clear(),
        }
        let before = GuiInputFields {
            username_input: f.username_input.clone(),
            password_input: f.password_input.clone(),
            server_url_input: f.server_url_input.clone(),
            mac_addr_input: f.mac_addr_input.clone(),
            invalid_certs_checked: true,
            remember_pass_checked: false,
        };
        let mut popup = None;
        assert_eq!(handle_button_click(&mut f, &mut popup), None);
        assert_eq!(
            popup,
            Some(PopupWindow::Error(message(
                "Error: Required Fields",
                "Username, Password, Server URL, & MAC Address are all required fields.",
                GuiErrorLevel::Standard
            )))
        );
        assert_eq!(f, before);
    }
}

#[test]
fn click_with_a_bad_address_says_so() {
    for bad in ["00:1a:2b:3c:4d", "00:1a-2b:3c:4d:5e", "001a2b3c4d5e", "zz:1a:2b:3c:4d:5e"] {
        let mut f = fields();
        f.mac_addr_input = bad.to_string();
        let mut popup = None;
        assert_eq!(handle_button_click(&mut f, &mut popup), None);
        assert_eq!(
            popup,
            Some(PopupWindow::Error(message(
                "Error: Invalid MAC Address",
                "MAC Address must be formatted like XX:XX:XX:XX:XX:XX or XX-XX-XX-XX-XX-XX with hexadecimal characters only.",
                GuiErrorLevel::Standard
            )))
        );
        assert_eq!(f.password_input, "secret");
    }
}

#[test]
fn click_begins_a_search() {
    let mut f = fields();
    let mut popup = Some(PopupWindow::Error(message("old", "old", GuiErrorLevel::Info)));
    let request = handle_button_click(&mut f, &mut popup);
    assert_eq!(
        request,
        Some(UnifiSearchInfo {
            username: "admin".to_string(),
            password: "secret".to_string(),
            server_url: "https://unifi.example:8443".to_string(),
            mac_to_search: MacAddress::new(0x001A_2B3C_4D5E),
            accept_invalid_certs: true,
        })
    );
    assert_eq!(popup, Some(PopupWindow::SearchProgress(Progress { scanned: 0, total: 1 })));
    assert_eq!(f.password_input, "");
    assert_eq!(f.username_input, "admin");
    assert_eq!(f.server_url_input, "https://unifi.example:8443/");
}

#[test]
fn remembered_password_stays_in_the_form() {
    let mut f = fields();
    f.remember_pass_checked = true;
    f.invalid_certs_checked = false;
    let mut popup = None;
    let request = handle_button_click(&mut f, &mut popup).unwrap();
    assert_eq!(request.password, "secret");
    assert!(!request.accept_invalid_certs);
    assert_eq!(f.password_input, "secret");
}

#[test]
fn click_during_a_search_does_nothing() {
    for shown in [
        PopupWindow::SearchProgress(Progress { scanned: 1, total: 3 }),
        PopupWindow::DisplayCancel,
    ] {
        let mut f = fields();
        let mut popup = Some(shown);
        assert_eq!(handle_button_click(&mut f, &mut popup), None);
        assert!(PopupWindow::search_outstanding(&popup));
        assert_eq!(f, fields());
    }
    assert!(!PopupWindow::search_outstanding(&None));
    assert!(!PopupWindow::search_outstanding(&Some(PopupWindow::SearchResult(device()))));
}

#[test]
fn one_trailing_slash_is_stripped() {
    assert_eq!(strip_trailing_slash("https://c:8443/"), "https://c:8443");
    assert_eq!(strip_trailing_slash("https://c:8443"), "https://c:8443");
    assert_eq!(strip_trailing_slash("https://c//"), "https://c/");
    assert_eq!(strip_trailing_slash("/"), "");
    assert_eq!(strip_trailing_slash(""), "");
    assert_eq!(strip_trailing_slash("https://b\u{fc}ro.example/"), "https://b\u{fc}ro.example");
}

#[test]
fn cancel_click_shows_the_wait() {
    let mut popup = Some(PopupWindow::SearchProgress(Progress { scanned: 1, total: 3 }));
    assert_eq!(request_cancel(&mut popup), CancelSignal);
    assert_eq!(popup, Some(PopupWindow::DisplayCancel));
}

#[test]
fn reported_progress_is_shown() {
    let mut popup = Some(PopupWindow::SearchProgress(Progress { scanned: 0, total: 1 }));
    PopupWindow::create_search_progress(&mut popup, None);
    assert_eq!(popup, Some(PopupWindow::SearchProgress(Progress { scanned: 0, total: 1 })));
    PopupWindow::create_search_progress(&mut popup, Some(Progress { scanned: 2, total: 5 }));
    assert_eq!(popup, Some(PopupWindow::SearchProgress(Progress { scanned: 2, total: 5 })));
}

#[test]
fn results_are_shown() {
    assert_eq!(
        PopupWindow::for_result(Ok(UnifiSearchStatus::DeviceFound(device())), "00-1a-2b-3c-4d-5e"),
        Some(PopupWindow::SearchResult(device()))
    );
    assert_eq!(
        PopupWindow::for_result(Ok(UnifiSearchStatus::DeviceNotFound), "00-1a-2b-3c-4d-5e"),
        Some(PopupWindow::Error(message(
            "Device Not Found",
            "Unable to find device with MAC Address 00-1a-2b-3c-4d-5e",
            GuiErrorLevel::Info
        )))
    );
    assert_eq!(PopupWindow::for_result(Ok(UnifiSearchStatus::Cancelled), "m"), None);
}

#[test]
fn failures_are_shown_by_kind() {
    assert_eq!(
        GuiError::for_api_error(&UnifiAPIError::ClientError { detail: "no TLS".to_string() }),
        message(
            "Critical Error: Reqwest Client Error",
            "Unable to Build Unifi Client\nError building reqwest client\nno TLS",
            GuiErrorLevel::Critical
        )
    );
    assert_eq!(
        GuiError::for_api_error(&UnifiAPIError::LoginAuthenticationError {
            url: "https://c/api/login".to_string()
        }),
        message(
            "Error: Login Failed",
            "Unable to login to https://c/api/login\nInvalid credentials",
            GuiErrorLevel::Standard
        )
    );
    assert_eq!(
        GuiError::for_api_error(&UnifiAPIError::ReqwestError {
            outcome: HttpOutcome::Status { code: 404 }
        }),
        message(
            "Error: Unifi API Error",
            "Error communicating with Unifi API, check your URL & try again\nHTTP status 404",
            GuiErrorLevel::Standard
        )
    );
    assert_eq!(
        PopupWindow::for_result(
            Err(UnifiAPIError::JsonError {
                url: "https://c/api/self/sites".to_string(),
                cause: "EOF while parsing".to_string()
            }),
            "m"
        ),
        Some(PopupWindow::Error(message(
            "Critical Error: Json Parsing Error",
            "Error parsing json from\nhttps://c/api/self/sites\nEOF while parsing",
            GuiErrorLevel::Critical
        )))
    );
}

#[test]
fn cancelled_end_closes_the_wait() {
    let mut popup = Some(PopupWindow::DisplayCancel);
    PopupWindow::create_cancel(&mut popup, &Ok(UnifiSearchStatus::DeviceNotFound));
    assert_eq!(popup, Some(PopupWindow::DisplayCancel));
    PopupWindow::create_cancel(
        &mut popup,
        &Err(UnifiAPIError::LoginAuthenticationError { url: "u".to_string() }),
    );
    assert_eq!(popup, Some(PopupWindow::DisplayCancel));
    PopupWindow::create_cancel(&mut popup, &Ok(UnifiSearchStatus::Cancelled));
    assert_eq!(popup, None);
}

#[test]
fn rows_of_a_plain_device() {
    let mut d = device();
    d.create_device_label();
    let rows = PopupWindow::create_search_result(&d);
    assert_eq!(
        rows,
        vec![
            ("Model / SKU / Product:", "U7PG2 / UAP-AC-Pro / Access Point AC Pro".to_string()),
            ("Unifi Site:", "Warehouse".to_string()),
            ("MAC Address:", "00:1a:2b:3c:4d:5e".to_string()),
            ("Device Status:", "Connected".to_string()),
        ]
    );
}

#[test]
fn rows_of_a_named_unadopted_gateway() {
    let mut d = device();
    d.name_option = Some("Edge".to_string());
    d.device_type = "ugw".to_string();
    d.device_model = "FUTURE".to_string();
    d.adopted = false;
    d.gateway_mode = Some(true);
    d.state = DeviceState::PendingAdoption;
    d.create_device_label();
    let rows = PopupWindow::create_search_result(&d);
    assert_eq!(
        rows,
        vec![
            ("Device Name:", "Edge".to_string()),
            ("Device Type / Model:", "UGW / FUTURE".to_string()),
            ("Unifi Site:", "Warehouse".to_string()),
            ("MAC Address:", "00:1a:2b:3c:4d:5e".to_string()),
            ("Device Status:", "Pending Adoption".to_string()),
            ("Adopted", "False".to_string()),
            ("Gateway Mode:", "True".to_string()),
        ]
    );
    d.gateway_mode = Some(false);
    assert_eq!(PopupWindow::create_search_result(&d).len(), 6);
}
