use unifi_search_tool::mac_address::MacAddress;
use unifi_search_tool::unifi::api::{ClientPolicy, HttpOutcome, UnifiAPIError};
use unifi_search_tool::unifi::devices::{DeviceState, UnifiDeviceBasic, UnifiSite};
use unifi_search_tool::unifi::json::Json;
use unifi_search_tool::unifi::search::{
    device_matches, find_device, find_unifi_device, run_unifi_search, search_unifi_api, Progress,
    SearchCommand, SearchEvent, SearchPhase, SearchSession, UnifiSearchInfo, UnifiSearchResult,
    UnifiSearchStatus,
};

const SERVER: &str = "https://unifi.example:8443";
const TARGET: &str = "AA:BB:CC:DD:EE:FF";

fn request() -> UnifiSearchInfo {
    UnifiSearchInfo {
        username: "admin".to_string(),
        password: "secret".to_string(),
        server_url: SERVER.to_string(),
        mac_to_search: MacAddress::from_str(TARGET).unwrap(),
        accept_invalid_certs: true,
    }
}

fn site(code: &str, desc: &str) -> UnifiSite {
    UnifiSite { code: code.to_string(), desc: desc.to_string() }
}

fn three_sites() -> Vec<UnifiSite> {
    vec![site("default", "Head Office"), site("k3x9", "Warehouse"), site("p0q1", "Shop")]
}

fn device(mac: &str) -> UnifiDeviceBasic {
    UnifiDeviceBasic {
        mac: mac.to_string(),
        state: DeviceState::Connected,
        adopted: true,
        device_type: "uap".to_string(),
        device_model: "U7PG2".to_string(),
        gateway_mode: None,
        name_option: None,
        device_label_option: None,
        site: String::new(),
    }
}

fn others(n: usize) -> Vec<UnifiDeviceBasic> {
    (0..n).map(|i| device(&format!("00:00:00:00:00:{:02x}", i))).collect()
}

fn text(value: &str) -> Json {
    Json::Str(value.to_string())
}

fn object(members: Vec<(&str, Json)>) -> Json {
    Json::Object(members.into_iter().map(|(key, value)| (key.to_string(), value)).collect())
}

fn envelope(data: Vec<Json>) -> Json {
    object(vec![("meta", object(vec![("rc", text("ok"))])), ("data", Json::Array(data))])
}

fn sites_document(sites: Vec<UnifiSite>) -> Json {
    envelope(
        sites
            .iter()
            .map(|s| object(vec![("name", text(&s.code)), ("desc", text(&s.desc))]))
            .collect(),
    )
}

fn device_entry(device: &UnifiDeviceBasic) -> Json {
    let mut members = vec![
        ("mac", text(&device.mac)),
        ("state", Json::Integer(1)),
        ("adopted", Json::Bool(device.adopted)),
        ("type", text(&device.device_type)),
        ("model", text(&device.device_model)),
    ];
    if let Some(name) = &device.name_option {
        members.push(("name", text(name)));
    }
    object(members)
}

fn devices_document(devices: Vec<UnifiDeviceBasic>) -> Json {
    envelope(devices.iter().map(device_entry).collect())
}

fn ok() -> HttpOutcome {
    HttpOutcome::Status { code: 200 }
}

/// The controller and the user, as a test plays them.
struct Script {
    build: Result<(), String>,
    login: u16,
    /// Which poll finds the cancel signal, counting from 0; none if `None`.
    cancel_at_poll: Option<usize>,
    sites: Result<Vec<UnifiSite>, String>,
    sites_status: u16,
    /// The answer for each site, by the site's code.
    devices: Vec<(String, u16, Result<Vec<UnifiDeviceBasic>, String>)>,
}

fn script(devices: Vec<(&str, Result<Vec<UnifiDeviceBasic>, String>)>) -> Script {
    Script {
        build: Ok(()),
        login: 200,
        cancel_at_poll: None,
        sites: Ok(three_sites()),
        sites_status: 200,
        devices: devices.into_iter().map(|(code, body)| (code.to_string(), 200, body)).collect(),
    }
}

/// What a run did: the commands in order, and how it ended.
struct Trace {
    commands: Vec<String>,
    progress: Vec<Progress>,
    result: UnifiSearchResult,
    session: SearchSession,
}

fn name(command: &SearchCommand) -> String {
    match command {
        SearchCommand::BuildClient { .. } => "build".to_string(),
        SearchCommand::Login { url } => format!("login {}", url),
        SearchCommand::PollCancel => "poll".to_string(),
        SearchCommand::GetSites { url } => format!("sites {}", url),
        SearchCommand::EmitProgress { progress } => {
            format!("progress {}/{}", progress.scanned, progress.total)
        }
        SearchCommand::GetDevices { url } => format!("devices {}", url),
        SearchCommand::GetAllDevices { urls } => format!("all devices {}", urls.len()),
        SearchCommand::AwaitSite => "await".to_string(),
        SearchCommand::Deliver { .. } => "deliver".to_string(),
    }
}

fn site_code(url: &str) -> String {
    let rest = url.strip_prefix(&format!("{}/api/s/", SERVER)).unwrap();
    rest.strip_suffix("/stat/device-basic").unwrap().to_string()
}

/// Drives a session to its end, doing what a worker does, against `script`.
fn drive(start: (SearchSession, SearchCommand), mut script: Script) -> Trace {
    let (mut session, mut command) = start;
    let mut commands = Vec::new();
    let mut progress = Vec::new();
    let mut polls = 0usize;
    let mut waiting: Vec<usize> = Vec::new();
    let mut codes: Vec<String> = Vec::new();
    loop {
        commands.push(name(&command));
        let event = match command {
            SearchCommand::BuildClient { policy } => {
                assert_eq!(
                    policy,
                    ClientPolicy { timeout_secs: 15, accept_invalid_certs: true, cookie_store: true }
                );
                SearchEvent::ClientBuilt(script.build.clone())
            }
            SearchCommand::Login { url } => {
                assert_eq!(url, format!("{}/api/login", SERVER));
                assert_eq!(session.username(), "admin");
                assert_eq!(session.password(), "secret");
                SearchEvent::LoginReply(HttpOutcome::Status { code: script.login })
            }
            SearchCommand::PollCancel => {
                let found = script.cancel_at_poll == Some(polls);
                polls += 1;
                SearchEvent::CancelPolled(found)
            }
            SearchCommand::GetSites { url } => {
                assert_eq!(url, format!("{}/api/self/sites", SERVER));
                if let Ok(sites) = &script.sites {
                    codes = sites.iter().map(|s| s.code.clone()).collect();
                }
                SearchEvent::SitesReply {
                    outcome: HttpOutcome::Status { code: script.sites_status },
                    sites: std::mem::replace(&mut script.sites, Err(String::new()))
                        .map(sites_document),
                }
            }
            SearchCommand::EmitProgress { progress: p } => {
                progress.push(p);
                SearchEvent::ProgressEmitted
            }
            SearchCommand::GetDevices { url } => {
                let code = site_code(&url);
                let at = script.devices.iter().position(|d| d.0 == code).unwrap();
                let (_, status, body) = script.devices.remove(at);
                SearchEvent::DevicesReply {
                    outcome: HttpOutcome::Status { code: status },
                    devices: body.map(devices_document),
                }
            }
            SearchCommand::GetAllDevices { urls } => {
                assert_eq!(urls.len(), codes.len());
                for (url, code) in urls.iter().zip(codes.iter()) {
                    assert_eq!(&site_code(url), code);
                }
                // The answers come in the order in which the script lists them.
                waiting = script
                    .devices
                    .iter()
                    .map(|d| codes.iter().position(|c| *c == d.0).unwrap())
                    .collect();
                waiting.reverse();
                let (_, status, body) = script.devices.remove(0);
                SearchEvent::SiteDone {
                    site: waiting.pop().unwrap(),
                    outcome: HttpOutcome::Status { code: status },
                    devices: body.map(devices_document),
                }
            }
            SearchCommand::AwaitSite => {
                let (_, status, body) = script.devices.remove(0);
                SearchEvent::SiteDone {
                    site: waiting.pop().unwrap(),
                    outcome: HttpOutcome::Status { code: status },
                    devices: body.map(devices_document),
                }
            }
            SearchCommand::Deliver { result } => {
                assert!(session.is_finished());
                assert_eq!(session.phase(), SearchPhase::Finished);
                return Trace { commands, progress, result, session };
            }
        };
        assert!(session.accepts(&event));
        let next = find_unifi_device(session, event);
        session = next.0;
        command = next.1;
    }
}

fn fetches(trace: &Trace) -> usize {
    trace.commands.iter().filter(|c| c.starts_with("devices ") || c.starts_with("all devices")).count()
}

fn p(scanned: usize, total: usize) -> Progress {
    Progress { scanned, total }
}

#[test]
fn device_in_second_site_is_found() {
    let mut second = others(4);
    second.push(device("aa-bb-cc-dd-ee-ff"));
    second.push(device("00:00:00:00:00:99"));
    let trace = drive(
        run_unifi_search(request()),
        script(vec![("default", Ok(others(3))), ("k3x9", Ok(second)), ("p0q1", Ok(others(2)))]),
    );
    let mut expected = device("aa-bb-cc-dd-ee-ff");
    expected.device_label_option = Some("UAP-AC-Pro / Access Point AC Pro");
    expected.site = "Warehouse".to_string();
    assert_eq!(trace.result, Ok(UnifiSearchStatus::DeviceFound(expected)));
    assert_eq!(trace.progress, vec![p(0, 3), p(1, 3), p(3, 3)]);
    assert_eq!(
        trace.commands,
        vec![
            "build".to_string(),
            format!("login {}/api/login", SERVER),
            "poll".to_string(),
            format!("sites {}/api/self/sites", SERVER),
            "poll".to_string(),
            "progress 0/3".to_string(),
            format!("devices {}/api/s/default/stat/device-basic", SERVER),
            "poll".to_string(),
            "progress 1/3".to_string(),
            format!("devices {}/api/s/k3x9/stat/device-basic", SERVER),
            "progress 3/3".to_string(),
            "deliver".to_string(),
        ]
    );
    assert_eq!(trace.session.username(), "\0\0\0\0\0");
    assert_eq!(trace.session.password(), "\0\0\0\0\0\0");
}

#[test]
fn rejected_login_fails_the_search() {
    let mut s = script(vec![]);
    s.login = 400;
    let trace = drive(run_unifi_search(request()), s);
    assert_eq!(
        trace.result,
        Err(UnifiAPIError::LoginAuthenticationError { url: format!("{}/api/login", SERVER) })
    );
    assert_eq!(
        trace.commands,
        vec!["build".to_string(), format!("login {}/api/login", SERVER), "deliver".to_string()]
    );
    assert!(trace.commands.iter().all(|c| !c.starts_with("sites ")));
    assert_eq!(trace.session.password(), "\0\0\0\0\0\0");
    assert_eq!(trace.session.username(), "\0\0\0\0\0");
}

#[test]
fn no_match_in_any_site_is_not_found() {
    let trace = drive(
        run_unifi_search(request()),
        script(vec![("default", Ok(others(3))), ("k3x9", Ok(others(5))), ("p0q1", Ok(vec![]))]),
    );
    assert_eq!(trace.result, Ok(UnifiSearchStatus::DeviceNotFound));
    assert_eq!(trace.progress, vec![p(0, 3), p(1, 3), p(2, 3)]);
    assert_eq!(fetches(&trace), 3);
}

#[test]
fn malformed_devices_of_second_site_fail_the_search() {
    let trace = drive(
        run_unifi_search(request()),
        script(vec![
            ("default", Ok(others(3))),
            ("k3x9", Err("expected `,` or `}` at line 1 column 17".to_string())),
            ("p0q1", Ok(vec![device(TARGET)])),
        ]),
    );
    assert_eq!(
        trace.result,
        Err(UnifiAPIError::JsonError {
            url: format!("{}/api/s/k3x9/stat/device-basic", SERVER),
            cause: "expected `,` or `}` at line 1 column 17".to_string(),
        })
    );
    assert_eq!(fetches(&trace), 2);
    assert_eq!(trace.progress, vec![p(0, 3), p(1, 3)]);
    assert!(trace.commands.iter().all(|c| !c.contains("p0q1")));
}

#[test]
fn cancel_after_login_asks_for_nothing() {
    let mut s = script(vec![("default", Ok(vec![device(TARGET)]))]);
    s.cancel_at_poll = Some(0);
    let trace = drive(run_unifi_search(request()), s);
    assert_eq!(trace.result, Ok(UnifiSearchStatus::Cancelled));
    assert_eq!(
        trace.commands,
        vec![
            "build".to_string(),
            format!("login {}/api/login", SERVER),
            "poll".to_string(),
            "deliver".to_string()
        ]
    );
    assert_eq!(fetches(&trace), 0);
    assert!(trace.progress.is_empty());
}

#[test]
fn cancel_before_first_site_asks_for_no_devices() {
    let mut s = script(vec![("default", Ok(vec![device(TARGET)]))]);
    s.cancel_at_poll = Some(1);
    let trace = drive(run_unifi_search(request()), s);
    assert_eq!(trace.result, Ok(UnifiSearchStatus::Cancelled));
    assert_eq!(fetches(&trace), 0);
    assert!(trace.progress.is_empty());
    assert_eq!(trace.commands.last().unwrap(), "deliver");
    assert_eq!(trace.commands[trace.commands.len() - 2], "poll");
}

#[test]
fn cancel_between_sites_stops_before_the_next() {
    let mut s = script(vec![("default", Ok(others(2))), ("k3x9", Ok(vec![device(TARGET)]))]);
    s.cancel_at_poll = Some(2);
    let trace = drive(run_unifi_search(request()), s);
    assert_eq!(trace.result, Ok(UnifiSearchStatus::Cancelled));
    assert_eq!(fetches(&trace), 1);
    assert_eq!(trace.progress, vec![p(0, 3)]);
}

#[test]
fn progress_never_goes_back() {
    let mut last = others(7);
    last.push(device(TARGET));
    let trace = drive(
        run_unifi_search(request()),
        script(vec![("default", Ok(others(1))), ("k3x9", Ok(others(0))), ("p0q1", Ok(last))]),
    );
    assert_eq!(trace.progress, vec![p(0, 3), p(1, 3), p(2, 3), p(3, 3)]);
    for pair in trace.progress.windows(2) {
        assert_eq!(pair[0].total, pair[1].total);
        assert!(pair[0].scanned <= pair[1].scanned);
    }
    for one in &trace.progress {
        assert!(one.scanned <= one.total && one.total > 0);
    }
    assert!(matches!(trace.result, Ok(UnifiSearchStatus::DeviceFound(_))));
    assert_eq!(trace.commands[trace.commands.len() - 2], "progress 3/3");
}

#[test]
fn client_that_cannot_be_built_fails_the_search() {
    let mut s = script(vec![]);
    s.build = Err("invalid proxy".to_string());
    let trace = drive(run_unifi_search(request()), s);
    assert_eq!(trace.result, Err(UnifiAPIError::ClientError { detail: "invalid proxy".to_string() }));
    assert_eq!(trace.commands, vec!["build".to_string(), "deliver".to_string()]);
    assert_eq!(trace.session.password(), "\0\0\0\0\0\0");
    assert_eq!(trace.session.username(), "\0\0\0\0\0");
}

#[test]
fn login_error_statuses_are_transport_errors() {
    for code in [401u16, 500, 302] {
        let mut s = script(vec![]);
        s.login = code;
        let trace = drive(run_unifi_search(request()), s);
        assert_eq!(
            trace.result,
            Err(UnifiAPIError::ReqwestError { outcome: HttpOutcome::Status { code } })
        );
        assert_eq!(trace.commands.len(), 3);
    }
}

#[test]
fn failing_site_list_fails_the_search() {
    let mut s = script(vec![]);
    s.sites_status = 500;
    let trace = drive(run_unifi_search(request()), s);
    assert_eq!(
        trace.result,
        Err(UnifiAPIError::ReqwestError { outcome: HttpOutcome::Status { code: 500 } })
    );
    let mut s = script(vec![]);
    s.sites = Err("missing field `meta`".to_string());
    let trace = drive(run_unifi_search(request()), s);
    assert_eq!(
        trace.result,
        Err(UnifiAPIError::JsonError {
            url: format!("{}/api/self/sites", SERVER),
            cause: "missing field `meta`".to_string(),
        })
    );
    assert_eq!(fetches(&trace), 0);
}

#[test]
fn controller_without_sites_has_no_device() {
    let mut s = script(vec![]);
    s.sites = Ok(vec![]);
    let trace = drive(run_unifi_search(request()), s);
    assert_eq!(trace.result, Ok(UnifiSearchStatus::DeviceNotFound));
    assert!(trace.progress.is_empty());
    assert_eq!(trace.commands.iter().filter(|c| *c == "poll").count(), 1);
}

#[test]
fn failing_device_query_fails_the_search() {
    let mut s = script(vec![("default", Ok(vec![device(TARGET)]))]);
    s.devices[0].1 = 404;
    let trace = drive(run_unifi_search(request()), s);
    assert_eq!(
        trace.result,
        Err(UnifiAPIError::ReqwestError { outcome: HttpOutcome::Status { code: 404 } })
    );
    assert_eq!(fetches(&trace), 1);
}

#[test]
fn record_with_malformed_address_is_skipped() {
    let devices = vec![
        device("not a mac"),
        device(""),
        device("aa:bb:cc:dd:ee"),
        device("aa:bb-cc:dd:ee:ff"),
        device("xaa:bb:cc:dd:ee:ff"),
        device("aa:bb:cc:dd:ee:ff"),
    ];
    assert_eq!(find_device(&devices, &MacAddress::from_str(TARGET).unwrap()), Some(5));
    let trace = drive(run_unifi_search(request()), script(vec![("default", Ok(devices))]));
    let mut expected = device("aa:bb:cc:dd:ee:ff");
    expected.device_label_option = Some("UAP-AC-Pro / Access Point AC Pro");
    expected.site = "Head Office".to_string();
    assert_eq!(trace.result, Ok(UnifiSearchStatus::DeviceFound(expected)));
}

#[test]
fn first_of_two_matches_is_taken() {
    let mut a = device("AA-BB-CC-DD-EE-FF");
    a.name_option = Some("first".to_string());
    let mut b = device("aa:bb:cc:dd:ee:ff");
    b.name_option = Some("second".to_string());
    let devices = vec![device("00:00:00:00:00:01"), a, b];
    let target = MacAddress::from_str(TARGET).unwrap();
    assert_eq!(find_device(&devices, &target), Some(1));
    assert_eq!(find_device(&others(4), &target), None);
    assert_eq!(find_device(&vec![], &target), None);
    assert!(device_matches(&devices[2], &target));
    assert!(!device_matches(&devices[0], &target));
    assert!(!device_matches(&device("aa:bb:cc:dd:ee:f"), &target));
}

#[test]
fn unknown_model_is_found_without_label() {
    let mut d = device(TARGET);
    d.device_model = "FUTURE".to_string();
    let trace = drive(run_unifi_search(request()), script(vec![("default", Ok(vec![d]))]));
    match trace.result {
        Ok(UnifiSearchStatus::DeviceFound(found)) => {
            assert_eq!(found.device_label_option, None);
            assert_eq!(found.site, "Head Office");
            assert_eq!(found.device_model, "FUTURE");
        }
        other => panic!("found nothing: {:?}", other),
    }
}

#[test]
fn out_of_turn_events_are_not_accepted() {
    let (session, _) = run_unifi_search(request());
    assert_eq!(session.phase(), SearchPhase::BuildingClient);
    assert!(session.accepts(&SearchEvent::ClientBuilt(Ok(()))));
    assert!(!session.accepts(&SearchEvent::LoginReply(ok())));
    assert!(!session.accepts(&SearchEvent::CancelPolled(true)));
    assert!(!session.accepts(&SearchEvent::ProgressEmitted));
    assert!(!session.accepts(&SearchEvent::SitesReply { outcome: ok(), sites: Ok(envelope(vec![])) }));
    assert!(!session
        .accepts(&SearchEvent::DevicesReply { outcome: ok(), devices: Ok(envelope(vec![])) }));
    assert!(!session.accepts(&SearchEvent::SiteDone {
        site: 0,
        outcome: ok(),
        devices: Ok(envelope(vec![]))
    }));
    let (session, _) = find_unifi_device(session, SearchEvent::ClientBuilt(Ok(())));
    assert_eq!(session.phase(), SearchPhase::LoggingIn);
    assert!(!session.accepts(&SearchEvent::ClientBuilt(Ok(()))));
    let (session, command) = find_unifi_device(session, SearchEvent::LoginReply(ok()));
    assert_eq!(command, SearchCommand::PollCancel);
    assert_eq!(session.phase(), SearchPhase::PollingBeforeSites);
    let (session, command) = find_unifi_device(session, SearchEvent::CancelPolled(true));
    assert_eq!(command, SearchCommand::Deliver { result: Ok(UnifiSearchStatus::Cancelled) });
    assert!(!session.accepts(&SearchEvent::CancelPolled(false)));
    assert!(!session.accepts(&SearchEvent::ProgressEmitted));
}

#[test]
fn all_at_once_scans_in_order_of_answers() {
    let trace = drive(
        search_unifi_api(request()),
        script(vec![
            ("p0q1", Ok(others(2))),
            ("default", Ok(vec![device("00:00:00:00:00:01"), device(TARGET)])),
            ("k3x9", Ok(others(1))),
        ]),
    );
    let mut expected = device(TARGET);
    expected.device_label_option = Some("UAP-AC-Pro / Access Point AC Pro");
    expected.site = "Head Office".to_string();
    assert_eq!(trace.result, Ok(UnifiSearchStatus::DeviceFound(expected)));
    assert_eq!(trace.progress, vec![p(0, 3), p(1, 3), p(3, 3)]);
    assert_eq!(
        trace.commands,
        vec![
            "build".to_string(),
            format!("login {}/api/login", SERVER),
            "poll".to_string(),
            format!("sites {}/api/self/sites", SERVER),
            "all devices 3".to_string(),
            "poll".to_string(),
            "progress 0/3".to_string(),
            "await".to_string(),
            "poll".to_string(),
            "progress 1/3".to_string(),
            "progress 3/3".to_string(),
            "deliver".to_string(),
        ]
    );
}

#[test]
fn all_at_once_ends_after_last_answer() {
    let trace = drive(
        search_unifi_api(request()),
        script(vec![("k3x9", Ok(others(2))), ("p0q1", Ok(others(1))), ("default", Ok(others(3)))]),
    );
    assert_eq!(trace.result, Ok(UnifiSearchStatus::DeviceNotFound));
    assert_eq!(trace.progress, vec![p(0, 3), p(1, 3), p(2, 3)]);
}

#[test]
fn all_at_once_fails_on_first_bad_answer() {
    let trace = drive(
        search_unifi_api(request()),
        script(vec![
            ("k3x9", Err("trailing characters".to_string())),
            ("default", Ok(vec![device(TARGET)])),
            ("p0q1", Ok(others(1))),
        ]),
    );
    assert_eq!(
        trace.result,
        Err(UnifiAPIError::JsonError {
            url: format!("{}/api/s/k3x9/stat/device-basic", SERVER),
            cause: "trailing characters".to_string(),
        })
    );
    assert!(trace.progress.is_empty());
}

#[test]
fn all_at_once_can_be_cancelled() {
    let mut s = script(vec![
        ("default", Ok(others(1))),
        ("k3x9", Ok(vec![device(TARGET)])),
        ("p0q1", Ok(others(1))),
    ]);
    s.cancel_at_poll = Some(2);
    let trace = drive(search_unifi_api(request()), s);
    assert_eq!(trace.result, Ok(UnifiSearchStatus::Cancelled));
    assert_eq!(trace.progress, vec![p(0, 3)]);
}

#[test]
fn malformed_record_among_devices_is_passed_over() {
    let entries = vec![
        Json::Null,
        text("not a device"),
        object(vec![("mac", text(TARGET))]),
        object(vec![
            ("mac", text(TARGET)),
            ("state", text("1")),
            ("adopted", Json::Bool(true)),
            ("type", text("uap")),
            ("model", text("U7PG2")),
        ]),
        device_entry(&device("00:00:00:00:00:07")),
        device_entry(&device(TARGET)),
    ];
    let (session, command) = run_unifi_search(request());
    assert!(matches!(command, SearchCommand::BuildClient { .. }));
    let (session, _) = find_unifi_device(session, SearchEvent::ClientBuilt(Ok(())));
    let (session, _) = find_unifi_device(session, SearchEvent::LoginReply(ok()));
    let (session, _) = find_unifi_device(session, SearchEvent::CancelPolled(false));
    let (session, _) = find_unifi_device(
        session,
        SearchEvent::SitesReply { outcome: ok(), sites: Ok(sites_document(three_sites())) },
    );
    let (session, _) = find_unifi_device(session, SearchEvent::CancelPolled(false));
    let (session, _) = find_unifi_device(session, SearchEvent::ProgressEmitted);
    let (session, command) = find_unifi_device(
        session,
        SearchEvent::DevicesReply { outcome: ok(), devices: Ok(envelope(entries)) },
    );
    assert_eq!(
        command,
        SearchCommand::EmitProgress { progress: Progress { scanned: 3, total: 3 } }
    );
    let (_, command) = find_unifi_device(session, SearchEvent::ProgressEmitted);
    let mut expected = device(TARGET);
    expected.device_label_option = Some("UAP-AC-Pro / Access Point AC Pro");
    expected.site = "Head Office".to_string();
    assert_eq!(command, SearchCommand::Deliver { result: Ok(UnifiSearchStatus::DeviceFound(expected)) });
}

#[test]
fn envelope_without_data_fails_the_search() {
    let (session, _) = run_unifi_search(request());
    let (session, _) = find_unifi_device(session, SearchEvent::ClientBuilt(Ok(())));
    let (session, _) = find_unifi_device(session, SearchEvent::LoginReply(ok()));
    let (session, _) = find_unifi_device(session, SearchEvent::CancelPolled(false));
    let (_, command) = find_unifi_device(
        session,
        SearchEvent::SitesReply {
            outcome: ok(),
            sites: Ok(object(vec![("meta", object(vec![("rc", text("ok"))]))])),
        },
    );
    assert_eq!(
        command,
        SearchCommand::Deliver {
            result: Err(UnifiAPIError::JsonError {
                url: format!("{}/api/self/sites", SERVER),
                cause: "the answer has no array `data`".to_string(),
            })
        }
    );
}

#[test]
fn all_at_once_ends_when_an_answer_is_lost() {
    let (session, _) = search_unifi_api(request());
    let (session, _) = find_unifi_device(session, SearchEvent::ClientBuilt(Ok(())));
    let (session, _) = find_unifi_device(session, SearchEvent::LoginReply(ok()));
    let (session, _) = find_unifi_device(session, SearchEvent::CancelPolled(false));
    let (session, command) = find_unifi_device(
        session,
        SearchEvent::SitesReply { outcome: ok(), sites: Ok(sites_document(three_sites())) },
    );
    assert!(matches!(command, SearchCommand::GetAllDevices { .. }));
    assert!(session.accepts(&SearchEvent::NoAnswerLeft));
    let (session, _) = find_unifi_device(
        session,
        SearchEvent::SiteDone { site: 2, outcome: ok(), devices: Ok(devices_document(others(2))) },
    );
    assert!(!session.accepts(&SearchEvent::NoAnswerLeft));
    let (session, _) = find_unifi_device(session, SearchEvent::CancelPolled(false));
    let (session, command) = find_unifi_device(session, SearchEvent::ProgressEmitted);
    assert_eq!(command, SearchCommand::AwaitSite);
    let (session, command) = find_unifi_device(session, SearchEvent::NoAnswerLeft);
    assert_eq!(command, SearchCommand::Deliver { result: Ok(UnifiSearchStatus::DeviceNotFound) });
    assert!(session.is_finished());
}

#[test]
fn no_answer_left_is_not_for_a_search_site_after_site() {
    let (session, _) = run_unifi_search(request());
    assert!(!session.accepts(&SearchEvent::NoAnswerLeft));
    let (session, _) = find_unifi_device(session, SearchEvent::ClientBuilt(Ok(())));
    let (session, _) = find_unifi_device(session, SearchEvent::LoginReply(ok()));
    let (session, _) = find_unifi_device(session, SearchEvent::CancelPolled(false));
    let (session, _) = find_unifi_device(
        session,
        SearchEvent::SitesReply { outcome: ok(), sites: Ok(sites_document(three_sites())) },
    );
    assert!(!session.accepts(&SearchEvent::NoAnswerLeft));
}
