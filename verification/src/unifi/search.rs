//! The search for one device: a session that the caller drives. The caller
//! does what the session commands (sets up the HTTP client, sends a
//! request, polls for the cancel signal, reports progress) and tells the
//! session how it went; the session says what comes next.

use vstd::prelude::*;
use vstd::string::*;

use super::api::{
    site_devices_url, wipe, ApiErrorView, ClientPolicy, HttpOutcome, HttpOutcomeView,
    UnifiAPIError, UnifiClient,
};
use super::devices::{DeviceView, SiteView, UnifiDeviceBasic, UnifiSite};
use super::json::{decoded_devices, decoded_sites, Json};
use super::protocol::{device_has_address, first_match, first_match_from, SessionView};
use crate::mac_address::MacAddress;

verus! {

/// What the user asks for: the controller, the credentials for it, and the
/// address of the device to find.
#[derive(Debug, PartialEq, Eq)]
pub struct UnifiSearchInfo {
    pub username: String,
    pub password: String,
    pub server_url: String,
    pub mac_to_search: MacAddress,
    pub accept_invalid_certs: bool,
}

/// What the user asks for, as plain values.
pub struct SearchInfoView {
    pub username: Seq<char>,
    pub password: Seq<char>,
    pub server_url: Seq<char>,
    pub mac_to_search: nat,
    pub accept_invalid_certs: bool,
}

impl View for UnifiSearchInfo {
    type V = SearchInfoView;

    open spec fn view(&self) -> SearchInfoView {
        SearchInfoView {
            username: self.username@,
            password: self.password@,
            server_url: self.server_url@,
            mac_to_search: self.mac_to_search@,
            accept_invalid_certs: self.accept_invalid_certs,
        }
    }
}

impl Default for UnifiSearchInfo {
    /// A request with nothing filled in.
    fn default() -> (r: UnifiSearchInfo)
        ensures
            r@ == (SearchInfoView {
                username: Seq::empty(),
                password: Seq::empty(),
                server_url: Seq::empty(),
                mac_to_search: 0,
                accept_invalid_certs: false,
            }),
    {
        UnifiSearchInfo {
            username: String::new(),
            password: String::new(),
            server_url: String::new(),
            mac_to_search: MacAddress::default(),
            accept_invalid_certs: false,
        }
    }
}

/// How far a search has come: `scanned` of `total` sites.
#[derive(Copy, Clone, Debug, PartialEq, Eq, Structural)]
pub struct Progress {
    pub scanned: usize,
    pub total: usize,
}

/// How far a search has come, as plain values.
pub struct ProgressView {
    pub scanned: nat,
    pub total: nat,
}

impl View for Progress {
    type V = ProgressView;

    open spec fn view(&self) -> ProgressView {
        ProgressView { scanned: self.scanned as nat, total: self.total as nat }
    }
}

/// How a search ended, where nothing went wrong.
#[derive(Debug, PartialEq, Eq)]
pub enum UnifiSearchStatus {
    DeviceFound(UnifiDeviceBasic),
    DeviceNotFound,
    Cancelled,
}

/// How a search ended, as plain values.
pub enum StatusView {
    DeviceFound(DeviceView),
    DeviceNotFound,
    Cancelled,
}

impl View for UnifiSearchStatus {
    type V = StatusView;

    open spec fn view(&self) -> StatusView {
        match self {
            UnifiSearchStatus::DeviceFound(device) => StatusView::DeviceFound(device@),
            UnifiSearchStatus::DeviceNotFound => StatusView::DeviceNotFound,
            UnifiSearchStatus::Cancelled => StatusView::Cancelled,
        }
    }
}

/// How a search ended.
pub type UnifiSearchResult = Result<UnifiSearchStatus, UnifiAPIError>;

/// How a search ended, as plain values.
pub open spec fn result_view(r: UnifiSearchResult) -> Result<StatusView, ApiErrorView> {
    match r {
        Ok(status) => Ok(status@),
        Err(e) => Err(e@),
    }
}

/// What a session is waiting for.
#[derive(Copy, Clone, Debug, PartialEq, Eq, Structural)]
pub enum SearchPhase {
    /// For the HTTP client to be set up.
    BuildingClient,
    /// For the answer to the login request.
    LoggingIn,
    /// For the cancel signal to be polled, before the sites are asked for.
    PollingBeforeSites,
    /// For the list of sites.
    EnumeratingSites,
    /// For the cancel signal to be polled, before the next site is scanned.
    PollingBeforeSite,
    /// For the progress to be reported, before the next site is scanned.
    ReportingProgress,
    /// For the devices of the next site.
    ScanningSite,
    /// For the answer on any site's devices, all having been asked for.
    AwaitingSite,
    /// For the cancel signal to be polled, before the devices that have come
    /// are scanned.
    PollingAfterSite,
    /// For the progress to be reported, before the devices that have come
    /// are scanned.
    ReportingSiteProgress,
    /// For the progress to be reported, after the device was found.
    ReportingMatch,
    /// For nothing: the search has ended.
    Finished,
}

/// What the caller tells a session.
#[derive(Debug, PartialEq, Eq)]
pub enum SearchEvent {
    /// The HTTP client was set up, or could not be.
    ClientBuilt(Result<(), String>),
    /// The login request went like this.
    LoginReply(HttpOutcome),
    /// The cancel signal was polled: it was there, or it was not.
    CancelPolled(bool),
    /// The query for the sites went like this; `sites` holds the answer's
    /// JSON document, or why none could be read.
    SitesReply { outcome: HttpOutcome, sites: Result<Json, String> },
    /// The progress was handed on, or dropped.
    ProgressEmitted,
    /// The query for a site's devices went like this; `devices` holds the
    /// answer's JSON document, or why none could be read.
    DevicesReply { outcome: HttpOutcome, devices: Result<Json, String> },
    /// Of the queries that were sent at once, the one for the site at place
    /// `site` went like this.
    SiteDone { site: usize, outcome: HttpOutcome, devices: Result<Json, String> },
    /// Of the queries that were sent at once none is left to answer.
    NoAnswerLeft,
}

/// What the caller tells a session, as plain values.
pub enum EventView {
    ClientBuilt(Result<(), Seq<char>>),
    LoginReply(HttpOutcomeView),
    CancelPolled(bool),
    SitesReply { outcome: HttpOutcomeView, sites: Result<Seq<SiteView>, Seq<char>> },
    ProgressEmitted,
    DevicesReply { outcome: HttpOutcomeView, devices: Result<Seq<DeviceView>, Seq<char>> },
    SiteDone { site: nat, outcome: HttpOutcomeView, devices: Result<Seq<DeviceView>, Seq<char>> },
    NoAnswerLeft,
}

/// How setting up the HTTP client went, as plain values.
pub open spec fn built_view(built: Result<(), String>) -> Result<(), Seq<char>> {
    match built {
        Ok(_) => Ok(()),
        Err(detail) => Err(detail@),
    }
}

impl View for SearchEvent {
    type V = EventView;

    open spec fn view(&self) -> EventView {
        match self {
            SearchEvent::ClientBuilt(built) => EventView::ClientBuilt(built_view(*built)),
            SearchEvent::LoginReply(outcome) => EventView::LoginReply(outcome@),
            SearchEvent::CancelPolled(cancel) => EventView::CancelPolled(*cancel),
            SearchEvent::SitesReply { outcome, sites } => EventView::SitesReply {
                outcome: outcome@,
                sites: decoded_sites(*sites),
            },
            SearchEvent::ProgressEmitted => EventView::ProgressEmitted,
            SearchEvent::DevicesReply { outcome, devices } => EventView::DevicesReply {
                outcome: outcome@,
                devices: decoded_devices(*devices),
            },
            SearchEvent::SiteDone { site, outcome, devices } => EventView::SiteDone {
                site: *site as nat,
                outcome: outcome@,
                devices: decoded_devices(*devices),
            },
            SearchEvent::NoAnswerLeft => EventView::NoAnswerLeft,
        }
    }
}

/// What a session tells the caller to do next.
#[derive(Debug, PartialEq, Eq)]
pub enum SearchCommand {
    /// Set up the HTTP client.
    BuildClient { policy: ClientPolicy },
    /// Send the session's credentials to `url`.
    Login { url: String },
    /// Poll for the cancel signal, without waiting.
    PollCancel,
    /// Ask `url` for the list of sites.
    GetSites { url: String },
    /// Report the progress, without waiting.
    EmitProgress { progress: Progress },
    /// Ask `url` for the devices of a site.
    GetDevices { url: String },
    /// Ask each of `urls` for the devices of a site, all at once, and wait
    /// for the first answer.
    GetAllDevices { urls: Vec<String> },
    /// Wait for the next answer.
    AwaitSite,
    /// Hand the result over: the search has ended.
    Deliver { result: UnifiSearchResult },
}

/// What a session tells the caller to do next, as plain values.
pub enum CommandView {
    BuildClient { policy: ClientPolicy },
    Login { url: Seq<char> },
    PollCancel,
    GetSites { url: Seq<char> },
    EmitProgress { progress: ProgressView },
    GetDevices { url: Seq<char> },
    GetAllDevices { urls: Seq<Seq<char>> },
    AwaitSite,
    Deliver { result: Result<StatusView, ApiErrorView> },
}

impl View for SearchCommand {
    type V = CommandView;

    open spec fn view(&self) -> CommandView {
        match self {
            SearchCommand::BuildClient { policy } => CommandView::BuildClient { policy: *policy },
            SearchCommand::Login { url } => CommandView::Login { url: url@ },
            SearchCommand::PollCancel => CommandView::PollCancel,
            SearchCommand::GetSites { url } => CommandView::GetSites { url: url@ },
            SearchCommand::EmitProgress { progress } => CommandView::EmitProgress {
                progress: progress@,
            },
            SearchCommand::GetDevices { url } => CommandView::GetDevices { url: url@ },
            SearchCommand::GetAllDevices { urls } => CommandView::GetAllDevices {
                urls: urls.deep_view(),
            },
            SearchCommand::AwaitSite => CommandView::AwaitSite,
            SearchCommand::Deliver { result } => CommandView::Deliver {
                result: result_view(*result),
            },
        }
    }
}

/// The device that waits to be handed over, as plain values.
pub open spec fn found_view(found: Option<UnifiDeviceBasic>) -> Option<DeviceView> {
    match found {
        Some(device) => Some(device@),
        None => None,
    }
}

/// The answer that is scanned next, as plain values.
pub open spec fn pending_view(pending: Option<(usize, Vec<UnifiDeviceBasic>)>) -> Option<
    (nat, Seq<DeviceView>),
> {
    match pending {
        Some(answer) => Some((answer.0 as nat, answer.1.deep_view())),
        None => None,
    }
}

/// One search, from the request to the result.
#[derive(Debug)]
pub struct SearchSession {
    info: UnifiSearchInfo,
    client: Option<UnifiClient>,
    phase: SearchPhase,
    sites: Vec<UnifiSite>,
    next_site: usize,
    found: Option<UnifiDeviceBasic>,
    fan_out: bool,
    pending: Option<(usize, Vec<UnifiDeviceBasic>)>,
}

impl View for SearchSession {
    type V = SessionView;

    closed spec fn view(&self) -> SessionView {
        SessionView {
            phase: self.phase,
            server_url: self.info.server_url@,
            accept_invalid_certs: self.info.accept_invalid_certs,
            username: self.info.username@,
            password: self.info.password@,
            target: self.info.mac_to_search@,
            sites: self.sites.deep_view(),
            next_site: self.next_site as nat,
            found: found_view(self.found),
            fan_out: self.fan_out,
            pending: pending_view(self.pending),
        }
    }
}

impl SearchSession {
    /// The session has a client for its controller while it needs one, and
    /// is logged in once the login has been answered.
    #[verifier::type_invariant]
    spec fn consistent(self) -> bool {
        &&& self@.wf()
        &&& self.phase != SearchPhase::BuildingClient && self.phase != SearchPhase::Finished ==> {
            &&& self.client matches Some(client)
            &&& client@.server_url == self.info.server_url@
            &&& self.phase != SearchPhase::LoggingIn ==> client@.is_logged_in
        }
    }

    /// A session at its beginning.
    fn begin(search_info: UnifiSearchInfo, fan_out: bool) -> (r: (SearchSession, SearchCommand))
        ensures
            r.0@ == SessionView::initial(
                search_info.username@,
                search_info.password@,
                search_info.server_url@,
                search_info.mac_to_search@,
                search_info.accept_invalid_certs,
                fan_out,
            ),
            r.1@ == r.0@.first_command(),
            r.0@.wf(),
    {
        let policy: ClientPolicy = UnifiClient::policy(search_info.accept_invalid_certs);
        let session: SearchSession = SearchSession {
            info: search_info,
            client: None,
            phase: SearchPhase::BuildingClient,
            sites: Vec::new(),
            next_site: 0,
            found: None,
            fan_out,
            pending: None,
        };
        assert(session.sites.deep_view() =~= Seq::<SiteView>::empty());
        (session, SearchCommand::BuildClient { policy })
    }

    /// What the session is waiting for.
    pub fn phase(&self) -> (r: SearchPhase)
        ensures
            r == self@.phase,
    {
        self.phase
    }

    /// Whether the search has ended.
    pub fn is_finished(&self) -> (r: bool)
        ensures
            r == (self@.phase == SearchPhase::Finished),
    {
        self.phase == SearchPhase::Finished
    }

    /// The name to log in with; zeros once the login has been answered.
    pub fn username(&self) -> (r: &str)
        ensures
            r@ == self@.username,
    {
        self.info.username.as_str()
    }

    /// The password to log in with; zeros once the login has been answered.
    pub fn password(&self) -> (r: &str)
        ensures
            r@ == self@.password,
    {
        self.info.password.as_str()
    }

    /// Whether the session is waiting for what `event` tells.
    pub fn accepts(&self, event: &SearchEvent) -> (r: bool)
        ensures
            r == self@.accepts(event@),
    {
        match event {
            SearchEvent::ClientBuilt(_) => self.phase == SearchPhase::BuildingClient,
            SearchEvent::LoginReply(_) => self.phase == SearchPhase::LoggingIn,
            SearchEvent::CancelPolled(_) => self.phase == SearchPhase::PollingBeforeSites
                || self.phase == SearchPhase::PollingBeforeSite || self.phase
                == SearchPhase::PollingAfterSite,
            SearchEvent::SitesReply { .. } => self.phase == SearchPhase::EnumeratingSites,
            SearchEvent::ProgressEmitted => self.phase == SearchPhase::ReportingProgress
                || self.phase == SearchPhase::ReportingSiteProgress || self.phase
                == SearchPhase::ReportingMatch,
            SearchEvent::DevicesReply { .. } => self.phase == SearchPhase::ScanningSite,
            SearchEvent::SiteDone { site, .. } => self.phase == SearchPhase::AwaitingSite && *site
                < self.sites.len(),
            SearchEvent::NoAnswerLeft => self.phase == SearchPhase::AwaitingSite,
        }
    }
}

/// Begins a search that scans one site after the other: the session, and
/// its first command, which is to set up the HTTP client.
pub fn run_unifi_search(search_info: UnifiSearchInfo) -> (r: (SearchSession, SearchCommand))
    ensures
        r.0@ == SessionView::initial(
            search_info.username@,
            search_info.password@,
            search_info.server_url@,
            search_info.mac_to_search@,
            search_info.accept_invalid_certs,
            false,
        ),
        r.1@ == r.0@.first_command(),
        r.0@.wf(),
{
    SearchSession::begin(search_info, false)
}

/// Begins a search that asks for the devices of all sites at once, and
/// scans the sites in the order in which the answers come: the session, and
/// its first command, which is to set up the HTTP client.
pub fn search_unifi_api(search_info: UnifiSearchInfo) -> (r: (SearchSession, SearchCommand))
    ensures
        r.0@ == SessionView::initial(
            search_info.username@,
            search_info.password@,
            search_info.server_url@,
            search_info.mac_to_search@,
            search_info.accept_invalid_certs,
            true,
        ),
        r.1@ == r.0@.first_command(),
        r.0@.wf(),
{
    SearchSession::begin(search_info, true)
}

/// Ends a search with `result`.
fn finish(session: SearchSession, result: UnifiSearchResult) -> (r: (SearchSession, SearchCommand))
    ensures
        (r.0@, r.1@) == session@.finish(result_view(result)),
        r.0@.wf(),
{
    proof {
        use_type_invariant(&session);
    }
    let SearchSession { info, client, phase: _, sites, next_site, found, fan_out, pending: _ } =
        session;
    (
        SearchSession {
            info,
            client,
            phase: SearchPhase::Finished,
            sites,
            next_site,
            found,
            fan_out,
            pending: None,
        },
        SearchCommand::Deliver { result },
    )
}

/// Goes on to `phase` with `command`.
fn go_on(session: SearchSession, phase: SearchPhase, command: SearchCommand) -> (r: (
    SearchSession,
    SearchCommand,
))
    requires
        (SessionView { phase, ..session@ }).wf(),
        phase != SearchPhase::BuildingClient,
        phase != SearchPhase::LoggingIn,
        session@.phase != SearchPhase::BuildingClient,
        session@.phase != SearchPhase::LoggingIn,
        session@.phase != SearchPhase::Finished,
    ensures
        r.0@ == (SessionView { phase, ..session@ }),
        r.1 == command,
        r.0@.wf(),
{
    proof {
        use_type_invariant(&session);
    }
    let SearchSession { info, client, phase: _, sites, next_site, found, fan_out, pending } =
        session;
    (SearchSession { info, client, phase, sites, next_site, found, fan_out, pending }, command)
}

/// Opens the session with the controller once the HTTP client is there, and
/// has the credentials sent.
fn get_client_and_login(session: SearchSession, built: Result<(), String>) -> (r: (
    SearchSession,
    SearchCommand,
))
    requires
        session@.phase == SearchPhase::BuildingClient,
    ensures
        (r.0@, r.1@) == session@.on_client_built(built_view(built)),
        r.0@.wf(),
{
    proof {
        use_type_invariant(&session);
    }
    let SearchSession { mut info, client: _, phase: _, sites, next_site, found, fan_out, pending } =
        session;
    match UnifiClient::new(info.server_url.as_str(), info.accept_invalid_certs, built) {
        Ok(client) => {
            let url: String = client.login_url();
            (
                SearchSession {
                    info,
                    client: Some(client),
                    phase: SearchPhase::LoggingIn,
                    sites,
                    next_site,
                    found,
                    fan_out,
                    pending,
                },
                SearchCommand::Login { url },
            )
        },
        Err(e) => {
            wipe(&mut info.password);
            wipe(&mut info.username);
            (
                SearchSession {
                    info,
                    client: None,
                    phase: SearchPhase::Finished,
                    sites,
                    next_site,
                    found,
                    fan_out,
                    pending: None,
                },
                SearchCommand::Deliver { result: Err(e) },
            )
        },
    }
}

/// Takes the answer to the login request.
fn login_with_client(session: SearchSession, outcome: HttpOutcome) -> (r: (
    SearchSession,
    SearchCommand,
))
    requires
        session@.phase == SearchPhase::LoggingIn,
    ensures
        (r.0@, r.1@) == session@.on_login_reply(outcome@),
        r.0@.wf(),
{
    proof {
        use_type_invariant(&session);
    }
    let SearchSession { mut info, client, phase: _, sites, next_site, found, fan_out, pending } =
        session;
    let mut client: UnifiClient = client.unwrap();
    match client.login(&mut info.username, &mut info.password, outcome) {
        Ok(_) => (
            SearchSession {
                info,
                client: Some(client),
                phase: SearchPhase::PollingBeforeSites,
                sites,
                next_site,
                found,
                fan_out,
                pending,
            },
            SearchCommand::PollCancel,
        ),
        Err(e) => (
            SearchSession {
                info,
                client: Some(client),
                phase: SearchPhase::Finished,
                sites,
                next_site,
                found,
                fan_out,
                pending: None,
            },
            SearchCommand::Deliver { result: Err(e) },
        ),
    }
}

/// Takes what polling for the cancel signal gave.
fn cancel_polled(session: SearchSession, cancel: bool) -> (r: (SearchSession, SearchCommand))
    requires
        session@.phase == SearchPhase::PollingBeforeSites || session@.phase
            == SearchPhase::PollingBeforeSite || session@.phase == SearchPhase::PollingAfterSite,
    ensures
        (r.0@, r.1@) == session@.on_cancel_polled(cancel),
        r.0@.wf(),
{
    proof {
        use_type_invariant(&session);
    }
    if cancel {
        finish(session, Ok(UnifiSearchStatus::Cancelled))
    } else if session.phase == SearchPhase::PollingBeforeSites {
        let url: String = session.client.as_ref().unwrap().sites_url();
        go_on(session, SearchPhase::EnumeratingSites, SearchCommand::GetSites { url })
    } else {
        let progress: Progress = Progress {
            scanned: session.next_site,
            total: session.sites.len(),
        };
        let phase: SearchPhase = if session.phase == SearchPhase::PollingAfterSite {
            SearchPhase::ReportingSiteProgress
        } else {
            SearchPhase::ReportingProgress
        };
        go_on(session, phase, SearchCommand::EmitProgress { progress })
    }
}

/// Where the devices of each site are asked for, in the order of the sites.
fn all_devices_urls(client: &UnifiClient, sites: &Vec<UnifiSite>) -> (r: Vec<String>)
    ensures
        r.deep_view() == Seq::new(
            sites.deep_view().len(),
            |i: int| site_devices_url(client@.server_url, sites.deep_view()[i].code),
        ),
{
    let mut urls: Vec<String> = Vec::new();
    let mut i: usize = 0;
    while i < sites.len()
        invariant
            i <= sites.len(),
            urls.len() == i,
            forall|j: int|
                0 <= j < i ==> urls@[j]@ == site_devices_url(client@.server_url, sites@[j].code@),
        decreases sites.len() - i,
    {
        urls.push(client.site_devices_url(sites[i].code.as_str()));
        i += 1;
    }
    assert(urls.deep_view() =~= Seq::new(
        sites.deep_view().len(),
        |i: int| site_devices_url(client@.server_url, sites.deep_view()[i].code),
    ));
    urls
}

/// Takes the answer to the query for the sites.
fn sites_received(
    session: SearchSession,
    outcome: HttpOutcome,
    body: Result<Json, String>,
) -> (r: (SearchSession, SearchCommand))
    requires
        session@.phase == SearchPhase::EnumeratingSites,
    ensures
        (r.0@, r.1@) == session@.on_sites_reply(outcome@, decoded_sites(body)),
        r.0@.wf(),
{
    proof {
        use_type_invariant(&session);
    }
    let verdict: Result<Vec<UnifiSite>, UnifiAPIError> = session.client.as_ref().unwrap().get_sites(
        outcome,
        body,
    );
    match verdict {
        Err(e) => finish(session, Err(e)),
        Ok(new_sites) => {
            let SearchSession {
                info,
                client,
                phase: _,
                sites: _,
                next_site: _,
                found,
                fan_out,
                pending,
            } = session;
            if new_sites.len() == 0 {
                (
                    SearchSession {
                        info,
                        client,
                        phase: SearchPhase::Finished,
                        sites: new_sites,
                        next_site: 0,
                        found,
                        fan_out,
                        pending: None,
                    },
                    SearchCommand::Deliver { result: Ok(UnifiSearchStatus::DeviceNotFound) },
                )
            } else if fan_out {
                let urls: Vec<String> = all_devices_urls(client.as_ref().unwrap(), &new_sites);
                (
                    SearchSession {
                        info,
                        client,
                        phase: SearchPhase::AwaitingSite,
                        sites: new_sites,
                        next_site: 0,
                        found,
                        fan_out,
                        pending,
                    },
                    SearchCommand::GetAllDevices { urls },
                )
            } else {
                (
                    SearchSession {
                        info,
                        client,
                        phase: SearchPhase::PollingBeforeSite,
                        sites: new_sites,
                        next_site: 0,
                        found,
                        fan_out,
                        pending,
                    },
                    SearchCommand::PollCancel,
                )
            }
        },
    }
}

/// Whether the device's address is `target`. A device whose address the
/// controller wrote in no valid form has none.
pub fn device_matches(device: &UnifiDeviceBasic, target: &MacAddress) -> (r: bool)
    ensures
        r == device_has_address(device@, target@),
{
    match MacAddress::from_str(device.mac.as_str()) {
        Ok(address) => address.equals(target),
        Err(_) => false,
    }
}

/// The place of the first device whose address is `target`.
pub fn find_device(devices: &Vec<UnifiDeviceBasic>, target: &MacAddress) -> (r: Option<usize>)
    ensures
        match r {
            Some(i) => i < devices.len() && first_match(devices.deep_view(), target@) == Some(
                i as int,
            ),
            None => first_match(devices.deep_view(), target@) is None,
        },
{
    let mut i: usize = 0;
    while i < devices.len()
        invariant
            i <= devices.len(),
            first_match(devices.deep_view(), target@) == first_match_from(
                devices.deep_view(),
                target@,
                i as int,
            ),
        decreases devices.len() - i,
    {
        if device_matches(&devices[i], target) {
            return Some(i);
        }
        i += 1;
    }
    None
}

/// Scans the devices of the site at place `site`, and says what follows.
fn scan_site(session: SearchSession, site: usize, devices: Vec<UnifiDeviceBasic>) -> (r: (
    SearchSession,
    SearchCommand,
))
    requires
        session@.phase == SearchPhase::ScanningSite,
        site < session@.sites.len(),
    ensures
        (r.0@, r.1@) == session@.after_scan(site as int, devices.deep_view()),
        r.0@.wf(),
{
    proof {
        use_type_invariant(&session);
    }
    let SearchSession { info, client, phase: _, sites, next_site, found, fan_out, pending: _ } =
        session;
    let total: usize = sites.len();
    assert(next_site < sites.deep_view().len() == total);
    match find_device(&devices, &info.mac_to_search) {
        Some(i) => {
            let mut device: UnifiDeviceBasic = devices[i].clone();
            device.create_device_label();
            device.site = sites[site].desc.clone();
            let progress: Progress = Progress { scanned: total, total };
            (
                SearchSession {
                    info,
                    client,
                    phase: SearchPhase::ReportingMatch,
                    sites,
                    next_site,
                    found: Some(device),
                    fan_out,
                    pending: None,
                },
                SearchCommand::EmitProgress { progress },
            )
        },
        None => {
            let scanned: usize = next_site + 1;
            let (phase, command): (SearchPhase, SearchCommand) = if scanned == total {
                (
                    SearchPhase::Finished,
                    SearchCommand::Deliver { result: Ok(UnifiSearchStatus::DeviceNotFound) },
                )
            } else if fan_out {
                (SearchPhase::AwaitingSite, SearchCommand::AwaitSite)
            } else {
                (SearchPhase::PollingBeforeSite, SearchCommand::PollCancel)
            };
            (
                SearchSession {
                    info,
                    client,
                    phase,
                    sites,
                    next_site: scanned,
                    found,
                    fan_out,
                    pending: None,
                },
                command,
            )
        },
    }
}

/// Goes on after the progress was reported.
fn progress_emitted(session: SearchSession) -> (r: (SearchSession, SearchCommand))
    requires
        session@.phase == SearchPhase::ReportingProgress || session@.phase
            == SearchPhase::ReportingSiteProgress || session@.phase == SearchPhase::ReportingMatch,
    ensures
        (r.0@, r.1@) == session@.on_progress_emitted(),
        r.0@.wf(),
{
    proof {
        use_type_invariant(&session);
    }
    if session.phase == SearchPhase::ReportingProgress {
        let url: String = session.client.as_ref().unwrap().site_devices_url(
            session.sites[session.next_site].code.as_str(),
        );
        go_on(session, SearchPhase::ScanningSite, SearchCommand::GetDevices { url })
    } else {
        let SearchSession { info, client, phase, sites, next_site, found, fan_out, pending } =
            session;
        if phase == SearchPhase::ReportingSiteProgress {
            let (site, devices): (usize, Vec<UnifiDeviceBasic>) = pending.unwrap();
            let session: SearchSession = SearchSession {
                info,
                client,
                phase: SearchPhase::ScanningSite,
                sites,
                next_site,
                found,
                fan_out,
                pending: None,
            };
            scan_site(session, site, devices)
        } else {
            let device: UnifiDeviceBasic = found.unwrap();
            (
                SearchSession {
                    info,
                    client,
                    phase: SearchPhase::Finished,
                    sites,
                    next_site,
                    found: None,
                    fan_out,
                    pending: None,
                },
                SearchCommand::Deliver { result: Ok(UnifiSearchStatus::DeviceFound(device)) },
            )
        }
    }
}

/// Takes the answer to the query for the devices of the next site.
fn devices_received(
    session: SearchSession,
    outcome: HttpOutcome,
    body: Result<Json, String>,
) -> (r: (SearchSession, SearchCommand))
    requires
        session@.phase == SearchPhase::ScanningSite,
    ensures
        (r.0@, r.1@) == session@.on_devices_reply(outcome@, decoded_devices(body)),
        r.0@.wf(),
{
    proof {
        use_type_invariant(&session);
    }
    let verdict: Result<Vec<UnifiDeviceBasic>, UnifiAPIError> =
        session.client.as_ref().unwrap().get_site_devices_basic(
        session.sites[session.next_site].code.as_str(),
        outcome,
        body,
    );
    match verdict {
        Err(e) => finish(session, Err(e)),
        Ok(devices) => {
            let site: usize = session.next_site;
            scan_site(session, site, devices)
        },
    }
}

/// Takes the answer to one of the queries that were sent at once.
fn site_done(
    session: SearchSession,
    site: usize,
    outcome: HttpOutcome,
    body: Result<Json, String>,
) -> (r: (SearchSession, SearchCommand))
    requires
        session@.phase == SearchPhase::AwaitingSite,
        site < session@.sites.len(),
    ensures
        (r.0@, r.1@) == session@.on_site_done(site as nat, outcome@, decoded_devices(body)),
        r.0@.wf(),
{
    proof {
        use_type_invariant(&session);
    }
    let verdict: Result<Vec<UnifiDeviceBasic>, UnifiAPIError> =
        session.client.as_ref().unwrap().get_site_devices_basic(
        session.sites[site].code.as_str(),
        outcome,
        body,
    );
    match verdict {
        Err(e) => finish(session, Err(e)),
        Ok(devices) => {
            let SearchSession {
                info,
                client,
                phase: _,
                sites,
                next_site,
                found,
                fan_out,
                pending: _,
            } = session;
            (
                SearchSession {
                    info,
                    client,
                    phase: SearchPhase::PollingAfterSite,
                    sites,
                    next_site,
                    found,
                    fan_out,
                    pending: Some((site, devices)),
                },
                SearchCommand::PollCancel,
            )
        },
    }
}

/// Carries a search one step on: takes what the caller tells, and says what
/// the caller is to do next. The search has ended when the command is to
/// hand the result over.
pub fn find_unifi_device(session: SearchSession, event: SearchEvent) -> (r: (
    SearchSession,
    SearchCommand,
))
    requires
        session@.accepts(event@),
    ensures
        (r.0@, r.1@) == session@.step(event@),
        r.0@.wf(),
{
    match event {
        SearchEvent::ClientBuilt(built) => get_client_and_login(session, built),
        SearchEvent::LoginReply(outcome) => login_with_client(session, outcome),
        SearchEvent::CancelPolled(cancel) => cancel_polled(session, cancel),
        SearchEvent::SitesReply { outcome, sites } => sites_received(session, outcome, sites),
        SearchEvent::ProgressEmitted => progress_emitted(session),
        SearchEvent::DevicesReply { outcome, devices } => devices_received(
            session,
            outcome,
            devices,
        ),
        SearchEvent::SiteDone { site, outcome, devices } => site_done(
            session,
            site,
            outcome,
            devices,
        ),
        SearchEvent::NoAnswerLeft => finish(session, Ok(UnifiSearchStatus::DeviceNotFound)),
    }
}

} // verus!
