//! The search as a transition function on plain values: from what a session
//! holds and what the caller tells it, to what the session holds next and
//! what it commands.

use vstd::prelude::*;
use vstd::utf8::*;

use super::api::{
    login_url, login_verdict, query_verdict, site_devices_url, sites_url, wiped, ApiErrorView,
    ClientPolicy, HttpOutcomeView, TIMEOUT_SECS,
};
use super::devices::{DeviceView, SiteView};
use super::search::{CommandView, EventView, ProgressView, SearchPhase, StatusView};
use crate::mac_address::validation::is_valid_mac_text;
use crate::mac_address::mac_text_value;

verus! {

/// What a session holds, as plain values.
pub struct SessionView {
    pub phase: SearchPhase,
    pub server_url: Seq<char>,
    pub accept_invalid_certs: bool,
    pub username: Seq<char>,
    pub password: Seq<char>,
    /// The address of the device to find.
    pub target: nat,
    /// The sites of the controller, once known.
    pub sites: Seq<SiteView>,
    /// How many sites have been scanned without finding the device.
    pub next_site: nat,
    /// The device, once found and until it is handed over.
    pub found: Option<DeviceView>,
    /// Whether the devices of all sites are asked for at once, and the sites
    /// scanned in the order in which the answers come.
    pub fan_out: bool,
    /// The answer that is scanned next: the place of its site, and the
    /// site's devices.
    pub pending: Option<(nat, Seq<DeviceView>)>,
}

/// The text of a device's address spells `target`. A text that is no MAC
/// address spells none.
pub open spec fn device_has_address(device: DeviceView, target: nat) -> bool {
    is_valid_mac_text(encode_utf8(device.mac)) && mac_text_value(encode_utf8(device.mac)) == target
}

/// The place of the first device, from place `from` on, whose address is
/// `target`.
pub open spec fn first_match_from(devices: Seq<DeviceView>, target: nat, from: int) -> Option<int>
    decreases devices.len() - from,
{
    if from < 0 || from >= devices.len() {
        None
    } else if device_has_address(devices[from], target) {
        Some(from)
    } else {
        first_match_from(devices, target, from + 1)
    }
}

/// The place of the first device whose address is `target`.
pub open spec fn first_match(devices: Seq<DeviceView>, target: nat) -> Option<int> {
    first_match_from(devices, target, 0)
}

impl SessionView {
    /// What a session holds when a search begins.
    pub open spec fn initial(
        username: Seq<char>,
        password: Seq<char>,
        server_url: Seq<char>,
        target: nat,
        accept_invalid_certs: bool,
        fan_out: bool,
    ) -> SessionView {
        SessionView {
            phase: SearchPhase::BuildingClient,
            server_url,
            accept_invalid_certs,
            username,
            password,
            target,
            sites: Seq::empty(),
            next_site: 0,
            found: None,
            fan_out,
            pending: None,
        }
    }

    /// What a session commands when a search begins.
    pub open spec fn first_command(self) -> CommandView {
        CommandView::BuildClient {
            policy: ClientPolicy {
                timeout_secs: TIMEOUT_SECS,
                accept_invalid_certs: self.accept_invalid_certs,
                cookie_store: true,
            },
        }
    }

    /// What a session holds fits together: there is a next site while sites
    /// are scanned, and a device while it waits to be handed over.
    pub open spec fn wf(self) -> bool {
        &&& self.next_site <= self.sites.len()
        &&& self.scanning() ==> self.next_site < self.sites.len()
        &&& self.phase == SearchPhase::ReportingMatch ==> self.found is Some
        &&& (self.phase == SearchPhase::PollingAfterSite || self.phase
            == SearchPhase::ReportingSiteProgress) ==> (self.pending matches Some(answer)
            && answer.0 < self.sites.len())
    }

    /// The sites are known, and not all of them are scanned.
    pub open spec fn scanning(self) -> bool {
        ||| self.phase == SearchPhase::PollingBeforeSite
        ||| self.phase == SearchPhase::ReportingProgress
        ||| self.phase == SearchPhase::ScanningSite
        ||| self.phase == SearchPhase::AwaitingSite
        ||| self.phase == SearchPhase::PollingAfterSite
        ||| self.phase == SearchPhase::ReportingSiteProgress
        ||| self.phase == SearchPhase::ReportingMatch
    }

    /// The session is waiting for what `event` tells.
    pub open spec fn accepts(self, event: EventView) -> bool {
        match event {
            EventView::ClientBuilt(_) => self.phase == SearchPhase::BuildingClient,
            EventView::LoginReply(_) => self.phase == SearchPhase::LoggingIn,
            EventView::CancelPolled(_) => self.phase == SearchPhase::PollingBeforeSites
                || self.phase == SearchPhase::PollingBeforeSite || self.phase
                == SearchPhase::PollingAfterSite,
            EventView::SitesReply { .. } => self.phase == SearchPhase::EnumeratingSites,
            EventView::ProgressEmitted => self.phase == SearchPhase::ReportingProgress || self.phase
                == SearchPhase::ReportingSiteProgress || self.phase == SearchPhase::ReportingMatch,
            EventView::DevicesReply { .. } => self.phase == SearchPhase::ScanningSite,
            EventView::SiteDone { site, .. } => self.phase == SearchPhase::AwaitingSite && site
                < self.sites.len(),
            EventView::NoAnswerLeft => self.phase == SearchPhase::AwaitingSite,
        }
    }

    /// The session with its credentials wiped in place: zeros, as many as
    /// there were bytes.
    pub open spec fn scrubbed(self) -> SessionView {
        SessionView { username: wiped(self.username), password: wiped(self.password), ..self }
    }

    /// The session at its end, handing `result` over.
    pub open spec fn finish(self, result: Result<StatusView, ApiErrorView>) -> (
        SessionView,
        CommandView,
    ) {
        (
            SessionView { phase: SearchPhase::Finished, pending: None, ..self },
            CommandView::Deliver { result },
        )
    }

    /// Where the devices of each site are asked for, in the order of the
    /// sites.
    pub open spec fn all_devices_urls(self) -> Seq<Seq<char>> {
        Seq::new(self.sites.len(), |i: int| site_devices_url(self.server_url, self.sites[i].code))
    }

    /// What follows the scan of one site's devices. The first device with
    /// the address that is looked for gets its product name and the name of
    /// the site, and full progress is reported. Without such a device one
    /// more site is scanned, and the search goes on, or ends after the last
    /// site.
    pub open spec fn after_scan(self, site: int, devices: Seq<DeviceView>) -> (
        SessionView,
        CommandView,
    ) {
        match first_match(devices, self.target) {
            Some(i) => (
                SessionView {
                    phase: SearchPhase::ReportingMatch,
                    found: Some(devices[i].with_label().in_site(self.sites[site].desc)),
                    pending: None,
                    ..self
                },
                CommandView::EmitProgress { progress: self.full_progress() },
            ),
            None => {
                let next = SessionView { next_site: self.next_site + 1, pending: None, ..self };
                if next.next_site == self.sites.len() {
                    next.finish(Ok(StatusView::DeviceNotFound))
                } else if self.fan_out {
                    (
                        SessionView { phase: SearchPhase::AwaitingSite, ..next },
                        CommandView::AwaitSite,
                    )
                } else {
                    (
                        SessionView { phase: SearchPhase::PollingBeforeSite, ..next },
                        CommandView::PollCancel,
                    )
                }
            },
        }
    }

    /// The share of the sites that has been scanned.
    pub open spec fn progress(self) -> ProgressView {
        ProgressView { scanned: self.next_site, total: self.sites.len() }
    }

    /// All sites scanned: the progress that is reported when the device is
    /// found.
    pub open spec fn full_progress(self) -> ProgressView {
        ProgressView { scanned: self.sites.len(), total: self.sites.len() }
    }

    /// The HTTP client was set up, or could not be. With a client the
    /// credentials are sent; without one the search fails, and the
    /// credentials are wiped.
    pub open spec fn on_client_built(self, built: Result<(), Seq<char>>) -> (
        SessionView,
        CommandView,
    ) {
        match built {
            Ok(_) => (
                SessionView { phase: SearchPhase::LoggingIn, ..self },
                CommandView::Login { url: login_url(self.server_url) },
            ),
            Err(detail) => self.scrubbed().finish(Err(ApiErrorView::ClientError { detail })),
        }
    }

    /// The login request was answered. The credentials are wiped; after a
    /// success the cancel signal is polled, anything else fails the search.
    pub open spec fn on_login_reply(self, outcome: HttpOutcomeView) -> (SessionView, CommandView) {
        match login_verdict(login_url(self.server_url), outcome) {
            Ok(_) => (
                SessionView { phase: SearchPhase::PollingBeforeSites, ..self.scrubbed() },
                CommandView::PollCancel,
            ),
            Err(e) => self.scrubbed().finish(Err(e)),
        }
    }

    /// The cancel signal was polled. If it was there, the search ends as
    /// cancelled; if not, the sites are asked for, or the progress is
    /// reported before a site is scanned.
    pub open spec fn on_cancel_polled(self, cancel: bool) -> (SessionView, CommandView) {
        if cancel {
            self.finish(Ok(StatusView::Cancelled))
        } else if self.phase == SearchPhase::PollingBeforeSites {
            (
                SessionView { phase: SearchPhase::EnumeratingSites, ..self },
                CommandView::GetSites { url: sites_url(self.server_url) },
            )
        } else if self.phase == SearchPhase::PollingAfterSite {
            (
                SessionView { phase: SearchPhase::ReportingSiteProgress, ..self },
                CommandView::EmitProgress { progress: self.progress() },
            )
        } else {
            (
                SessionView { phase: SearchPhase::ReportingProgress, ..self },
                CommandView::EmitProgress { progress: self.progress() },
            )
        }
    }

    /// The query for the sites was answered. A failure fails the search; no
    /// sites means no device; otherwise the cancel signal is polled before
    /// the first site is scanned, or the devices of all sites are asked for
    /// at once.
    pub open spec fn on_sites_reply(
        self,
        outcome: HttpOutcomeView,
        body: Result<Seq<SiteView>, Seq<char>>,
    ) -> (SessionView, CommandView) {
        match query_verdict(sites_url(self.server_url), outcome, body) {
            Err(e) => self.finish(Err(e)),
            Ok(sites) => {
                let next = SessionView { sites, next_site: 0, ..self };
                if sites.len() == 0 {
                    next.finish(Ok(StatusView::DeviceNotFound))
                } else if self.fan_out {
                    (
                        SessionView { phase: SearchPhase::AwaitingSite, ..next },
                        CommandView::GetAllDevices { urls: next.all_devices_urls() },
                    )
                } else {
                    (
                        SessionView { phase: SearchPhase::PollingBeforeSite, ..next },
                        CommandView::PollCancel,
                    )
                }
            },
        }
    }

    /// One of the queries that were sent at once was answered, for the site
    /// at place `site`. A failure fails the search; otherwise the cancel
    /// signal is polled before the devices are scanned.
    pub open spec fn on_site_done(
        self,
        site: nat,
        outcome: HttpOutcomeView,
        body: Result<Seq<DeviceView>, Seq<char>>,
    ) -> (SessionView, CommandView) {
        let url = site_devices_url(self.server_url, self.sites[site as int].code);
        match query_verdict(url, outcome, body) {
            Err(e) => self.finish(Err(e)),
            Ok(devices) => (
                SessionView {
                    phase: SearchPhase::PollingAfterSite,
                    pending: Some((site, devices)),
                    ..self
                },
                CommandView::PollCancel,
            ),
        }
    }

    /// Of the queries that were sent at once none is left to answer, though
    /// not every site has been scanned: an answer was lost. The search ends
    /// without a device.
    pub open spec fn on_no_answer_left(self) -> (SessionView, CommandView) {
        self.finish(Ok(StatusView::DeviceNotFound))
    }

    /// The progress was reported. Before a scan, the devices of the next
    /// site are asked for, or those that have come are scanned; after the
    /// device was found, it is handed over.
    pub open spec fn on_progress_emitted(self) -> (SessionView, CommandView) {
        if self.phase == SearchPhase::ReportingSiteProgress {
            let answer = self.pending->0;
            self.after_scan(answer.0 as int, answer.1)
        } else if self.phase == SearchPhase::ReportingProgress {
            (
                SessionView { phase: SearchPhase::ScanningSite, ..self },
                CommandView::GetDevices {
                    url: site_devices_url(self.server_url, self.sites[self.next_site as int].code),
                },
            )
        } else {
            SessionView { found: None, ..self }.finish(
                Ok(StatusView::DeviceFound(self.found->0)),
            )
        }
    }

    /// The query for the next site's devices was answered. A failure fails
    /// the search; otherwise the devices are scanned.
    pub open spec fn on_devices_reply(
        self,
        outcome: HttpOutcomeView,
        body: Result<Seq<DeviceView>, Seq<char>>,
    ) -> (SessionView, CommandView) {
        let site = self.sites[self.next_site as int];
        match query_verdict(site_devices_url(self.server_url, site.code), outcome, body) {
            Err(e) => self.finish(Err(e)),
            Ok(devices) => self.after_scan(self.next_site as int, devices),
        }
    }

    /// What the session holds and commands after `event`.
    pub open spec fn step(self, event: EventView) -> (SessionView, CommandView) {
        match event {
            EventView::ClientBuilt(built) => self.on_client_built(built),
            EventView::LoginReply(outcome) => self.on_login_reply(outcome),
            EventView::CancelPolled(cancel) => self.on_cancel_polled(cancel),
            EventView::SitesReply { outcome, sites } => self.on_sites_reply(outcome, sites),
            EventView::ProgressEmitted => self.on_progress_emitted(),
            EventView::DevicesReply { outcome, devices } => self.on_devices_reply(outcome, devices),
            EventView::SiteDone { site, outcome, devices } => self.on_site_done(
                site,
                outcome,
                devices,
            ),
            EventView::NoAnswerLeft => self.on_no_answer_left(),
        }
    }
}

} // verus!
