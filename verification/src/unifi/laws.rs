//! What holds of every search, whatever the controller answers and whenever
//! the user cancels.

use vstd::prelude::*;

use super::api::{call_verdict, login_url, login_verdict, site_devices_url, wiped};
use super::protocol::{first_match, SessionView};
use super::search::{CommandView, EventView, ProgressView, SearchPhase, StatusView};

verus! {

/// What the session holds after the first `n` of `events`.
pub open spec fn state_after(start: SessionView, events: Seq<EventView>, n: int) -> SessionView
    decreases n,
{
    if n <= 0 {
        start
    } else {
        state_after(start, events, n - 1).step(events[n - 1]).0
    }
}

/// What the session commands in answer to event `n`.
pub open spec fn command_at(start: SessionView, events: Seq<EventView>, n: int) -> CommandView {
    state_after(start, events, n).step(events[n]).1
}

/// `events` is what a caller may tell a session that begins at `start`:
/// each event is one that the session is waiting for when it comes.
pub open spec fn valid_run(start: SessionView, events: Seq<EventView>) -> bool {
    forall|n: int|
        0 <= n < events.len() ==> (#[trigger] state_after(start, events, n)).accepts(events[n])
}

/// The session at the beginning of a search.
pub open spec fn is_initial(start: SessionView) -> bool {
    &&& start.phase == SearchPhase::BuildingClient
    &&& start.wf()
}

/// The sites are not yet known in this phase.
pub open spec fn before_sites(phase: SearchPhase) -> bool {
    ||| phase == SearchPhase::BuildingClient
    ||| phase == SearchPhase::LoggingIn
    ||| phase == SearchPhase::PollingBeforeSites
    ||| phase == SearchPhase::EnumeratingSites
}

/// A step from a session that fits together gives one that does.
pub proof fn lemma_step_keeps_wf(s: SessionView, event: EventView)
    requires
        s.wf(),
        s.accepts(event),
    ensures
        s.step(event).0.wf(),
{
}

/// What a session holds fits together all through a run.
pub proof fn lemma_run_keeps_wf(start: SessionView, events: Seq<EventView>, n: int)
    requires
        start.wf(),
        valid_run(start, events),
        0 <= n <= events.len(),
    ensures
        state_after(start, events, n).wf(),
    decreases n,
{
    if n > 0 {
        lemma_run_keeps_wf(start, events, n - 1);
        lemma_step_keeps_wf(state_after(start, events, n - 1), events[n - 1]);
    }
}

/// A search that has ended is told nothing more: the command to hand the
/// result over is the last of its run.
pub proof fn lemma_deliver_is_last(start: SessionView, events: Seq<EventView>, n: int)
    requires
        valid_run(start, events),
        0 <= n < events.len(),
        command_at(start, events, n) is Deliver,
    ensures
        n == events.len() - 1,
{
    let s = state_after(start, events, n);
    assert(s.accepts(events[n]));
    assert(s.step(events[n]).0.phase == SearchPhase::Finished);
    if n + 1 < events.len() {
        assert(state_after(start, events, n + 1).accepts(events[n + 1]));
    }
}

/// A search has one result: no run holds two commands to hand a result
/// over.
pub proof fn lemma_one_result(start: SessionView, events: Seq<EventView>, i: int, j: int)
    requires
        valid_run(start, events),
        0 <= i < events.len(),
        0 <= j < events.len(),
        command_at(start, events, i) is Deliver,
        command_at(start, events, j) is Deliver,
    ensures
        i == j,
{
    lemma_deliver_is_last(start, events, i);
    lemma_deliver_is_last(start, events, j);
}

/// What the progress reports before event `n` have in common with what the
/// session holds then: they count the session's sites, and none is ahead of
/// the session, unless the device has been found.
pub open spec fn reports_fit(start: SessionView, events: Seq<EventView>, n: int) -> bool {
    let s = state_after(start, events, n);
    forall|k: int|
        0 <= k < n ==> (#[trigger] command_at(start, events, k) matches CommandView::EmitProgress {
            progress,
        } ==> {
            &&& !before_sites(s.phase)
            &&& progress.total == s.sites.len()
            &&& progress.total > 0
            &&& progress.scanned <= progress.total
            &&& progress.scanned <= s.next_site || s.phase == SearchPhase::ReportingMatch
                || s.phase == SearchPhase::Finished
        })
}

/// The progress reports of a run fit what the session holds, at every point
/// of the run.
pub proof fn lemma_reports_fit(start: SessionView, events: Seq<EventView>, n: int)
    requires
        is_initial(start),
        valid_run(start, events),
        0 <= n <= events.len(),
    ensures
        reports_fit(start, events, n),
        state_after(start, events, n).wf(),
    decreases n,
{
    lemma_run_keeps_wf(start, events, n);
    if n > 0 {
        lemma_reports_fit(start, events, n - 1);
        let before = state_after(start, events, n - 1);
        let after = state_after(start, events, n);
        assert(before.accepts(events[n - 1]));
        assert(after == before.step(events[n - 1]).0);
        assert forall|k: int| 0 <= k < n implies (#[trigger] command_at(start, events, k) matches CommandView::EmitProgress {
            progress,
        } ==> {
            &&& !before_sites(after.phase)
            &&& progress.total == after.sites.len()
            &&& progress.total > 0
            &&& progress.scanned <= progress.total
            &&& progress.scanned <= after.next_site || after.phase == SearchPhase::ReportingMatch
                || after.phase == SearchPhase::Finished
        }) by {
            if k < n - 1 {
                assert(reports_fit(start, events, n - 1));
            }
        }
    }
}

/// Progress never goes back and never exceeds the whole: of two reports in
/// one search, both count the same number of sites, which is not zero; the
/// later one counts at least as many scanned sites as the earlier one, and
/// no more than there are.
pub proof fn lemma_progress_is_monotonic(
    start: SessionView,
    events: Seq<EventView>,
    i: int,
    j: int,
)
    requires
        is_initial(start),
        valid_run(start, events),
        0 <= i <= j < events.len(),
        command_at(start, events, i) is EmitProgress,
        command_at(start, events, j) is EmitProgress,
    ensures
        ({
            let earlier = command_at(start, events, i)->progress;
            let later = command_at(start, events, j)->progress;
            &&& earlier.total == later.total
            &&& 0 < later.total
            &&& earlier.scanned <= later.scanned <= later.total
        }),
{
    lemma_reports_fit(start, events, j);
    lemma_reports_fit(start, events, j + 1);
    let s = state_after(start, events, j);
    assert(s.accepts(events[j]));
    if i < j {
        assert(reports_fit(start, events, j));
        let earlier = command_at(start, events, i)->progress;
        assert(earlier.total == s.sites.len());
    }
}

/// The device is handed over only after full progress was reported: the
/// command before the one that hands a found device over is to report that
/// all sites are scanned.
pub proof fn lemma_found_follows_full_progress(start: SessionView, events: Seq<EventView>, n: int)
    requires
        is_initial(start),
        valid_run(start, events),
        0 <= n < events.len(),
        command_at(start, events, n) matches CommandView::Deliver { result }
            && result matches Ok(StatusView::DeviceFound(_)),
    ensures
        n > 0,
        command_at(start, events, n - 1) matches CommandView::EmitProgress { progress }
            && progress.scanned == progress.total && progress.total > 0,
{
    let s = state_after(start, events, n);
    assert(s.accepts(events[n]));
    assert(s.phase == SearchPhase::ReportingMatch);
    assert(n > 0);
    lemma_run_keeps_wf(start, events, n - 1);
    let before = state_after(start, events, n - 1);
    assert(before.accepts(events[n - 1]));
    assert(s == before.step(events[n - 1]).0);
}

/// How the sites are scanned, one after the other or as the answers come,
/// is settled when the search begins.
pub proof fn lemma_run_keeps_mode(start: SessionView, events: Seq<EventView>, n: int)
    requires
        valid_run(start, events),
        0 <= n <= events.len(),
    ensures
        state_after(start, events, n).fan_out == start.fan_out,
    decreases n,
{
    if n > 0 {
        lemma_run_keeps_mode(start, events, n - 1);
        assert(state_after(start, events, n - 1).accepts(events[n - 1]));
    }
}

/// Whenever polling finds the cancel signal, the session hands over
/// `Cancelled` then and there, and that is the end of the run.
pub proof fn lemma_cancel_ends_the_search(start: SessionView, events: Seq<EventView>, n: int)
    requires
        valid_run(start, events),
        0 <= n < events.len(),
        events[n] == EventView::CancelPolled(true),
    ensures
        command_at(start, events, n) == (CommandView::Deliver { result: Ok(StatusView::Cancelled) }),
        n == events.len() - 1,
{
    assert(state_after(start, events, n).accepts(events[n]));
    lemma_deliver_is_last(start, events, n);
}

/// No devices of a site have been told before event `n`.
pub open spec fn no_site_scanned(events: Seq<EventView>, n: int) -> bool {
    forall|k: int| 0 <= k < n ==> !(#[trigger] events[k] is DevicesReply)
}

/// The command asks for the devices of one site or of all.
pub open spec fn asks_for_devices(command: CommandView) -> bool {
    command is GetDevices || command is GetAllDevices
}

/// In a search that scans one site after the other, and while no answer on
/// a site's devices has come, devices have been asked for only if the
/// session is waiting for just that answer.
pub proof fn lemma_fetch_awaits_answer(start: SessionView, events: Seq<EventView>, n: int)
    requires
        is_initial(start),
        !start.fan_out,
        valid_run(start, events),
        0 <= n <= events.len(),
        no_site_scanned(events, n),
    ensures
        forall|k: int|
            0 <= k < n && asks_for_devices(#[trigger] command_at(start, events, k))
                ==> state_after(start, events, n).phase == SearchPhase::ScanningSite,
    decreases n,
{
    if n > 0 {
        lemma_fetch_awaits_answer(start, events, n - 1);
        lemma_run_keeps_mode(start, events, n - 1);
        let before = state_after(start, events, n - 1);
        assert(before.accepts(events[n - 1]));
        assert(!(events[n - 1] is DevicesReply));
        assert(before.phase != SearchPhase::ScanningSite);
        assert forall|k: int|
            0 <= k < n && asks_for_devices(
                #[trigger] command_at(start, events, k),
            ) implies state_after(start, events, n).phase == SearchPhase::ScanningSite by {
            if k < n - 1 {
                assert(before.phase == SearchPhase::ScanningSite);
            }
        }
    }
}

/// In a search that scans one site after the other, a cancel signal that is
/// there before any site is scanned ends the search as cancelled, without
/// the devices of any site ever being asked for: if polling finds the signal
/// before any answer on a site's devices has come, the session hands over
/// `Cancelled` then and there, that is the end of the run, and no command of
/// the run asks for devices.
pub proof fn lemma_cancel_before_any_scan(start: SessionView, events: Seq<EventView>, n: int)
    requires
        is_initial(start),
        !start.fan_out,
        valid_run(start, events),
        0 <= n < events.len(),
        events[n] == EventView::CancelPolled(true),
        no_site_scanned(events, n),
    ensures
        command_at(start, events, n) == (CommandView::Deliver { result: Ok(StatusView::Cancelled) }),
        n == events.len() - 1,
        forall|k: int|
            0 <= k < events.len() ==> !asks_for_devices(#[trigger] command_at(start, events, k)),
{
    let s = state_after(start, events, n);
    assert(s.accepts(events[n]));
    lemma_cancel_ends_the_search(start, events, n);
    lemma_fetch_awaits_answer(start, events, n);
}

/// A session waits for its HTTP client only at the very beginning.
pub proof fn lemma_client_is_built_first(start: SessionView, events: Seq<EventView>, n: int)
    requires
        valid_run(start, events),
        0 < n <= events.len(),
    ensures
        state_after(start, events, n).phase != SearchPhase::BuildingClient,
{
    assert(state_after(start, events, n - 1).accepts(events[n - 1]));
}

/// The credentials are sent once: only the first command of a run can be
/// the one to log in.
pub proof fn lemma_credentials_are_sent_once(start: SessionView, events: Seq<EventView>, n: int)
    requires
        valid_run(start, events),
        0 <= n < events.len(),
        command_at(start, events, n) is Login,
    ensures
        n == 0,
{
    assert(state_after(start, events, n).accepts(events[n]));
    if n > 0 {
        lemma_client_is_built_first(start, events, n);
    }
}

/// Until the login has been answered the session holds the credentials as
/// they were given; from then on, for the rest of the run and however the
/// login went, it holds them wiped: zeros, as many as there were bytes.
pub proof fn lemma_credentials_are_wiped(start: SessionView, events: Seq<EventView>, n: int)
    requires
        is_initial(start),
        valid_run(start, events),
        0 <= n <= events.len(),
    ensures
        ({
            let s = state_after(start, events, n);
            if s.phase == SearchPhase::BuildingClient || s.phase == SearchPhase::LoggingIn {
                s.username == start.username && s.password == start.password
            } else {
                s.username == wiped(start.username) && s.password == wiped(start.password)
            }
        }),
    decreases n,
{
    if n > 0 {
        lemma_credentials_are_wiped(start, events, n - 1);
        let before = state_after(start, events, n - 1);
        assert(before.accepts(events[n - 1]));
    }
}

/// The event is one of a search in which nothing goes wrong and nothing is
/// found: the client is set up, the login succeeds, no poll finds the cancel
/// signal, every query is answered well, and no list of devices holds the
/// device that is looked for.
pub open spec fn uneventful(start: SessionView, event: EventView) -> bool {
    match event {
        EventView::ClientBuilt(built) => built is Ok,
        EventView::LoginReply(outcome) => login_verdict(login_url(start.server_url), outcome)
            is Ok,
        EventView::CancelPolled(cancel) => !cancel,
        EventView::SitesReply { outcome, sites } => call_verdict(outcome) is Ok && sites is Ok,
        EventView::ProgressEmitted => true,
        EventView::DevicesReply { outcome, devices } => call_verdict(outcome) is Ok && (
        devices matches Ok(list) && first_match(list, start.target) is None),
        EventView::SiteDone { outcome, devices, .. } => call_verdict(outcome) is Ok && (
        devices matches Ok(list) && first_match(list, start.target) is None),
        EventView::NoAnswerLeft => false,
    }
}

/// Every event of the run is uneventful.
pub open spec fn uneventful_run(start: SessionView, events: Seq<EventView>) -> bool {
    forall|n: int| 0 <= n < events.len() ==> uneventful(start, #[trigger] events[n])
}

/// The sites that the fourth event of a run tells.
pub open spec fn sites_told(events: Seq<EventView>) -> Seq<super::devices::SiteView> {
    events[3]->SitesReply_sites->Ok_0
}

/// Where a search that goes site after site stands after `n` uneventful
/// events: four events lead to the list of sites, then three events go to
/// each site (the poll, the progress report, the devices), and after the
/// last site the search has ended.
pub open spec fn stands_after(start: SessionView, events: Seq<EventView>, n: int) -> bool {
    let s = state_after(start, events, n);
    &&& s.server_url == start.server_url
    &&& s.target == start.target
    &&& !s.fan_out
    &&& n == 0 ==> s.phase == SearchPhase::BuildingClient
    &&& n == 1 ==> s.phase == SearchPhase::LoggingIn
    &&& n == 2 ==> s.phase == SearchPhase::PollingBeforeSites
    &&& n == 3 ==> s.phase == SearchPhase::EnumeratingSites
    &&& n >= 4 ==> {
        let total = sites_told(events).len() as int;
        let m = n - 4;
        &&& events[3] is SitesReply
        &&& events[3]->SitesReply_sites is Ok
        &&& s.sites == sites_told(events)
        &&& m <= 3 * total
        &&& m == 3 * total ==> s.phase == SearchPhase::Finished && s.next_site == total
        &&& m < 3 * total ==> {
            &&& s.next_site == m / 3
            &&& m % 3 == 0 ==> s.phase == SearchPhase::PollingBeforeSite
            &&& m % 3 == 1 ==> s.phase == SearchPhase::ReportingProgress
            &&& m % 3 == 2 ==> s.phase == SearchPhase::ScanningSite
        }
    }
}

/// An uneventful search that goes site after site stands where
/// [`stands_after`] says, at every point of its run.
pub proof fn lemma_uneventful_search_stands(start: SessionView, events: Seq<EventView>, n: int)
    requires
        is_initial(start),
        !start.fan_out,
        valid_run(start, events),
        uneventful_run(start, events),
        0 <= n <= events.len(),
    ensures
        stands_after(start, events, n),
    decreases n,
{
    if n > 0 {
        lemma_uneventful_search_stands(start, events, n - 1);
        lemma_run_keeps_wf(start, events, n - 1);
        let before = state_after(start, events, n - 1);
        let event = events[n - 1];
        assert(before.accepts(event));
        assert(uneventful(start, event));
        assert(state_after(start, events, n) == before.step(event).0);
        if n >= 5 {
            let total: int = sites_told(events).len() as int;
            let m: int = n - 5;
            assert(m < 3 * total);
            assert(before.next_site == m / 3);
            if m % 3 == 2 {
                assert((m + 1) % 3 == 0 && (m + 1) / 3 == m / 3 + 1);
            } else {
                assert((m + 1) / 3 == m / 3 && (m + 1) % 3 == m % 3 + 1);
            }
        }
    }
}

/// What command `k` of an uneventful search is: progress is reported at the
/// first of the three events of each site and nowhere else, and devices are
/// asked for at the second and nowhere else.
pub open spec fn command_fits(start: SessionView, events: Seq<EventView>, k: int) -> bool {
    let c = command_at(start, events, k);
    let sites = sites_told(events);
    &&& c is EmitProgress ==> k >= 4 && (k - 4) % 3 == 0
    &&& asks_for_devices(c) ==> k >= 5 && (k - 5) % 3 == 0
    &&& k >= 4 && (k - 4) % 3 == 0 && k < 4 + 3 * sites.len() ==> c == (CommandView::EmitProgress {
        progress: ProgressView { scanned: ((k - 4) / 3) as nat, total: sites.len() },
    })
    &&& k >= 5 && (k - 5) % 3 == 0 && k < 4 + 3 * sites.len() ==> c == (CommandView::GetDevices {
        url: site_devices_url(start.server_url, sites[(k - 5) / 3].code),
    })
}

/// A search that goes site after site, in which nothing goes wrong, that is
/// not cancelled and that finds the device in no site, ends as not found
/// after it has asked for the devices of every site once, in the order in
/// which the controller listed the sites, and has reported the progress
/// `i` of `N` before the `i`-th of them (counting from 0): the run has four
/// events up to the list of sites and three for each site, and asks for
/// devices and reports progress nowhere else.
pub proof fn lemma_uneventful_search_finds_nothing(start: SessionView, events: Seq<EventView>)
    requires
        is_initial(start),
        !start.fan_out,
        valid_run(start, events),
        uneventful_run(start, events),
        events.len() > 0,
        command_at(start, events, events.len() - 1) is Deliver,
    ensures
        events.len() >= 4,
        events.len() == 4 + 3 * sites_told(events).len(),
        command_at(start, events, events.len() - 1) == (CommandView::Deliver {
            result: Ok(StatusView::DeviceNotFound),
        }),
        forall|i: int|
            0 <= i < sites_told(events).len() ==> #[trigger] command_at(start, events, 4 + 3 * i)
                == (CommandView::EmitProgress {
                progress: ProgressView { scanned: i as nat, total: sites_told(events).len() },
            }),
        forall|i: int|
            0 <= i < sites_told(events).len() ==> #[trigger] command_at(start, events, 5 + 3 * i)
                == (CommandView::GetDevices {
                url: site_devices_url(start.server_url, sites_told(events)[i].code),
            }),
        forall|k: int|
            0 <= k < events.len() && #[trigger] command_at(start, events, k) is EmitProgress ==> k
                >= 4 && (k - 4) % 3 == 0,
        forall|k: int|
            0 <= k < events.len() && asks_for_devices(#[trigger] command_at(start, events, k))
                ==> k >= 5 && (k - 5) % 3 == 0,
{
    let len: int = events.len() as int;
    let total: int = sites_told(events).len() as int;
    lemma_uneventful_search_stands(start, events, len);
    lemma_uneventful_search_stands(start, events, len - 1);
    lemma_run_keeps_wf(start, events, len - 1);
    let last = state_after(start, events, len - 1);
    assert(last.accepts(events[len - 1]));
    assert(uneventful(start, events[len - 1]));
    assert(state_after(start, events, len) == last.step(events[len - 1]).0);
    assert(state_after(start, events, len).phase == SearchPhase::Finished);
    assert(len >= 4);
    assert(len == 4 + 3 * total);
    assert forall|k: int| 0 <= k < len implies #[trigger] command_fits(start, events, k) by {
        lemma_uneventful_search_stands(start, events, k);
        lemma_run_keeps_wf(start, events, k);
        let s = state_after(start, events, k);
        assert(s.accepts(events[k]));
        assert(uneventful(start, events[k]));
        if k >= 5 {
            assert((k - 4) / 3 == (k - 5) / 3 || (k - 5) % 3 == 2);
        }
    }
    assert forall|i: int| 0 <= i < total implies #[trigger] command_at(start, events, 4 + 3 * i)
        == (CommandView::EmitProgress {
        progress: ProgressView { scanned: i as nat, total: total as nat },
    }) by {
        let k: int = 4 + 3 * i;
        assert((k - 4) % 3 == 0 && (k - 4) / 3 == i);
        assert(command_fits(start, events, k));
    }
    assert forall|i: int| 0 <= i < total implies #[trigger] command_at(start, events, 5 + 3 * i)
        == (CommandView::GetDevices {
        url: site_devices_url(start.server_url, sites_told(events)[i].code),
    }) by {
        let k: int = 5 + 3 * i;
        assert((k - 5) % 3 == 0 && (k - 5) / 3 == i);
        assert(command_fits(start, events, k));
    }
    assert forall|k: int|
        0 <= k < events.len() && #[trigger] command_at(start, events, k) is EmitProgress implies k
        >= 4 && (k - 4) % 3 == 0 by {
        assert(command_fits(start, events, k));
    }
    assert forall|k: int|
        0 <= k < events.len() && asks_for_devices(
            #[trigger] command_at(start, events, k),
        ) implies k >= 5 && (k - 5) % 3 == 0 by {
        assert(command_fits(start, events, k));
    }
}

} // verus!
