//! What the window over the form shows: the progress of a search, its
//! result, or what went wrong.

use vstd::prelude::*;
use vstd::string::*;

use crate::text::{concat2, concat3, decimal, push_decimal};
use crate::unifi::api::{ApiErrorView, UnifiAPIError};
use crate::unifi::devices::{DeviceView, UnifiDeviceBasic};
use crate::unifi::search::{
    result_view, Progress, ProgressView, StatusView, UnifiSearchResult, UnifiSearchStatus,
};

verus! {

/// How grave a message is.
#[derive(Copy, Clone, Debug, PartialEq, Eq, Structural)]
pub enum GuiErrorLevel {
    /// Nothing went wrong.
    Info,
    /// Something that the user can mend.
    Standard,
    /// Something that should not happen, and is worth reporting.
    Critical,
}

/// A message to the user.
#[derive(Debug, PartialEq, Eq)]
pub struct GuiError {
    pub title: String,
    pub desc: String,
    pub err_lvl: GuiErrorLevel,
}

/// A message to the user, as plain values.
pub struct GuiErrorView {
    pub title: Seq<char>,
    pub desc: Seq<char>,
    pub err_lvl: GuiErrorLevel,
}

impl View for GuiError {
    type V = GuiErrorView;

    open spec fn view(&self) -> GuiErrorView {
        GuiErrorView { title: self.title@, desc: self.desc@, err_lvl: self.err_lvl }
    }
}

impl GuiErrorView {
    /// The message that a search found no device with the address
    /// `mac_address`.
    pub open spec fn not_found(mac_address: Seq<char>) -> GuiErrorView {
        GuiErrorView {
            title: "Device Not Found"@,
            desc: "Unable to find device with MAC Address "@ + mac_address,
            err_lvl: GuiErrorLevel::Info,
        }
    }

    /// The message for a search that could not be carried through. That the
    /// HTTP client cannot be set up, or that the controller's answers cannot
    /// be read, should not happen; the rest the user can mend.
    pub open spec fn for_api_error(error: ApiErrorView) -> GuiErrorView {
        match error {
            ApiErrorView::ClientError { detail } => GuiErrorView {
                title: "Critical Error: "@ + "Reqwest Client Error"@,
                desc: "Unable to Build Unifi Client\n"@ + error.message() + "\n"@ + detail,
                err_lvl: GuiErrorLevel::Critical,
            },
            ApiErrorView::LoginAuthenticationError { url } => GuiErrorView {
                title: "Error: "@ + "Login Failed"@,
                desc: "Unable to login to "@ + url + "\n"@ + error.message(),
                err_lvl: GuiErrorLevel::Standard,
            },
            ApiErrorView::ReqwestError { outcome } => GuiErrorView {
                title: "Error: "@ + "Unifi API Error"@,
                desc: error.message() + "\n"@ + outcome.words(),
                err_lvl: GuiErrorLevel::Standard,
            },
            ApiErrorView::JsonError { cause, .. } => GuiErrorView {
                title: "Critical Error: "@ + "Json Parsing Error"@,
                desc: error.message() + "\n"@ + cause,
                err_lvl: GuiErrorLevel::Critical,
            },
        }
    }
}

impl GuiError {
    /// A message that nothing went wrong, under the title as it is.
    pub fn new_info(title: &str, desc: String) -> (r: GuiError)
        ensures
            r@ == (GuiErrorView { title: title@, desc: desc@, err_lvl: GuiErrorLevel::Info }),
    {
        GuiError { title: String::from_str(title), desc, err_lvl: GuiErrorLevel::Info }
    }

    /// A message about something that the user can mend; the title is
    /// marked as an error.
    pub fn new_standard(title: &str, desc: String) -> (r: GuiError)
        ensures
            r@ == (GuiErrorView {
                title: "Error: "@ + title@,
                desc: desc@,
                err_lvl: GuiErrorLevel::Standard,
            }),
    {
        GuiError { title: concat2("Error: ", title), desc, err_lvl: GuiErrorLevel::Standard }
    }

    /// A message about something that should not happen; the title is
    /// marked as a critical error.
    pub fn new_critical(title: &str, desc: String) -> (r: GuiError)
        ensures
            r@ == (GuiErrorView {
                title: "Critical Error: "@ + title@,
                desc: desc@,
                err_lvl: GuiErrorLevel::Critical,
            }),
    {
        GuiError {
            title: concat2("Critical Error: ", title),
            desc,
            err_lvl: GuiErrorLevel::Critical,
        }
    }

    /// A message about something that the user can mend; the title gives
    /// the error's number.
    pub fn new_standard_with_code(title: &str, desc: String, code: usize) -> (r: GuiError)
        ensures
            r@ == (GuiErrorView {
                title: "Error "@ + decimal(code as nat) + ": "@ + title@,
                desc: desc@,
                err_lvl: GuiErrorLevel::Standard,
            }),
    {
        let mut full: String = String::from_str("Error ");
        push_decimal(&mut full, code as u64);
        full.append(": ");
        full.append(title);
        GuiError { title: full, desc, err_lvl: GuiErrorLevel::Standard }
    }

    /// A message about something that should not happen; the title gives
    /// the error's number.
    pub fn new_critical_with_code(title: &str, desc: String, code: usize) -> (r: GuiError)
        ensures
            r@ == (GuiErrorView {
                title: "Critical Error "@ + decimal(code as nat) + ": "@ + title@,
                desc: desc@,
                err_lvl: GuiErrorLevel::Critical,
            }),
    {
        let mut full: String = String::from_str("Critical Error ");
        push_decimal(&mut full, code as u64);
        full.append(": ");
        full.append(title);
        GuiError { title: full, desc, err_lvl: GuiErrorLevel::Critical }
    }

    /// The message that a search found no device with the address
    /// `mac_address`.
    pub fn not_found(mac_address: &str) -> (r: GuiError)
        ensures
            r@ == GuiErrorView::not_found(mac_address@),
    {
        GuiError::new_info(
            "Device Not Found",
            concat2("Unable to find device with MAC Address ", mac_address),
        )
    }

    /// The message for a search that could not be carried through.
    pub fn for_api_error(error: &UnifiAPIError) -> (r: GuiError)
        ensures
            r@ == GuiErrorView::for_api_error(error@),
    {
        let message: String = error.message();
        match error {
            UnifiAPIError::ClientError { detail } => {
                let mut desc: String = concat3(
                    "Unable to Build Unifi Client\n",
                    message.as_str(),
                    "\n",
                );
                desc.append(detail.as_str());
                GuiError::new_critical("Reqwest Client Error", desc)
            },
            UnifiAPIError::LoginAuthenticationError { url } => {
                let mut desc: String = concat3("Unable to login to ", url.as_str(), "\n");
                desc.append(message.as_str());
                GuiError::new_standard("Login Failed", desc)
            },
            UnifiAPIError::ReqwestError { outcome } => {
                let words: String = outcome.words();
                GuiError::new_standard(
                    "Unifi API Error",
                    concat3(message.as_str(), "\n", words.as_str()),
                )
            },
            UnifiAPIError::JsonError { cause, .. } => GuiError::new_critical(
                "Json Parsing Error",
                concat3(message.as_str(), "\n", cause.as_str()),
            ),
        }
    }
}

/// What the window over the form shows.
#[derive(Debug, PartialEq, Eq)]
pub enum PopupWindow {
    /// A search is under way, and has come this far.
    SearchProgress(Progress),
    /// The device that a search found.
    SearchResult(UnifiDeviceBasic),
    /// A message.
    Error(GuiError),
    /// The user has cancelled the search, which has not ended yet.
    DisplayCancel,
}

/// What the window over the form shows, as plain values.
pub enum PopupView {
    SearchProgress(ProgressView),
    SearchResult(DeviceView),
    Error(GuiErrorView),
    DisplayCancel,
}

impl View for PopupWindow {
    type V = PopupView;

    open spec fn view(&self) -> PopupView {
        match self {
            PopupWindow::SearchProgress(progress) => PopupView::SearchProgress(progress@),
            PopupWindow::SearchResult(device) => PopupView::SearchResult(device@),
            PopupWindow::Error(error) => PopupView::Error(error@),
            PopupWindow::DisplayCancel => PopupView::DisplayCancel,
        }
    }
}

/// The window, if there is one, as plain values.
pub open spec fn popup_view(popup: Option<PopupWindow>) -> Option<PopupView> {
    match popup {
        Some(window) => Some(window@),
        None => None,
    }
}

/// A search is under way while the window shows its progress, or that it
/// was cancelled and has not ended yet.
pub open spec fn search_outstanding(popup: Option<PopupView>) -> bool {
    popup matches Some(window) && (window is SearchProgress || window is DisplayCancel)
}

/// What the window shows once a search has ended with `result`: the device,
/// a message that there is none or that the search failed, or, after a
/// cancelled search, nothing.
pub open spec fn popup_for_result(
    result: Result<StatusView, ApiErrorView>,
    mac_address: Seq<char>,
) -> Option<PopupView> {
    match result {
        Ok(StatusView::DeviceFound(device)) => Some(PopupView::SearchResult(device)),
        Ok(StatusView::DeviceNotFound) => Some(
            PopupView::Error(GuiErrorView::not_found(mac_address)),
        ),
        Ok(StatusView::Cancelled) => None,
        Err(error) => Some(PopupView::Error(GuiErrorView::for_api_error(error))),
    }
}

impl PopupWindow {
    /// Whether a search is under way.
    pub fn search_outstanding(popup: &Option<PopupWindow>) -> (r: bool)
        ensures
            r == search_outstanding(popup_view(*popup)),
    {
        match popup {
            Some(PopupWindow::SearchProgress(_)) => true,
            Some(PopupWindow::DisplayCancel) => true,
            _ => false,
        }
    }

    /// What the window shows once a search for `mac_address` has ended with
    /// `result`.
    pub fn for_result(result: UnifiSearchResult, mac_address: &str) -> (r: Option<PopupWindow>)
        ensures
            popup_view(r) == popup_for_result(result_view(result), mac_address@),
    {
        match result {
            Ok(UnifiSearchStatus::DeviceFound(device)) => Some(PopupWindow::SearchResult(device)),
            Ok(UnifiSearchStatus::DeviceNotFound) => Some(
                PopupWindow::Error(GuiError::not_found(mac_address)),
            ),
            Ok(UnifiSearchStatus::Cancelled) => None,
            Err(error) => Some(PopupWindow::Error(GuiError::for_api_error(&error))),
        }
    }

    /// While a search is under way and the worker has reported progress, the
    /// window shows the progress that was reported last.
    pub fn create_search_progress(popup: &mut Option<PopupWindow>, reported: Option<Progress>)
        ensures
            popup_view(*final(popup)) == match reported {
                Some(progress) => Some(PopupView::SearchProgress(progress@)),
                None => popup_view(*old(popup)),
            },
    {
        match reported {
            Some(progress) => {
                *popup = Some(PopupWindow::SearchProgress(progress));
            },
            None => {},
        }
    }

    /// While the window waits for a cancelled search to end: once the search
    /// has ended as cancelled, the window closes; after any other end it
    /// stays.
    pub fn create_cancel(popup: &mut Option<PopupWindow>, result: &UnifiSearchResult)
        ensures
            popup_view(*final(popup)) == if result_view(*result) == Ok::<
                StatusView,
                ApiErrorView,
            >(StatusView::Cancelled) {
                None
            } else {
                popup_view(*old(popup))
            },
    {
        match result {
            Ok(UnifiSearchStatus::Cancelled) => {
                *popup = None;
            },
            _ => {},
        }
    }
}

/// The row that names the device, for a device with a name.
pub open spec fn name_rows(device: DeviceView) -> Seq<(Seq<char>, Seq<char>)> {
    match device.name {
        Some(name) => seq![("Device Name:"@, name)],
        None => Seq::empty(),
    }
}

/// The row that names the product: model code and product name, or type
/// and model code where the product name is not known.
pub open spec fn product_row(device: DeviceView) -> (Seq<char>, Seq<char>) {
    match device.label {
        Some(label) => ("Model / SKU / Product:"@, device.device_model + " / "@ + label),
        None => ("Device Type / Model:"@, device.type_and_model()),
    }
}

/// The row that says that the device is not adopted, for such a device.
pub open spec fn adopted_rows(device: DeviceView) -> Seq<(Seq<char>, Seq<char>)> {
    if device.adopted {
        Seq::empty()
    } else {
        seq![("Adopted"@, "False"@)]
    }
}

/// The row that says that the device works as a gateway, for such a
/// device.
pub open spec fn gateway_rows(device: DeviceView) -> Seq<(Seq<char>, Seq<char>)> {
    if device.gateway_mode == Some(true) {
        seq![("Gateway Mode:"@, "True"@)]
    } else {
        Seq::empty()
    }
}

/// What is shown of a found device, row by row: each row a heading and a
/// value.
pub open spec fn result_rows(device: DeviceView) -> Seq<(Seq<char>, Seq<char>)> {
    name_rows(device) + seq![
        product_row(device),
        ("Unifi Site:"@, device.site),
        ("MAC Address:"@, device.mac),
        ("Device Status:"@, device.state.words()),
    ] + adopted_rows(device) + gateway_rows(device)
}

impl PopupWindow {
    /// What is shown of a found device, row by row.
    pub fn create_search_result(device: &UnifiDeviceBasic) -> (r: Vec<(&'static str, String)>)
        ensures
            r.deep_view() == result_rows(device@),
    {
        let mut rows: Vec<(&'static str, String)> = Vec::new();
        match &device.name_option {
            Some(name) => {
                rows.push(("Device Name:", name.clone()));
            },
            None => {},
        }
        assert(rows.deep_view() =~= name_rows(device@));
        match device.device_label_option {
            Some(label) => {
                rows.push(
                    ("Model / SKU / Product:", concat3(device.device_model.as_str(), " / ", label)),
                );
            },
            None => {
                rows.push(("Device Type / Model:", device.type_and_model()));
            },
        }
        rows.push(("Unifi Site:", device.site.clone()));
        rows.push(("MAC Address:", device.mac.clone()));
        rows.push(("Device Status:", String::from_str(device.state.as_str())));
        let ghost fixed = name_rows(device@) + seq![
            product_row(device@),
            ("Unifi Site:"@, device@.site),
            ("MAC Address:"@, device@.mac),
            ("Device Status:"@, device@.state.words()),
        ];
        assert(rows.deep_view() =~= fixed);
        if !device.adopted {
            rows.push(("Adopted", String::from_str("False")));
        }
        assert(rows.deep_view() =~= fixed + adopted_rows(device@));
        match device.gateway_mode {
            Some(true) => {
                rows.push(("Gateway Mode:", String::from_str("True")));
            },
            _ => {},
        }
        assert(rows.deep_view() =~= result_rows(device@));
        rows
    }
}

} // verus!
