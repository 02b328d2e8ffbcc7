//! What the form decides: whether a search may begin, and what is sent to
//! the worker.

use vstd::prelude::*;
use vstd::string::*;
use vstd::utf8::*;

pub mod popup;

use crate::mac_address::validation::is_valid_mac_text;
use crate::mac_address::{mac_text_value, MacAddress};
use crate::unifi::api::scrub;
use crate::unifi::search::{Progress, ProgressView, SearchInfoView, UnifiSearchInfo};
use popup::{
    popup_view, search_outstanding, GuiError, GuiErrorLevel, GuiErrorView, PopupView, PopupWindow,
};

verus! {

/// The signal that the user wants the search to stop.
#[derive(Debug, PartialEq, Eq)]
pub struct CancelSignal;

/// What the user has entered in the form.
#[derive(Debug, PartialEq, Eq)]
pub struct GuiInputFields {
    pub username_input: String,
    pub password_input: String,
    pub server_url_input: String,
    pub mac_addr_input: String,
    pub invalid_certs_checked: bool,
    /// Whether the password stays in the form when a search begins.
    pub remember_pass_checked: bool,
}

/// What the user has entered in the form, as plain values.
pub struct FieldsView {
    pub username_input: Seq<char>,
    pub password_input: Seq<char>,
    pub server_url_input: Seq<char>,
    pub mac_addr_input: Seq<char>,
    pub invalid_certs_checked: bool,
    pub remember_pass_checked: bool,
}

impl View for GuiInputFields {
    type V = FieldsView;

    open spec fn view(&self) -> FieldsView {
        FieldsView {
            username_input: self.username_input@,
            password_input: self.password_input@,
            server_url_input: self.server_url_input@,
            mac_addr_input: self.mac_addr_input@,
            invalid_certs_checked: self.invalid_certs_checked,
            remember_pass_checked: self.remember_pass_checked,
        }
    }
}

/// The request, if there is one, as plain values.
pub open spec fn request_view(request: Option<UnifiSearchInfo>) -> Option<SearchInfoView> {
    match request {
        Some(info) => Some(info@),
        None => None,
    }
}

/// The URL without the slash at its end, if it has one.
pub open spec fn without_trailing_slash(url: Seq<char>) -> Seq<char> {
    if url.len() > 0 && url.last() == '/' {
        url.drop_last()
    } else {
        url
    }
}

/// The message that a field of the form is empty.
pub open spec fn required_fields_message() -> GuiErrorView {
    GuiErrorView {
        title: "Error: "@ + "Required Fields"@,
        desc: "Username, Password, Server URL, & MAC Address are all required fields."@,
        err_lvl: GuiErrorLevel::Standard,
    }
}

/// The message that the address in the form is no MAC address.
pub open spec fn invalid_mac_message() -> GuiErrorView {
    GuiErrorView {
        title: "Error: "@ + "Invalid MAC Address"@,
        desc: "MAC Address must be formatted like XX:XX:XX:XX:XX:XX or XX-XX-XX-XX-XX-XX with hexadecimal characters only."@,
        err_lvl: GuiErrorLevel::Standard,
    }
}

/// No progress yet: what the window shows when a search begins.
pub open spec fn no_progress() -> ProgressView {
    ProgressView { scanned: 0, total: 1 }
}

impl FieldsView {
    /// One of the four fields that a search needs is empty.
    pub open spec fn any_empty(self) -> bool {
        ||| self.username_input.len() == 0
        ||| self.password_input.len() == 0
        ||| self.server_url_input.len() == 0
        ||| self.mac_addr_input.len() == 0
    }

    /// The request for a search with what the form holds.
    pub open spec fn request(self) -> SearchInfoView {
        SearchInfoView {
            username: self.username_input,
            password: self.password_input,
            server_url: without_trailing_slash(self.server_url_input),
            mac_to_search: mac_text_value(encode_utf8(self.mac_addr_input)),
            accept_invalid_certs: self.invalid_certs_checked,
        }
    }

    /// What a click on the search button leads to: the form, the window,
    /// and the request that goes to the worker, if any. While a search is
    /// under way the click does nothing. An empty field and an address that
    /// is none are told to the user. Otherwise the window shows that a
    /// search begins, the request goes out, and the password leaves the form
    /// unless it is to be remembered.
    pub open spec fn click(self, popup: Option<PopupView>) -> (
        FieldsView,
        Option<PopupView>,
        Option<SearchInfoView>,
    ) {
        if search_outstanding(popup) {
            (self, popup, None)
        } else if self.any_empty() {
            (self, Some(PopupView::Error(required_fields_message())), None)
        } else if !is_valid_mac_text(encode_utf8(self.mac_addr_input)) {
            (self, Some(PopupView::Error(invalid_mac_message())), None)
        } else {
            (
                FieldsView {
                    password_input: if self.remember_pass_checked {
                        self.password_input
                    } else {
                        Seq::empty()
                    },
                    ..self
                },
                Some(PopupView::SearchProgress(no_progress())),
                Some(self.request()),
            )
        }
    }
}

/// The URL without the slash at its end, if it has one.
pub fn strip_trailing_slash(url: &str) -> (r: String)
    ensures
        r@ == without_trailing_slash(url@),
{
    let n: usize = url.unicode_len();
    if n > 0 && url.get_char(n - 1) == '/' {
        let r: String = String::from_str(url.substring_char(0, n - 1));
        assert(r@ =~= url@.drop_last());
        r
    } else {
        String::from_str(url)
    }
}

/// Takes a click on the search button: says what the window shows next,
/// and gives the request that is to go to the worker, if the click begins a
/// search.
pub fn handle_button_click(fields: &mut GuiInputFields, popup: &mut Option<PopupWindow>) -> (r:
    Option<UnifiSearchInfo>)
    ensures
        (final(fields)@, popup_view(*final(popup)), request_view(r)) == old(fields)@.click(
            popup_view(*old(popup)),
        ),
{
    if PopupWindow::search_outstanding(popup) {
        return None;
    }
    if fields.username_input.as_str().is_empty() || fields.password_input.as_str().is_empty()
        || fields.server_url_input.as_str().is_empty() || fields.mac_addr_input.as_str().is_empty() {
        *popup = Some(
            PopupWindow::Error(
                GuiError::new_standard(
                    "Required Fields",
                    String::from_str(
                        "Username, Password, Server URL, & MAC Address are all required fields.",
                    ),
                ),
            ),
        );
        return None;
    }
    match MacAddress::from_str(fields.mac_addr_input.as_str()) {
        Err(_) => {
            *popup = Some(
                PopupWindow::Error(
                    GuiError::new_standard(
                        "Invalid MAC Address",
                        String::from_str(
                            "MAC Address must be formatted like XX:XX:XX:XX:XX:XX or XX-XX-XX-XX-XX-XX with hexadecimal characters only.",
                        ),
                    ),
                ),
            );
            None
        },
        Ok(mac_to_search) => {
            *popup = Some(PopupWindow::SearchProgress(Progress { scanned: 0, total: 1 }));
            let password: String = fields.password_input.clone();
            if !fields.remember_pass_checked {
                scrub(&mut fields.password_input);
            }
            Some(
                UnifiSearchInfo {
                    username: fields.username_input.clone(),
                    password,
                    server_url: strip_trailing_slash(fields.server_url_input.as_str()),
                    mac_to_search,
                    accept_invalid_certs: fields.invalid_certs_checked,
                },
            )
        },
    }
}

/// Takes a click on the cancel button while a search is under way: the
/// window shows that the search is being cancelled, and the signal that is
/// to go to the worker comes back.
pub fn request_cancel(popup: &mut Option<PopupWindow>) -> (r: CancelSignal)
    ensures
        popup_view(*final(popup)) == Some(PopupView::DisplayCancel),
{
    *popup = Some(PopupWindow::DisplayCancel);
    CancelSignal
}

} // verus!
