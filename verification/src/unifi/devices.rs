//! Sites and devices as the controller reports them, and the names under
//! which devices are shown.

use vstd::prelude::*;
use vstd::string::*;

use crate::text::{concat3, str_eq, to_uppercase, uppercase};

verus! {

/// A site: one partition of what the controller manages.
#[derive(Debug, PartialEq, Eq)]
pub struct UnifiSite {
    /// The controller's own name for the site, used in request paths.
    pub code: String,
    /// The name that people gave the site.
    pub desc: String,
}

/// A site as plain text.
pub struct SiteView {
    pub code: Seq<char>,
    pub desc: Seq<char>,
}

impl View for UnifiSite {
    type V = SiteView;

    open spec fn view(&self) -> SiteView {
        SiteView { code: self.code@, desc: self.desc@ }
    }
}

impl DeepView for UnifiSite {
    type V = SiteView;

    open spec fn deep_view(&self) -> SiteView {
        self@
    }
}

impl Clone for UnifiSite {
    fn clone(&self) -> (r: UnifiSite)
        ensures
            r@ == self@,
    {
        UnifiSite { code: self.code.clone(), desc: self.desc.clone() }
    }
}

/// What the controller says a device is doing.
#[derive(Copy, Clone, Debug, PartialEq, Eq, Structural)]
pub enum DeviceState {
    Offline,
    Connected,
    PendingAdoption,
    Updating,
    Provisioning,
    Unreachable,
    Adopting,
    AdoptionError,
    AdoptionFailed,
    Isolated,
    /// A code that stands for none of the states above.
    Unknown,
}

impl DeviceState {
    /// The state that the controller's number `code` stands for.
    pub open spec fn of_code(code: u64) -> DeviceState {
        if code == 0 {
            DeviceState::Offline
        } else if code == 1 {
            DeviceState::Connected
        } else if code == 2 {
            DeviceState::PendingAdoption
        } else if code == 4 {
            DeviceState::Updating
        } else if code == 5 {
            DeviceState::Provisioning
        } else if code == 6 {
            DeviceState::Unreachable
        } else if code == 7 {
            DeviceState::Adopting
        } else if code == 9 {
            DeviceState::AdoptionError
        } else if code == 10 {
            DeviceState::AdoptionFailed
        } else if code == 11 {
            DeviceState::Isolated
        } else {
            DeviceState::Unknown
        }
    }

    /// The words for the state.
    pub open spec fn words(self) -> Seq<char> {
        match self {
            DeviceState::Offline => "Offline"@,
            DeviceState::Connected => "Connected"@,
            DeviceState::PendingAdoption => "Pending Adoption"@,
            DeviceState::Updating => "Updating"@,
            DeviceState::Provisioning => "Provisioning"@,
            DeviceState::Unreachable => "Unreachable"@,
            DeviceState::Adopting => "Adopting"@,
            DeviceState::AdoptionError => "Adoption Error"@,
            DeviceState::AdoptionFailed => "Adoption Failed"@,
            DeviceState::Isolated => "Isolated"@,
            DeviceState::Unknown => "Unknown"@,
        }
    }

    /// Decodes the controller's number for a state. A number that stands for
    /// no state gives `Unknown`.
    pub fn from_code(code: u64) -> (r: DeviceState)
        ensures
            r == DeviceState::of_code(code),
    {
        if code == 0 {
            DeviceState::Offline
        } else if code == 1 {
            DeviceState::Connected
        } else if code == 2 {
            DeviceState::PendingAdoption
        } else if code == 4 {
            DeviceState::Updating
        } else if code == 5 {
            DeviceState::Provisioning
        } else if code == 6 {
            DeviceState::Unreachable
        } else if code == 7 {
            DeviceState::Adopting
        } else if code == 9 {
            DeviceState::AdoptionError
        } else if code == 10 {
            DeviceState::AdoptionFailed
        } else if code == 11 {
            DeviceState::Isolated
        } else {
            DeviceState::Unknown
        }
    }

    /// The words for the state, as shown to the user.
    pub fn as_str(&self) -> (r: &'static str)
        ensures
            r@ == self.words(),
    {
        match self {
            DeviceState::Offline => "Offline",
            DeviceState::Connected => "Connected",
            DeviceState::PendingAdoption => "Pending Adoption",
            DeviceState::Updating => "Updating",
            DeviceState::Provisioning => "Provisioning",
            DeviceState::Unreachable => "Unreachable",
            DeviceState::Adopting => "Adopting",
            DeviceState::AdoptionError => "Adoption Error",
            DeviceState::AdoptionFailed => "Adoption Failed",
            DeviceState::Isolated => "Isolated",
            DeviceState::Unknown => "Unknown",
        }
    }
}

/// Number of rows in [`LABELS`].
pub const LABEL_COUNT: usize = 126;

/// The products that have a name of their own: device type, model code, and
/// the name under which the product is sold.
pub const LABELS: [(&'static str, &'static str, &'static str); 126] = [
    ("uap", "BZ2", "UAP / Access Point"),
    ("uap", "BZ2LR", "UAP-LR / Access Point Long-Range"),
    ("uap", "U2HSR", "UAP-Outdoor+ / Access Point Outdoor+"),
    ("uap", "U2IW", "UAP-IW / Access Point In-Wall"),
    ("uap", "U2L48", "UAP-LR / Access Point Long-Range"),
    ("uap", "U2Lv2", "UAP-LRv2 / Access Point Long-Range"),
    ("uap", "U2M", "UAP-Mini / Access Point Mini"),
    ("uap", "U2O", "UAP-Outdoor / Access Point Outdoor"),
    ("uap", "U2S48", "UAP / Access Point"),
    ("uap", "U2Sv2", "UAPv2 / Access Point"),
    ("uap", "U5O", "UAP-Outdoor5 / Access Point Outdoor 5"),
    ("uap", "U6ENT", "U6-Enterprise / Access Point WiFi 6 Enterprise"),
    ("uap", "U6EXT", "U6-Extender / Access Point WiFi 6 Extender"),
    ("uap", "U6IW", "U6-IW / Access Point WiFi 6 In-Wall"),
    ("uap", "U6M", "U6-Mesh / Access Point WiFi 6 Mesh"),
    ("uap", "U7E", "UAP-AC / Access Point AC"),
    ("uap", "U7EDU", "UAP-AC-EDU / Access Point AC EDU"),
    ("uap", "U7Ev2", "UAP-AC / Access Point AC"),
    ("uap", "U7HD", "UAP-AC-HD / Access Point AC HD"),
    ("uap", "U7IW", "UAP-AC-IW / Access Point AC In-Wall"),
    ("uap", "U7IWP", "UAP-AC-IW-Pro / Access Point AC In-Wall Pro"),
    ("uap", "U7LR", "UAP-AC-LR / Access Point AC Long-Range"),
    ("uap", "U7LT", "UAP-AC-Lite / Access Point AC Lite"),
    ("uap", "U7MP", "UAP-AC-M-Pro / Access Point AC Mesh Pro"),
    ("uap", "U7MSH", "UAP-AC-M / Access Point AC Mesh"),
    ("uap", "U7NHD", "UAP-nanoHD / Access Point nanoHD"),
    ("uap", "U7O", "UAP-AC-Outdoor / Access Point AC Outdoor"),
    ("uap", "U7P", "UAP-AC-Pro / Access Point AC Pro"),
    ("uap", "U7PG2", "UAP-AC-Pro / Access Point AC Pro"),
    ("uap", "U7SHD", "UAP-AC-SHD / Access Point AC SHD"),
    ("uap", "UAE6", "U6-Extender-EA / Access Point WiFi 6 Extender"),
    ("uap", "UAIW6", "U6-IW-EA / Access Point WiFi 6 In-Wall"),
    ("uap", "UAL6", "U6-Lite / Access Point WiFi 6 Lite"),
    ("uap", "UALR6", "U6-LR-EA / Access Point WiFi 6 Long-Range"),
    ("uap", "UALR6v2", "U6-LR / Access Point WiFi 6 Long-Range"),
    ("uap", "UALR6v3", "U6-LR / Access Point WiFi 6 Long-Range"),
    ("uap", "UAM6", "U6-Mesh-EA / Access Point WiFi 6 Mesh"),
    ("uap", "UAP6", "U6-LR / Access Point WiFi 6 Long-Range"),
    ("uap", "UAP6MP", "U6-Pro / Access Point WiFi 6 Pro"),
    ("uap", "UCMSH", "UAP-XG-Mesh / Access Point Mesh XG"),
    ("uap", "UCXG", "UAP-XG / Access Point XG"),
    ("uap", "UDMB", "UAP-BeaconHD / Access Point BeaconHD"),
    ("uap", "UFLHD", "UAP-FlexHD / Access Point FlexHD"),
    ("uap", "UHDIW", "UAP-IW-HD / Access Point In-Wall HD"),
    ("uap", "ULTE", "U-LTE / UniFi LTE"),
    ("uap", "ULTEPEU", "U-LTE-Pro / UniFi LTE Pro"),
    ("uap", "ULTEPUS", "U-LTE-Pro / UniFi LTE Pro"),
    ("uap", "UP1", "USP-Plug / SmartPower Plug"),
    ("uap", "UP6", "USP-Strip / SmartPower Strip (6 ports)"),
    ("uap", "UXBSDM", "UWB-XG-BK / WiFi BaseStation XG"),
    ("uap", "UXSDM", "UWB-XG / WiFi BaseStation XG"),
    ("uap", "p2N", "PICOM2HP / PicoStation M2 HP"),
    ("usw", "S216150", "US-16-150W / Switch 16 PoE (150 W)"),
    ("usw", "S224250", "US-24-250W / Switch 24 PoE (250 W)"),
    ("usw", "S224500", "US-24-500W / Switch 24 PoE (500 W)"),
    ("usw", "S248500", "US-48-500W / Switch 48 PoE (500 W)"),
    ("usw", "S248750", "US-48-750W / Switch 48 PoE (750 W)"),
    ("usw", "S28150", "US-8-150W / Switch 8 PoE (150 W)"),
    ("usw", "UDC48X6", "USW-Leaf / Switch Leaf"),
    ("usw", "US16P150", "US-16-150W / Switch 16 PoE (150 W)"),
    ("usw", "US24", "USW-24-G1 / Switch 24"),
    ("usw", "US24P250", "US-24-250W / Switch 24 PoE (250 W)"),
    ("usw", "US24P500", "US-24-500W / Switch 24 PoE (500 W)"),
    ("usw", "US24PL2", "US-L2-24-PoE / Switch 24 PoE"),
    ("usw", "US24PRO", "USW-Pro-24-PoE / Switch Pro 24 PoE"),
    ("usw", "US24PRO2", "USW-Pro-24 / Switch Pro 24"),
    ("usw", "US48", "US-48-G1 / Switch 48"),
    ("usw", "US48P500", "US-48-500W / Switch 48 PoE (500 W)"),
    ("usw", "US48P750", "US-48-750W / Switch 48 PoE (750 W)"),
    ("usw", "US48PL2", "US-L2-48-PoE / Switch 48 PoE"),
    ("usw", "US48PRO", "USW-Pro-48-PoE / Switch Pro 48 PoE"),
    ("usw", "US48PRO2", "USW-Pro-48 / Switch Pro 48"),
    ("usw", "US624P", "USW-Enterprise-24-PoE / Switch Enterprise 24 PoE"),
    ("usw", "US648P", "USW-Enterprise-48-PoE / Switch Enterprise 48 PoE"),
    ("usw", "US68P", "USW-Enterprise-8-PoE / Switch Enterprise 8 PoE"),
    ("usw", "US6XG150", "US-XG-6PoE / Switch 6 XG PoE"),
    ("usw", "US8", "US-8 / Switch 8"),
    ("usw", "US8P150", "US-8-150W / Switch 8 PoE (150 W)"),
    ("usw", "US8P60", "US-8-60W / Switch 8 (60 W)"),
    ("usw", "USAGGPRO", "USW-Pro-Aggregation / Switch Aggregation Pro"),
    ("usw", "USC8", "US-8 / Switch 8"),
    ("usw", "USC8P150", "US-8-150W / Switch 8 PoE (150 W)"),
    ("usw", "USC8P450", "USW-Industrial / Switch Industrial"),
    ("usw", "USC8P60", "US-8-60W / Switch 8 (60 W)"),
    ("usw", "USF5P", "USW-Flex / Switch Flex"),
    ("usw", "USFXG", "USW-Flex-XG / Switch Flex XG"),
    ("usw", "USL16LP", "USW-Lite-16-PoE / Switch Lite 16 PoE"),
    ("usw", "USL16P", "USW-16-PoE / Switch 16 PoE"),
    ("usw", "USL24", "USW-24-G2 / Switch 24"),
    ("usw", "USL24P", "USW-24-PoE / Switch 24 PoE"),
    ("usw", "USL48", "USW-48-G2 / Switch 48"),
    ("usw", "USL48P", "USW-48-PoE / Switch 48 PoE"),
    ("usw", "USL8A", "USW-Aggregation / Switch Aggregation"),
    ("usw", "USL8LP", "USW-Lite-8-PoE / Switch Lite 8 PoE"),
    ("usw", "USL8MP", "USW-Mission-Critical / Switch Mission Critical"),
    ("usw", "USMINI", "USW-Flex-Mini / Switch Flex Mini"),
    ("usw", "USPPDUP", "USP-PDU-Pro / SmartPower PDU Pro"),
    ("usw", "USPRPS", "USP-RPS / SmartPower Redundant Power System"),
    ("usw", "USXG", "US-16-XG / Switch XG 16"),
    ("usw", "USXG24", "USW-EnterpriseXG-24 / Switch Enterprise XG 24"),
    ("ugw", "UGW3", "USG-3P / Security Gateway"),
    ("ugw", "UGW4", "USG-Pro-4 / Security Gateway Pro"),
    ("ugw", "UGWHD4", "USG / Security Gateway"),
    ("ugw", "UGWXG", "USG-XG-8 / Security Gateway XG"),
    ("uxg", "UXGPRO", "UXG-Pro / Next-Generation Gateway Pro"),
    ("ubb", "UBB", "UBB / Building-to-Building Bridge"),
    ("ubb", "UBBXG", "UBB-XG / Building-to-Building Bridge XG"),
    ("uas", "UASXG", "UAS-XG / Application Server XG"),
    ("udm", "UDM", "UDM / Dream Machine"),
    ("udm", "UDMPRO", "UDM-Pro / Dream Machine Pro"),
    ("udm", "UDMPROSE", "UDM-SE / Dream Machine Special Edition"),
    ("udm", "UDR", "UDR / Dream Router"),
    ("udm", "UDW", "UDW / Dream Wall"),
    ("udm", "UDWPRO", "UDWPRO / Dream Wall Pro"),
    ("uck", "UCK", "UCK / Cloud Key"),
    ("uck", "UCK-v2", "UCK / Cloud Key"),
    ("uck", "UCK-v3", "UCK / Cloud Key"),
    ("uck", "UCKG2", "UCK-G2 / Cloud Key Gen2"),
    ("uck", "UCKP", "UCK-G2-Plus / Cloud Key Gen2 Plus"),
    ("uph", "UP4", "UVP-X / Phone"),
    ("uph", "UP5", "UVP / Phone"),
    ("uph", "UP5c", "UVP / Phone"),
    ("uph", "UP5t", "UVP-Pro / Phone Professional"),
    ("uph", "UP5tc", "UVP-Pro / Phone Professional"),
    ("uph", "UP7", "UVP-Executive / Phone Executive"),
    ("uph", "UP7c", "UVP-Executive / Phone Executive"),
];

/// Row `i` of the table is the one for this type and model.
pub open spec fn label_row_matches(i: int, device_type: Seq<char>, device_model: Seq<char>) -> bool {
    LABELS[i].0@ == device_type && LABELS[i].1@ == device_model
}

/// The product name in the first row, from row `i` on, that matches this
/// type and model.
pub open spec fn label_from(i: int, device_type: Seq<char>, device_model: Seq<char>) -> Option<
    Seq<char>,
>
    decreases LABEL_COUNT - i,
{
    if i < 0 || i >= LABEL_COUNT {
        None
    } else if label_row_matches(i, device_type, device_model) {
        Some(LABELS[i].2@)
    } else {
        label_from(i + 1, device_type, device_model)
    }
}

/// The product name for a device type and model code, where the table has
/// one.
pub open spec fn model_label(device_type: Seq<char>, device_model: Seq<char>) -> Option<Seq<char>> {
    label_from(0, device_type, device_model)
}

/// Looks the product name up for a device type and model code.
pub fn lookup_label(device_type: &str, device_model: &str) -> (r: Option<&'static str>)
    ensures
        r is Some <==> model_label(device_type@, device_model@) is Some,
        r matches Some(label) ==> Some(label@) == model_label(device_type@, device_model@),
{
    let mut i: usize = 0;
    while i < LABEL_COUNT
        invariant
            i <= LABEL_COUNT,
            model_label(device_type@, device_model@) == label_from(
                i as int,
                device_type@,
                device_model@,
            ),
        decreases LABEL_COUNT - i,
    {
        let row: (&'static str, &'static str, &'static str) = LABELS[i];
        if str_eq(row.0, device_type) && str_eq(row.1, device_model) {
            return Some(row.2);
        }
        i += 1;
    }
    None
}

/// A device, as the controller's short inventory of a site lists it.
#[derive(Debug, PartialEq, Eq)]
pub struct UnifiDeviceBasic {
    /// The device's MAC address, as the controller wrote it.
    pub mac: String,
    pub state: DeviceState,
    /// Whether this controller has taken the device over.
    pub adopted: bool,
    pub device_type: String,
    pub device_model: String,
    pub gateway_mode: Option<bool>,
    /// The name that people gave the device, if any.
    pub name_option: Option<String>,
    /// The product name, once looked up.
    pub device_label_option: Option<&'static str>,
    /// The name of the site that holds the device, once known.
    pub site: String,
}

/// A device as plain values.
pub struct DeviceView {
    pub mac: Seq<char>,
    pub state: DeviceState,
    pub adopted: bool,
    pub device_type: Seq<char>,
    pub device_model: Seq<char>,
    pub gateway_mode: Option<bool>,
    pub name: Option<Seq<char>>,
    pub label: Option<Seq<char>>,
    pub site: Seq<char>,
}

/// The text of an optional string.
pub open spec fn option_text(s: Option<String>) -> Option<Seq<char>> {
    match s {
        Some(s) => Some(s@),
        None => None,
    }
}

/// The text of an optional string literal.
pub open spec fn option_str_text(s: Option<&'static str>) -> Option<Seq<char>> {
    match s {
        Some(s) => Some(s@),
        None => None,
    }
}

impl View for UnifiDeviceBasic {
    type V = DeviceView;

    open spec fn view(&self) -> DeviceView {
        DeviceView {
            mac: self.mac@,
            state: self.state,
            adopted: self.adopted,
            device_type: self.device_type@,
            device_model: self.device_model@,
            gateway_mode: self.gateway_mode,
            name: option_text(self.name_option),
            label: option_str_text(self.device_label_option),
            site: self.site@,
        }
    }
}

impl DeepView for UnifiDeviceBasic {
    type V = DeviceView;

    open spec fn deep_view(&self) -> DeviceView {
        self@
    }
}

impl Clone for UnifiDeviceBasic {
    fn clone(&self) -> (r: UnifiDeviceBasic)
        ensures
            r@ == self@,
    {
        let name_option: Option<String> = match &self.name_option {
            Some(name) => Some(name.clone()),
            None => None,
        };
        UnifiDeviceBasic {
            mac: self.mac.clone(),
            state: self.state,
            adopted: self.adopted,
            device_type: self.device_type.clone(),
            device_model: self.device_model.clone(),
            gateway_mode: self.gateway_mode,
            name_option,
            device_label_option: self.device_label_option,
            site: self.site.clone(),
        }
    }
}

impl DeviceView {
    /// The device with its product name looked up.
    pub open spec fn with_label(self) -> DeviceView {
        DeviceView { label: model_label(self.device_type, self.device_model), ..self }
    }

    /// The device with the name of the site that holds it.
    pub open spec fn in_site(self, desc: Seq<char>) -> DeviceView {
        DeviceView { site: desc, ..self }
    }
}

impl UnifiDeviceBasic {
    /// Looks the device's product name up by its type and model code, and
    /// notes it in the device; a device whose model the table does not have
    /// is left without one.
    pub fn create_device_label(&mut self)
        ensures
            final(self)@ == old(self)@.with_label(),
    {
        self.device_label_option = lookup_label(self.device_type.as_str(), self.device_model.as_str());
    }
}

/// The name under which a device is shown.
#[derive(Debug, PartialEq, Eq)]
pub enum DeviceLabel {
    /// The name that people gave the device.
    Name(String),
    /// The product, for a device without a name.
    Model(String),
}

/// The name under which a device is shown, as plain text.
pub enum LabelView {
    Name(Seq<char>),
    Model(Seq<char>),
}

impl View for DeviceLabel {
    type V = LabelView;

    open spec fn view(&self) -> LabelView {
        match self {
            DeviceLabel::Name(name) => LabelView::Name(name@),
            DeviceLabel::Model(model) => LabelView::Model(model@),
        }
    }
}

/// A found device as it is shown.
#[derive(Debug, PartialEq, Eq)]
pub struct UnifiDevice {
    pub mac_found: String,
    pub device_label: DeviceLabel,
    pub site: String,
    pub state: &'static str,
    pub adopted: bool,
}

/// A found device as it is shown, as plain values.
pub struct ShownDeviceView {
    pub mac_found: Seq<char>,
    pub device_label: LabelView,
    pub site: Seq<char>,
    pub state: Seq<char>,
    pub adopted: bool,
}

impl View for UnifiDevice {
    type V = ShownDeviceView;

    open spec fn view(&self) -> ShownDeviceView {
        ShownDeviceView {
            mac_found: self.mac_found@,
            device_label: self.device_label@,
            site: self.site@,
            state: self.state@,
            adopted: self.adopted,
        }
    }
}

impl DeviceView {
    /// A device's type and model code, for a product that the table does not
    /// have: the type in upper case, a slash, the model code.
    pub open spec fn type_and_model(self) -> Seq<char> {
        uppercase(self.device_type) + " / "@ + self.device_model
    }

    /// The name under which the device is shown: the name that people gave
    /// it; without one, the product name; without that, type and model.
    pub open spec fn shown_label(self) -> LabelView {
        match self.name {
            Some(name) => LabelView::Name(name),
            None => match model_label(self.device_type, self.device_model) {
                Some(product) => LabelView::Model(product),
                None => LabelView::Model(self.type_and_model()),
            },
        }
    }

    /// The device as it is shown.
    pub open spec fn shown(self) -> ShownDeviceView {
        ShownDeviceView {
            mac_found: self.mac,
            device_label: self.shown_label(),
            site: self.site,
            state: self.state.words(),
            adopted: self.adopted,
        }
    }
}

impl UnifiDeviceBasic {
    /// The device's type and model code, as shown for a product that the
    /// table does not have.
    pub fn type_and_model(&self) -> (r: String)
        ensures
            r@ == self@.type_and_model(),
    {
        let upper: String = to_uppercase(self.device_type.as_str());
        concat3(upper.as_str(), " / ", self.device_model.as_str())
    }

    /// The name under which the device is shown.
    pub fn shown_label(&self) -> (r: DeviceLabel)
        ensures
            r@ == self@.shown_label(),
    {
        match &self.name_option {
            Some(name) => DeviceLabel::Name(name.clone()),
            None => match lookup_label(self.device_type.as_str(), self.device_model.as_str()) {
                Some(product) => DeviceLabel::Model(String::from_str(product)),
                None => DeviceLabel::Model(self.type_and_model()),
            },
        }
    }
}

impl UnifiDevice {
    /// The device as it is shown: its address and site as they are, its
    /// state in words, and the name under which it goes.
    pub fn from_basic(device: &UnifiDeviceBasic) -> (r: UnifiDevice)
        ensures
            r@ == device@.shown(),
    {
        UnifiDevice {
            mac_found: device.mac.clone(),
            device_label: device.shown_label(),
            site: device.site.clone(),
            state: device.state.as_str(),
            adopted: device.adopted,
        }
    }
}

} // verus!
