//! The controller's answers: JSON documents, and what they must hold to be
//! read as a list of sites or of devices.

use vstd::prelude::*;
use vstd::string::*;

use super::devices::{DeviceState, DeviceView, SiteView, UnifiDeviceBasic, UnifiSite};
use crate::text::str_eq;

verus! {

/// A JSON value.
#[derive(Debug, PartialEq, Eq)]
pub enum Json {
    Null,
    Bool(bool),
    /// A number that is a whole number from 0 to 2^64 - 1.
    Integer(u64),
    /// Any other number.
    Number,
    Str(String),
    Array(Vec<Json>),
    /// The members of an object, each with its name.
    Object(Vec<(String, Json)>),
}

/// The envelope is no object.
pub open spec fn envelope_no_object() -> Seq<char> {
    "the answer is no object"@
}

/// The envelope's `meta` is missing or not as it should be.
pub open spec fn envelope_bad_meta() -> Seq<char> {
    "the answer has no `meta` with a result code `rc` of `ok` or `error`"@
}

/// The envelope's `data` is missing or no array.
pub open spec fn envelope_bad_data() -> Seq<char> {
    "the answer has no array `data`"@
}

/// An entry of the list of sites is no site.
pub open spec fn envelope_bad_site() -> Seq<char> {
    "an entry of `data` is no site with `name` and `desc`"@
}

/// The first member named `key`, from place `from` on.
pub open spec fn member_from(members: Seq<(String, Json)>, key: Seq<char>, from: int) -> Option<
    Json,
>
    decreases members.len() - from,
{
    if from < 0 || from >= members.len() {
        None
    } else if members[from].0@ == key {
        Some(members[from].1)
    } else {
        member_from(members, key, from + 1)
    }
}

impl Json {
    /// The member named `key` of an object, the first one if there are
    /// several.
    pub open spec fn member(self, key: Seq<char>) -> Option<Json> {
        match self {
            Json::Object(members) => member_from(members@, key, 0),
            _ => None,
        }
    }

    /// The text of the member named `key`, which must be there and be a
    /// string.
    pub open spec fn text(self, key: Seq<char>) -> Option<Seq<char>> {
        match self.member(key) {
            Some(Json::Str(text)) => Some(text@),
            _ => None,
        }
    }

    /// The text of the member named `key`, which may be missing or null; if
    /// it is there, it must be a string.
    pub open spec fn optional_text(self, key: Seq<char>) -> Option<Option<Seq<char>>> {
        match self.member(key) {
            Some(Json::Str(text)) => Some(Some(text@)),
            Some(Json::Null) => Some(None),
            None => Some(None),
            _ => None,
        }
    }

    /// The member named `key`, which must be there and be true or false.
    pub open spec fn flag(self, key: Seq<char>) -> Option<bool> {
        match self.member(key) {
            Some(Json::Bool(flag)) => Some(flag),
            _ => None,
        }
    }

    /// The member named `key`, which may be missing or null; if it is
    /// there, it must be true or false.
    pub open spec fn optional_flag(self, key: Seq<char>) -> Option<Option<bool>> {
        match self.member(key) {
            Some(Json::Bool(flag)) => Some(Some(flag)),
            Some(Json::Null) => Some(None),
            None => Some(None),
            _ => None,
        }
    }

    /// The member named `key`, which must be there and be a whole number
    /// that is not negative.
    pub open spec fn integer(self, key: Seq<char>) -> Option<u64> {
        match self.member(key) {
            Some(Json::Integer(n)) => Some(n),
            _ => None,
        }
    }

    /// The value is an object.
    pub open spec fn is_object(self) -> bool {
        self is Object
    }

    /// The `meta` of an envelope is as it should be: an object whose `rc`
    /// is `ok` or `error`, and whose `msg`, if it has one, is a string.
    pub open spec fn is_meta(self) -> bool {
        &&& self.is_object()
        &&& self.text("rc"@) == Some("ok"@) || self.text("rc"@) == Some("error"@)
        &&& self.optional_text("msg"@) is Some
    }

    /// The site that an entry of `data` describes.
    pub open spec fn site(self) -> Option<SiteView> {
        if self.is_object() && self.text("name"@) is Some && self.text("desc"@) is Some {
            Some(SiteView { code: self.text("name"@)->0, desc: self.text("desc"@)->0 })
        } else {
            None
        }
    }

    /// The device that an entry of `data` describes. The product name and
    /// the site are not part of the entry.
    pub open spec fn device(self) -> Option<DeviceView> {
        if self.is_object() && self.text("mac"@) is Some && self.integer("state"@) is Some
            && self.flag("adopted"@) is Some && self.text("type"@) is Some && self.text("model"@)
            is Some && self.optional_flag("in_gateway_mode"@) is Some && self.optional_text(
            "name"@,
        ) is Some {
            Some(
                DeviceView {
                    mac: self.text("mac"@)->0,
                    state: DeviceState::of_code(self.integer("state"@)->0),
                    adopted: self.flag("adopted"@)->0,
                    device_type: self.text("type"@)->0,
                    device_model: self.text("model"@)->0,
                    gateway_mode: self.optional_flag("in_gateway_mode"@)->0,
                    name: self.optional_text("name"@)->0,
                    label: None,
                    site: Seq::empty(),
                },
            )
        } else {
            None
        }
    }

    /// The `data` of an envelope, or what is wrong with the envelope.
    pub open spec fn envelope_data(self) -> Result<Seq<Json>, Seq<char>> {
        if !self.is_object() {
            Err(envelope_no_object())
        } else if !(self.member("meta"@) matches Some(meta) && meta.is_meta()) {
            Err(envelope_bad_meta())
        } else {
            match self.member("data"@) {
                Some(Json::Array(entries)) => Ok(entries@),
                _ => Err(envelope_bad_data()),
            }
        }
    }
}

/// The sites that the first `n` entries describe, if each of them
/// describes one.
pub open spec fn sites_of(entries: Seq<Json>, n: int) -> Option<Seq<SiteView>>
    decreases n,
{
    if n <= 0 {
        Some(Seq::empty())
    } else {
        match (sites_of(entries, n - 1), entries[n - 1].site()) {
            (Some(sites), Some(site)) => Some(sites.push(site)),
            _ => None,
        }
    }
}

/// The devices that the first `n` entries describe; an entry that
/// describes none is passed over.
pub open spec fn devices_of(entries: Seq<Json>, n: int) -> Seq<DeviceView>
    decreases n,
{
    if n <= 0 {
        Seq::empty()
    } else {
        match entries[n - 1].device() {
            Some(device) => devices_of(entries, n - 1).push(device),
            None => devices_of(entries, n - 1),
        }
    }
}

/// The sites in the body of an answer. The body is a JSON document, or the
/// complaint of whoever tried to read one. Every entry must be a site.
pub open spec fn decoded_sites(body: Result<Json, String>) -> Result<Seq<SiteView>, Seq<char>> {
    match body {
        Err(complaint) => Err(complaint@),
        Ok(document) => match document.envelope_data() {
            Err(complaint) => Err(complaint),
            Ok(entries) => match sites_of(entries, entries.len() as int) {
                Some(sites) => Ok(sites),
                None => Err(envelope_bad_site()),
            },
        },
    }
}

/// The devices in the body of an answer. The body is a JSON document, or
/// the complaint of whoever tried to read one. An entry that is no device
/// is passed over.
pub open spec fn decoded_devices(body: Result<Json, String>) -> Result<Seq<DeviceView>, Seq<char>> {
    match body {
        Err(complaint) => Err(complaint@),
        Ok(document) => match document.envelope_data() {
            Err(complaint) => Err(complaint),
            Ok(entries) => Ok(devices_of(entries, entries.len() as int)),
        },
    }
}

/// The text of an optional string slice.
pub open spec fn str_view(text: Option<&str>) -> Option<Seq<char>> {
    match text {
        Some(text) => Some(text@),
        None => None,
    }
}

/// The text of a member that may be missing.
pub open spec fn optional_str_view(text: Option<Option<&str>>) -> Option<Option<Seq<char>>> {
    match text {
        Some(text) => Some(str_view(text)),
        None => None,
    }
}

/// The site, if there is one, as plain text.
pub open spec fn site_view(site: Option<UnifiSite>) -> Option<SiteView> {
    match site {
        Some(site) => Some(site@),
        None => None,
    }
}

/// The device, if there is one, as plain values.
pub open spec fn device_view(device: Option<UnifiDeviceBasic>) -> Option<DeviceView> {
    match device {
        Some(device) => Some(device@),
        None => None,
    }
}

/// What was read of a list of sites, as plain values.
pub open spec fn sites_read(r: Result<Vec<UnifiSite>, String>) -> Result<Seq<SiteView>, Seq<char>> {
    match r {
        Ok(sites) => Ok(sites.deep_view()),
        Err(complaint) => Err(complaint@),
    }
}

/// What was read of a list of devices, as plain values.
pub open spec fn devices_read(r: Result<Vec<UnifiDeviceBasic>, String>) -> Result<
    Seq<DeviceView>,
    Seq<char>,
> {
    match r {
        Ok(devices) => Ok(devices.deep_view()),
        Err(complaint) => Err(complaint@),
    }
}

impl Json {
    /// The member named `key` of an object, the first one if there are
    /// several.
    pub fn get(&self, key: &str) -> (r: Option<&Json>)
        ensures
            match r {
                Some(value) => self.member(key@) == Some(*value),
                None => self.member(key@) is None,
            },
    {
        match self {
            Json::Object(members) => {
                let mut i: usize = 0;
                while i < members.len()
                    invariant
                        i <= members.len(),
                        self.member(key@) == member_from(members@, key@, i as int),
                    decreases members.len() - i,
                {
                    if str_eq(members[i].0.as_str(), key) {
                        return Some(&members[i].1);
                    }
                    i += 1;
                }
                None
            },
            _ => None,
        }
    }

    /// The text of the member named `key`, which must be there and be a
    /// string.
    pub fn get_text(&self, key: &str) -> (r: Option<&str>)
        ensures
            str_view(r) == self.text(key@),
    {
        match self.get(key) {
            Some(Json::Str(text)) => Some(text.as_str()),
            _ => None,
        }
    }

    /// The text of the member named `key`, which may be missing or null; if
    /// it is there, it must be a string.
    pub fn get_optional_text(&self, key: &str) -> (r: Option<Option<&str>>)
        ensures
            optional_str_view(r) == self.optional_text(key@),
    {
        match self.get(key) {
            Some(Json::Str(text)) => Some(Some(text.as_str())),
            Some(Json::Null) => Some(None),
            None => Some(None),
            _ => None,
        }
    }

    /// The member named `key`, which must be there and be true or false.
    pub fn get_flag(&self, key: &str) -> (r: Option<bool>)
        ensures
            r == self.flag(key@),
    {
        match self.get(key) {
            Some(Json::Bool(flag)) => Some(*flag),
            _ => None,
        }
    }

    /// The member named `key`, which may be missing or null; if it is
    /// there, it must be true or false.
    pub fn get_optional_flag(&self, key: &str) -> (r: Option<Option<bool>>)
        ensures
            r == self.optional_flag(key@),
    {
        match self.get(key) {
            Some(Json::Bool(flag)) => Some(Some(*flag)),
            Some(Json::Null) => Some(None),
            None => Some(None),
            _ => None,
        }
    }

    /// The member named `key`, which must be there and be a whole number
    /// that is not negative.
    pub fn get_integer(&self, key: &str) -> (r: Option<u64>)
        ensures
            r == self.integer(key@),
    {
        match self.get(key) {
            Some(Json::Integer(n)) => Some(*n),
            _ => None,
        }
    }

    /// Whether the `meta` of an envelope is as it should be.
    pub fn check_meta(&self) -> (r: bool)
        ensures
            r == self.is_meta(),
    {
        match self {
            Json::Object(_) => {},
            _ => {
                return false;
            },
        }
        let known: bool = match self.get_text("rc") {
            Some(rc) => str_eq(rc, "ok") || str_eq(rc, "error"),
            None => false,
        };
        known && self.get_optional_text("msg").is_some()
    }

    /// The site that an entry of `data` describes.
    pub fn to_site(&self) -> (r: Option<UnifiSite>)
        ensures
            site_view(r) == self.site(),
    {
        match self {
            Json::Object(_) => {},
            _ => {
                return None;
            },
        }
        match (self.get_text("name"), self.get_text("desc")) {
            (Some(code), Some(desc)) => Some(
                UnifiSite { code: String::from_str(code), desc: String::from_str(desc) },
            ),
            _ => None,
        }
    }

    /// The device that an entry of `data` describes, with its state
    /// decoded, and as yet without product name and site.
    pub fn to_device(&self) -> (r: Option<UnifiDeviceBasic>)
        ensures
            device_view(r) == self.device(),
    {
        match self {
            Json::Object(_) => {},
            _ => {
                return None;
            },
        }
        let mac: &str = match self.get_text("mac") {
            Some(mac) => mac,
            None => {
                return None;
            },
        };
        let state: u64 = match self.get_integer("state") {
            Some(state) => state,
            None => {
                return None;
            },
        };
        let adopted: bool = match self.get_flag("adopted") {
            Some(adopted) => adopted,
            None => {
                return None;
            },
        };
        let device_type: &str = match self.get_text("type") {
            Some(device_type) => device_type,
            None => {
                return None;
            },
        };
        let device_model: &str = match self.get_text("model") {
            Some(device_model) => device_model,
            None => {
                return None;
            },
        };
        let gateway_mode: Option<bool> = match self.get_optional_flag("in_gateway_mode") {
            Some(gateway_mode) => gateway_mode,
            None => {
                return None;
            },
        };
        let name_option: Option<String> = match self.get_optional_text("name") {
            Some(Some(name)) => Some(String::from_str(name)),
            Some(None) => None,
            None => {
                return None;
            },
        };
        Some(
            UnifiDeviceBasic {
                mac: String::from_str(mac),
                state: DeviceState::from_code(state),
                adopted,
                device_type: String::from_str(device_type),
                device_model: String::from_str(device_model),
                gateway_mode,
                name_option,
                device_label_option: None,
                site: String::new(),
            },
        )
    }

    /// The `data` of an envelope, or what is wrong with the envelope.
    pub fn data(&self) -> (r: Result<&Vec<Json>, String>)
        ensures
            match r {
                Ok(entries) => self.envelope_data() == Ok::<Seq<Json>, Seq<char>>(entries@),
                Err(complaint) => self.envelope_data() == Err::<Seq<Json>, Seq<char>>(complaint@),
            },
    {
        match self {
            Json::Object(_) => {},
            _ => {
                return Err(String::from_str("the answer is no object"));
            },
        }
        let meta_is_good: bool = match self.get("meta") {
            Some(meta) => meta.check_meta(),
            None => false,
        };
        if !meta_is_good {
            return Err(
                String::from_str(
                    "the answer has no `meta` with a result code `rc` of `ok` or `error`",
                ),
            );
        }
        match self.get("data") {
            Some(Json::Array(entries)) => Ok(entries),
            _ => Err(String::from_str("the answer has no array `data`")),
        }
    }
}

/// Reads the sites from the body of an answer: a JSON document, or the
/// complaint of whoever tried to read one. Every entry of the document's
/// `data` must be a site.
pub fn decode_sites(body: Result<Json, String>) -> (r: Result<Vec<UnifiSite>, String>)
    ensures
        sites_read(r) == decoded_sites(body),
{
    let document: Json = match body {
        Ok(document) => document,
        Err(complaint) => {
            return Err(complaint);
        },
    };
    let entries: &Vec<Json> = match document.data() {
        Ok(entries) => entries,
        Err(complaint) => {
            return Err(complaint);
        },
    };
    let mut sites: Vec<UnifiSite> = Vec::new();
    let mut i: usize = 0;
    while i < entries.len()
        invariant
            i <= entries.len(),
            body == Ok::<Json, String>(document),
            document.envelope_data() == Ok::<Seq<Json>, Seq<char>>(entries@),
            sites_of(entries@, i as int) == Some(sites.deep_view()),
        decreases entries.len() - i,
    {
        match entries[i].to_site() {
            Some(site) => {
                let ghost before = sites.deep_view();
                sites.push(site);
                assert(sites.deep_view() =~= before.push(site@));
            },
            None => {
                proof {
                    lemma_bad_site_spoils_the_list(entries@, i as int, entries@.len() as int);
                }
                return Err(
                    String::from_str("an entry of `data` is no site with `name` and `desc`"),
                );
            },
        }
        i += 1;
    }
    Ok(sites)
}

/// A list with an entry that is no site is no list of sites, however long.
pub proof fn lemma_bad_site_spoils_the_list(entries: Seq<Json>, bad: int, n: int)
    requires
        0 <= bad < n,
        entries[bad].site() is None,
    ensures
        sites_of(entries, n) is None,
    decreases n,
{
    if bad < n - 1 {
        lemma_bad_site_spoils_the_list(entries, bad, n - 1);
    }
}

/// Reads the devices from the body of an answer: a JSON document, or the
/// complaint of whoever tried to read one. An entry of the document's
/// `data` that is no device is passed over.
pub fn decode_devices(body: Result<Json, String>) -> (r: Result<Vec<UnifiDeviceBasic>, String>)
    ensures
        devices_read(r) == decoded_devices(body),
{
    let document: Json = match body {
        Ok(document) => document,
        Err(complaint) => {
            return Err(complaint);
        },
    };
    let entries: &Vec<Json> = match document.data() {
        Ok(entries) => entries,
        Err(complaint) => {
            return Err(complaint);
        },
    };
    let mut devices: Vec<UnifiDeviceBasic> = Vec::new();
    let mut i: usize = 0;
    while i < entries.len()
        invariant
            i <= entries.len(),
            devices_of(entries@, i as int) == devices.deep_view(),
        decreases entries.len() - i,
    {
        match entries[i].to_device() {
            Some(device) => {
                let ghost before = devices.deep_view();
                devices.push(device);
                assert(devices.deep_view() =~= before.push(device@));
            },
            None => {},
        }
        i += 1;
    }
    Ok(devices)
}

} // verus!
