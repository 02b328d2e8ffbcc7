//! The controller: what it reports, how it is spoken to, and the search.

pub mod api;
pub mod codes;
pub mod devices;
pub mod json;
pub mod laws;
pub mod protocol;
pub mod search;

pub use codes::{UnifiErrorKind, UnifiSearchError};
pub use devices::{DeviceLabel, UnifiDevice};
pub use search::{
    find_unifi_device, run_unifi_search, UnifiSearchInfo, UnifiSearchResult, UnifiSearchStatus,
};
