//! A small client core for two public astronomy data feeds: the picture of
//! the day and the near-earth-object feed.
//!
//! The library holds the logic of such a client that can be stated and
//! proved: composing request URLs from a stored key and calendar dates,
//! validating date ranges, encoding and decoding the local key file, mapping
//! fetched JSON bodies into fixed-shape records, and the per-feed result
//! cache that decides when a network request is due.  The network itself and
//! the window toolkit stay outside; they drive this library through the plan
//! and apply functions of [`SpacePixUi`].

pub mod apis;
pub mod app;
pub mod dates;
pub mod errors;
pub mod jsonval;
pub mod parser;
pub mod text;
pub mod ui;
pub mod urls;

pub use apis::{ApiKey, Apod, Links, NEOFeed, NearEarthObject};
pub use app::SpacePixUi;
pub use dates::Date;
pub use parser::Parser;
pub use urls::Urls;

pub use errors::{ApiKeyError, FeedError, NetworkError, NeowsError};
pub use ui::{AboutWindow, ApiKeyWindow, ApodWindow, NIVLWindow, NeowsWindow};
