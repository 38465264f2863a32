//! Client-side logic for a weather-observation open-data service: retry
//! decisions for throttled requests, the addresses of its documents,
//! navigation of its hypermedia links, assembly of a station's observation
//! series and nearest-station selection.

pub mod endpoint;
pub mod error;
pub mod link;
pub mod observation;
pub mod parameter;
pub mod period;
pub mod retry;
pub mod station;
pub mod timestamp;

pub use endpoint::{periods_url, stations_url};
pub use error::Error;
pub use link::{first_href, first_href_in, Link, LinkQuery, Resource};
pub use observation::{
    accepted_quality, assemble_readings, entry_to_reading, latest_readings, parse_archive, parse_row,
    LatestValue, Reading,
};
pub use parameter::Parameter;
pub use period::{archive_data_url, latest_data_url, period_urls, Period};
pub use retry::{classify_response, Attempt, Backoff, Step, INITIAL_DELAY_MS, MAX_ATTEMPTS};
pub use station::closest_index;
pub use timestamp::{CalendarDate, ClockTime, Timestamp};
