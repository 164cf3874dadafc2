//! Host uptime, load average and logged-in user count, reported as one
//! plain line or as a small structured object.

pub mod clock;
pub mod text;
pub mod readings;
pub mod users;
pub mod friendly;
pub mod report;

pub use clock::uptime_parts;
pub use friendly::{FriendlyBreakdown, friendly};
pub use readings::{load_fields, uptime_token};
pub use report::{render_json, render_plain, report};
pub use text::{decimal_string, split_words};
pub use users::count_users;
