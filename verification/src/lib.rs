pub mod clock;
pub mod codec;
pub mod errors;
pub mod level;
pub mod machine;
pub mod parse;
pub mod reading;
pub mod run;
pub mod session;
pub mod state;
pub mod timestamp;

pub use clock::{fields_to_timestamp, now_utc, today_local};
pub use codec::{decode_state, encode_state};
pub use errors::MonitorError;
pub use level::WarningLevel;
pub use machine::{determine_warning_level, next};
pub use parse::parse_comma_decimal;
pub use reading::Reading;
pub use run::{RunAction, RunEvent, RunMachine, RunPhase};
pub use session::{ScrapeAction, ScrapeConfig, ScrapeEvent, ScrapePhase, ScrapeSession};
pub use state::{maybe_alert, AlertEvent, MonitorState};
pub use timestamp::{format_ddmmyyyy, parse_timestamp, Timestamp};
