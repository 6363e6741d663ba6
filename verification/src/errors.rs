use vstd::prelude::*;

verus! {

/// The failure kinds of one monitor run.
#[derive(Clone, Copy, Debug, PartialEq, Eq, Structural)]
pub enum MonitorError {
    /// The automation driver or the browser connection could not be brought up.
    SessionStart,
    /// A navigation, element interaction or extraction step failed in a live session.
    Scrape,
    /// The scraped text is not a decimal numeral.
    Parse,
    /// A required configuration value is missing.
    Config,
    /// The persisted snapshot could not be read, written or decoded.
    Persistence,
    /// The alert sink refused a message.
    Delivery,
}

impl MonitorError {
    /// A short stable name for logs and notifications, distinct for
    /// each failure kind.
    pub fn describe(&self) -> (r: &'static str)
        ensures
            self == MonitorError::SessionStart ==> r@ == "session start failure"@,
            self == MonitorError::Scrape ==> r@ == "scrape failure"@,
            self == MonitorError::Parse ==> r@ == "parse failure"@,
            self == MonitorError::Config ==> r@ == "missing configuration"@,
            self == MonitorError::Persistence ==> r@ == "persistence failure"@,
            self == MonitorError::Delivery ==> r@ == "delivery failure"@,
            r@.len() > 0,
    {
        proof {
            reveal_strlit("session start failure");
            reveal_strlit("scrape failure");
            reveal_strlit("parse failure");
            reveal_strlit("missing configuration");
            reveal_strlit("persistence failure");
            reveal_strlit("delivery failure");
        }
        match self {
            MonitorError::SessionStart => "session start failure",
            MonitorError::Scrape => "scrape failure",
            MonitorError::Parse => "parse failure",
            MonitorError::Config => "missing configuration",
            MonitorError::Persistence => "persistence failure",
            MonitorError::Delivery => "delivery failure",
        }
    }
}

} // verus!
