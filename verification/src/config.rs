//! The injected configuration values the render layer consumes: the currency
//! label and the timezone offset. Loading and saving the configuration file is
//! the surrounding program's business.

use vstd::prelude::*;

verus! {

/// Configuration for the currency label, with an optional short form.
pub struct Currency {
    /// The long label, shown as the amount column header.
    pub long: String,
    /// An optional short form of the label.
    pub short: Option<String>,
}

impl Currency {
    /// A currency with the given long label and no short form.
    pub fn new(long: String) -> (r: Self)
        ensures
            r.long@ == long@,
            r.short is None,
    {
        Currency { long, short: None }
    }
}

impl From<String> for Currency {
    /// The label becomes the long form; no short form.
    fn from(value: String) -> (r: Self) {
        Currency { long: value, short: None }
    }
}

impl vstd::std_specs::convert::FromSpecImpl<String> for Currency {
    open spec fn obeys_from_spec() -> bool {
        true
    }

    open spec fn from_spec(v: String) -> Self {
        Currency { long: v, short: None }
    }
}

/// Configuration for the application: the currency label and the timezone
/// offset, in seconds east of UTC, that timestamps are rendered in.
pub struct Config {
    /// The currency label.
    pub currency: Currency,
    /// Seconds east of UTC.
    pub timezone_offset_seconds: i32,
}

impl Config {
    /// A configuration from its two values.
    pub fn new(currency: Currency, timezone_offset_seconds: i32) -> (r: Self)
        ensures
            r.currency.long@ == currency.long@,
            r.currency.short == currency.short,
            r.timezone_offset_seconds == timezone_offset_seconds,
    {
        Config { currency, timezone_offset_seconds }
    }
}

} // verus!
