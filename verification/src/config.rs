//! The controller's configuration: threshold temperature and pin number.

use vstd::prelude::*;
use crate::parse::{parse_pin, parse_temp_milli, spec_parse_milli, spec_parse_pin};

verus! {

/// Threshold used when no temperature argument is given or it is unreadable:
/// 43.0 degrees Celsius, in milli-degrees.
pub const DEFAULT_OVER_TEMP_MILLI: i64 = 43000;

/// Pin used when no pin argument is given or it is unreadable.
pub const DEFAULT_PIN: u64 = 14;

/// What was decided once at startup and never changes afterwards.
#[derive(Clone, Copy, Debug, PartialEq, Eq, Structural)]
pub struct Config {
    /// Readings strictly above this many milli-degrees Celsius switch the
    /// fan on.
    pub over_temp_milli: i64,
    /// The GPIO line that drives the fan relay.
    pub pin: u64,
}

/// The byte strings behind optional textual arguments.
pub open spec fn view_arg(arg: Option<&[u8]>) -> Option<Seq<u8>> {
    match arg {
        Some(s) => Some(s@),
        None => None,
    }
}

/// The threshold an optional textual argument settles on: its decimal value
/// where it has one, the default otherwise.
pub open spec fn spec_threshold_of_arg(arg: Option<Seq<u8>>) -> int {
    match arg {
        Some(s) => match spec_parse_milli(s) {
            Some(v) => v,
            None => DEFAULT_OVER_TEMP_MILLI as int,
        },
        None => DEFAULT_OVER_TEMP_MILLI as int,
    }
}

/// The pin an optional textual argument settles on: its decimal value where
/// it has one, the default otherwise.
pub open spec fn spec_pin_of_arg(arg: Option<Seq<u8>>) -> int {
    match arg {
        Some(s) => match spec_parse_pin(s) {
            Some(v) => v,
            None => DEFAULT_PIN as int,
        },
        None => DEFAULT_PIN as int,
    }
}

impl Config {
    /// Build the configuration from the raw textual arguments, falling back
    /// to the defaults where an argument is absent or unreadable.
    pub fn from_args(temp_arg: Option<&[u8]>, pin_arg: Option<&[u8]>) -> (c: Config)
        ensures
            c.over_temp_milli as int == spec_threshold_of_arg(view_arg(temp_arg)),
            c.pin as int == spec_pin_of_arg(view_arg(pin_arg)),
    {
        let over_temp_milli = match temp_arg {
            Some(s) => match parse_temp_milli(s) {
                Some(v) => v,
                None => DEFAULT_OVER_TEMP_MILLI,
            },
            None => DEFAULT_OVER_TEMP_MILLI,
        };
        let pin = match pin_arg {
            Some(s) => match parse_pin(s) {
                Some(v) => v,
                None => DEFAULT_PIN,
            },
            None => DEFAULT_PIN,
        };
        Config { over_temp_milli, pin }
    }
}

} // verus!
