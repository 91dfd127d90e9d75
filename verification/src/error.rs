//! Error taxonomy of the daemon.
//!
//! Every error is fatal: the first one anywhere terminates the process with a
//! non-zero exit code and a single diagnostic line. Nothing is retried or
//! downgraded.

use vstd::prelude::*;

verus! {

/// The four fatal error categories.
#[derive(Clone, Copy, Debug, PartialEq, Eq, Structural)]
pub enum FanError {
    /// The override file is present but malformed, or a field value in it
    /// cannot be parsed.
    ConfigError,
    /// GPIO chip or line acquisition, or a line write, failed. Raised by the
    /// unverified driver around this crate, never by the crate itself.
    GpioError,
    /// The temperature file could not be opened or read. Raised by the
    /// unverified driver around this crate, never by the crate itself.
    IoError,
    /// The temperature text is not a valid non-negative integer.
    ParseError,
}

impl FanError {
    /// The category name used in the fatal diagnostic line.
    pub fn describe(&self) -> (r: &'static str)
        ensures
            self is ConfigError ==> r@ == "configuration error"@,
            self is GpioError ==> r@ == "GPIO error"@,
            self is IoError ==> r@ == "I/O error"@,
            self is ParseError ==> r@ == "temperature parse error"@,
    {
        match self {
            FanError::ConfigError => "configuration error",
            FanError::GpioError => "GPIO error",
            FanError::IoError => "I/O error",
            FanError::ParseError => "temperature parse error",
        }
    }
}

} // verus!
