//! The configuration snapshot: documented defaults, optional overrides, and
//! the merge of the two.
//!
//! Paths are kept as their bytes, so the whole snapshot is plain data; the
//! unverified driver turns them into OS paths at the point of use.

use vstd::prelude::*;
use vstd::utf8::encode_utf8;

verus! {

/// Immutable configuration snapshot, loaded once at startup.
#[derive(Clone, Debug)]
pub struct Settings {
    /// Path of the GPIO character device, as bytes.
    pub gpio_path: Vec<u8>,
    /// Controller-local number of the fan line.
    pub gpio_pin: u32,
    /// Temperature threshold in whole degrees Celsius.
    pub temp_max: u32,
    /// Path of the temperature source file, as bytes.
    pub temp_path: Vec<u8>,
    /// Seconds to sleep after a hot reading.
    pub retry_interval_hot: u64,
    /// Seconds to sleep after a cool reading.
    pub retry_interval_cool: u64,
}

/// Mathematical value of a `Settings`.
#[verifier::ext_equal]
pub ghost struct SettingsV {
    pub gpio_path: Seq<u8>,
    pub gpio_pin: u32,
    pub temp_max: u32,
    pub temp_path: Seq<u8>,
    pub retry_interval_hot: u64,
    pub retry_interval_cool: u64,
}

impl View for Settings {
    type V = SettingsV;

    open spec fn view(&self) -> SettingsV {
        SettingsV {
            gpio_path: self.gpio_path@,
            gpio_pin: self.gpio_pin,
            temp_max: self.temp_max,
            temp_path: self.temp_path@,
            retry_interval_hot: self.retry_interval_hot,
            retry_interval_cool: self.retry_interval_cool,
        }
    }
}

/// The documented defaults:
/// `/dev/gpiochip0`, line 18, threshold 40 degrees,
/// `/sys/class/thermal/thermal_zone0/temp`, 30 s hot, 120 s cool.
pub open spec fn default_settings() -> SettingsV {
    SettingsV {
        gpio_path: encode_utf8("/dev/gpiochip0"@),
        gpio_pin: 18,
        temp_max: 40,
        temp_path: encode_utf8("/sys/class/thermal/thermal_zone0/temp"@),
        retry_interval_hot: 30,
        retry_interval_cool: 120,
    }
}

/// Overrides read from the optional configuration file: any subset of the
/// fields may be present.
#[derive(Clone, Debug)]
pub struct Overrides {
    pub gpio_path: Option<Vec<u8>>,
    pub gpio_pin: Option<u32>,
    pub temp_max: Option<u32>,
    pub temp_path: Option<Vec<u8>>,
    pub retry_interval_hot: Option<u64>,
    pub retry_interval_cool: Option<u64>,
}

/// Mathematical value of an `Overrides`.
#[verifier::ext_equal]
pub ghost struct OverridesV {
    pub gpio_path: Option<Seq<u8>>,
    pub gpio_pin: Option<u32>,
    pub temp_max: Option<u32>,
    pub temp_path: Option<Seq<u8>>,
    pub retry_interval_hot: Option<u64>,
    pub retry_interval_cool: Option<u64>,
}

impl View for Overrides {
    type V = OverridesV;

    open spec fn view(&self) -> OverridesV {
        OverridesV {
            gpio_path: match self.gpio_path {
                Some(ref v) => Some(v@),
                None => None,
            },
            gpio_pin: self.gpio_pin,
            temp_max: self.temp_max,
            temp_path: match self.temp_path {
                Some(ref v) => Some(v@),
                None => None,
            },
            retry_interval_hot: self.retry_interval_hot,
            retry_interval_cool: self.retry_interval_cool,
        }
    }
}

/// An `Overrides` with no field present.
pub open spec fn no_overrides() -> OverridesV {
    OverridesV {
        gpio_path: None,
        gpio_pin: None,
        temp_max: None,
        temp_path: None,
        retry_interval_hot: None,
        retry_interval_cool: None,
    }
}

/// Defaults with `ov` merged in: each field present in `ov` replaces the
/// default, every other field keeps its default.
pub open spec fn merged(ov: OverridesV) -> SettingsV {
    SettingsV {
        gpio_path: match ov.gpio_path {
            Some(p) => p,
            None => default_settings().gpio_path,
        },
        gpio_pin: match ov.gpio_pin {
            Some(n) => n,
            None => default_settings().gpio_pin,
        },
        temp_max: match ov.temp_max {
            Some(n) => n,
            None => default_settings().temp_max,
        },
        temp_path: match ov.temp_path {
            Some(p) => p,
            None => default_settings().temp_path,
        },
        retry_interval_hot: match ov.retry_interval_hot {
            Some(n) => n,
            None => default_settings().retry_interval_hot,
        },
        retry_interval_cool: match ov.retry_interval_cool {
            Some(n) => n,
            None => default_settings().retry_interval_cool,
        },
    }
}

impl Overrides {
    /// An `Overrides` with no field present.
    pub fn none() -> (r: Overrides)
        ensures
            r@ == no_overrides(),
    {
        Overrides {
            gpio_path: None,
            gpio_pin: None,
            temp_max: None,
            temp_path: None,
            retry_interval_hot: None,
            retry_interval_cool: None,
        }
    }
}

impl Settings {
    /// The documented default configuration.
    pub fn defaults() -> (s: Settings)
        ensures
            s@ == default_settings(),
    {
        let s = Settings {
            gpio_path: vstd::slice::slice_to_vec("/dev/gpiochip0".as_bytes()),
            gpio_pin: 18,
            temp_max: 40,
            temp_path: vstd::slice::slice_to_vec(
                "/sys/class/thermal/thermal_zone0/temp".as_bytes(),
            ),
            retry_interval_hot: 30,
            retry_interval_cool: 120,
        };
        proof {
            assert(s@ =~= default_settings());
        }
        s
    }

    /// Defaults with `ov` merged in; a field absent from `ov` keeps its
    /// default, so a partial override file replaces only the named fields.
    pub fn merge(ov: Overrides) -> (s: Settings)
        ensures
            s@ == merged(ov@),
    {
        let defaults = Settings::defaults();
        let s = Settings {
            gpio_path: match ov.gpio_path {
                Some(p) => p,
                None => defaults.gpio_path,
            },
            gpio_pin: match ov.gpio_pin {
                Some(n) => n,
                None => defaults.gpio_pin,
            },
            temp_max: match ov.temp_max {
                Some(n) => n,
                None => defaults.temp_max,
            },
            temp_path: match ov.temp_path {
                Some(p) => p,
                None => defaults.temp_path,
            },
            retry_interval_hot: match ov.retry_interval_hot {
                Some(n) => n,
                None => defaults.retry_interval_hot,
            },
            retry_interval_cool: match ov.retry_interval_cool {
                Some(n) => n,
                None => defaults.retry_interval_cool,
            },
        };
        proof {
            assert(s@ =~= merged(ov@));
        }
        s
    }
}

} // verus!
