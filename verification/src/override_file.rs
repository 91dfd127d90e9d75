//! The optional override file: a line-oriented `key = value` text.
//!
//! Blank lines and lines whose first non-space byte is `#` are ignored, as is
//! any line whose key is not a recognized Settings field. A non-comment line
//! without `=`, or a recognized integer field whose value is not an unsigned
//! decimal that fits its type, makes the whole file malformed. String values
//! may carry one pair of surrounding double quotes, which is stripped.

use vstd::prelude::*;
use vstd::utf8::encode_utf8;
use crate::error::FanError;
use crate::settings::{
    default_settings, merged, no_overrides, Overrides, OverridesV, Settings, SettingsV,
};
use crate::text::{
    bytes_eq, find_byte, find_byte_at, is_uint, parse_uint, trim, trim_spec, uint_val,
};

verus! {

pub open spec fn key_gpio_path() -> Seq<u8> {
    encode_utf8("gpio_path"@)
}

pub open spec fn key_gpio_pin() -> Seq<u8> {
    encode_utf8("gpio_pin"@)
}

pub open spec fn key_temp_max() -> Seq<u8> {
    encode_utf8("temp_max"@)
}

pub open spec fn key_temp_path() -> Seq<u8> {
    encode_utf8("temp_path"@)
}

pub open spec fn key_retry_interval_hot() -> Seq<u8> {
    encode_utf8("retry_interval_hot"@)
}

pub open spec fn key_retry_interval_cool() -> Seq<u8> {
    encode_utf8("retry_interval_cool"@)
}

/// A trimmed value with one pair of surrounding double quotes removed, if
/// both are present; anything else is taken verbatim.
pub open spec fn unquoted(v: Seq<u8>) -> Seq<u8> {
    if v.len() >= 2 && v[0] == 34 && v.last() == 34 {
        v.subrange(1, v.len() - 1)
    } else {
        v
    }
}

/// Whether a line holds nothing to merge: only whitespace, or a comment.
pub open spec fn is_blank_or_comment(line: Seq<u8>) -> bool {
    trim_spec(line).len() == 0 || trim_spec(line)[0] == 35
}

/// The effect of one line on the overrides collected so far: a skipped line
/// leaves them unchanged, a recognized `key = value` line replaces one field,
/// and a malformed line fails the whole file.
pub open spec fn apply_line(ov: OverridesV, line: Seq<u8>) -> Result<OverridesV, FanError> {
    if is_blank_or_comment(line) {
        Ok(ov)
    } else {
        match find_byte(line, 61) {
            None => Err(FanError::ConfigError),
            Some(i) => {
                let key = trim_spec(line.subrange(0, i));
                let val = trim_spec(line.subrange(i + 1, line.len() as int));
                if key == key_gpio_path() {
                    Ok(OverridesV { gpio_path: Some(unquoted(val)), ..ov })
                } else if key == key_temp_path() {
                    Ok(OverridesV { temp_path: Some(unquoted(val)), ..ov })
                } else if key == key_gpio_pin() {
                    if is_uint(val) && uint_val(val) <= u32::MAX {
                        Ok(OverridesV { gpio_pin: Some(uint_val(val) as u32), ..ov })
                    } else {
                        Err(FanError::ConfigError)
                    }
                } else if key == key_temp_max() {
                    if is_uint(val) && uint_val(val) <= u32::MAX {
                        Ok(OverridesV { temp_max: Some(uint_val(val) as u32), ..ov })
                    } else {
                        Err(FanError::ConfigError)
                    }
                } else if key == key_retry_interval_hot() {
                    if is_uint(val) && uint_val(val) <= u64::MAX {
                        Ok(OverridesV { retry_interval_hot: Some(uint_val(val) as u64), ..ov })
                    } else {
                        Err(FanError::ConfigError)
                    }
                } else if key == key_retry_interval_cool() {
                    if is_uint(val) && uint_val(val) <= u64::MAX {
                        Ok(OverridesV { retry_interval_cool: Some(uint_val(val) as u64), ..ov })
                    } else {
                        Err(FanError::ConfigError)
                    }
                } else {
                    Ok(ov)
                }
            },
        }
    }
}

/// The file text split at every line feed; a trailing line feed yields a
/// final empty line, which is then skipped as blank.
pub open spec fn split_lines(s: Seq<u8>) -> Seq<Seq<u8>>
    decreases s.len(),
{
    let found = find_byte(s, 10);
    if found is Some && 0 <= found.unwrap() < s.len() {
        seq![s.subrange(0, found.unwrap())] + split_lines(
            s.subrange(found.unwrap() + 1, s.len() as int),
        )
    } else {
        seq![s]
    }
}

/// All lines applied in order to the overrides collected so far; the first
/// malformed line fails the file.
pub open spec fn parse_lines(lines: Seq<Seq<u8>>, ov: OverridesV) -> Result<OverridesV, FanError>
    decreases lines.len(),
{
    if lines.len() == 0 {
        Ok(ov)
    } else {
        match apply_line(ov, lines[0]) {
            Ok(ov2) => parse_lines(lines.drop_first(), ov2),
            Err(e) => Err(e),
        }
    }
}

/// The overrides denoted by a whole override file.
pub open spec fn parse_config_spec(s: Seq<u8>) -> Result<OverridesV, FanError> {
    parse_lines(split_lines(s), no_overrides())
}

proof fn lemma_parse_lines_cons(l: Seq<u8>, rest: Seq<Seq<u8>>, ov: OverridesV)
    ensures
        parse_lines(seq![l] + rest, ov) == (match apply_line(ov, l) {
            Ok(ov2) => parse_lines(rest, ov2),
            Err(e) => Err(e),
        }),
{
    let ls = seq![l] + rest;
    assert(ls.len() == rest.len() + 1);
    assert(ls[0] == l);
    assert(ls.drop_first() =~= rest);
}

/// Applies one line of the override file to the overrides collected so far.
fn apply_line_exec(ov: Overrides, line: &[u8]) -> (r: Result<Overrides, FanError>)
    ensures
        match r {
            Ok(ov2) => apply_line(ov@, line@) == Ok::<OverridesV, FanError>(ov2@),
            Err(e) => apply_line(ov@, line@) == Err::<OverridesV, FanError>(e),
        },
{
    let t = trim(line);
    if t.len() == 0 || t[0] == 35 {
        return Ok(ov);
    }
    let i = match find_byte_at(line, 61) {
        Some(i) => i,
        None => {
            return Err(FanError::ConfigError);
        },
    };
    let n = line.len();
    assert(i < n);
    let key = trim(&line[0..i]);
    let val = trim(&line[i + 1..n]);
    if bytes_eq(key, "gpio_path".as_bytes()) {
        Ok(Overrides { gpio_path: Some(unquote(val)), ..ov })
    } else if bytes_eq(key, "temp_path".as_bytes()) {
        Ok(Overrides { temp_path: Some(unquote(val)), ..ov })
    } else if bytes_eq(key, "gpio_pin".as_bytes()) {
        match parse_u32(val) {
            Some(n) => Ok(Overrides { gpio_pin: Some(n), ..ov }),
            None => Err(FanError::ConfigError),
        }
    } else if bytes_eq(key, "temp_max".as_bytes()) {
        match parse_u32(val) {
            Some(n) => Ok(Overrides { temp_max: Some(n), ..ov }),
            None => Err(FanError::ConfigError),
        }
    } else if bytes_eq(key, "retry_interval_hot".as_bytes()) {
        match parse_uint(val) {
            Some(n) => Ok(Overrides { retry_interval_hot: Some(n), ..ov }),
            None => Err(FanError::ConfigError),
        }
    } else if bytes_eq(key, "retry_interval_cool".as_bytes()) {
        match parse_uint(val) {
            Some(n) => Ok(Overrides { retry_interval_cool: Some(n), ..ov }),
            None => Err(FanError::ConfigError),
        }
    } else {
        Ok(ov)
    }
}

/// Copies `v` to an owned value, stripping one pair of surrounding quotes.
fn unquote(v: &[u8]) -> (r: Vec<u8>)
    ensures
        r@ == unquoted(v@),
{
    if v.len() >= 2 && v[0] == 34 && v[v.len() - 1] == 34 {
        vstd::slice::slice_to_vec(&v[1..v.len() - 1])
    } else {
        vstd::slice::slice_to_vec(v)
    }
}

/// Parses an unsigned decimal that must fit in `u32`.
fn parse_u32(v: &[u8]) -> (r: Option<u32>)
    ensures
        match r {
            Some(n) => is_uint(v@) && n as nat == uint_val(v@),
            None => !(is_uint(v@) && uint_val(v@) <= u32::MAX),
        },
{
    match parse_uint(v) {
        Some(n) => if n <= 0xFFFF_FFFFu64 {
            Some(n as u32)
        } else {
            None
        },
        None => None,
    }
}

/// Parses a whole override file.
///
/// Returns the overrides the file denotes, or `ConfigError` exactly when
/// some line is malformed.
pub fn parse_config(s: &[u8]) -> (r: Result<Overrides, FanError>)
    ensures
        match r {
            Ok(ov) => parse_config_spec(s@) == Ok::<OverridesV, FanError>(ov@),
            Err(e) => parse_config_spec(s@) == Err::<OverridesV, FanError>(e),
        },
{
    let mut start: usize = 0;
    let mut ov = Overrides::none();
    proof {
        assert(s@.subrange(0, s@.len() as int) =~= s@);
    }
    loop
        invariant
            0 <= start <= s@.len(),
            parse_config_spec(s@) == parse_lines(
                split_lines(s@.subrange(start as int, s@.len() as int)),
                ov@,
            ),
        decreases s@.len() - start,
    {
        let rest = &s[start..s.len()];
        let ghost rest_v = s@.subrange(start as int, s@.len() as int);
        match find_byte_at(rest, 10) {
            Some(k) => {
                let line = &s[start..start + k];
                proof {
                    assert(line@ =~= rest_v.subrange(0, k as int));
                    assert(s@.subrange(start + k + 1, s@.len() as int) =~= rest_v.subrange(
                        k as int + 1,
                        rest_v.len() as int,
                    ));
                    lemma_parse_lines_cons(
                        rest_v.subrange(0, k as int),
                        split_lines(rest_v.subrange(k as int + 1, rest_v.len() as int)),
                        ov@,
                    );
                }
                ov = match apply_line_exec(ov, line) {
                    Ok(ov2) => ov2,
                    Err(e) => {
                        return Err(e);
                    },
                };
                start = start + k + 1;
            },
            None => {
                proof {
                    assert(split_lines(rest_v) =~= seq![rest_v]);
                    lemma_parse_lines_cons(rest_v, Seq::<Seq<u8>>::empty(), ov@);
                    assert(seq![rest_v] + Seq::<Seq<u8>>::empty() =~= seq![rest_v]);
                }
                let last = match apply_line_exec(ov, rest) {
                    Ok(ov2) => ov2,
                    Err(e) => {
                        return Err(e);
                    },
                };
                return Ok(last);
            },
        }
    }
}

/// What loading the configuration yields: defaults when there is no override
/// file, defaults with the file's overrides merged in when there is one, and
/// the file's error when it is malformed.
pub open spec fn load_spec(text: Option<Seq<u8>>) -> Result<SettingsV, FanError> {
    match text {
        None => Ok(default_settings()),
        Some(t) => match parse_config_spec(t) {
            Ok(ov) => Ok(merged(ov)),
            Err(e) => Err(e),
        },
    }
}

/// Produces the configuration snapshot from the optional override file text.
///
/// `None` (no file) is not an error and yields the documented defaults; a
/// present file replaces exactly the fields it names, and a malformed file
/// yields `ConfigError`.
pub fn load(text: Option<&[u8]>) -> (r: Result<Settings, FanError>)
    ensures
        match r {
            Ok(s) => load_spec(match text {
                Some(t) => Some(t@),
                None => None,
            }) == Ok::<SettingsV, FanError>(s@),
            Err(e) => load_spec(match text {
                Some(t) => Some(t@),
                None => None,
            }) == Err::<SettingsV, FanError>(e),
        },
{
    match text {
        None => Ok(Settings::defaults()),
        Some(t) => match parse_config(t) {
            Ok(ov) => Ok(Settings::merge(ov)),
            Err(e) => Err(e),
        },
    }
}

} // verus!
