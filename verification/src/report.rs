//! The lines that the client prints.

use vstd::prelude::*;
use vstd::string::StringExecFns;
use crate::decimal::{decimal_digits, positional_value, push_decimal};
use crate::profile::Profile;

verus! {

/// Printed before a profile switch is requested.
pub fn set_profile_message(profile: Profile) -> (s: String)
    ensures
        s@ == "setting power profile to "@ + profile.name_spec(),
{
    String::from_str("setting power profile to ").concat(profile.name())
}

/// Printed before a graphics switch is requested.
pub fn set_graphics_message(vendor: &str) -> (s: String)
    ensures
        s@ == "setting graphics to "@ + vendor@,
{
    String::from_str("setting graphics to ").concat(vendor)
}

/// Printed before the discrete graphics are powered on or off.
pub fn set_graphics_power_message(power: bool) -> (s: String)
    ensures
        s@ == "turning discrete graphics "@ + (if power { "on"@ } else { "off"@ }),
{
    let state = if power { "on" } else { "off" };
    String::from_str("turning discrete graphics ").concat(state)
}

/// Printed before automatic graphics power is requested.
pub fn auto_graphics_power_message() -> (s: String)
    ensures
        s@ == "setting discrete graphics to turn off when not in use"@,
{
    String::from_str("setting discrete graphics to turn off when not in use")
}

/// The answer to `graphics switchable`.
pub fn switchable_report(switchable: bool) -> (s: String)
    ensures
        s@ == (if switchable { "switchable"@ } else { "not switchable"@ }),
{
    if switchable {
        String::from_str("switchable")
    } else {
        String::from_str("not switchable")
    }
}

/// The answer to `graphics power`.
pub fn graphics_power_report(power: bool) -> (s: String)
    ensures
        s@ == (if power { "on (discrete)"@ } else { "off (discrete)"@ }),
{
    if power {
        String::from_str("on (discrete)")
    } else {
        String::from_str("off (discrete)")
    }
}

/// The profile line of `profile`: the name the service reports, or `?` when
/// it could not be asked.
pub fn profile_line(profile: Option<&str>) -> (s: String)
    ensures
        s@ == "Power Profile: "@ + (match profile {
            Some(p) => p@,
            None => "?"@,
        }),
{
    let name = match profile {
        Some(p) => p,
        None => "?",
    };
    String::from_str("Power Profile: ").concat(name)
}

/// The CPU line of `profile`: the performance limits in percent and whether
/// turbo is allowed.
pub fn cpu_line(min_perf_pct: u8, max_perf_pct: u8, no_turbo: bool) -> (s: String)
    ensures
        s@ == "CPU: "@ + decimal_digits(min_perf_pct as nat) + "% - "@ + decimal_digits(max_perf_pct as nat)
            + "%, "@ + (if no_turbo { "No Turbo"@ } else { "Turbo"@ }),
{
    let mut s = String::from_str("CPU: ");
    push_decimal(&mut s, min_perf_pct as u64);
    s.append("% - ");
    push_decimal(&mut s, max_perf_pct as u64);
    s.append("%, ");
    s.append(if no_turbo { "No Turbo" } else { "Turbo" });
    s
}

/// The text after the label of a backlight line: `{id}: {brightness}/{max} = {percent}%`.
pub open spec fn backlight_text(id: Seq<char>, brightness: nat, max_brightness: nat, percent: nat) -> Seq<char> {
    id + ": "@ + decimal_digits(brightness) + "/"@ + decimal_digits(max_brightness) + " = "@
        + decimal_digits(percent) + "%"@
}

/// A backlight line is the label, the id, the brightness, the maximum and the
/// percent, each number written as the text of decimal digits whose positional
/// value is that number, the percent last and followed by `%`.
pub proof fn lemma_backlight_text_numbers(id: Seq<char>, brightness: u64, max_brightness: u64, percent: u64)
    ensures
        backlight_text(id, brightness as nat, max_brightness as nat, percent as nat)
            == id + ": "@ + decimal_digits(brightness as nat) + "/"@ + decimal_digits(max_brightness as nat) + " = "@
            + decimal_digits(percent as nat) + "%"@,
        positional_value(vstd::utf8::encode_utf8(decimal_digits(brightness as nat))) == brightness,
        positional_value(vstd::utf8::encode_utf8(decimal_digits(max_brightness as nat))) == max_brightness,
        positional_value(vstd::utf8::encode_utf8(decimal_digits(percent as nat))) == percent,
{
    crate::decimal::lemma_format_u64_is_decimal(brightness);
    crate::decimal::lemma_format_u64_is_decimal(max_brightness);
    crate::decimal::lemma_format_u64_is_decimal(percent);
}

fn push_backlight_text(s: &mut String, id: &str, brightness: u64, max_brightness: u64, percent: u64)
    ensures
        final(s)@ == old(s)@ + backlight_text(id@, brightness as nat, max_brightness as nat, percent as nat),
{
    s.append(id);
    s.append(": ");
    push_decimal(s, brightness);
    s.append("/");
    push_decimal(s, max_brightness);
    s.append(" = ");
    push_decimal(s, percent);
    s.append("%");
}

/// A display backlight line of `profile`; `percent` is the brightness as a
/// share of the maximum, computed by the caller.
pub fn backlight_line(id: &str, brightness: u64, max_brightness: u64, percent: u64) -> (s: String)
    ensures
        s@ == "Backlight "@ + backlight_text(id@, brightness as nat, max_brightness as nat, percent as nat),
{
    let mut s = String::from_str("Backlight ");
    push_backlight_text(&mut s, id, brightness, max_brightness, percent);
    s
}

/// A keyboard backlight line of `profile`.
pub fn keyboard_backlight_line(id: &str, brightness: u64, max_brightness: u64, percent: u64) -> (s: String)
    ensures
        s@ == "Keyboard Backlight "@ + backlight_text(id@, brightness as nat, max_brightness as nat, percent as nat),
{
    let mut s = String::from_str("Keyboard Backlight ");
    push_backlight_text(&mut s, id, brightness, max_brightness, percent);
    s
}

} // verus!
