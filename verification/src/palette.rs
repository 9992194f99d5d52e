//! Color policy: a palette of five ANSI color directives (critical, error,
//! warning, info, key-label), level categorization, and the helpers that wrap
//! a token in a directive followed by a full foreground and background reset.

use vstd::prelude::*;
use crate::strutil::{fold_lower, fold_lower_exec, pad_min, pad_min_exec, str_eq};

verus! {

/// Relies on termion::color: `LightRed.bg_str()` is the constant background
/// escape sequence for high-intensity red, `"\x1b[48;5;9m"`.
#[verifier::external_body]
fn termion_bg_light_red() -> (r: String)
    ensures
        r@ == "\u{1b}[48;5;9m"@,
{
    termion::color::LightRed.bg_str().to_string()
}

/// Relies on termion::color: `LightRed.fg_str()` is the constant foreground
/// escape sequence for high-intensity red, `"\x1b[38;5;9m"`.
#[verifier::external_body]
fn termion_fg_light_red() -> (r: String)
    ensures
        r@ == "\u{1b}[38;5;9m"@,
{
    termion::color::LightRed.fg_str().to_string()
}

/// Relies on termion::color: `LightYellow.fg_str()` is the constant foreground
/// escape sequence for high-intensity yellow, `"\x1b[38;5;11m"`.
#[verifier::external_body]
fn termion_fg_light_yellow() -> (r: String)
    ensures
        r@ == "\u{1b}[38;5;11m"@,
{
    termion::color::LightYellow.fg_str().to_string()
}

/// Relies on termion::color: `LightGreen.fg_str()` is the constant foreground
/// escape sequence for high-intensity green, `"\x1b[38;5;10m"`.
#[verifier::external_body]
fn termion_fg_light_green() -> (r: String)
    ensures
        r@ == "\u{1b}[38;5;10m"@,
{
    termion::color::LightGreen.fg_str().to_string()
}

/// Relies on termion::color: `Cyan.fg_str()` is the constant foreground
/// escape sequence for cyan, `"\x1b[38;5;6m"`.
#[verifier::external_body]
fn termion_fg_cyan() -> (r: String)
    ensures
        r@ == "\u{1b}[38;5;6m"@,
{
    termion::color::Cyan.fg_str().to_string()
}

/// Relies on termion::color: `Reset.fg_str()` is the constant sequence that
/// resets the foreground color, `"\x1b[39m"`.
#[verifier::external_body]
fn termion_fg_reset() -> (r: String)
    ensures
        r@ == fg_reset_seq(),
{
    termion::color::Reset.fg_str().to_string()
}

/// Relies on termion::color: `Reset.bg_str()` is the constant sequence that
/// resets the background color, `"\x1b[49m"`.
#[verifier::external_body]
fn termion_bg_reset() -> (r: String)
    ensures
        r@ == bg_reset_seq(),
{
    termion::color::Reset.bg_str().to_string()
}

/// The sequence that resets the foreground color.
pub open spec fn fg_reset_seq() -> Seq<char> {
    "\u{1b}[39m"@
}

/// The sequence that resets the background color.
pub open spec fn bg_reset_seq() -> Seq<char> {
    "\u{1b}[49m"@
}

/// The spec-level value of a palette: one color directive per semantic
/// category, plus one for the keys of extra fields.
pub ghost struct LogColorsView {
    pub critical: Seq<char>,
    pub error: Seq<char>,
    pub warning: Seq<char>,
    pub info: Seq<char>,
    pub key: Seq<char>,
}

/// Stores strings with control codes for each of the colors we use.
/// Either a whole palette is present or none is: a caller that renders
/// without color passes no `LogColors` at all.
#[derive(Debug)]
pub struct LogColors {
    pub critical: String,
    pub error: String,
    pub warning: String,
    pub info: String,
    pub key: String,
}

impl View for LogColors {
    type V = LogColorsView;

    open spec fn view(&self) -> LogColorsView {
        LogColorsView {
            critical: self.critical@,
            error: self.error@,
            warning: self.warning@,
            info: self.info@,
            key: self.key@,
        }
    }
}

/// The default color assignment: a background directive for critical and
/// foreground directives for error, warning, info and key labels.
pub open spec fn default_colors() -> LogColorsView {
    LogColorsView {
        critical: "\u{1b}[48;5;9m"@,
        error: "\u{1b}[38;5;9m"@,
        warning: "\u{1b}[38;5;11m"@,
        info: "\u{1b}[38;5;10m"@,
        key: "\u{1b}[38;5;6m"@,
    }
}

impl LogColors {
    /// A palette with the caller's own directives, one per category. The
    /// category-to-color assignment is configurable through this constructor;
    /// `default` gives the stock assignment.
    pub fn new(critical: String, error: String, warning: String, info: String, key: String) -> (r:
        Self)
        ensures
            r@ == (LogColorsView {
                critical: critical@,
                error: error@,
                warning: warning@,
                info: info@,
                key: key@,
            }),
    {
        LogColors { critical, error, warning, info, key }
    }
}

impl Default for LogColors {
    /// The stock palette, built from termion's color directives.
    fn default() -> (r: Self)
        ensures
            r@ == default_colors(),
    {
        LogColors {
            critical: termion_bg_light_red(),
            error: termion_fg_light_red(),
            warning: termion_fg_light_yellow(),
            info: termion_fg_light_green(),
            key: termion_fg_cyan(),
        }
    }
}

/// The semantic categories a level string can fall into.
#[derive(Clone, Copy, Debug, PartialEq, Eq, Structural)]
pub enum LevelCategory {
    Critical,
    Error,
    Warning,
    Info,
}

/// The category of a level string: matched case-insensitively, accepting for
/// each category both its four-letter abbreviation and its full word.
pub open spec fn spec_category(level: Seq<char>) -> Option<LevelCategory> {
    let l = fold_lower(level);
    if l == "crit"@ || l == "critical"@ {
        Some(LevelCategory::Critical)
    } else if l == "erro"@ || l == "error"@ {
        Some(LevelCategory::Error)
    } else if l == "warn"@ || l == "warning"@ {
        Some(LevelCategory::Warning)
    } else if l == "info"@ {
        Some(LevelCategory::Info)
    } else {
        None
    }
}

/// The directive a palette assigns to a level string: the matched category's
/// color, or no directive at all for an unrecognized level.
pub open spec fn spec_level_directive(p: LogColorsView, level: Seq<char>) -> Seq<char> {
    match spec_category(level) {
        Some(LevelCategory::Critical) => p.critical,
        Some(LevelCategory::Error) => p.error,
        Some(LevelCategory::Warning) => p.warning,
        Some(LevelCategory::Info) => p.info,
        None => Seq::empty(),
    }
}

/// A token wrapped, when a directive is given, in that directive and a reset
/// of both foreground and background state; the bare token otherwise. The
/// reset is emitted whenever a palette is present, even for an empty
/// directive.
pub open spec fn spec_log_color(color: Option<Seq<char>>, s: Seq<char>) -> Seq<char> {
    match color {
        None => s,
        Some(d) => d + s + fg_reset_seq() + bg_reset_seq(),
    }
}

/// The view of an optional palette reference.
pub open spec fn spec_opt_colors(colors: Option<&LogColors>) -> Option<LogColorsView> {
    match colors {
        None => None,
        Some(c) => Some(c@),
    }
}

/// The rendered level token: the level padded to a minimum width of 5,
/// wrapped per `spec_log_color` in the directive of its category.
pub open spec fn spec_colored_level(p: Option<LogColorsView>, level: Seq<char>) -> Seq<char> {
    match p {
        None => spec_log_color(None, pad_min(level, 5)),
        Some(pv) => spec_log_color(Some(spec_level_directive(pv, level)), pad_min(level, 5)),
    }
}

/// The rendered key token of an extra field: the key, unpadded, wrapped in
/// the key-label directive when a palette is present.
pub open spec fn spec_colored_key(p: Option<LogColorsView>, key: Seq<char>) -> Seq<char> {
    match p {
        None => spec_log_color(None, key),
        Some(pv) => spec_log_color(Some(pv.key), key),
    }
}

/// The category of the supplied level string, if it has one.
pub fn categorize_level(level: &str) -> (r: Option<LevelCategory>)
    ensures
        r == spec_category(level@),
{
    let folded = fold_lower_exec(level);
    let l = folded.as_str();
    if str_eq(l, "crit") || str_eq(l, "critical") {
        Some(LevelCategory::Critical)
    } else if str_eq(l, "erro") || str_eq(l, "error") {
        Some(LevelCategory::Error)
    } else if str_eq(l, "warn") || str_eq(l, "warning") {
        Some(LevelCategory::Warning)
    } else if str_eq(l, "info") {
        Some(LevelCategory::Info)
    } else {
        None
    }
}

/// When a directive is supplied, wraps `s` in that directive followed by a
/// foreground and background reset; hands `s` back bare otherwise.
fn wrap_log_color(color: Option<&String>, s: &str) -> (r: String)
    ensures
        r@ == spec_log_color(
            match color {
                None => None,
                Some(d) => Some(d@),
            },
            s@,
        ),
{
    match color {
        None => s.to_owned(),
        Some(d) => {
            let mut out = d.clone();
            out.append(s);
            let fg = termion_fg_reset();
            out.append(fg.as_str());
            let bg = termion_bg_reset();
            out.append(bg.as_str());
            proof {
                assert(out@ =~= d@ + s@ + fg_reset_seq() + bg_reset_seq());
            }
            out
        },
    }
}

/// Wrap the supplied level string, padded to a minimum width of 5, with the
/// control codes for its log level.
pub fn colored_level(colors: Option<&LogColors>, log_level: &str) -> (r: String)
    ensures
        r@ == spec_colored_level(spec_opt_colors(colors), log_level@),
{
    let padded = pad_min_exec(log_level, 5);
    match colors {
        None => padded,
        Some(cs) => {
            let empty = String::new();
            let directive: &String = match categorize_level(log_level) {
                Some(LevelCategory::Critical) => &cs.critical,
                Some(LevelCategory::Error) => &cs.error,
                Some(LevelCategory::Warning) => &cs.warning,
                Some(LevelCategory::Info) => &cs.info,
                None => &empty,
            };
            wrap_log_color(Some(directive), padded.as_str())
        },
    }
}

/// Wrap the supplied key string with the control code for keys in key-value
/// pairs.
pub fn colored_key(colors: Option<&LogColors>, key: &str) -> (r: String)
    ensures
        r@ == spec_colored_key(spec_opt_colors(colors), key@),
{
    match colors {
        None => wrap_log_color(None, key),
        Some(cs) => wrap_log_color(Some(&cs.key), key),
    }
}

} // verus!
