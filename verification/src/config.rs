//! Application configuration: defaults and the sanity rules applied after loading
//! or editing.

use vstd::prelude::*;
use vstd::string::StrSliceExecFns;

verus! {

/// Smallest accepted automatic-cleaning interval, in minutes.
pub const MIN_INTERVAL_MINUTES: u32 = 1;

/// Largest accepted automatic-cleaning interval, in minutes (one day).
pub const MAX_INTERVAL_MINUTES: u32 = 1440;

/// Application settings.
#[derive(Clone, Copy, Debug, PartialEq, Eq)]
pub struct AppConfig {
    /// Interval between automatic cleanings, in minutes.
    pub interval_minutes: u32,
    /// Cleaning strength: 1 = standard, 2 = deep.
    pub level: u32,
    /// Skip automatic cleaning while a full-screen application or game runs.
    pub fullscreen_avoid: bool,
    /// Start with the session.
    pub autostart: bool,
}

/// Whether `level` names a cleaning strength (standard or deep).
pub open spec fn valid_level(level: u32) -> bool {
    1 <= level <= 2
}

/// `x` clamped into `[lo, hi]`.
pub open spec fn clamp(x: int, lo: int, hi: int) -> int {
    if x < lo {
        lo
    } else if x > hi {
        hi
    } else {
        x
    }
}

impl AppConfig {
    /// The configuration used when nothing was saved.
    pub open spec fn spec_defaults() -> AppConfig {
        AppConfig { interval_minutes: 5, level: 1, fullscreen_avoid: true, autostart: false }
    }

    /// A configuration within the accepted ranges.
    pub open spec fn is_sane(self) -> bool {
        &&& MIN_INTERVAL_MINUTES <= self.interval_minutes <= MAX_INTERVAL_MINUTES
        &&& valid_level(self.level)
    }

    /// What `sanitize` makes of a configuration: the interval clamped into
    /// `[1, 1440]`, an unknown level reset to standard, the flags kept.
    pub open spec fn sanitized(self) -> AppConfig {
        AppConfig {
            interval_minutes: clamp(
                self.interval_minutes as int,
                MIN_INTERVAL_MINUTES as int,
                MAX_INTERVAL_MINUTES as int,
            ) as u32,
            level: if valid_level(self.level) { self.level } else { 1 },
            ..self
        }
    }

    /// The default configuration: every five minutes, standard strength,
    /// avoid full-screen applications, no autostart.
    pub fn defaults() -> (c: AppConfig)
        ensures
            c == AppConfig::spec_defaults(),
    {
        AppConfig { interval_minutes: 5, level: 1, fullscreen_avoid: true, autostart: false }
    }

    /// Brings the configuration into the accepted ranges.
    pub fn sanitize(&mut self)
        ensures
            *final(self) == old(self).sanitized(),
    {
        if self.interval_minutes < MIN_INTERVAL_MINUTES {
            self.interval_minutes = MIN_INTERVAL_MINUTES;
        } else if self.interval_minutes > MAX_INTERVAL_MINUTES {
            self.interval_minutes = MAX_INTERVAL_MINUTES;
        }
        if !(1 <= self.level && self.level <= 2) {
            self.level = 1;
        }
    }
}

impl Default for AppConfig {
    /// The default configuration (see `defaults`).
    fn default() -> (c: AppConfig)
        ensures
            c == AppConfig::spec_defaults(),
    {
        AppConfig::defaults()
    }
}

impl AppConfig {
    /// The configuration in effect after loading: the parsed file contents
    /// brought into range, or the defaults when there was no file or it
    /// could not be read or parsed.
    pub fn from_loaded(parsed: Option<AppConfig>) -> (c: AppConfig)
        ensures
            c == (match parsed {
                Some(p) => p.sanitized(),
                None => AppConfig::spec_defaults(),
            }),
    {
        match parsed {
            Some(p) => {
                let mut c = p;
                c.sanitize();
                c
            },
            None => AppConfig::defaults(),
        }
    }

    /// The configuration after the settings panel changed: the interval (when
    /// the field holds a number), the strength and both switches taken from
    /// the panel, everything brought into range.
    pub fn with_panel_values(
        &self,
        interval_minutes: Option<u32>,
        level: u32,
        autostart: bool,
        fullscreen_avoid: bool,
    ) -> (c: AppConfig)
        ensures
            c == (AppConfig {
                interval_minutes: match interval_minutes {
                    Some(v) => v,
                    None => self.interval_minutes,
                },
                level,
                autostart,
                fullscreen_avoid,
            }).sanitized(),
    {
        let mut c = *self;
        if let Some(v) = interval_minutes {
            c.interval_minutes = v;
        }
        c.level = level;
        c.autostart = autostart;
        c.fullscreen_avoid = fullscreen_avoid;
        c.sanitize();
        c
    }
}

/// Number of byte-order marks at the start of `s`.
pub open spec fn leading_bom_count(s: Seq<char>) -> nat
    decreases s.len(),
{
    if s.len() > 0 && s[0] == '\u{FEFF}' {
        1 + leading_bom_count(s.drop_first())
    } else {
        0
    }
}

proof fn lemma_leading_bom_count(s: Seq<char>, k: int)
    requires
        0 <= k <= s.len(),
        forall|j: int| 0 <= j < k ==> s[j] == '\u{FEFF}',
        k == s.len() || s[k] != '\u{FEFF}',
    ensures
        leading_bom_count(s) == k,
    decreases k,
{
    if k > 0 {
        lemma_leading_bom_count(s.drop_first(), k - 1);
    }
}

/// The configuration file's text without the byte-order marks some editors
/// put at its start.
pub fn strip_bom(raw: &str) -> (s: &str)
    ensures
        s@ == raw@.skip(leading_bom_count(raw@) as int),
{
    let n = raw.unicode_len();
    let mut k: usize = 0;
    while k < n && raw.get_char(k) == '\u{FEFF}'
        invariant
            n == raw@.len(),
            k <= n,
            forall|j: int| 0 <= j < k ==> raw@[j] == '\u{FEFF}',
        decreases n - k,
    {
        k += 1;
    }
    proof {
        lemma_leading_bom_count(raw@, k as int);
    }
    raw.substring_char(k, n)
}

/// The defaults are within range.
pub proof fn law_defaults_are_sane()
    ensures
        AppConfig::spec_defaults().is_sane(),
        AppConfig::spec_defaults().sanitized() == AppConfig::spec_defaults(),
{
}

/// Sanitizing gives a configuration within range, leaves one that already is
/// unchanged, and so applying it twice is the same as once.
pub proof fn law_sanitize(c: AppConfig)
    ensures
        c.sanitized().is_sane(),
        c.is_sane() ==> c.sanitized() == c,
        c.sanitized().sanitized() == c.sanitized(),
        c.sanitized().fullscreen_avoid == c.fullscreen_avoid,
        c.sanitized().autostart == c.autostart,
{
}

} // verus!
