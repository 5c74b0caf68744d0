use vstd::prelude::*;
use vstd::string::StrSliceExecFns;
use crate::alerts::{Alert, AlertLevel};

verus! {

/// Failure to read a human-readable label as a closed-set value.
#[derive(Clone, Copy, Debug, PartialEq, Eq, Structural)]
pub enum ParseError {
    /// The text names no hazard kind.
    UnknownAlert,
    /// The text names no alert level.
    UnknownLevel,
}

/// The label under which each hazard kind is addressed.
pub open spec fn alert_label(a: Alert) -> Seq<char> {
    match a {
        Alert::FLTA => "FLTA"@,
        Alert::FFAC => "FFAC"@,
        Alert::PDA => "PDA"@,
        Alert::Mode1 => "Mode1"@,
        Alert::Mode2 => "Mode2"@,
        Alert::Mode3 => "Mode3"@,
        Alert::Mode4 => "Mode4"@,
        Alert::Mode5 => "Mode5"@,
    }
}

/// The hazard kind whose label is exactly `s`, if any.
pub open spec fn alert_of_label(s: Seq<char>) -> Option<Alert> {
    if s == alert_label(Alert::FLTA) {
        Some(Alert::FLTA)
    } else if s == alert_label(Alert::FFAC) {
        Some(Alert::FFAC)
    } else if s == alert_label(Alert::PDA) {
        Some(Alert::PDA)
    } else if s == alert_label(Alert::Mode1) {
        Some(Alert::Mode1)
    } else if s == alert_label(Alert::Mode2) {
        Some(Alert::Mode2)
    } else if s == alert_label(Alert::Mode3) {
        Some(Alert::Mode3)
    } else if s == alert_label(Alert::Mode4) {
        Some(Alert::Mode4)
    } else if s == alert_label(Alert::Mode5) {
        Some(Alert::Mode5)
    } else {
        None
    }
}

/// `c` is `d`, or the upper-case ASCII letter of the lower-case `d`.
pub open spec fn folds_to(c: char, d: char) -> bool {
    c == d || ('A' <= c && c <= 'Z' && c as u32 + 32 == d as u32)
}

/// `s` spells the lower-case `t` with any ASCII letters in either case.
pub open spec fn matches_ignoring_case(s: Seq<char>, t: Seq<char>) -> bool {
    s.len() == t.len() && forall|i: int| 0 <= i < s.len() ==> folds_to(#[trigger] s[i], t[i])
}

/// The alert level that `s` names, in kebab case and in any letter case.
pub open spec fn level_of_label(s: Seq<char>) -> Option<AlertLevel> {
    if matches_ignoring_case(s, "warning"@) {
        Some(AlertLevel::Warning)
    } else if matches_ignoring_case(s, "caution"@) {
        Some(AlertLevel::Caution)
    } else {
        None
    }
}

fn same_text(s: &str, t: &str) -> (r: bool)
    ensures
        r == (s@ == t@),
{
    let n = s.unicode_len();
    if n != t.unicode_len() {
        return false;
    }
    let mut i: usize = 0;
    while i < n
        invariant
            n == s@.len(),
            n == t@.len(),
            i <= n,
            forall|j: int| 0 <= j < i ==> s@[j] == t@[j],
        decreases n - i,
    {
        if s.get_char(i) != t.get_char(i) {
            return false;
        }
        i = i + 1;
    }
    assert(s@ =~= t@);
    true
}

fn same_text_ignoring_case(s: &str, t: &str) -> (r: bool)
    ensures
        r == matches_ignoring_case(s@, t@),
{
    let n = s.unicode_len();
    if n != t.unicode_len() {
        return false;
    }
    let mut i: usize = 0;
    while i < n
        invariant
            n == s@.len(),
            n == t@.len(),
            i <= n,
            forall|j: int| 0 <= j < i ==> folds_to(#[trigger] s@[j], t@[j]),
        decreases n - i,
    {
        let c = s.get_char(i);
        let d = t.get_char(i);
        let folds = c == d || ('A' <= c && c <= 'Z' && (c as u32) + 32 == (d as u32));
        if !folds {
            return false;
        }
        i = i + 1;
    }
    true
}

impl Alert {
    /// Reads a hazard kind from its exact label (`"Mode1"`, `"FLTA"`, ...).
    pub fn from_label(s: &str) -> (r: Option<Alert>)
        ensures
            r == alert_of_label(s@),
    {
        if same_text(s, "FLTA") {
            Some(Alert::FLTA)
        } else if same_text(s, "FFAC") {
            Some(Alert::FFAC)
        } else if same_text(s, "PDA") {
            Some(Alert::PDA)
        } else if same_text(s, "Mode1") {
            Some(Alert::Mode1)
        } else if same_text(s, "Mode2") {
            Some(Alert::Mode2)
        } else if same_text(s, "Mode3") {
            Some(Alert::Mode3)
        } else if same_text(s, "Mode4") {
            Some(Alert::Mode4)
        } else if same_text(s, "Mode5") {
            Some(Alert::Mode5)
        } else {
            None
        }
    }
}

impl AlertLevel {
    /// Reads an alert level from `"warning"` or `"caution"`, in any letter case.
    pub fn from_label(s: &str) -> (r: Option<AlertLevel>)
        ensures
            r == level_of_label(s@),
    {
        if same_text_ignoring_case(s, "warning") {
            Some(AlertLevel::Warning)
        } else if same_text_ignoring_case(s, "caution") {
            Some(AlertLevel::Caution)
        } else {
            None
        }
    }
}

impl std::str::FromStr for Alert {
    type Err = ParseError;

    fn from_str(s: &str) -> (r: Result<Alert, ParseError>)
        ensures
            r == (match alert_of_label(s@) {
                Some(a) => Ok::<Alert, ParseError>(a),
                None => Err::<Alert, ParseError>(ParseError::UnknownAlert),
            }),
    {
        match Alert::from_label(s) {
            Some(a) => Ok(a),
            None => Err(ParseError::UnknownAlert),
        }
    }
}

impl std::str::FromStr for AlertLevel {
    type Err = ParseError;

    fn from_str(s: &str) -> (r: Result<AlertLevel, ParseError>)
        ensures
            r == (match level_of_label(s@) {
                Some(l) => Ok::<AlertLevel, ParseError>(l),
                None => Err::<AlertLevel, ParseError>(ParseError::UnknownLevel),
            }),
    {
        match AlertLevel::from_label(s) {
            Some(l) => Ok(l),
            None => Err(ParseError::UnknownLevel),
        }
    }
}

} // verus!
