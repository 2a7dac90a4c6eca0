//! The compliance dashboard: the trend period and the severity of an
//! alert, the compliance bars of a domain, and the selection of an alert.

use vstd::prelude::*;
use crate::text::{push_signed_decimal, signed_decimal};

verus! {

/// The period over which compliance trends are shown.
#[derive(Clone, Copy, Debug, PartialEq, Eq, Structural)]
pub enum TimePeriod {
    Week,
    Month,
    Quarter,
    Year,
}

impl TimePeriod {
    /// The Dutch name of the period.
    pub open spec fn display_text(self) -> Seq<char> {
        match self {
            TimePeriod::Week => "Week"@,
            TimePeriod::Month => "Maand"@,
            TimePeriod::Quarter => "Kwartaal"@,
            TimePeriod::Year => "Jaar"@,
        }
    }

    /// The Dutch name of the period: "Week", "Maand", "Kwartaal" or "Jaar".
    pub fn display(&self) -> (r: &'static str)
        ensures
            r@ == self.display_text(),
    {
        match self {
            TimePeriod::Week => "Week",
            TimePeriod::Month => "Maand",
            TimePeriod::Quarter => "Kwartaal",
            TimePeriod::Year => "Jaar",
        }
    }
}

/// How serious a compliance alert is.
#[derive(Clone, Copy, Debug, PartialEq, Eq, Structural)]
pub enum AlertSeverity {
    Info,
    Warning,
    Error,
    Critical,
}

impl AlertSeverity {
    /// The CSS class of an alert of this severity.
    pub open spec fn class_text(self) -> Seq<char> {
        match self {
            AlertSeverity::Info => "alert-info"@,
            AlertSeverity::Warning => "alert-warning"@,
            AlertSeverity::Error => "alert-error"@,
            AlertSeverity::Critical => "alert-critical"@,
        }
    }

    /// The icon shown with an alert of this severity.
    pub open spec fn icon_text(self) -> Seq<char> {
        match self {
            AlertSeverity::Info => "ℹ"@,
            AlertSeverity::Warning => "⚠"@,
            AlertSeverity::Error => "✕"@,
            AlertSeverity::Critical => "⛔"@,
        }
    }

    /// The CSS class of an alert of this severity.
    pub fn class(&self) -> (r: &'static str)
        ensures
            r@ == self.class_text(),
    {
        match self {
            AlertSeverity::Info => "alert-info",
            AlertSeverity::Warning => "alert-warning",
            AlertSeverity::Error => "alert-error",
            AlertSeverity::Critical => "alert-critical",
        }
    }

    /// The icon shown with an alert of this severity.
    pub fn icon(&self) -> (r: &'static str)
        ensures
            r@ == self.icon_text(),
    {
        match self {
            AlertSeverity::Info => "ℹ",
            AlertSeverity::Warning => "⚠",
            AlertSeverity::Error => "✕",
            AlertSeverity::Critical => "⛔",
        }
    }
}

/// The width, in percent, of a compliance bar: `compliant * 100` divided by
/// the total, where a total below one counts as one; the quotient is
/// truncated toward zero.
pub open spec fn bar_width_value(compliant: int, total: int) -> int {
    let divisor = if total >= 1 { total } else { 1 };
    if compliant >= 0 {
        (compliant * 100) / divisor
    } else {
        -((-compliant * 100) / divisor)
    }
}

/// The width, in percent, of a compliance bar.
pub fn bar_width(compliant: i32, total: i32) -> (r: i32)
    requires
        i32::MIN <= compliant * 100 <= i32::MAX,
    ensures
        r == bar_width_value(compliant as int, total as int),
{
    let divisor = if total >= 1 { total } else { 1 };
    compliant * 100 / divisor
}

/// The text of a compliance count: "{compliant}/{total}".
pub fn ratio_text(compliant: i32, total: i32) -> (r: String)
    ensures
        r@ == signed_decimal(compliant as int) + seq!['/'] + signed_decimal(total as int),
{
    let mut r = String::new();
    push_signed_decimal(&mut r, compliant);
    r.append("/");
    proof {
        reveal_strlit("/");
    }
    push_signed_decimal(&mut r, total);
    r
}

/// The alert selected after a click on an alert: clicking the selected
/// alert deselects it, clicking another one selects that one.
pub fn toggle_selected_alert(selected: Option<String>, clicked: String) -> (r: Option<String>)
    ensures
        match selected {
            Some(s) => if s@ == clicked@ {
                r is None
            } else {
                r matches Some(n) && n@ == clicked@
            },
            None => r matches Some(n) && n@ == clicked@,
        },
{
    match selected {
        Some(s) => {
            if s == clicked {
                None
            } else {
                Some(clicked)
            }
        },
        None => Some(clicked),
    }
}

} // verus!
