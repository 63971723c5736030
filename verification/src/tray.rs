//! The requests a tray front-end can raise, and the texts it shows.
//!
//! The tray menu itself — icon, menu items, event loop — is host toolkit
//! territory and lives in the embedding program. What the menu *says* is
//! computed here: the tooltip echoing the thresholds, and the text of the
//! statistics message box.

use vstd::prelude::*;
use vstd::string::StringExecFns;

use crate::engine::Thresholds;
use crate::logging::{
    dec_digits, format_u32, log_program_config, render_values, spec_program_config,
    spec_rendered_all, LogValue,
};
use crate::stats::{log_current_stats, spec_current_stats, StatsTable};

verus! {

/// A request coming from the tray menu.
#[derive(Clone, Copy, Debug, PartialEq, Eq, Structural)]
pub enum UserEvent {
    /// Leave the event loop and shut the program down.
    Quit,
    /// Toggle the logging console.
    ToggleLogging,
    /// Show the statistics message box.
    ShowStats,
}

/// One threshold as the tooltip shows it: the value in milliseconds, or the
/// word for a disabled button.
pub open spec fn spec_tooltip_entry(value: u32) -> Seq<char> {
    if value == 0 {
        "Disabled"@
    } else {
        dec_digits(value as nat) + " ms"@
    }
}

/// The whole tooltip: the program name and one line per button.
pub open spec fn spec_tooltip(t: Thresholds) -> Seq<char> {
    "click-once"@ + "\r\nLeft: "@ + spec_tooltip_entry(t.left) + "\r\nRight: "@
        + spec_tooltip_entry(t.right) + "\r\nMiddle: "@ + spec_tooltip_entry(t.middle)
}

/// Appends one threshold entry of the tooltip.
fn append_tooltip_entry(text: &mut String, value: u32)
    ensures
        final(text)@ == old(text)@ + spec_tooltip_entry(value),
{
    if value == 0 {
        text.append("Disabled");
    } else {
        let digits = format_u32(value);
        text.append(digits.as_str());
        text.append(" ms");
    }
}

/// The tooltip of the tray icon: the program name and the effective
/// threshold of every button.
pub fn tooltip_text(thresholds: &Thresholds) -> (r: String)
    ensures
        r@ == spec_tooltip(*thresholds),
{
    let mut text = "click-once".to_owned();
    text.append("\r\nLeft: ");
    append_tooltip_entry(&mut text, thresholds.left);
    text.append("\r\nRight: ");
    append_tooltip_entry(&mut text, thresholds.right);
    text.append("\r\nMiddle: ");
    append_tooltip_entry(&mut text, thresholds.middle);
    text
}

/// The text of the statistics message box: the configuration echo followed
/// by the full statistics report, rendered to characters.
pub fn show_stats_text(thresholds: &Thresholds, stats: &StatsTable) -> (r: String)
    ensures
        r@ == spec_rendered_all(spec_program_config(*thresholds)) + spec_rendered_all(
            spec_current_stats(*stats),
        ),
{
    let mut text = String::new();
    let config_values = log_program_config(thresholds);
    render_values(&config_values, &mut text);
    let mut stats_values: Vec<LogValue> = Vec::new();
    log_current_stats(stats, &mut stats_values);
    render_values(&stats_values, &mut text);
    proof {
        assert(text@ =~= spec_rendered_all(spec_program_config(*thresholds)) + spec_rendered_all(
            spec_current_stats(*stats),
        ));
    }
    text
}

} // verus!
