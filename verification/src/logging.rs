//! Typed log values and the exact texts that events and the configuration
//! render to.
//!
//! The console sink consumes an ordered sequence of typed values: unsigned
//! numbers, ASCII text, and color markers. This module defines those values,
//! says precisely which characters each value renders to, and builds the
//! value sequences for one decided mouse event and for the effective program
//! configuration. Writing the values to a real console is left to the
//! embedding program.

use vstd::prelude::*;
use vstd::string::StringExecFns;

use crate::engine::{MouseButton, MouseDirection, Thresholds};

verus! {

/// One decided transition, as handed to the logging and statistics
/// collaborators: which button moved in which direction, whether the event
/// was suppressed, and how long after the relevant previous transition it
/// arrived.
#[derive(Clone, Copy, Debug, PartialEq, Eq, Structural)]
pub struct MouseEvent {
    pub button: MouseButton,
    pub direction: MouseDirection,
    pub blocked: bool,
    pub time_since_last_event: u32,
}

/// The character of one decimal digit.
pub open spec fn digit_char(d: nat) -> char {
    if d == 0 {
        '0'
    } else if d == 1 {
        '1'
    } else if d == 2 {
        '2'
    } else if d == 3 {
        '3'
    } else if d == 4 {
        '4'
    } else if d == 5 {
        '5'
    } else if d == 6 {
        '6'
    } else if d == 7 {
        '7'
    } else if d == 8 {
        '8'
    } else {
        '9'
    }
}

/// The decimal digits of `n`, most significant first, without any sign or
/// padding; zero renders as a single `'0'`.
pub open spec fn dec_digits(n: nat) -> Seq<char>
    decreases n,
{
    if n < 10 {
        seq![digit_char(n)]
    } else {
        dec_digits(n / 10).push(digit_char(n % 10))
    }
}

/// Renders a number in decimal.
///
/// Relies on itoa: `itoa::Buffer::format` writes exactly the decimal digits
/// of the value, as its documentation and tests show.
#[verifier::external_body]
pub(crate) fn format_u32(n: u32) -> (r: String)
    ensures
        r@ == dec_digits(n as nat),
{
    let mut buffer = itoa::Buffer::new();
    buffer.format(n).to_owned()
}

/// Terminal foreground colors, named after the ANSI palette.
#[derive(Clone, Copy, Debug, PartialEq, Eq, Structural)]
pub enum FgColor {
    Reset,
    Black,
    Red,
    Green,
    Yellow,
    Blue,
    Magenta,
    Cyan,
    White,
    BrightBlack,
    BrightRed,
    BrightGreen,
    BrightYellow,
    BrightBlue,
    BrightMagenta,
    BrightCyan,
    BrightWhite,
}

impl FgColor {
    /// Color for log messages where a mouse click was blocked.
    pub const BLOCKED: FgColor = FgColor::BrightRed;

    /// Color for the parts of log messages that carry time values.
    pub const TIME: FgColor = FgColor::BrightCyan;
}

/// The foreground attribute bits of the Windows console API, as its
/// documentation defines FOREGROUND_BLUE, FOREGROUND_GREEN, FOREGROUND_RED
/// and FOREGROUND_INTENSITY.
pub const FOREGROUND_BLUE: u16 = 1;

pub const FOREGROUND_GREEN: u16 = 2;

pub const FOREGROUND_RED: u16 = 4;

pub const FOREGROUND_INTENSITY: u16 = 8;

impl FgColor {
    /// The same hue without intensity; plain colors are themselves.
    pub open spec fn spec_less_bright(self) -> FgColor {
        match self {
            FgColor::BrightBlack => FgColor::Black,
            FgColor::BrightRed => FgColor::Red,
            FgColor::BrightGreen => FgColor::Green,
            FgColor::BrightYellow => FgColor::Yellow,
            FgColor::BrightBlue => FgColor::Blue,
            FgColor::BrightMagenta => FgColor::Magenta,
            FgColor::BrightCyan => FgColor::Cyan,
            FgColor::BrightWhite => FgColor::White,
            _ => self,
        }
    }

    /// The same hue without intensity.
    pub fn to_less_bright(self) -> (r: FgColor)
        ensures
            r == self.spec_less_bright(),
    {
        match self {
            FgColor::Reset
            | FgColor::Black
            | FgColor::Red
            | FgColor::Green
            | FgColor::Yellow
            | FgColor::Blue
            | FgColor::Magenta
            | FgColor::Cyan
            | FgColor::White => self,
            FgColor::BrightBlack => FgColor::Black,
            FgColor::BrightRed => FgColor::Red,
            FgColor::BrightGreen => FgColor::Green,
            FgColor::BrightYellow => FgColor::Yellow,
            FgColor::BrightBlue => FgColor::Blue,
            FgColor::BrightMagenta => FgColor::Magenta,
            FgColor::BrightCyan => FgColor::Cyan,
            FgColor::BrightWhite => FgColor::White,
        }
    }

    /// The console text attribute of this color: the plain hue bits, with
    /// the intensity bit for the bright variants; Reset restores the plain
    /// white default.
    pub open spec fn spec_attribute(self) -> u16 {
        match self {
            FgColor::Reset => FOREGROUND_RED | FOREGROUND_GREEN | FOREGROUND_BLUE,
            FgColor::Black => 0,
            FgColor::Red => FOREGROUND_RED,
            FgColor::Green => FOREGROUND_GREEN,
            FgColor::Yellow => FOREGROUND_RED | FOREGROUND_GREEN,
            FgColor::Blue => FOREGROUND_BLUE,
            FgColor::Magenta => FOREGROUND_RED | FOREGROUND_BLUE,
            FgColor::Cyan => FOREGROUND_GREEN | FOREGROUND_BLUE,
            FgColor::White => FOREGROUND_RED | FOREGROUND_GREEN | FOREGROUND_BLUE,
            FgColor::BrightBlack => FOREGROUND_INTENSITY,
            FgColor::BrightRed => FOREGROUND_RED | FOREGROUND_INTENSITY,
            FgColor::BrightGreen => FOREGROUND_GREEN | FOREGROUND_INTENSITY,
            FgColor::BrightYellow => FOREGROUND_RED | FOREGROUND_GREEN | FOREGROUND_INTENSITY,
            FgColor::BrightBlue => FOREGROUND_BLUE | FOREGROUND_INTENSITY,
            FgColor::BrightMagenta => FOREGROUND_RED | FOREGROUND_BLUE | FOREGROUND_INTENSITY,
            FgColor::BrightCyan => FOREGROUND_GREEN | FOREGROUND_BLUE | FOREGROUND_INTENSITY,
            FgColor::BrightWhite => FOREGROUND_RED | FOREGROUND_GREEN | FOREGROUND_BLUE
                | FOREGROUND_INTENSITY,
        }
    }

    /// The console text attribute of this color.
    pub fn windows_text_attribute(self) -> (r: u16)
        ensures
            r == self.spec_attribute(),
    {
        match self {
            FgColor::Reset => FOREGROUND_RED | FOREGROUND_GREEN | FOREGROUND_BLUE,
            FgColor::Black => 0,
            FgColor::Red => FOREGROUND_RED,
            FgColor::Green => FOREGROUND_GREEN,
            FgColor::Yellow => FOREGROUND_RED | FOREGROUND_GREEN,
            FgColor::Blue => FOREGROUND_BLUE,
            FgColor::Magenta => FOREGROUND_RED | FOREGROUND_BLUE,
            FgColor::Cyan => FOREGROUND_GREEN | FOREGROUND_BLUE,
            FgColor::White => FOREGROUND_RED | FOREGROUND_GREEN | FOREGROUND_BLUE,
            FgColor::BrightBlack => FOREGROUND_INTENSITY,
            FgColor::BrightRed => FOREGROUND_RED | FOREGROUND_INTENSITY,
            FgColor::BrightGreen => FOREGROUND_GREEN | FOREGROUND_INTENSITY,
            FgColor::BrightYellow => FOREGROUND_RED | FOREGROUND_GREEN | FOREGROUND_INTENSITY,
            FgColor::BrightBlue => FOREGROUND_BLUE | FOREGROUND_INTENSITY,
            FgColor::BrightMagenta => FOREGROUND_RED | FOREGROUND_BLUE | FOREGROUND_INTENSITY,
            FgColor::BrightCyan => FOREGROUND_GREEN | FOREGROUND_BLUE | FOREGROUND_INTENSITY,
            FgColor::BrightWhite => FOREGROUND_RED | FOREGROUND_GREEN | FOREGROUND_BLUE
                | FOREGROUND_INTENSITY,
        }
    }

    /// The characters of this color's ANSI escape code.
    pub open spec fn spec_ansi(self) -> Seq<char> {
        match self {
            FgColor::Reset => "\x1B[0m"@,
            FgColor::Black => "\x1B[0;30m"@,
            FgColor::Red => "\x1B[0;31m"@,
            FgColor::Green => "\x1B[0;32m"@,
            FgColor::Yellow => "\x1B[0;33m"@,
            FgColor::Blue => "\x1B[0;34m"@,
            FgColor::Magenta => "\x1B[0;35m"@,
            FgColor::Cyan => "\x1B[0;36m"@,
            FgColor::White => "\x1B[0;37m"@,
            FgColor::BrightBlack => "\x1B[0m90m"@,
            FgColor::BrightRed => "\x1B[0m91m"@,
            FgColor::BrightGreen => "\x1B[0m92m"@,
            FgColor::BrightYellow => "\x1B[0m93m"@,
            FgColor::BrightBlue => "\x1B[0m94m"@,
            FgColor::BrightMagenta => "\x1B[0m95m"@,
            FgColor::BrightCyan => "\x1B[0m96m"@,
            FgColor::BrightWhite => "\x1B[0m97m"@,
        }
    }

    /// This color's ANSI escape code, for terminals driven by escape
    /// sequences rather than console text attributes.
    pub fn ansi(self) -> (r: &'static str)
        ensures
            r@ == self.spec_ansi(),
    {
        match self {
            FgColor::Reset => "\x1B[0m",
            FgColor::Black => "\x1B[0;30m",
            FgColor::Red => "\x1B[0;31m",
            FgColor::Green => "\x1B[0;32m",
            FgColor::Yellow => "\x1B[0;33m",
            FgColor::Blue => "\x1B[0;34m",
            FgColor::Magenta => "\x1B[0;35m",
            FgColor::Cyan => "\x1B[0;36m",
            FgColor::White => "\x1B[0;37m",
            FgColor::BrightBlack => "\x1B[0m90m",
            FgColor::BrightRed => "\x1B[0m91m",
            FgColor::BrightGreen => "\x1B[0m92m",
            FgColor::BrightYellow => "\x1B[0m93m",
            FgColor::BrightBlue => "\x1B[0m94m",
            FgColor::BrightMagenta => "\x1B[0m95m",
            FgColor::BrightCyan => "\x1B[0m96m",
            FgColor::BrightWhite => "\x1B[0m97m",
        }
    }
}

/// A value that can be handed to the console sink.
#[derive(Clone, Debug)]
pub enum LogValue {
    /// A number.
    Number(u32),
    /// ASCII text.
    Text(String),
    /// A color marker; it renders no characters of its own.
    Color(FgColor),
}

/// The mathematical shape of a [`LogValue`]: the number, the characters of
/// the text, or the color marker.
pub enum LogItem {
    Num(u32),
    Chars(Seq<char>),
    Marker(FgColor),
}

impl View for LogValue {
    type V = LogItem;

    open spec fn view(&self) -> LogItem {
        match self {
            LogValue::Number(n) => LogItem::Num(*n),
            LogValue::Text(t) => LogItem::Chars(t@),
            LogValue::Color(c) => LogItem::Marker(*c),
        }
    }
}

impl From<u32> for LogValue {
    fn from(value: u32) -> Self {
        LogValue::Number(value)
    }
}

impl vstd::std_specs::convert::FromSpecImpl<u32> for LogValue {
    open spec fn obeys_from_spec() -> bool {
        true
    }

    open spec fn from_spec(value: u32) -> Self {
        LogValue::Number(value)
    }
}

impl From<FgColor> for LogValue {
    fn from(value: FgColor) -> Self {
        LogValue::Color(value)
    }
}

impl vstd::std_specs::convert::FromSpecImpl<FgColor> for LogValue {
    open spec fn obeys_from_spec() -> bool {
        true
    }

    open spec fn from_spec(value: FgColor) -> Self {
        LogValue::Color(value)
    }
}

/// The shapes of a sequence of log values.
pub open spec fn views_of(values: Seq<LogValue>) -> Seq<LogItem> {
    values.map_values(|v: LogValue| v@)
}

/// The characters one log value renders to: decimal digits for a number, the
/// text itself for text, nothing for a color marker.
pub open spec fn spec_rendered(item: LogItem) -> Seq<char> {
    match item {
        LogItem::Num(n) => dec_digits(n as nat),
        LogItem::Chars(s) => s,
        LogItem::Marker(_) => Seq::empty(),
    }
}

/// The characters a sequence of log values renders to, in order.
pub open spec fn spec_rendered_all(items: Seq<LogItem>) -> Seq<char>
    decreases items.len(),
{
    if items.len() == 0 {
        Seq::empty()
    } else {
        spec_rendered_all(items.drop_last()) + spec_rendered(items.last())
    }
}

impl LogValue {
    /// Appends the characters this value renders to.
    pub fn write_to_string(&self, buffer: &mut String)
        ensures
            final(buffer)@ == old(buffer)@ + spec_rendered(self@),
    {
        match self {
            LogValue::Number(n) => {
                let digits = format_u32(*n);
                buffer.append(digits.as_str());
            },
            LogValue::Text(t) => {
                buffer.append(t.as_str());
            },
            LogValue::Color(_) => {
                proof {
                    assert(old(buffer)@ + spec_rendered(self@) =~= old(buffer)@);
                }
            },
        }
    }
}

/// Appends the characters a whole sequence of log values renders to, in
/// order.
pub fn render_values(values: &Vec<LogValue>, buffer: &mut String)
    ensures
        final(buffer)@ == old(buffer)@ + spec_rendered_all(views_of(values@)),
{
    let ghost complete = views_of(values@);
    let mut i: usize = 0;
    proof {
        assert(old(buffer)@ + spec_rendered_all(complete.take(0)) =~= old(buffer)@);
    }
    while i < values.len()
        invariant
            i <= values.len(),
            complete == views_of(values@),
            complete.len() == values@.len(),
            buffer@ == old(buffer)@ + spec_rendered_all(complete.take(i as int)),
        decreases values.len() - i,
    {
        let v: &LogValue = &values[i];
        v.write_to_string(buffer);
        proof {
            assert(complete.take(i + 1).drop_last() =~= complete.take(i as int));
            assert(complete.take(i + 1).last() == v@);
        }
        i = i + 1;
    }
    proof {
        assert(complete.take(values@.len() as int) =~= complete);
    }
}

/// Whether diagnostics are currently written to the console. The embedding
/// program owns one of these; every function whose output depends on the
/// toggle takes it as a parameter.
#[derive(Clone, Copy, Debug, PartialEq, Eq, Structural)]
pub struct LogToggle {
    pub should_log: bool,
}

/// Whether logging is currently enabled.
pub fn is_logging(toggle: &LogToggle) -> (r: bool)
    ensures
        r == toggle.should_log,
{
    toggle.should_log
}

/// Enables or disables logging. Returns whether the setting actually
/// changed; only then must the embedding program create or destroy its
/// console window.
pub fn set_should_log(toggle: &mut LogToggle, enabled: bool) -> (changed: bool)
    ensures
        final(toggle).should_log == enabled,
        changed == (old(toggle).should_log != enabled),
{
    let changed = toggle.should_log != enabled;
    toggle.should_log = enabled;
    changed
}

/// Appends one text value.
pub(crate) fn push_text(out: &mut Vec<LogValue>, text: &str)
    ensures
        views_of(final(out)@) == views_of(old(out)@).push(LogItem::Chars(text@)),
{
    out.push(LogValue::Text(text.to_owned()));
    proof {
        assert(views_of(out@) =~= views_of(old(out)@).push(LogItem::Chars(text@)));
    }
}

/// Appends one number value.
pub(crate) fn push_number(out: &mut Vec<LogValue>, n: u32)
    ensures
        views_of(final(out)@) == views_of(old(out)@).push(LogItem::Num(n)),
{
    out.push(LogValue::Number(n));
    proof {
        assert(views_of(out@) =~= views_of(old(out)@).push(LogItem::Num(n)));
    }
}

/// Appends one color marker.
pub(crate) fn push_color(out: &mut Vec<LogValue>, color: FgColor)
    ensures
        views_of(final(out)@) == views_of(old(out)@).push(LogItem::Marker(color)),
{
    out.push(LogValue::Color(color));
    proof {
        assert(views_of(out@) =~= views_of(old(out)@).push(LogItem::Marker(color)));
    }
}

/// The text that introduces one transition in the log.
pub open spec fn spec_event_desc(button: MouseButton, direction: MouseDirection) -> Seq<char> {
    match (button, direction) {
        (MouseButton::Left, MouseDirection::Up) => "\tLeft button up event "@,
        (MouseButton::Left, MouseDirection::Down) => "Left click "@,
        (MouseButton::Right, MouseDirection::Up) => "\tRight button up event "@,
        (MouseButton::Right, MouseDirection::Down) => "Right click "@,
        (MouseButton::Middle, MouseDirection::Up) => "\tMiddle button up event "@,
        (MouseButton::Middle, MouseDirection::Down) => "Middle click "@,
    }
}

/// The log values one decided event renders to: a suppressed event is framed
/// in the blocked color and names the too-short elapsed time, an admitted
/// one names the elapsed time since the relevant previous transition.
pub open spec fn spec_event_log(ev: MouseEvent) -> Seq<LogItem> {
    let desc = seq![LogItem::Chars(spec_event_desc(ev.button, ev.direction))];
    if ev.blocked {
        seq![LogItem::Marker(FgColor::BrightRed)] + desc + seq![
            LogItem::Chars("ignored (too frequent, within "@),
            LogItem::Marker(FgColor::BrightCyan),
            LogItem::Num(ev.time_since_last_event),
            LogItem::Chars(" ms"@),
            LogItem::Marker(FgColor::BrightRed),
            LogItem::Chars(")\r\n"@),
            LogItem::Marker(FgColor::Reset),
        ]
    } else {
        desc + seq![
            LogItem::Chars("accepted (after "@),
            LogItem::Marker(FgColor::BrightCyan),
            LogItem::Num(ev.time_since_last_event),
            LogItem::Chars(" ms"@),
            LogItem::Marker(FgColor::Reset),
            LogItem::Chars(")\r\n"@),
        ]
    }
}

impl MouseEvent {
    /// The text that introduces this transition in the log.
    fn desc(&self) -> (r: &'static str)
        ensures
            r@ == spec_event_desc(self.button, self.direction),
    {
        match (self.button, self.direction) {
            (MouseButton::Left, MouseDirection::Up) => "\tLeft button up event ",
            (MouseButton::Left, MouseDirection::Down) => "Left click ",
            (MouseButton::Right, MouseDirection::Up) => "\tRight button up event ",
            (MouseButton::Right, MouseDirection::Down) => "Right click ",
            (MouseButton::Middle, MouseDirection::Up) => "\tMiddle button up event ",
            (MouseButton::Middle, MouseDirection::Down) => "Middle click ",
        }
    }

    /// Appends the log values this event renders to.
    pub fn log_write(&self, out: &mut Vec<LogValue>)
        ensures
            views_of(final(out)@) == views_of(old(out)@) + spec_event_log(*self),
    {
        if self.blocked {
            push_color(out, FgColor::BLOCKED);
        }
        let d = self.desc();
        push_text(out, d);
        if self.blocked {
            push_text(out, "ignored (too frequent, within ");
            push_color(out, FgColor::TIME);
            push_number(out, self.time_since_last_event);
            push_text(out, " ms");
            push_color(out, FgColor::BLOCKED);
            push_text(out, ")\r\n");
            push_color(out, FgColor::Reset);
        } else {
            push_text(out, "accepted (after ");
            push_color(out, FgColor::TIME);
            push_number(out, self.time_since_last_event);
            push_text(out, " ms");
            push_color(out, FgColor::Reset);
            push_text(out, ")\r\n");
        }
        proof {
            assert(views_of(out@) =~= views_of(old(out)@) + spec_event_log(*self));
        }
    }
}

/// The log values that report one button's effective threshold.
pub open spec fn spec_threshold_line(label: Seq<char>, value: u32) -> Seq<LogItem> {
    seq![
        LogItem::Chars(label),
        LogItem::Marker(FgColor::BrightCyan),
        LogItem::Num(value),
        LogItem::Chars(" ms"@),
        LogItem::Marker(FgColor::Reset),
        LogItem::Chars(if value == 0 { " (Disabled)"@ } else { ""@ }),
    ]
}

/// The log values that echo the whole effective configuration.
pub open spec fn spec_program_config(t: Thresholds) -> Seq<LogItem> {
    spec_threshold_line("\r\nProgram Config:\r\nLeft Click:  "@, t.left) + spec_threshold_line(
        "\r\nRight Click: "@,
        t.right,
    ) + spec_threshold_line("\r\nMiddle Click: "@, t.middle) + seq![LogItem::Chars("\r\n\r\n"@)]
}

/// Appends the report of one button's threshold.
fn push_threshold_line(out: &mut Vec<LogValue>, label: &str, value: u32)
    ensures
        views_of(final(out)@) == views_of(old(out)@) + spec_threshold_line(label@, value),
{
    push_text(out, label);
    push_color(out, FgColor::TIME);
    push_number(out, value);
    push_text(out, " ms");
    push_color(out, FgColor::Reset);
    if value == 0 {
        push_text(out, " (Disabled)");
    } else {
        push_text(out, "");
    }
    proof {
        assert(views_of(out@) =~= views_of(old(out)@) + spec_threshold_line(label@, value));
    }
}

/// The log values that echo the effective thresholds, one line per button,
/// marking disabled buttons.
pub fn log_program_config(thresholds: &Thresholds) -> (out: Vec<LogValue>)
    ensures
        views_of(out@) == spec_program_config(*thresholds),
{
    let mut out: Vec<LogValue> = Vec::new();
    push_threshold_line(&mut out, "\r\nProgram Config:\r\nLeft Click:  ", thresholds.left);
    push_threshold_line(&mut out, "\r\nRight Click: ", thresholds.right);
    push_threshold_line(&mut out, "\r\nMiddle Click: ", thresholds.middle);
    push_text(&mut out, "\r\n\r\n");
    proof {
        assert(views_of(out@) =~= spec_program_config(*thresholds));
    }
    out
}

} // verus!
