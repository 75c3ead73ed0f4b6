//! The console line of a log record, plain or colored.
use vstd::prelude::*;

use owo_colors::AnsiColors;

use crate::level::LogLevel;
use crate::style::{bg, fg, paint, paint_on};
use crate::text::{decimal, fitted, pad_len, push_decimal, spaces};

verus! {

/// The color of each severity: background of its label, foreground of its message.
pub open spec fn level_hue(level: LogLevel) -> AnsiColors {
    match level {
        LogLevel::Error => AnsiColors::Red,
        LogLevel::Warn => AnsiColors::Yellow,
        LogLevel::Info => AnsiColors::Blue,
        LogLevel::Debug => AnsiColors::Magenta,
        _ => AnsiColors::White,
    }
}

pub fn hue(level: LogLevel) -> (r: AnsiColors)
    ensures
        r == level_hue(level),
{
    match level {
        LogLevel::Error => AnsiColors::Red,
        LogLevel::Warn => AnsiColors::Yellow,
        LogLevel::Info => AnsiColors::Blue,
        LogLevel::Debug => AnsiColors::Magenta,
        _ => AnsiColors::White,
    }
}

/// The category column: 13 characters, blank without a category, else
/// `· ` and the category cut or padded to 10 characters, then a space.
pub open spec fn category_cell(category: Seq<char>) -> Seq<char> {
    if category.len() == 0 {
        spaces(13)
    } else {
        "· "@ + fitted(category, 10) + " "@
    }
}

/// An elapsed time as `<milliseconds> ms`.
pub open spec fn elapsed_text(ms: u64) -> Seq<char> {
    decimal(ms as nat) + " ms"@
}

/// A line break and the error text, when there is an error.
pub open spec fn error_tail(error: Option<Seq<char>>) -> Seq<char> {
    match error {
        Some(e) => "\n"@ + e,
        None => seq![],
    }
}

/// The line without colors:
/// `LEVEL <category> · <timestamp> · <message>[ <n> ms][\n<error>]`.
pub open spec fn plain_line(
    label: Seq<char>,
    timestamp: Seq<char>,
    category: Seq<char>,
    message: Seq<char>,
    ms: Option<u64>,
    error: Option<Seq<char>>,
) -> Seq<char> {
    label + " "@ + category_cell(category) + " · "@ + timestamp + " · "@ + message + match ms {
        Some(v) => " "@ + elapsed_text(v),
        None => seq![],
    } + error_tail(error)
}

/// The line with colors: label, category and a spacer on the level's
/// background, the timestamp on grey, the message in the level's color,
/// the elapsed time in grey.
pub open spec fn color_line(
    level: LogLevel,
    label: Seq<char>,
    timestamp: Seq<char>,
    category: Seq<char>,
    message: Seq<char>,
    ms: Option<u64>,
    error: Option<Seq<char>>,
) -> Seq<char> {
    let h = level_hue(level);
    bg(h, " | "@ + label + " "@) + bg(h, category_cell(category)) + bg(
        AnsiColors::BrightBlack,
        " "@ + timestamp + " "@,
    ) + bg(h, " "@) + (if message.len() == 0 {
        seq![]
    } else {
        " "@ + fg(h, message)
    }) + match ms {
        Some(v) => " "@ + fg(AnsiColors::BrightBlack, elapsed_text(v)),
        None => seq![],
    } + error_tail(error)
}

/// The console line of a record.
pub open spec fn line_of(
    level: LogLevel,
    timestamp: Seq<char>,
    category: Seq<char>,
    message: Seq<char>,
    ms: Option<u64>,
    error: Option<Seq<char>>,
    color: bool,
) -> Seq<char>
    recommends
        level != LogLevel::Off,
{
    let label = level.label().unwrap();
    if color {
        color_line(level, label, timestamp, category, message, ms, error)
    } else {
        plain_line(label, timestamp, category, message, ms, error)
    }
}

fn category_text(category: &str) -> (r: String)
    ensures
        r@ == category_cell(category@),
{
    if category.unicode_len() == 0 {
        let r = pad_len(category, 13);
        assert(r@ =~= spaces(13));
        r
    } else {
        let mut r = String::from_str("· ");
        r.append(pad_len(category, 10).as_str());
        r.append(" ");
        r
    }
}

fn elapsed_str(ms: u64) -> (r: String)
    ensures
        r@ == elapsed_text(ms),
{
    let mut r = String::new();
    push_decimal(&mut r, ms);
    r.append(" ms");
    assert(r@ =~= elapsed_text(ms));
    r
}

/// Renders a record for the console. An empty category or message counts
/// as absent; `color` selects the colored layout.
pub fn render_line(
    level: LogLevel,
    timestamp: &str,
    category: &str,
    message: &str,
    ms: Option<u64>,
    error: Option<&str>,
    color: bool,
) -> (r: String)
    requires
        level != LogLevel::Off,
    ensures
        r@ == line_of(
            level,
            timestamp@,
            category@,
            message@,
            ms,
            match error {
                Some(e) => Some(e@),
                None => None,
            },
            color,
        ),
{
    let label = match level.to_log_str() {
        Some(l) => l,
        None => "",
    };
    let cell = category_text(category);
    let mut r = String::new();
    if color {
        let h = hue(level);
        let mut head = String::from_str(" | ");
        head.append(label);
        head.append(" ");
        r.append(paint_on(head.as_str(), h).as_str());
        r.append(paint_on(cell.as_str(), h).as_str());
        let mut stamp = String::from_str(" ");
        stamp.append(timestamp);
        stamp.append(" ");
        r.append(paint_on(stamp.as_str(), AnsiColors::BrightBlack).as_str());
        r.append(paint_on(" ", h).as_str());
        if message.unicode_len() != 0 {
            r.append(" ");
            r.append(paint(message, h).as_str());
        }
        match ms {
            Some(v) => {
                r.append(" ");
                r.append(paint(elapsed_str(v).as_str(), AnsiColors::BrightBlack).as_str());
            },
            None => {},
        }
    } else {
        r.append(label);
        r.append(" ");
        r.append(cell.as_str());
        r.append(" · ");
        r.append(timestamp);
        r.append(" · ");
        r.append(message);
        match ms {
            Some(v) => {
                r.append(" ");
                r.append(elapsed_str(v).as_str());
            },
            None => {},
        }
    }
    match error {
        Some(e) => {
            r.append("\n");
            r.append(e);
        },
        None => {},
    }
    assert(r@ =~= line_of(
        level,
        timestamp@,
        category@,
        message@,
        ms,
        match error {
            Some(e) => Some(e@),
            None => None,
        },
        color,
    ));
    r
}

} // verus!
