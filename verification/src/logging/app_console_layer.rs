//! Console log line formatting.
use vstd::prelude::*;

use crate::text::{decimal, decimal_string, owned, push_str};

verus! {

/// How event timestamps are rendered.
#[derive(Clone, Copy, Debug, PartialEq, Eq, Structural)]
pub enum TimestampMode {
    /// Local time.
    Local,
    /// Coordinated universal time.
    Utc,
}

impl Default for TimestampMode {
    fn default() -> (r: Self)
        ensures
            r == TimestampMode::Utc,
    {
        TimestampMode::Utc
    }
}

/// The console layer's configuration.
#[derive(Clone, Copy, Debug)]
pub struct AppConsoleLayer {
    timestamp_mode: TimestampMode,
}

impl AppConsoleLayer {
    /// The timestamp mode.
    pub closed spec fn spec_timestamp_mode(&self) -> TimestampMode {
        self.timestamp_mode
    }

    /// A console layer rendering timestamps in `timestamp_mode`.
    pub fn new(timestamp_mode: TimestampMode) -> (r: Self)
        ensures
            r.spec_timestamp_mode() == timestamp_mode,
    {
        Self { timestamp_mode }
    }

    /// The timestamp mode.
    pub fn timestamp_mode(&self) -> (r: TimestampMode)
        ensures
            r == self.spec_timestamp_mode(),
    {
        self.timestamp_mode
    }
}

/// The level of an event.
#[derive(Clone, Copy, Debug, PartialEq, Eq, Structural)]
pub enum Level {
    Trace,
    Debug,
    Info,
    Warn,
    Error,
}

/// A level's name right-aligned in five columns.
pub open spec fn padded_level_name(level: Level) -> Seq<char> {
    match level {
        Level::Trace => "TRACE"@,
        Level::Debug => "DEBUG"@,
        Level::Info => " INFO"@,
        Level::Warn => " WARN"@,
        Level::Error => "ERROR"@,
    }
}

/// The ANSI colour code of a level.
pub open spec fn level_color_code(level: Level) -> Seq<char> {
    match level {
        Level::Trace => "90"@,
        Level::Debug => "34"@,
        Level::Info => "32"@,
        Level::Warn => "33"@,
        Level::Error => "31"@,
    }
}

/// The level column of a log line: the padded name, wrapped in its ANSI
/// colour unless colour is switched off.
pub open spec fn spec_format_level(level: Level, no_color: bool) -> Seq<char> {
    if no_color {
        padded_level_name(level)
    } else {
        "\x1b["@ + level_color_code(level) + "m"@ + padded_level_name(level) + "\x1b[0m"@
    }
}

/// The location column of a log line: ` [file:line]`, ` [file]` without a
/// line, nothing without a file.
pub open spec fn spec_format_location(file: Option<Seq<char>>, line: Option<u32>) -> Seq<char> {
    match (file, line) {
        (Some(f), Some(l)) => " ["@ + f + ":"@ + decimal(l as nat) + "]"@,
        (Some(f), None) => " ["@ + f + "]"@,
        _ => Seq::empty(),
    }
}

/// Recorded fields rendered as `name=value` pairs separated by spaces.
pub open spec fn spec_render_fields(fields: Seq<(Seq<char>, Seq<char>)>) -> Seq<char>
    decreases fields.len(),
{
    if fields.len() == 0 {
        Seq::empty()
    } else {
        let last = fields.last();
        let pair = last.0 + "="@ + last.1;
        if fields.len() == 1 {
            pair
        } else {
            spec_render_fields(fields.drop_last()) + " "@ + pair
        }
    }
}

/// A full log line: timestamp, level, target with location, message, and
/// the fields after ` | ` when there are any.
pub open spec fn spec_event_line(
    timestamp: Seq<char>,
    level: Seq<char>,
    target: Seq<char>,
    location: Seq<char>,
    message: Seq<char>,
    fields: Seq<char>,
) -> Seq<char> {
    let head = timestamp + " "@ + level + " "@ + target + location + " - "@ + message;
    if fields.len() == 0 {
        head
    } else {
        head + " | "@ + fields
    }
}

/// The level column of a log line.
pub fn format_level(level: Level, no_color: bool) -> (r: String)
    ensures
        r@ == spec_format_level(level, no_color),
{
    let level_text = match level {
        Level::Trace => owned("TRACE"),
        Level::Debug => owned("DEBUG"),
        Level::Info => owned(" INFO"),
        Level::Warn => owned(" WARN"),
        Level::Error => owned("ERROR"),
    };
    if no_color {
        return level_text;
    }
    let color_code = match level {
        Level::Trace => "90",
        Level::Debug => "34",
        Level::Info => "32",
        Level::Warn => "33",
        Level::Error => "31",
    };
    let mut r = owned("\x1b[");
    push_str(&mut r, color_code);
    push_str(&mut r, "m");
    push_str(&mut r, level_text.as_str());
    push_str(&mut r, "\x1b[0m");
    r
}

/// The location column of a log line.
pub fn format_location(file: Option<&str>, line: Option<u32>) -> (r: String)
    ensures
        r@ == spec_format_location(
            match file {
                Some(f) => Some(f@),
                None => None,
            },
            line,
        ),
{
    match (file, line) {
        (Some(file), Some(line)) => {
            let mut r = owned(" [");
            push_str(&mut r, file);
            push_str(&mut r, ":");
            let n = decimal_string(line as usize);
            push_str(&mut r, n.as_str());
            push_str(&mut r, "]");
            r
        },
        (Some(file), None) => {
            let mut r = owned(" [");
            push_str(&mut r, file);
            push_str(&mut r, "]");
            r
        },
        _ => String::new(),
    }
}

/// A full log line.
pub fn event_line(
    timestamp: &str,
    level: &str,
    target: &str,
    location: &str,
    message: &str,
    fields: &str,
) -> (r: String)
    ensures
        r@ == spec_event_line(timestamp@, level@, target@, location@, message@, fields@),
{
    let mut r = owned(timestamp);
    push_str(&mut r, " ");
    push_str(&mut r, level);
    push_str(&mut r, " ");
    push_str(&mut r, target);
    push_str(&mut r, location);
    push_str(&mut r, " - ");
    push_str(&mut r, message);
    if !fields.is_empty() {
        push_str(&mut r, " | ");
        push_str(&mut r, fields);
    }
    r
}

/// The fields and message recorded from one event.
pub struct EventFieldVisitor {
    message: Option<String>,
    fields: Vec<(String, String)>,
}

impl EventFieldVisitor {
    /// The recorded message, if any.
    pub closed spec fn spec_message(&self) -> Option<Seq<char>> {
        match self.message {
            Some(m) => Some(m@),
            None => None,
        }
    }

    /// The recorded fields other than the message, in order.
    pub closed spec fn spec_fields(&self) -> Seq<(Seq<char>, Seq<char>)> {
        self.fields@.map_values(|f: (String, String)| (f.0@, f.1@))
    }

    /// Nothing recorded yet.
    pub fn new() -> (r: Self)
        ensures
            r.spec_message() is None,
            r.spec_fields() == Seq::<(Seq<char>, Seq<char>)>::empty(),
    {
        let r = EventFieldVisitor { message: None, fields: Vec::new() };
        assert(r.spec_fields() =~= Seq::<(Seq<char>, Seq<char>)>::empty());
        r
    }

    /// Records a field: the one named `message` becomes the message, any
    /// other is appended to the fields.
    pub fn push_kv(&mut self, name: &str, value: String)
        ensures
            name@ == "message"@ ==> final(self).spec_message() == Some(value@) && final(self).spec_fields()
                == old(self).spec_fields(),
            name@ != "message"@ ==> final(self).spec_message() == old(self).spec_message()
                && final(self).spec_fields() == old(self).spec_fields().push((name@, value@)),
    {
        if crate::text::str_eq(name, "message") {
            self.message = Some(value);
            return;
        }
        let ghost before = self.fields@;
        self.fields.push((owned(name), value));
        assert(self.fields@.map_values(|f: (String, String)| (f.0@, f.1@)) =~= before.map_values(
            |f: (String, String)| (f.0@, f.1@),
        ).push((name@, value@)));
    }

    /// The recorded message.
    pub fn message(&self) -> (r: Option<&str>)
        ensures
            match r {
                Some(m) => self.spec_message() == Some(m@),
                None => self.spec_message() is None,
            },
    {
        match &self.message {
            Some(m) => Some(m.as_str()),
            None => None,
        }
    }

    /// The recorded fields as `name=value` pairs separated by spaces.
    pub fn render_fields(&self) -> (r: String)
        ensures
            r@ == spec_render_fields(self.spec_fields()),
    {
        let ghost fs = self.spec_fields();
        let mut rendered = String::new();
        let mut index: usize = 0;
        while index < self.fields.len()
            invariant
                index <= self.fields@.len(),
                fs == self.spec_fields(),
                rendered@ == spec_render_fields(fs.take(index as int)),
            decreases self.fields@.len() - index,
        {
            let ghost prefix = fs.take(index as int);
            if index > 0 {
                rendered.push(' ');
            }
            let (name, value) = &self.fields[index];
            push_str(&mut rendered, name.as_str());
            rendered.push('=');
            push_str(&mut rendered, value.as_str());
            proof {
                let t = fs.take(index + 1);
                assert(t.drop_last() =~= prefix);
                assert(t.last() == (name@, value@));
                if index == 0 {
                    assert(prefix =~= Seq::<(Seq<char>, Seq<char>)>::empty());
                }
                assert("="@ =~= seq!['=']) by {
                    reveal_strlit("=");
                }
                assert(" "@ =~= seq![' ']) by {
                    reveal_strlit(" ");
                }
                assert(rendered@ =~= spec_render_fields(t));
            }
            index = index + 1;
        }
        assert(fs.take(index as int) =~= fs);
        rendered
    }
}

} // verus!
