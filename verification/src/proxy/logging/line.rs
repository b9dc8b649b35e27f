//! The layout of a log line: what an event recorded, and the pieces the
//! line is painted from.
use vstd::prelude::*;
use vstd::string::*;

use crate::proxy::config::types::LogLevel;
use crate::proxy::logging::fmt::{spec_format_path, AnsiFormatter};

verus! {

/// A recorded field: its name and its text.
pub open spec fn field_view(f: (String, String)) -> (Seq<char>, Seq<char>) {
    (f.0@, f.1@)
}

/// Recorded fields as values.
pub open spec fn fields_view(v: Seq<(String, String)>) -> Seq<(Seq<char>, Seq<char>)> {
    v.map_values(|f: (String, String)| field_view(f))
}

/// The names under which an event carries its message.
pub open spec fn is_message_name(name: Seq<char>) -> bool {
    name == "message"@ || name == "msg"@
}

/// `text` without the quotes around it, where it is quoted.
pub open spec fn spec_trim_quotes(text: Seq<char>) -> Seq<char> {
    if text.len() >= 2 && text[0] == '"' && text.last() == '"' {
        text.subrange(1, text.len() - 1)
    } else {
        text
    }
}

/// What an event recorded: its message, and its other fields in order.
#[derive(Debug)]
pub struct EventFields {
    pub message: Option<String>,
    pub fields: Vec<(String, String)>,
}

impl EventFields {
    /// The message, as a value.
    pub open spec fn message_view(&self) -> Option<Seq<char>> {
        match self.message {
            Some(m) => Some(m@),
            None => None,
        }
    }

    /// Nothing recorded yet.
    pub fn new() -> (e: Self)
        ensures
            e.message_view() is None,
            fields_view(e.fields@) == Seq::<(Seq<char>, Seq<char>)>::empty(),
    {
        let e = EventFields { message: None, fields: Vec::new() };
        assert(fields_view(e.fields@) =~= Seq::<(Seq<char>, Seq<char>)>::empty());
        e
    }

    fn push_field(&mut self, name: &str, value: String)
        ensures
            final(self).message_view() == old(self).message_view(),
            fields_view(final(self).fields@) == fields_view(old(self).fields@).push(
                (name@, value@),
            ),
    {
        let ghost before = self.fields@;
        self.fields.push((name.to_string(), value));
        assert(fields_view(self.fields@) =~= fields_view(before).push((name@, value@)));
    }

    /// Records a number or a flag, written as `value`, under `name`.
    pub fn record_value(&mut self, name: &str, value: String)
        ensures
            final(self).message_view() == old(self).message_view(),
            fields_view(final(self).fields@) == fields_view(old(self).fields@).push(
                (name@, value@),
            ),
    {
        self.push_field(name, value);
    }

    /// Records the text `value` under `name`: the message where `name`
    /// names one, else a field.
    pub fn record_str(&mut self, name: &str, value: &str)
        ensures
            is_message_name(name@) ==> final(self).message_view() == Some(value@) && fields_view(
                final(self).fields@,
            ) == fields_view(old(self).fields@),
            !is_message_name(name@) ==> final(self).message_view() == old(self).message_view()
                && fields_view(final(self).fields@) == fields_view(old(self).fields@).push(
                (name@, value@),
            ),
    {
        if is_message(name) {
            self.message = Some(value.to_string());
        } else {
            self.push_field(name, value.to_string());
        }
    }

    /// Records `rendered`, the debug rendering of a value, under `name`:
    /// the message, without the quotes a rendered string has, where `name`
    /// names one, else a field.
    pub fn record_debug(&mut self, name: &str, rendered: &str)
        ensures
            is_message_name(name@) ==> final(self).message_view() == Some(
                spec_trim_quotes(rendered@),
            ) && fields_view(final(self).fields@) == fields_view(old(self).fields@),
            !is_message_name(name@) ==> final(self).message_view() == old(self).message_view()
                && fields_view(final(self).fields@) == fields_view(old(self).fields@).push(
                (name@, rendered@),
            ),
    {
        if is_message(name) {
            self.message = Some(trim_quotes(rendered));
        } else {
            self.push_field(name, rendered.to_string());
        }
    }
}

fn is_message(name: &str) -> (b: bool)
    ensures
        b == is_message_name(name@),
{
    let n = name.to_string();
    n == String::from_str("message") || n == String::from_str("msg")
}

fn trim_quotes(text: &str) -> (s: String)
    ensures
        s@ == spec_trim_quotes(text@),
{
    let n = text.unicode_len();
    if n >= 2 && text.get_char(0) == '"' && text.get_char(n - 1) == '"' {
        text.substring_char(1, n - 1).to_string()
    } else {
        text.to_string()
    }
}

/// How a piece of a log line is painted: unpainted, in the frame colour,
/// as text, as a field name, dimmed, as dimmed frame, or as the badge of a
/// level.
#[derive(Clone, Copy, Debug, PartialEq, Eq, Structural)]
pub enum Tone {
    Plain,
    Frame,
    Text,
    Key,
    Dim,
    FrameDim,
    Badge(LogLevel),
}

/// A piece of a log line and how it is painted.
#[derive(Debug)]
pub struct Piece {
    pub tone: Tone,
    pub text: String,
}

/// Pieces as values.
pub open spec fn pieces_view(v: Seq<Piece>) -> Seq<(Tone, Seq<char>)> {
    v.map_values(|p: Piece| (p.tone, p.text@))
}

/// The text of the badge of `level`, five characters wide between spaces.
pub open spec fn spec_badge(level: LogLevel) -> Seq<char> {
    match level {
        LogLevel::Error => " ERROR "@,
        LogLevel::Warn => "  WARN "@,
        LogLevel::Info => "  INFO "@,
        LogLevel::Debug => " DEBUG "@,
        LogLevel::Trace => " TRACE "@,
    }
}

/// The badge names the event's own level: it is the level's name in capitals,
/// padded with spaces to seven characters, so distinct levels never share a
/// badge.
pub proof fn lemma_badge_names_level(level: LogLevel)
    ensures
        spec_badge(LogLevel::Error) == seq![' ', 'E', 'R', 'R', 'O', 'R', ' '],
        spec_badge(LogLevel::Warn) == seq![' ', ' ', 'W', 'A', 'R', 'N', ' '],
        spec_badge(LogLevel::Info) == seq![' ', ' ', 'I', 'N', 'F', 'O', ' '],
        spec_badge(LogLevel::Debug) == seq![' ', 'D', 'E', 'B', 'U', 'G', ' '],
        spec_badge(LogLevel::Trace) == seq![' ', 'T', 'R', 'A', 'C', 'E', ' '],
        spec_badge(level).len() == 7,
        forall|other: LogLevel| spec_badge(other) == spec_badge(level) ==> other == level,
{
    reveal_strlit(" ERROR ");
    reveal_strlit("  WARN ");
    reveal_strlit("  INFO ");
    reveal_strlit(" DEBUG ");
    reveal_strlit(" TRACE ");
    assert(spec_badge(LogLevel::Error) =~= seq![' ', 'E', 'R', 'R', 'O', 'R', ' ']);
    assert(spec_badge(LogLevel::Warn) =~= seq![' ', ' ', 'W', 'A', 'R', 'N', ' ']);
    assert(spec_badge(LogLevel::Info) =~= seq![' ', ' ', 'I', 'N', 'F', 'O', ' ']);
    assert(spec_badge(LogLevel::Debug) =~= seq![' ', 'D', 'E', 'B', 'U', 'G', ' ']);
    assert(spec_badge(LogLevel::Trace) =~= seq![' ', 'T', 'R', 'A', 'C', 'E', ' ']);
    assert forall|other: LogLevel| spec_badge(other) == spec_badge(level) implies other
        == level by {
        if other != level {
            assert(spec_badge(other)[2] != spec_badge(level)[2] || spec_badge(other)[1]
                != spec_badge(level)[1]);
        }
    }
}

/// The pieces of the fields `fields`: `name=value` each, a space before
/// each but the first, and before the first too where `lead` (a message
/// stands before them).
pub open spec fn spec_field_pieces(fields: Seq<(Seq<char>, Seq<char>)>, lead: bool) -> Seq<
    (Tone, Seq<char>),
>
    decreases fields.len(),
{
    if fields.len() == 0 {
        Seq::empty()
    } else {
        let last = fields.last();
        spec_field_pieces(fields.drop_last(), lead) + (if fields.len() > 1 || lead {
            seq![(Tone::Plain, " "@)]
        } else {
            Seq::empty()
        }) + seq![(Tone::Key, last.0), (Tone::Frame, "="@), (Tone::Text, last.1)]
    }
}

/// The pieces of the spans `spans`, root first: each one's name and, where
/// it has any, its fields in braces, separated by dots.
pub open spec fn spec_span_pieces(spans: Seq<(Seq<char>, Seq<char>)>) -> Seq<(Tone, Seq<char>)>
    decreases spans.len(),
{
    if spans.len() == 0 {
        Seq::empty()
    } else {
        let last = spans.last();
        spec_span_pieces(spans.drop_last()) + (if spans.len() > 1 {
            seq![(Tone::Frame, "\u{b7}"@)]
        } else {
            Seq::empty()
        }) + seq![(Tone::Dim, last.0)] + (if last.1.len() > 0 {
            seq![(Tone::FrameDim, "{"@), (Tone::Dim, last.1), (Tone::FrameDim, "}"@)]
        } else {
            Seq::empty()
        })
    }
}

/// The pieces of the log line of an event at `level`, logged at `time`
/// from `file` and `line` (`?` and 0 where unknown), with the `message`
/// and `fields` it recorded, in the `spans` it was logged in where it was.
pub open spec fn spec_event_line(
    time: Seq<char>,
    level: LogLevel,
    file: Option<Seq<char>>,
    line: Option<u32>,
    message: Option<Seq<char>>,
    fields: Seq<(Seq<char>, Seq<char>)>,
    spans: Option<Seq<(Seq<char>, Seq<char>)>>,
) -> Seq<(Tone, Seq<char>)> {
    let location = spec_format_path(
        match file {
            Some(f) => f,
            None => "?"@,
        },
        match line {
            Some(l) => l,
            None => 0,
        },
    );
    seq![
        (Tone::Frame, "["@),
        (Tone::Text, time),
        (Tone::Frame, "] "@),
        (Tone::Badge(level), spec_badge(level)),
        (Tone::Plain, " "@),
        (Tone::Frame, "\u{2502}"@),
        (Tone::Plain, " "@),
        (Tone::Dim, location),
        (Tone::Frame, " \u{276f} "@),
    ] + (match message {
        Some(m) => seq![(Tone::Text, m)],
        None => Seq::empty(),
    }) + spec_field_pieces(fields, message is Some) + (match spans {
        Some(s) => seq![(Tone::Plain, " "@), (Tone::Frame, "\u{2507}"@)] + spec_span_pieces(s),
        None => Seq::empty(),
    }) + seq![(Tone::Plain, "\n"@)]
}

fn push_piece(out: &mut Vec<Piece>, tone: Tone, text: &str)
    ensures
        pieces_view(final(out)@) == pieces_view(old(out)@).push((tone, text@)),
{
    let ghost before = out@;
    out.push(Piece { tone, text: text.to_string() });
    assert(pieces_view(out@) =~= pieces_view(before).push((tone, text@)));
}

fn badge(level: LogLevel) -> (s: &'static str)
    ensures
        s@ == spec_badge(level),
{
    match level {
        LogLevel::Error => " ERROR ",
        LogLevel::Warn => "  WARN ",
        LogLevel::Info => "  INFO ",
        LogLevel::Debug => " DEBUG ",
        LogLevel::Trace => " TRACE ",
    }
}

fn push_fields(out: &mut Vec<Piece>, fields: &Vec<(String, String)>, lead: bool)
    ensures
        pieces_view(final(out)@) == pieces_view(old(out)@) + spec_field_pieces(
            fields_view(fields@),
            lead,
        ),
{
    let ghost start = pieces_view(out@);
    let mut i: usize = 0;
    while i < fields.len()
        invariant
            i <= fields@.len(),
            pieces_view(out@) == start + spec_field_pieces(fields_view(fields@).take(i as int), lead),
        decreases fields@.len() - i,
    {
        let ghost before = pieces_view(out@);
        let ghost taken = fields_view(fields@).take(i + 1);
        proof {
            assert(taken.drop_last() =~= fields_view(fields@).take(i as int));
            assert(taken.last() == field_view(fields@[i as int]));
        }
        if i > 0 || lead {
            push_piece(out, Tone::Plain, " ");
        }
        push_piece(out, Tone::Key, fields[i].0.as_str());
        push_piece(out, Tone::Frame, "=");
        push_piece(out, Tone::Text, fields[i].1.as_str());
        assert(pieces_view(out@) =~= start + spec_field_pieces(taken, lead));
        i = i + 1;
    }
    assert(fields_view(fields@).take(fields@.len() as int) =~= fields_view(fields@));
}

fn push_spans(out: &mut Vec<Piece>, spans: &Vec<(String, String)>)
    ensures
        pieces_view(final(out)@) == pieces_view(old(out)@) + spec_span_pieces(fields_view(spans@)),
{
    let ghost start = pieces_view(out@);
    let mut j: usize = 0;
    while j < spans.len()
        invariant
            j <= spans@.len(),
            pieces_view(out@) == start + spec_span_pieces(fields_view(spans@).take(j as int)),
        decreases spans@.len() - j,
    {
        let ghost taken = fields_view(spans@).take(j + 1);
        proof {
            assert(taken.drop_last() =~= fields_view(spans@).take(j as int));
            assert(taken.last() == field_view(spans@[j as int]));
        }
        if j > 0 {
            push_piece(out, Tone::Frame, "\u{b7}");
        }
        push_piece(out, Tone::Dim, spans[j].0.as_str());
        if spans[j].1.unicode_len() > 0 {
            push_piece(out, Tone::FrameDim, "{");
            push_piece(out, Tone::Dim, spans[j].1.as_str());
            push_piece(out, Tone::FrameDim, "}");
        }
        assert(pieces_view(out@) =~= start + spec_span_pieces(taken));
        j = j + 1;
    }
    assert(fields_view(spans@).take(spans@.len() as int) =~= fields_view(spans@));
}

/// Lays out the log line of an event; see `spec_event_line`. `spans` are
/// the names and field texts of the spans the event was logged in, root
/// first, or `None` where it was logged in none.
pub fn event_line(
    time: &str,
    level: LogLevel,
    file: Option<&str>,
    line: Option<u32>,
    event: &EventFields,
    spans: Option<&Vec<(String, String)>>,
) -> (pieces: Vec<Piece>)
    ensures
        pieces_view(pieces@) == spec_event_line(
            time@,
            level,
            match file {
                Some(f) => Some(f@),
                None => None,
            },
            line,
            event.message_view(),
            fields_view(event.fields@),
            match spans {
                Some(s) => Some(fields_view(s@)),
                None => None,
            },
        ),
{
    let mut out: Vec<Piece> = Vec::new();
    push_piece(&mut out, Tone::Frame, "[");
    push_piece(&mut out, Tone::Text, time);
    push_piece(&mut out, Tone::Frame, "] ");
    push_piece(&mut out, Tone::Badge(level), badge(level));
    push_piece(&mut out, Tone::Plain, " ");
    push_piece(&mut out, Tone::Frame, "\u{2502}");
    push_piece(&mut out, Tone::Plain, " ");
    let file_text = match file {
        Some(f) => f,
        None => "?",
    };
    let line_number = match line {
        Some(l) => l,
        None => 0,
    };
    let location = AnsiFormatter::format_path(file_text, line_number);
    push_piece(&mut out, Tone::Dim, location.as_str());
    push_piece(&mut out, Tone::Frame, " \u{276f} ");
    let lead = match &event.message {
        Some(m) => {
            push_piece(&mut out, Tone::Text, m.as_str());
            true
        },
        None => false,
    };
    push_fields(&mut out, &event.fields, lead);
    match spans {
        Some(list) => {
            push_piece(&mut out, Tone::Plain, " ");
            push_piece(&mut out, Tone::Frame, "\u{2507}");
            push_spans(&mut out, list);
        },
        None => {},
    }
    push_piece(&mut out, Tone::Plain, "\n");
    out
}

} // verus!
