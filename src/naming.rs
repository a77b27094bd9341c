use std::fmt::Write;

use vstd::prelude::*;

use crate::args::{filename_delimiter, get_filename_delimiter, get_space_character, space_character, Args};
use crate::entry::{opt_view, strings_view, Timestamp};
use crate::file_name::{extension_of, split_file_name, stem_of};

verus! {

/// Names what sanitize_filename makes of a text to let it stand in a file name.
pub uninterp spec fn sanitized(s: Seq<char>) -> Seq<char>;

/// Names what `str::trim` leaves of a text.
pub uninterp spec fn trimmed(s: Seq<char>) -> Seq<char>;

/// Names the text chrono renders for a moment, seen at a UTC offset, under a
/// strftime-style format; none where chrono cannot render it.
pub uninterp spec fn time_text(secs: int, nanos: int, offset_secs: int, format: Seq<char>) -> Option<
    Seq<char>,
>;

/// Relies on sanitize_filename::sanitize with its default options: removes the
/// characters and names that a file name may not hold.
#[verifier::external_body]
fn sanitize(s: &str) -> (r: String)
    ensures
        r@ == sanitized(s@),
{
    sanitize_filename::sanitize(s)
}

/// Relies on `str::trim`: removes the whitespace at both ends.
#[verifier::external_body]
pub(crate) fn trim(s: &str) -> (r: String)
    ensures
        r@ == trimmed(s@),
{
    s.trim().to_string()
}

/// Relies on chrono's DateTime::from_timestamp, FixedOffset::east_opt,
/// DateTime::with_timezone and DateTime::format: the moment as local time at
/// the given offset, rendered under `format`. Gives none where the moment or
/// the offset is out of chrono's range or the format holds an item that
/// chrono cannot render.
#[verifier::external_body]
fn render_time(t: &Timestamp, format: &str) -> (r: Option<String>)
    ensures
        opt_view(r) == time_text(t.secs as int, t.nanos as int, t.offset_secs as int, format@),
{
    let offset = chrono::FixedOffset::east_opt(t.offset_secs)?;
    let moment = chrono::DateTime::from_timestamp(t.secs, t.nanos)?.with_timezone(&offset);
    let mut text = String::new();
    match write!(text, "{}", moment.format(format)) {
        Ok(()) => Some(text),
        Err(_) => None,
    }
}

/// The format of the time part of a new name when no custom format is given:
/// the date alone, or date and time on a 12-hour or a 24-hour clock, with the
/// chosen space character between date and time.
pub open spec fn time_format(date: bool, twelve: bool, space: bool) -> Seq<char> {
    if date {
        "%Y-%m-%d"@
    } else if twelve {
        "%Y-%m-%d"@ + space_character(space) + "%I-%M-%S-%p"@
    } else {
        "%Y-%m-%d"@ + space_character(space) + "%H-%M-%S"@
    }
}

/// The time part of a new name: a custom format, sanitized after rendering,
/// wins over the date alone, which wins over date and time.
pub open spec fn time_segment(cli: Args, t: Timestamp) -> Option<Seq<char>> {
    match cli.format {
        Some(f) => match time_text(t.secs as int, t.nanos as int, t.offset_secs as int, f@) {
            Some(text) => Some(sanitized(text)),
            None => None,
        },
        None => time_text(
            t.secs as int,
            t.nanos as int,
            t.offset_secs as int,
            time_format(cli.date, cli.twelve, cli.space),
        ),
    }
}

/// The text part of a new name: the added text, trimmed and sanitized, or
/// nothing.
pub open spec fn text_segment(cli: Args) -> Seq<char> {
    match cli.name {
        Some(n) => trimmed(sanitized(trimmed(n@))),
        None => Seq::empty(),
    }
}

/// The original-name part of a new name: the sanitized stem, or nothing.
pub open spec fn original_segment(cli: Args, name: Seq<char>) -> Seq<char> {
    if cli.no_name {
        Seq::empty()
    } else {
        sanitized(stem_of(name))
    }
}

/// The three parts of a new name in the order that the options ask for.
pub open spec fn ordered_parts(
    front: bool,
    suffix: bool,
    time: Seq<char>,
    text: Seq<char>,
    original: Seq<char>,
) -> Seq<Seq<char>> {
    if front {
        if suffix {
            seq![time, original, text]
        } else {
            seq![time, text, original]
        }
    } else {
        if suffix {
            seq![original, time, text]
        } else {
            seq![text, original, time]
        }
    }
}

/// The non-empty parts, joined by `delimiter`.
pub open spec fn join_nonempty(parts: Seq<Seq<char>>, delimiter: Seq<char>) -> Seq<char>
    decreases parts.len(),
{
    if parts.len() == 0 {
        Seq::empty()
    } else {
        let init = join_nonempty(parts.drop_last(), delimiter);
        let last = parts.last();
        if last.len() == 0 {
            init
        } else if init.len() == 0 {
            last
        } else {
            init + delimiter + last
        }
    }
}

/// A stem followed by a dot and the extension, or the stem alone where the
/// extension is empty.
pub open spec fn with_extension(stem: Seq<char>, extension: Seq<char>) -> Seq<char> {
    if extension.len() == 0 {
        stem
    } else {
        stem + "."@ + extension
    }
}

/// The new name of a file called `name` that was last modified at `t`; none
/// where its time cannot be rendered.
pub open spec fn destination_name(cli: Args, name: Seq<char>, t: Timestamp) -> Option<Seq<char>> {
    match time_segment(cli, t) {
        Some(time) => Some(
            with_extension(
                join_nonempty(
                    ordered_parts(
                        cli.front,
                        cli.suffix,
                        time,
                        text_segment(cli),
                        original_segment(cli, name),
                    ),
                    filename_delimiter(),
                ),
                sanitized(extension_of(name)),
            ),
        ),
        None => None,
    }
}

/// Builds the format of the time part used when no custom format is given.
fn build_time_format(cli: &Args) -> (r: String)
    ensures
        r@ == time_format(cli.date, cli.twelve, cli.space),
{
    let mut format = String::from_str("%Y-%m-%d");
    proof {
        reveal_strlit("%Y-%m-%d");
    }
    if cli.date {
        return format;
    }
    let space = get_space_character(cli);
    format.append(space.as_str());
    if cli.twelve {
        format.append("%I-%M-%S-%p");
        proof {
            reveal_strlit("%I-%M-%S-%p");
        }
    } else {
        format.append("%H-%M-%S");
        proof {
            reveal_strlit("%H-%M-%S");
        }
    }
    format
}

/// Renders the time part of a new name for a file modified at `modified`.
pub fn format_time(cli: &Args, modified: &Timestamp) -> (r: Option<String>)
    ensures
        opt_view(r) == time_segment(*cli, *modified),
{
    match &cli.format {
        Some(f) => match render_time(modified, f.as_str()) {
            Some(text) => Some(sanitize(text.as_str())),
            None => None,
        },
        None => {
            let format = build_time_format(cli);
            render_time(modified, format.as_str())
        },
    }
}

/// Joins the non-empty parts by `delimiter`.
fn join_parts(parts: &Vec<String>, delimiter: &str) -> (r: String)
    ensures
        r@ == join_nonempty(strings_view(parts@), delimiter@),
{
    let mut joined = String::new();
    let mut i: usize = 0;
    while i < parts.len()
        invariant
            i <= parts.len(),
            joined@ == join_nonempty(strings_view(parts@).subrange(0, i as int), delimiter@),
        decreases parts.len() - i,
    {
        let part = parts[i].as_str();
        proof {
            let prefix = strings_view(parts@).subrange(0, i + 1);
            assert(prefix.drop_last() =~= strings_view(parts@).subrange(0, i as int));
            assert(prefix.last() == parts@[i as int]@);
        }
        if part.unicode_len() > 0 {
            if joined.as_str().unicode_len() > 0 {
                joined.append(delimiter);
            }
            joined.append(part);
        }
        i = i + 1;
    }
    proof {
        assert(strings_view(parts@).subrange(0, parts@.len() as int) =~= strings_view(parts@));
    }
    joined
}

/// Computes the new name of a directory entry: its time part, the added text
/// and its original stem, in the order the options ask for, joined by the
/// delimiter, followed by its extension. Gives none where the time cannot be
/// rendered.
pub fn get_image_destination(cli: &Args, name: &str, modified: &Timestamp) -> (r: Option<String>)
    ensures
        opt_view(r) == destination_name(*cli, name@, *modified),
{
    let time = match format_time(cli, modified) {
        Some(t) => t,
        None => return None,
    };
    let text = match &cli.name {
        Some(n) => {
            let inner = trim(n.as_str());
            let clean = sanitize(inner.as_str());
            trim(clean.as_str())
        },
        None => String::new(),
    };
    let (stem, ext) = split_file_name(name);
    let original = if cli.no_name {
        String::new()
    } else {
        sanitize(stem.as_str())
    };
    let mut parts: Vec<String> = Vec::new();
    if cli.front {
        parts.push(time);
        if cli.suffix {
            parts.push(original);
            parts.push(text);
        } else {
            parts.push(text);
            parts.push(original);
        }
    } else if cli.suffix {
        parts.push(original);
        parts.push(time);
        parts.push(text);
    } else {
        parts.push(text);
        parts.push(original);
        parts.push(time);
    }
    proof {
        assert(strings_view(parts@) =~= ordered_parts(
            cli.front,
            cli.suffix,
            time_segment(*cli, *modified)->0,
            text_segment(*cli),
            original_segment(*cli, name@),
        ));
    }
    let delimiter = get_filename_delimiter();
    let mut new_name = join_parts(&parts, delimiter.as_str());
    let extension = sanitize(ext.as_str());
    if extension.as_str().unicode_len() > 0 {
        new_name.append(".");
        proof {
            reveal_strlit(".");
        }
        new_name.append(extension.as_str());
    }
    Some(new_name)
}

/// The new name of a file is a function of its name, its modification time
/// and the options alone: computing it again from the same inputs gives the
/// same name.
pub proof fn naming_is_deterministic(
    cli: Args,
    name: Seq<char>,
    t: Timestamp,
    first: Option<Seq<char>>,
    second: Option<Seq<char>>,
)
    requires
        first == destination_name(cli, name, t),
        second == destination_name(cli, name, t),
    ensures
        first == second,
{
}

} // verus!
