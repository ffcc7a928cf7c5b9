//! What the command-line output shows: terminal styles, column widths, and the
//! fields of listing rows.
use vstd::prelude::*;
use vstd::string::*;
use crate::client::{FabricItem, JobInstance};
use crate::text::{
    copy_opt_or, eq_ignore_ascii_case, eq_ignore_ascii_case_spec, i64_to_string, signed_decimal,
};

verus! {

/// An ANSI style sequence that renders as nothing in quiet mode.
pub struct Style(pub &'static str);

impl Style {
    /// The text to emit for this style.
    pub fn render(&self, quiet: bool) -> (r: &'static str)
        ensures
            quiet ==> r@ == ""@,
            !quiet ==> r@ == self.0@,
    {
        if quiet {
            ""
        } else {
            self.0
        }
    }
}

/// Cyan foreground.
pub const ANSI_CYAN: &'static str = "\x1b[36m";

/// Dim text.
pub const ANSI_DIM: &'static str = "\x1b[2m";

/// Green foreground.
pub const ANSI_GREEN: &'static str = "\x1b[32m";

/// Red foreground.
pub const ANSI_RED: &'static str = "\x1b[31m";

/// Reset all attributes.
pub const ANSI_RESET: &'static str = "\x1b[0m";

/// Erase the line and return to its start.
pub const ANSI_ERASE: &'static str = "\x1b[2K\r";

/// The mark of a step that succeeded.
pub const CHECK_MARK: &'static str = "\u{2714}";

/// The mark of a step that failed.
pub const CROSS_MARK: &'static str = "\u{2718}";

/// The line a spinner leaves when it finishes: plain text in quiet mode (failures
/// marked "[failed]"), otherwise the line is erased and a coloured mark precedes the
/// dimmed message.
pub open spec fn finish_line_spec(msg: Seq<char>, ok: bool, quiet: bool) -> Seq<char> {
    if quiet {
        if ok {
            "  "@ + msg
        } else {
            "  [failed] "@ + msg
        }
    } else {
        let icon = if ok {
            ANSI_GREEN@ + CHECK_MARK@ + ANSI_RESET@
        } else {
            ANSI_RED@ + CROSS_MARK@ + ANSI_RESET@
        };
        ANSI_ERASE@ + "  "@ + icon + " "@ + ANSI_DIM@ + msg + ANSI_RESET@
    }
}

/// Builds the line a spinner leaves when it finishes.
pub fn finish_line(msg: &str, ok: bool, quiet: bool) -> (r: String)
    ensures
        r@ == finish_line_spec(msg@, ok, quiet),
{
    if quiet {
        let mut l = String::from_str(if ok {
            "  "
        } else {
            "  [failed] "
        });
        l.append(msg);
        return l;
    }
    let mut l = String::from_str(ANSI_ERASE);
    l.append("  ");
    if ok {
        l.append(ANSI_GREEN);
        l.append(CHECK_MARK);
    } else {
        l.append(ANSI_RED);
        l.append(CROSS_MARK);
    }
    l.append(ANSI_RESET);
    l.append(" ");
    l.append(ANSI_DIM);
    l.append(msg);
    l.append(ANSI_RESET);
    l
}

/// The animation frames of the spinner (Braille patterns).
pub open spec fn spinner_frames() -> Seq<Seq<char>> {
    seq![
        "\u{280B}"@,
        "\u{2819}"@,
        "\u{2839}"@,
        "\u{2838}"@,
        "\u{283C}"@,
        "\u{2834}"@,
        "\u{2826}"@,
        "\u{2827}"@,
        "\u{2807}"@,
        "\u{280F}"@,
    ]
}

/// The frame shown at tick `frame`: the frames repeat in order.
pub fn spinner_frame(frame: usize) -> (r: &'static str)
    ensures
        r@ == spinner_frames()[frame as int % 10],
{
    let r = match frame % 10 {
        0 => "\u{280B}",
        1 => "\u{2819}",
        2 => "\u{2839}",
        3 => "\u{2838}",
        4 => "\u{283C}",
        5 => "\u{2834}",
        6 => "\u{2826}",
        7 => "\u{2827}",
        8 => "\u{2807}",
        _ => "\u{280F}",
    };
    r
}

/// How a job status is coloured.
pub enum Tone {
    Good,
    Bad,
    Neutral,
}

/// A job status "completed" (ignoring ASCII case) is good, "failed" is bad,
/// anything else neutral.
pub fn job_status_tone(status: &str) -> (r: Tone)
    ensures
        eq_ignore_ascii_case_spec(status@, "completed"@) ==> r is Good,
        !eq_ignore_ascii_case_spec(status@, "completed"@) && eq_ignore_ascii_case_spec(
            status@,
            "failed"@,
        ) ==> r is Bad,
        !eq_ignore_ascii_case_spec(status@, "completed"@) && !eq_ignore_ascii_case_spec(
            status@,
            "failed"@,
        ) ==> r is Neutral,
{
    if eq_ignore_ascii_case(status, "completed") {
        Tone::Good
    } else if eq_ignore_ascii_case(status, "failed") {
        Tone::Bad
    } else {
        Tone::Neutral
    }
}

/// Byte length of the longest display name, at least 4.
pub open spec fn name_width_spec(items: Seq<FabricItem>) -> nat
    decreases items.len(),
{
    if items.len() == 0 {
        4
    } else {
        let rest = name_width_spec(items.drop_last());
        let here = vstd::utf8::encode_utf8(items.last().display_name@).len();
        if here > rest {
            here
        } else {
            rest
        }
    }
}

/// Width of the name column of `nb list`: the byte length of the longest display
/// name, at least 4.
pub fn name_column_width(items: &Vec<FabricItem>) -> (r: usize)
    ensures
        r == name_width_spec(items@),
{
    let mut w: usize = 4;
    let mut i: usize = 0;
    while i < items.len()
        invariant
            i <= items@.len(),
            w == name_width_spec(items@.subrange(0, i as int)),
        decreases items@.len() - i,
    {
        assert(items@.subrange(0, i + 1).drop_last() =~= items@.subrange(0, i as int));
        let here = items[i].display_name.as_str().as_bytes().len();
        if here > w {
            w = here;
        }
        i = i + 1;
    }
    assert(items@.subrange(0, items@.len() as int) =~= items@);
    w
}

/// `https://app.fabric.microsoft.com/groups/{ws}/synapsenotebooks/{nb}/?experience=fabric-developer`:
/// where a notebook opens in the browser.
pub fn notebook_web_url(ws_id: &str, notebook_id: &str) -> (r: String)
    ensures
        r@ == "https://app.fabric.microsoft.com/groups/"@ + ws_id@ + "/synapsenotebooks/"@
            + notebook_id@ + "/?experience=fabric-developer"@,
{
    let mut u = String::from_str("https://app.fabric.microsoft.com/groups/");
    u.append(ws_id);
    u.append("/synapsenotebooks/");
    u.append(notebook_id);
    u.append("/?experience=fabric-developer");
    u
}

/// A value, or "-" when there is none.
pub open spec fn or_dash(o: Option<String>) -> Seq<char> {
    match o {
        Some(s) => s@,
        None => "-"@,
    }
}

/// The columns of a `nb job list` row: id, status, start and end ("-" when absent).
pub fn job_row(job: &JobInstance) -> (r: (String, String, String, String))
    ensures
        r.0@ == or_dash(job.id),
        r.1@ == or_dash(job.status),
        r.2@ == or_dash(job.start_time_utc),
        r.3@ == or_dash(job.end_time_utc),
{
    (
        copy_opt_or(&job.id, "-"),
        copy_opt_or(&job.status, "-"),
        copy_opt_or(&job.start_time_utc, "-"),
        copy_opt_or(&job.end_time_utc, "-"),
    )
}

/// The description column of `nb list` ("" when absent).
pub fn item_description(item: &FabricItem) -> (r: String)
    ensures
        r@ == (match item.description {
            Some(d) => d@,
            None => ""@,
        }),
{
    copy_opt_or(&item.description, "")
}

/// A Livy session as the notebook's session listing reports it.
pub struct LivySession {
    pub id: Option<i64>,
    pub state: Option<String>,
    pub app_id: Option<String>,
    pub name: Option<String>,
}

/// The columns of a `nb session` row: id, state, application id and name ("-" when
/// absent).
pub fn livy_session_row(s: &LivySession) -> (r: (String, String, String, String))
    ensures
        r.0@ == (match s.id {
            Some(i) => signed_decimal(i as int),
            None => "-"@,
        }),
        r.1@ == or_dash(s.state),
        r.2@ == or_dash(s.app_id),
        r.3@ == or_dash(s.name),
{
    (
        match s.id {
            Some(i) => i64_to_string(i),
            None => "-".to_owned(),
        },
        copy_opt_or(&s.state, "-"),
        copy_opt_or(&s.app_id, "-"),
        copy_opt_or(&s.name, "-"),
    )
}

} // verus!
