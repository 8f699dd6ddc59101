use vstd::prelude::*;
use vstd::string::*;

use crate::trace::TraceStatus;

verus! {

/// The line printed in place of a trace when backtrace capture is switched off.
pub open spec fn disabled_note() -> Seq<char> {
    "backtrace disabled; run with RUST_BACKTRACE=1 environment variable to display a backtrace"@
}

/// The decimal digit `d`.
pub open spec fn digit_text(d: nat) -> Seq<char> {
    if d == 0 {
        "0"@
    } else if d == 1 {
        "1"@
    } else if d == 2 {
        "2"@
    } else if d == 3 {
        "3"@
    } else if d == 4 {
        "4"@
    } else if d == 5 {
        "5"@
    } else if d == 6 {
        "6"@
    } else if d == 7 {
        "7"@
    } else if d == 8 {
        "8"@
    } else {
        "9"@
    }
}

/// `n` written in decimal, without leading zeros.
pub open spec fn decimal(n: nat) -> Seq<char>
    decreases n,
{
    if n < 10 {
        digit_text(n)
    } else {
        decimal(n / 10) + digit_text(n % 10)
    }
}

/// One numbered line of the "caused by" block.
pub open spec fn cause_line(index: nat, message: Seq<char>) -> Seq<char> {
    "\t"@ + decimal(index) + ": "@ + message + "\n"@
}

/// The numbered lines for `causes`, counting from zero.
pub open spec fn cause_lines(causes: Seq<Seq<char>>) -> Seq<char>
    decreases causes.len(),
{
    if causes.len() == 0 {
        Seq::empty()
    } else {
        cause_lines(causes.drop_last()) + cause_line((causes.len() - 1) as nat, causes.last())
    }
}

/// The closing section of the debug rendering, after the cause block.
pub open spec fn trace_section(status: TraceStatus, trace: Seq<char>) -> Seq<char> {
    match status {
        TraceStatus::Captured => "\n"@ + trace + "\n"@,
        TraceStatus::Disabled => "\n"@ + disabled_note() + "\n"@,
        TraceStatus::Unsupported => Seq::empty(),
    }
}

/// The multi-line debug rendering of a cause chain whose one-line renderings
/// are `messages` (root first), followed by its backtrace section.
pub open spec fn debug_text(messages: Seq<Seq<char>>, status: TraceStatus, trace: Seq<char>) -> Seq<char> {
    messages[0] + "\n"@ + (if messages.len() > 1 {
        "\ncaused by:\n"@ + cause_lines(messages.subrange(1, messages.len() as int))
    } else {
        Seq::empty()
    }) + trace_section(status, trace)
}

fn digit(d: usize) -> (r: &'static str)
    requires
        d < 10,
    ensures
        r@ == digit_text(d as nat),
{
    if d == 0 {
        "0"
    } else if d == 1 {
        "1"
    } else if d == 2 {
        "2"
    } else if d == 3 {
        "3"
    } else if d == 4 {
        "4"
    } else if d == 5 {
        "5"
    } else if d == 6 {
        "6"
    } else if d == 7 {
        "7"
    } else if d == 8 {
        "8"
    } else {
        "9"
    }
}

fn push_decimal(out: &mut String, n: usize)
    ensures
        final(out)@ == old(out)@ + decimal(n as nat),
    decreases n,
{
    if n >= 10 {
        push_decimal(out, n / 10);
    }
    out.append(digit(n % 10));
    assert(final(out)@ == old(out)@ + decimal(n as nat));
}

/// Renders a cause chain for diagnostics: the root's message on its own line;
/// then, when there are further causes, a blank line, `caused by:` and one
/// tab-indented numbered line per cause; then the backtrace section, which is
/// the trace itself, the note that capture is disabled, or nothing.
pub fn render_debug(messages: &Vec<String>, status: TraceStatus, trace: &str) -> (r: String)
    requires
        messages.len() >= 1,
    ensures
        r@ == debug_text(messages@.map_values(|m: String| m@), status, trace@),
{
    let ghost texts = messages@.map_values(|m: String| m@);
    let mut out = String::new();
    out.append(messages[0].as_str());
    out.append("\n");
    let ghost head = out@;
    if messages.len() > 1 {
        out.append("\ncaused by:\n");
        let ghost start = out@;
        let mut i: usize = 1;
        while i < messages.len()
            invariant
                1 <= i <= messages.len(),
                texts == messages@.map_values(|m: String| m@),
                out@ == start + cause_lines(texts.subrange(1, i as int)),
            decreases messages.len() - i,
        {
            let ghost before = out@;
            out.append("\t");
            push_decimal(&mut out, i - 1);
            out.append(": ");
            out.append(messages[i].as_str());
            out.append("\n");
            proof {
                let done = texts.subrange(1, i + 1);
                assert(done.drop_last() =~= texts.subrange(1, i as int));
                assert(done.last() == texts[i as int]);
                assert(out@ =~= before + cause_line((i - 1) as nat, texts[i as int]));
            }
            i = i + 1;
        }
    }
    match status {
        TraceStatus::Captured => {
            out.append("\n");
            out.append(trace);
            out.append("\n");
        },
        TraceStatus::Disabled => {
            out.append("\n");
            out.append(
                "backtrace disabled; run with RUST_BACKTRACE=1 environment variable to display a backtrace",
            );
            out.append("\n");
        },
        TraceStatus::Unsupported => {},
    }
    proof {
        assert(head =~= texts[0] + "\n"@);
    }
    assert(out@ =~= debug_text(texts, status, trace@));
    out
}

} // verus!
