//! Composing seven styled fields into one fixed-width status line.
use vstd::prelude::*;
use vstd::string::*;

use crate::style::brackets;
use crate::style::Styler;
use crate::trimmer::trim_long_string;
use crate::trimmer::trimmed;

verus! {

pub const STATUS_WIDTH: usize = 1;

pub const NAME_WIDTH: usize = 20;

pub const STATE_WIDTH: usize = 7;

pub const ENABLED_WIDTH: usize = 9;

pub const PID_WIDTH: usize = 8;

pub const COMMAND_WIDTH: usize = 17;

pub const TIME_WIDTH: usize = 99;

/// The width of a full line: the seven field widths, the six spaces that
/// separate the fields, and the single leading space.
pub const LINE_WIDTH: usize = STATUS_WIDTH + NAME_WIDTH + STATE_WIDTH + ENABLED_WIDTH + PID_WIDTH
    + COMMAND_WIDTH + TIME_WIDTH + 6 + 1;

/// `n` space characters (none when `n` is negative).
pub open spec fn spaces(n: int) -> Seq<char> {
    Seq::new(if n >= 0 {
        n as nat
    } else {
        0
    }, |i: int| ' ')
}

/// One field's slot in the plain case: the trimmed text, left-aligned to the
/// field's width with space characters. Padding is measured against the
/// plain text, so decoration never upsets the widths.
pub open spec fn padded_field(text: Seq<char>, width: int, suffix: Seq<char>) -> Seq<char> {
    let t = trimmed(text, width, suffix);
    t + spaces(width - t.len())
}

/// One field's slot as rendered: the decorated text, followed by the
/// padding that the plain trimmed text alone calls for.
pub open spec fn styled_slot(
    text: Seq<char>,
    styled: Seq<char>,
    width: int,
    suffix: Seq<char>,
) -> Seq<char> {
    let t = trimmed(text, width, suffix);
    styled + spaces(width - t.len())
}

/// Holds when `after` extends `before` by one separating space and the slot
/// of a field whose trimmed text sits intact inside `styled`.
pub open spec fn pushed_slot(
    before: Seq<char>,
    after: Seq<char>,
    text: Seq<char>,
    width: int,
    suffix: Seq<char>,
    styled: Seq<char>,
) -> bool {
    &&& brackets(trimmed(text, width, suffix), styled)
    &&& after == before + " "@ + styled_slot(text, styled, width, suffix)
}

/// Holds when `line` is the seven slots of the fixed schema composed in
/// order, each field's trimmed text sitting intact inside its decorated
/// text `s1` through `s7`.
pub open spec fn composed_status_line(
    line: Seq<char>,
    status_char: Seq<char>,
    name: Seq<char>,
    state: Seq<char>,
    enabled: Seq<char>,
    pid: Seq<char>,
    command: Seq<char>,
    time: Seq<char>,
    s1: Seq<char>,
    s2: Seq<char>,
    s3: Seq<char>,
    s4: Seq<char>,
    s5: Seq<char>,
    s6: Seq<char>,
    s7: Seq<char>,
) -> bool {
    &&& brackets(trimmed(status_char, STATUS_WIDTH as int, ""@), s1)
    &&& brackets(trimmed(name, NAME_WIDTH as int, "..."@), s2)
    &&& brackets(trimmed(state, STATE_WIDTH as int, "..."@), s3)
    &&& brackets(trimmed(enabled, ENABLED_WIDTH as int, "..."@), s4)
    &&& brackets(trimmed(pid, PID_WIDTH as int, "..."@), s5)
    &&& brackets(trimmed(command, COMMAND_WIDTH as int, "..."@), s6)
    &&& brackets(trimmed(time, TIME_WIDTH as int, "..."@), s7)
    &&& line == " "@ + styled_slot(status_char, s1, STATUS_WIDTH as int, ""@) + " "@
        + styled_slot(name, s2, NAME_WIDTH as int, "..."@) + " "@ + styled_slot(
        state,
        s3,
        STATE_WIDTH as int,
        "..."@,
    ) + " "@ + styled_slot(enabled, s4, ENABLED_WIDTH as int, "..."@) + " "@ + styled_slot(
        pid,
        s5,
        PID_WIDTH as int,
        "..."@,
    ) + " "@ + styled_slot(command, s6, COMMAND_WIDTH as int, "..."@) + " "@ + styled_slot(
        time,
        s7,
        TIME_WIDTH as int,
        "..."@,
    )
}

/// The whole line in the plain case: a leading space, then the seven slots
/// of the fixed schema, each preceded by a single separating space — which
/// makes the first space double duty as the lead.
pub open spec fn plain_status_line(
    status_char: Seq<char>,
    name: Seq<char>,
    state: Seq<char>,
    enabled: Seq<char>,
    pid: Seq<char>,
    command: Seq<char>,
    time: Seq<char>,
) -> Seq<char> {
    " "@ + padded_field(status_char, STATUS_WIDTH as int, ""@) + " "@ + padded_field(
        name,
        NAME_WIDTH as int,
        "..."@,
    ) + " "@ + padded_field(state, STATE_WIDTH as int, "..."@) + " "@ + padded_field(
        enabled,
        ENABLED_WIDTH as int,
        "..."@,
    ) + " "@ + padded_field(pid, PID_WIDTH as int, "..."@) + " "@ + padded_field(
        command,
        COMMAND_WIDTH as int,
        "..."@,
    ) + " "@ + padded_field(time, TIME_WIDTH as int, "..."@)
}

fn append_spaces(line: &mut String, n: usize)
    ensures
        final(line)@ == old(line)@ + spaces(n as int),
{
    proof {
        assert(line@ =~= old(line)@ + spaces(0));
    }
    let mut i: usize = 0;
    while i < n
        invariant
            i <= n,
            line@ == old(line)@ + spaces(i as int),
        decreases n - i,
    {
        line.append(" ");
        proof {
            reveal_strlit(" ");
            assert(old(line)@ + spaces(i as int) + " "@ =~= old(line)@ + spaces(i as int + 1));
        }
        i = i + 1;
    }
}

fn push_field<S: Styler>(line: &mut String, text: &str, style: &S, width: usize, suffix: &str)
    requires
        suffix@.len() < width,
    ensures
        final(line)@.len() >= old(line)@.len() + 1 + width,
        exists|styled: Seq<char>|
            pushed_slot(old(line)@, final(line)@, text@, width as int, suffix@, styled),
        style.passes_through() ==> final(line)@ == old(line)@ + " "@ + padded_field(
            text@,
            width as int,
            suffix@,
        ),
{
    let t = trim_long_string(text, width, suffix);
    let t_len = t.as_str().unicode_len();
    let styled = style.apply(t.as_str());
    line.append(" ");
    line.append(styled.as_str());
    let pad = if t_len < width {
        width - t_len
    } else {
        0
    };
    append_spaces(line, pad);
    proof {
        reveal_strlit(" ");
        let (pre, post) = choose|pre: Seq<char>, post: Seq<char>| styled@ == pre + t@ + post;
        assert(styled@.len() >= t@.len());
        assert(line@ =~= old(line)@ + " "@ + styled_slot(text@, styled@, width as int, suffix@));
        assert(pushed_slot(old(line)@, line@, text@, width as int, suffix@, styled@));
        if style.passes_through() {
            assert(line@ =~= old(line)@ + " "@ + padded_field(text@, width as int, suffix@));
        }
    }
}

/// Renders the seven fields of the fixed schema — status character, name,
/// state, enabled flag, process id, command, time — as one line: each text is
/// trimmed to its field's width, decorated by its styler, and left-aligned to
/// that width, the slots separated by single spaces behind a leading space.
/// No trailing newline is appended.
///
/// With pass-through styling the line is exactly the plain composition; with
/// any styling it is never shorter than the full schema width, since padding
/// is measured against the plain text alone.
pub fn format_status_line<S: Styler>(
    status_char: (&str, &S),
    name: (&str, &S),
    state: (&str, &S),
    enabled: (&str, &S),
    pid: (&str, &S),
    command: (&str, &S),
    time: (&str, &S),
) -> (line: String)
    ensures
        line@.len() >= LINE_WIDTH,
        exists|
            s1: Seq<char>,
            s2: Seq<char>,
            s3: Seq<char>,
            s4: Seq<char>,
            s5: Seq<char>,
            s6: Seq<char>,
            s7: Seq<char>,
        |
            composed_status_line(
                line@,
                status_char.0@,
                name.0@,
                state.0@,
                enabled.0@,
                pid.0@,
                command.0@,
                time.0@,
                s1,
                s2,
                s3,
                s4,
                s5,
                s6,
                s7,
            ),
        (status_char.1.passes_through() && name.1.passes_through() && state.1.passes_through()
            && enabled.1.passes_through() && pid.1.passes_through() && command.1.passes_through()
            && time.1.passes_through()) ==> line@ == plain_status_line(
            status_char.0@,
            name.0@,
            state.0@,
            enabled.0@,
            pid.0@,
            command.0@,
            time.0@,
        ),
{
    proof {
        reveal_strlit("");
        reveal_strlit("...");
    }
    let mut line = String::new();
    let ghost l0 = line@;
    push_field(&mut line, status_char.0, status_char.1, STATUS_WIDTH, "");
    let ghost l1 = line@;
    push_field(&mut line, name.0, name.1, NAME_WIDTH, "...");
    let ghost l2 = line@;
    push_field(&mut line, state.0, state.1, STATE_WIDTH, "...");
    let ghost l3 = line@;
    push_field(&mut line, enabled.0, enabled.1, ENABLED_WIDTH, "...");
    let ghost l4 = line@;
    push_field(&mut line, pid.0, pid.1, PID_WIDTH, "...");
    let ghost l5 = line@;
    push_field(&mut line, command.0, command.1, COMMAND_WIDTH, "...");
    let ghost l6 = line@;
    push_field(&mut line, time.0, time.1, TIME_WIDTH, "...");
    proof {
        let s1 = choose|s: Seq<char>|
            pushed_slot(l0, l1, status_char.0@, STATUS_WIDTH as int, ""@, s);
        let s2 = choose|s: Seq<char>| pushed_slot(l1, l2, name.0@, NAME_WIDTH as int, "..."@, s);
        let s3 = choose|s: Seq<char>| pushed_slot(l2, l3, state.0@, STATE_WIDTH as int, "..."@, s);
        let s4 = choose|s: Seq<char>|
            pushed_slot(l3, l4, enabled.0@, ENABLED_WIDTH as int, "..."@, s);
        let s5 = choose|s: Seq<char>| pushed_slot(l4, l5, pid.0@, PID_WIDTH as int, "..."@, s);
        let s6 = choose|s: Seq<char>|
            pushed_slot(l5, l6, command.0@, COMMAND_WIDTH as int, "..."@, s);
        let s7 = choose|s: Seq<char>| pushed_slot(l6, line@, time.0@, TIME_WIDTH as int, "..."@, s);
        assert(line@ =~= " "@ + styled_slot(status_char.0@, s1, STATUS_WIDTH as int, ""@) + " "@
            + styled_slot(name.0@, s2, NAME_WIDTH as int, "..."@) + " "@ + styled_slot(
            state.0@,
            s3,
            STATE_WIDTH as int,
            "..."@,
        ) + " "@ + styled_slot(enabled.0@, s4, ENABLED_WIDTH as int, "..."@) + " "@ + styled_slot(
            pid.0@,
            s5,
            PID_WIDTH as int,
            "..."@,
        ) + " "@ + styled_slot(command.0@, s6, COMMAND_WIDTH as int, "..."@) + " "@ + styled_slot(
            time.0@,
            s7,
            TIME_WIDTH as int,
            "..."@,
        ));
        assert(composed_status_line(
            line@,
            status_char.0@,
            name.0@,
            state.0@,
            enabled.0@,
            pid.0@,
            command.0@,
            time.0@,
            s1,
            s2,
            s3,
            s4,
            s5,
            s6,
            s7,
        ));
        if status_char.1.passes_through() && name.1.passes_through() && state.1.passes_through()
            && enabled.1.passes_through() && pid.1.passes_through() && command.1.passes_through()
            && time.1.passes_through() {
            assert(line@ =~= plain_status_line(
                status_char.0@,
                name.0@,
                state.0@,
                enabled.0@,
                pid.0@,
                command.0@,
                time.0@,
            ));
        }
    }
    line
}

/// Law: in the plain case, when no field runs past its width — the status
/// character is at most one character, every other field strictly shorter
/// than its width — the line's length is exactly the sum of the seven field
/// widths plus the six separating spaces plus the leading space.
pub proof fn lemma_plain_line_width(
    status_char: Seq<char>,
    name: Seq<char>,
    state: Seq<char>,
    enabled: Seq<char>,
    pid: Seq<char>,
    command: Seq<char>,
    time: Seq<char>,
)
    requires
        status_char.len() <= STATUS_WIDTH,
        name.len() < NAME_WIDTH,
        state.len() < STATE_WIDTH,
        enabled.len() < ENABLED_WIDTH,
        pid.len() < PID_WIDTH,
        command.len() < COMMAND_WIDTH,
        time.len() < TIME_WIDTH,
    ensures
        plain_status_line(status_char, name, state, enabled, pid, command, time).len()
            == LINE_WIDTH,
{
    reveal_strlit(" ");
    reveal_strlit("");
    reveal_strlit("...");
    assert(trimmed(status_char, STATUS_WIDTH as int, ""@) =~= status_char);
    assert(padded_field(status_char, STATUS_WIDTH as int, ""@).len() == STATUS_WIDTH);
    assert(padded_field(name, NAME_WIDTH as int, "..."@).len() == NAME_WIDTH);
    assert(padded_field(state, STATE_WIDTH as int, "..."@).len() == STATE_WIDTH);
    assert(padded_field(enabled, ENABLED_WIDTH as int, "..."@).len() == ENABLED_WIDTH);
    assert(padded_field(pid, PID_WIDTH as int, "..."@).len() == PID_WIDTH);
    assert(padded_field(command, COMMAND_WIDTH as int, "..."@).len() == COMMAND_WIDTH);
    assert(padded_field(time, TIME_WIDTH as int, "..."@).len() == TIME_WIDTH);
}

} // verus!
