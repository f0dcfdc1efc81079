//! The mathematical model of the newline-run scanner.
//!
//! An edit is a single left-to-right pass over the input's characters.  The
//! scanner counts consecutive newline units; when the count reaches the
//! trigger the replacement text is emitted in place of the counted newlines,
//! and the count restarts at zero.  A run that ends (at an ordinary character
//! or at the end of the input) before reaching the trigger is written out as
//! literal newlines.  A trigger of zero turns the whole edit into the
//! identity transform.

use vstd::prelude::*;

use crate::editor::EditType;
use crate::editor::NewlineType;

verus! {

/// One newline unit as written in the given style.
pub open spec fn newline_seq(style: NewlineType) -> Seq<char> {
    match style {
        NewlineType::Lf => seq!['\n'],
        NewlineType::Crlf => seq!['\r', '\n'],
    }
}

/// `k` literal newline units in the given style.
pub open spec fn repeat_newlines(style: NewlineType, k: nat) -> Seq<char>
    decreases k,
{
    if k == 0 {
        Seq::empty()
    } else {
        repeat_newlines(style, (k - 1) as nat) + newline_seq(style)
    }
}

/// The scanner's transient state.
///
/// `count` is how many consecutive newline units have been seen since the
/// last ordinary character or the last firing.  `pending_cr` records a
/// carriage return whose classification (half of a CRLF unit, or a literal
/// character) depends on the next character; it is only ever set in CRLF
/// style.
pub ghost struct ScanState {
    pub count: nat,
    pub pending_cr: bool,
}

/// The state the scanner starts in.
pub open spec fn init_state() -> ScanState {
    ScanState { count: 0, pending_cr: false }
}

/// A completed newline unit: the count advances, and fires at the trigger.
pub open spec fn step_newline(trigger: nat, rep: Seq<char>, count: nat) -> (ScanState, Seq<char>) {
    if count + 1 == trigger {
        (init_state(), rep)
    } else {
        (ScanState { count: count + 1, pending_cr: false }, Seq::empty())
    }
}

/// One character of the scan: the new state and the characters emitted.
///
/// In LF style every `'\n'` is one newline unit and every other character
/// (a carriage return included) is ordinary.  In CRLF style `"\r\n"` counts
/// as one unit on its `'\n'` half; a carriage return not followed by `'\n'`
/// is copied through literally, and a bare `'\n'` counts like a unit and is
/// re-emitted as a full `"\r\n"` when flushed.  An ordinary character is
/// always preceded by the pending run written out literally.
pub open spec fn step(
    style: NewlineType,
    trigger: nat,
    rep: Seq<char>,
    st: ScanState,
    c: char,
) -> (ScanState, Seq<char>) {
    if st.pending_cr {
        if c == '\n' {
            step_newline(trigger, rep, st.count)
        } else if c == '\r' {
            (
                ScanState { count: 0, pending_cr: true },
                repeat_newlines(style, st.count) + seq!['\r'],
            )
        } else {
            (
                ScanState { count: 0, pending_cr: false },
                repeat_newlines(style, st.count) + seq!['\r', c],
            )
        }
    } else {
        if style == NewlineType::Crlf && c == '\r' {
            (ScanState { count: st.count, pending_cr: true }, Seq::empty())
        } else if c == '\n' {
            step_newline(trigger, rep, st.count)
        } else {
            (
                ScanState { count: 0, pending_cr: false },
                repeat_newlines(style, st.count) + seq![c],
            )
        }
    }
}

/// The scan run from state `st` over all of `s`: the final state and the
/// characters emitted along the way.
pub open spec fn scan_from(
    style: NewlineType,
    trigger: nat,
    rep: Seq<char>,
    st: ScanState,
    s: Seq<char>,
) -> (ScanState, Seq<char>)
    decreases s.len(),
{
    if s.len() == 0 {
        (st, Seq::empty())
    } else {
        let prev = scan_from(style, trigger, rep, st, s.drop_last());
        let cur = step(style, trigger, rep, prev.0, s.last());
        (cur.0, prev.1 + cur.1)
    }
}

/// What a finished scan still owes: the pending run written out as literal
/// newlines, then a pending carriage return, if any.
pub open spec fn flush_out(style: NewlineType, st: ScanState) -> Seq<char> {
    repeat_newlines(style, st.count) + if st.pending_cr {
        seq!['\r']
    } else {
        Seq::<char>::empty()
    }
}

/// The whole edit: the identity when the trigger is zero, otherwise the scan
/// of the input followed by the final flush.
pub open spec fn edit_spec(rep: Seq<char>, trigger: nat, style: NewlineType, s: Seq<char>) -> Seq<
    char,
> {
    if trigger == 0 {
        s
    } else {
        let r = scan_from(style, trigger, rep, init_state(), s);
        r.1 + flush_out(style, r.0)
    }
}

/// The replacement string assembled for an edit mode: the user text placed
/// after (append), before (insert), or instead of (replace) `trigger` literal
/// newline units.
pub open spec fn replacement_spec(
    text: Seq<char>,
    trigger: nat,
    mode: EditType,
    style: NewlineType,
) -> Seq<char> {
    match mode {
        EditType::Append => repeat_newlines(style, trigger) + text,
        EditType::Insert => text + repeat_newlines(style, trigger),
        EditType::Replace => text,
    }
}

/// A trigger of zero makes the edit the identity transform: for every
/// replacement, every style and every input, the output equals the input
/// exactly.
pub proof fn lemma_zero_trigger_identity(rep: Seq<char>, style: NewlineType, s: Seq<char>)
    ensures
        edit_spec(rep, 0, style, s) == s,
{
}

/// Text without newline or carriage-return characters passes through every
/// edit unchanged, whatever the trigger and the replacement.
pub proof fn lemma_ordinary_text_unchanged(
    rep: Seq<char>,
    trigger: nat,
    style: NewlineType,
    s: Seq<char>,
)
    requires
        forall|i: int| 0 <= i < s.len() ==> s[i] != '\n' && s[i] != '\r',
    ensures
        edit_spec(rep, trigger, style, s) == s,
{
    if trigger > 0 {
        lemma_scan_ordinary(style, trigger, rep, s);
        assert(scan_from(style, trigger, rep, init_state(), s).1 + flush_out(style, init_state())
            =~= s);
    }
}

/// Scanning ordinary text emits it verbatim and never leaves the initial
/// state.
proof fn lemma_scan_ordinary(style: NewlineType, trigger: nat, rep: Seq<char>, s: Seq<char>)
    requires
        forall|i: int| 0 <= i < s.len() ==> s[i] != '\n' && s[i] != '\r',
    ensures
        scan_from(style, trigger, rep, init_state(), s) == (init_state(), s),
    decreases s.len(),
{
    if s.len() > 0 {
        assert(forall|i: int|
            0 <= i < s.drop_last().len() ==> s.drop_last()[i] != '\n' && s.drop_last()[i] != '\r');
        lemma_scan_ordinary(style, trigger, rep, s.drop_last());
        assert(s.last() != '\n' && s.last() != '\r');
        assert(repeat_newlines(style, 0) + seq![s.last()] =~= seq![s.last()]);
        assert(s.drop_last() + seq![s.last()] =~= s);
    }
}

/// A stream split into chunks, put back together.
pub open spec fn concat_chunks(chunks: Seq<Seq<char>>) -> Seq<char>
    decreases chunks.len(),
{
    if chunks.len() == 0 {
        Seq::empty()
    } else {
        concat_chunks(chunks.drop_last()) + chunks.last()
    }
}

/// The streaming engine's run over a sequence of chunks: each chunk is
/// scanned from the state the previous chunk left behind, and the emitted
/// text accumulates in order.
pub open spec fn stream_scan(
    style: NewlineType,
    trigger: nat,
    rep: Seq<char>,
    chunks: Seq<Seq<char>>,
) -> (ScanState, Seq<char>)
    decreases chunks.len(),
{
    if chunks.len() == 0 {
        (init_state(), Seq::empty())
    } else {
        let prev = stream_scan(style, trigger, rep, chunks.drop_last());
        let cur = scan_from(style, trigger, rep, prev.0, chunks.last());
        (cur.0, prev.1 + cur.1)
    }
}

/// Everything the streaming engine writes for a stream delivered as the
/// given chunks: the text emitted chunk by chunk, then the final flush.
pub open spec fn stream_output(
    rep: Seq<char>,
    trigger: nat,
    style: NewlineType,
    chunks: Seq<Seq<char>>,
) -> Seq<char> {
    if trigger == 0 {
        concat_chunks(chunks)
    } else {
        let r = stream_scan(style, trigger, rep, chunks);
        r.1 + flush_out(style, r.0)
    }
}

/// The in-memory and the streaming engine agree: for every configuration
/// and every input, what the streaming engine writes for the input
/// delivered in chunks — however it is split — equals, character for
/// character, the in-memory edit of the whole input.
pub proof fn lemma_streaming_equivalence(
    rep: Seq<char>,
    trigger: nat,
    style: NewlineType,
    chunks: Seq<Seq<char>>,
)
    ensures
        stream_output(rep, trigger, style, chunks) == edit_spec(
            rep,
            trigger,
            style,
            concat_chunks(chunks),
        ),
{
    if trigger > 0 {
        lemma_stream_scan_is_scan(style, trigger, rep, chunks);
    }
}

/// The chunk-by-chunk scan equals the scan of the concatenated stream.
proof fn lemma_stream_scan_is_scan(
    style: NewlineType,
    trigger: nat,
    rep: Seq<char>,
    chunks: Seq<Seq<char>>,
)
    ensures
        stream_scan(style, trigger, rep, chunks) == scan_from(
            style,
            trigger,
            rep,
            init_state(),
            concat_chunks(chunks),
        ),
    decreases chunks.len(),
{
    if chunks.len() == 0 {
    } else {
        lemma_stream_scan_is_scan(style, trigger, rep, chunks.drop_last());
        lemma_scan_from_append(
            style,
            trigger,
            rep,
            init_state(),
            concat_chunks(chunks.drop_last()),
            chunks.last(),
        );
    }
}

/// Extending a scan by one character applies one `step` to its final state.
pub proof fn lemma_scan_from_push(
    style: NewlineType,
    trigger: nat,
    rep: Seq<char>,
    st: ScanState,
    s: Seq<char>,
    c: char,
)
    ensures
        ({
            let prev = scan_from(style, trigger, rep, st, s);
            let cur = step(style, trigger, rep, prev.0, c);
            scan_from(style, trigger, rep, st, s.push(c)) == (cur.0, prev.1 + cur.1)
        }),
{
    assert(s.push(c).drop_last() =~= s);
    assert(s.push(c).last() == c);
}

/// A scan over a concatenation is the first scan continued by the second:
/// the second part starts in the state the first part ended in, and the
/// emitted text is the two emissions in order.
pub proof fn lemma_scan_from_append(
    style: NewlineType,
    trigger: nat,
    rep: Seq<char>,
    st: ScanState,
    s1: Seq<char>,
    s2: Seq<char>,
)
    ensures
        ({
            let first = scan_from(style, trigger, rep, st, s1);
            let second = scan_from(style, trigger, rep, first.0, s2);
            scan_from(style, trigger, rep, st, s1 + s2) == (second.0, first.1 + second.1)
        }),
    decreases s2.len(),
{
    let first = scan_from(style, trigger, rep, st, s1);
    if s2.len() == 0 {
        assert(s1 + s2 =~= s1);
        assert(first.1 + scan_from(style, trigger, rep, first.0, s2).1 =~= first.1);
    } else {
        lemma_scan_from_append(style, trigger, rep, st, s1, s2.drop_last());
        assert((s1 + s2).drop_last() =~= s1 + s2.drop_last());
        assert((s1 + s2).last() == s2.last());
        let mid = scan_from(style, trigger, rep, first.0, s2.drop_last());
        let cur = step(style, trigger, rep, mid.0, s2.last());
        assert(first.1 + (mid.1 + cur.1) =~= (first.1 + mid.1) + cur.1);
    }
}

} // verus!
