//! The streaming substitution engine.
//!
//! A [`BufEditor`] carries the scanner state between chunks of input, so a
//! stream can be edited one buffered line at a time with memory bounded by
//! one line.  Its substitution policy is exactly the in-memory engine's: the
//! text written for a whole stream equals [`crate::edit_spec`] of the
//! stream's content (see [`crate::lemma_streaming_equivalence`]).

use vstd::prelude::*;

use crate::editor::Editor;
use crate::editor::NewlineType;
use crate::editor::chars_to_string;
use crate::model::ScanState;
use crate::model::edit_spec;
use crate::model::flush_out;
use crate::model::init_state;
use crate::model::lemma_scan_from_append;
use crate::model::lemma_scan_from_push;
use crate::model::scan_from;

verus! {

/// Streaming line-ending text editor.
///
/// Holds the same configuration as an [`Editor`] together with the
/// scanner's transient run state, so that input may arrive in chunks.
/// [`BufEditor::feed`] consumes one chunk and returns what can be written
/// out so far; [`BufEditor::finish`] ends the stream, returns the final
/// flush, and resets the scanner for reuse.
pub struct BufEditor {
    /// The configuration the scan follows.
    pub editor: Editor,
    /// Consecutive newline units seen since the last ordinary character or
    /// the last firing.
    pub nl_count: u8,
    /// Whether a carriage return is waiting for the character after it.
    pub pending_cr: bool,
    /// Everything consumed since the scanner was created or last finished.
    pub consumed: Ghost<Seq<char>>,
}

impl BufEditor {
    /// The scanner state agrees with the scan of everything consumed so far.
    pub open spec fn wf(&self) -> bool {
        &&& self.editor.line_ending == NewlineType::Lf ==> !self.pending_cr
        &&& if self.editor.newlines == 0 {
            self.nl_count == 0 && !self.pending_cr
        } else {
            let st = scan_from(
                self.editor.line_ending,
                self.editor.newlines as nat,
                self.editor.replace@,
                init_state(),
                self.consumed@,
            ).0;
            &&& self.nl_count as nat == st.count
            &&& self.pending_cr == st.pending_cr
            &&& self.nl_count < self.editor.newlines
        }
    }

    /// Everything this scanner has emitted since it was created or last
    /// finished.
    pub open spec fn emitted(&self) -> Seq<char> {
        if self.editor.newlines == 0 {
            self.consumed@
        } else {
            scan_from(
                self.editor.line_ending,
                self.editor.newlines as nat,
                self.editor.replace@,
                init_state(),
                self.consumed@,
            ).1
        }
    }

    /// Create a new streaming editor.
    ///
    /// The parameters are those of [`Editor::new`].
    pub fn new(replace: String, newlines: u8, line_ending: NewlineType) -> (r: BufEditor)
        ensures
            r.wf(),
            r.editor.replace == replace,
            r.editor.newlines == newlines,
            r.editor.line_ending == line_ending,
            r.consumed@ == Seq::<char>::empty(),
    {
        BufEditor {
            editor: Editor::new(replace, newlines, line_ending),
            nl_count: 0,
            pending_cr: false,
            consumed: Ghost(Seq::empty()),
        }
    }

    /// Consume one chunk of input and return the text the scan emits for it.
    ///
    /// The run state carries over from chunk to chunk, so splitting a stream
    /// into chunks has no effect on what is emitted overall.
    pub fn feed(&mut self, chunk: &str) -> (r: String)
        requires
            old(self).wf(),
        ensures
            final(self).wf(),
            final(self).editor == old(self).editor,
            final(self).consumed@ == old(self).consumed@ + chunk@,
            final(self).emitted() == old(self).emitted() + r@,
    {
        if self.editor.newlines == 0 {
            self.consumed = Ghost(self.consumed@ + chunk@);
            return chunk.to_owned();
        }
        let ghost style = self.editor.line_ending;
        let ghost trigger = self.editor.newlines as nat;
        let ghost rep = self.editor.replace@;
        let ghost st_entry = ScanState {
            count: self.nl_count as nat,
            pending_cr: self.pending_cr,
        };
        let len = chunk.unicode_len();
        let mut output: Vec<char> = Vec::new();
        let mut count: u8 = self.nl_count;
        let mut pending: bool = self.pending_cr;
        let mut i: usize = 0;
        while i < len
            invariant
                i <= len,
                len == chunk@.len(),
                self == old(self),
                self.editor.newlines > 0,
                style == self.editor.line_ending,
                trigger == self.editor.newlines as nat,
                rep == self.editor.replace@,
                count < self.editor.newlines,
                style == NewlineType::Lf ==> !pending,
                ({
                    let sc = scan_from(style, trigger, rep, st_entry, chunk@.take(i as int));
                    &&& count as nat == sc.0.count
                    &&& pending == sc.0.pending_cr
                    &&& output@ == sc.1
                }),
            decreases len - i,
        {
            let c = chunk.get_char(i);
            proof {
                assert(chunk@.take(i as int + 1) =~= chunk@.take(i as int).push(chunk@[i as int]));
                lemma_scan_from_push(style, trigger, rep, st_entry, chunk@.take(i as int), c);
            }
            let next = self.editor.advance_char(&mut output, count, pending, c);
            count = next.0;
            pending = next.1;
            i += 1;
        }
        proof {
            assert(chunk@.take(len as int) =~= chunk@);
            lemma_scan_from_append(style, trigger, rep, init_state(), self.consumed@, chunk@);
        }
        self.nl_count = count;
        self.pending_cr = pending;
        self.consumed = Ghost(self.consumed@ + chunk@);
        chars_to_string(&output)
    }

    /// End the stream: flush the still-pending run as literal newlines (the
    /// trigger cannot fire on an incomplete run at the end of a stream) and
    /// reset the scanner for reuse.
    ///
    /// What was emitted followed by this flush equals the in-memory edit of
    /// everything consumed.
    pub fn finish(&mut self) -> (r: String)
        requires
            old(self).wf(),
        ensures
            final(self).wf(),
            final(self).editor == old(self).editor,
            final(self).consumed@ == Seq::<char>::empty(),
            old(self).emitted() + r@ == edit_spec(
                old(self).editor.replace@,
                old(self).editor.newlines as nat,
                old(self).editor.line_ending,
                old(self).consumed@,
            ),
    {
        let mut output: Vec<char> = Vec::new();
        self.editor.flush_pending(&mut output, self.nl_count);
        if self.pending_cr {
            output.push('\r');
        }
        proof {
            let ghost st = ScanState {
                count: old(self).nl_count as nat,
                pending_cr: old(self).pending_cr,
            };
            assert(output@ =~= flush_out(old(self).editor.line_ending, st));
            if old(self).editor.newlines == 0 {
                assert(flush_out(old(self).editor.line_ending, st) =~= Seq::<char>::empty());
                assert(old(self).emitted() + output@ =~= old(self).consumed@);
            }
        }
        self.nl_count = 0;
        self.pending_cr = false;
        self.consumed = Ghost(Seq::empty());
        chars_to_string(&output)
    }

}

} // verus!
