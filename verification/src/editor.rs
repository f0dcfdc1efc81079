//! The editor configuration and the in-memory substitution engine.

use vstd::prelude::*;

use crate::model::ScanState;
use crate::model::edit_spec;
use crate::model::newline_seq;
use crate::model::repeat_newlines;
use crate::model::step;
use crate::model::step_newline;

verus! {

/// Which action to implement when editing.
#[derive(Debug, Clone, Copy, PartialEq, Eq, Hash)]
pub enum EditType {
    /// New edits will appear after newlines.
    Append,
    /// New edits will appear before newlines.
    Insert,
    /// New edits will appear instead of newlines.
    Replace,
}

/// The two types of newline.
#[derive(Debug, Clone, Copy, PartialEq, Eq, Hash)]
pub enum NewlineType {
    /// Line ending: `\n`.
    Lf,
    /// Line ending: `\r\n`.
    Crlf,
}

impl NewlineType {
    /// The literal character sequence of one newline unit.
    pub fn as_str(&self) -> (r: &'static str)
        ensures
            r@ == newline_seq(*self),
    {
        match self {
            NewlineType::Lf => {
                proof {
                    reveal_strlit("\n");
                    assert("\n"@ =~= newline_seq(NewlineType::Lf));
                }
                "\n"
            },
            NewlineType::Crlf => {
                proof {
                    reveal_strlit("\r\n");
                    assert("\r\n"@ =~= newline_seq(NewlineType::Crlf));
                }
                "\r\n"
            },
        }
    }
}

/// Line-ending text editor.
///
/// Replaces line endings with `replace` whenever the number of consecutive
/// newlines reaches `newlines`.  A `newlines` count of zero disables the
/// replacement entirely, making the editor an identity transform.  The
/// editor holds no mutable state and can be reused across any number of
/// edits.
#[derive(Debug, Clone, PartialEq, Eq, Hash)]
pub struct Editor {
    /// Text to replace newlines with.
    pub replace: String,
    /// Number of newlines to trigger the replacement.
    pub newlines: u8,
    /// Line ending type.
    pub line_ending: NewlineType,
}

impl Editor {
    /// Create a new editor.
    ///
    /// - `replace`: string to replace newlines with.
    /// - `newlines`: number of newlines to trigger the replacement.
    /// - `line_ending`: type of newline to use.
    pub fn new(replace: String, newlines: u8, line_ending: NewlineType) -> (r: Editor)
        ensures
            r.replace == replace,
            r.newlines == newlines,
            r.line_ending == line_ending,
    {
        Editor { replace, newlines, line_ending }
    }

    /// Edit the input's newlines.
    ///
    /// Produces a new string edited according to how this editor was
    /// constructed; the input is never mutated.  The result is a pure
    /// function of the configuration and the input, so one editor can be
    /// used for any number of edits, concurrently or in sequence, without
    /// any state carrying over from call to call.
    pub fn edit(&self, input: &str) -> (r: String)
        ensures
            r@ == edit_spec(self.replace@, self.newlines as nat, self.line_ending, input@),
    {
        let mut scanner = crate::stream::BufEditor::new(
            self.replace.clone(),
            self.newlines,
            self.line_ending,
        );
        let ghost fresh = scanner;
        let mut output = scanner.feed(input);
        proof {
            assert(fresh.emitted() =~= Seq::<char>::empty());
            assert(output@ =~= scanner.emitted());
        }
        let tail = scanner.finish();
        output.append(tail.as_str());
        output
    }
}

/// Relies on `String`'s `FromIterator<char>` impl: collecting characters
/// yields the string made of exactly those characters in order.
#[verifier::external_body]
pub(crate) fn chars_to_string(v: &Vec<char>) -> (r: String)
    ensures
        r@ == v@,
{
    v.iter().collect()
}

/// Appends every character of `s` to `output`.
pub(crate) fn push_chars_of(output: &mut Vec<char>, s: &str)
    ensures
        final(output)@ == old(output)@ + s@,
{
    let len = s.unicode_len();
    let mut i: usize = 0;
    while i < len
        invariant
            i <= len,
            len == s@.len(),
            output@ == old(output)@ + s@.take(i as int),
        decreases len - i,
    {
        output.push(s.get_char(i));
        proof {
            assert(s@.take(i as int + 1) =~= s@.take(i as int).push(s@[i as int]));
            assert(old(output)@ + s@.take(i as int + 1) =~= (old(output)@ + s@.take(
                i as int,
            )).push(s@[i as int]));
        }
        i += 1;
    }
    proof {
        assert(s@.take(len as int) =~= s@);
    }
}

impl Editor {
    /// Writes `count` literal newline units in this editor's style.
    pub(crate) fn flush_pending(&self, output: &mut Vec<char>, nl_count: u8)
        ensures
            final(output)@ == old(output)@ + repeat_newlines(self.line_ending, nl_count as nat),
    {
        let mut k: u8 = 0;
        while k < nl_count
            invariant
                k <= nl_count,
                output@ == old(output)@ + repeat_newlines(self.line_ending, k as nat),
        decreases nl_count - k,
        {
            match self.line_ending {
                NewlineType::Lf => {
                    output.push('\n');
                    proof {
                        assert(repeat_newlines(NewlineType::Lf, k as nat + 1) =~= repeat_newlines(
                            NewlineType::Lf,
                            k as nat,
                        ) + seq!['\n']);
                        assert(old(output)@ + repeat_newlines(NewlineType::Lf, k as nat + 1)
                            =~= (old(output)@ + repeat_newlines(NewlineType::Lf, k as nat)).push(
                            '\n',
                        ));
                    }
                },
                NewlineType::Crlf => {
                    output.push('\r');
                    output.push('\n');
                    proof {
                        assert(repeat_newlines(NewlineType::Crlf, k as nat + 1) =~= repeat_newlines(
                            NewlineType::Crlf,
                            k as nat,
                        ) + seq!['\r', '\n']);
                        assert(old(output)@ + repeat_newlines(NewlineType::Crlf, k as nat + 1)
                            =~= (old(output)@ + repeat_newlines(NewlineType::Crlf, k as nat)).push(
                            '\r',
                        ).push('\n'));
                    }
                },
            }
            k = k + 1;
        }
    }

    /// One complete newline unit: advances the run count, firing the
    /// replacement when the count reaches the trigger.
    pub(crate) fn handle_newline(&self, output: &mut Vec<char>, nl_count: u8) -> (r: u8)
        requires
            self.newlines > 0,
            nl_count < self.newlines,
        ensures
            ({
                let sr = step_newline(self.newlines as nat, self.replace@, nl_count as nat);
                &&& r as nat == sr.0.count
                &&& !sr.0.pending_cr
                &&& final(output)@ == old(output)@ + sr.1
            }),
            r < self.newlines,
    {
        let next = nl_count + 1;
        if next == self.newlines {
            push_chars_of(output, self.replace.as_str());
            0
        } else {
            proof {
                assert(output@ =~= old(output)@ + Seq::<char>::empty());
            }
            next
        }
    }

    /// An ordinary character: flushes the pending run as literal newlines,
    /// then copies the character through.
    pub(crate) fn handle_char(&self, output: &mut Vec<char>, c: char, nl_count: u8) -> (r: u8)
        ensures
            r == 0,
            final(output)@ == old(output)@ + repeat_newlines(self.line_ending, nl_count as nat)
                + seq![c],
    {
        self.flush_pending(output, nl_count);
        output.push(c);
        proof {
            assert(old(output)@ + repeat_newlines(self.line_ending, nl_count as nat) + seq![c]
                =~= (old(output)@ + repeat_newlines(self.line_ending, nl_count as nat)).push(c));
        }
        0
    }

    /// One character of the scan, in whichever style this editor uses.
    pub(crate) fn advance_char(
        &self,
        output: &mut Vec<char>,
        nl_count: u8,
        pending_cr: bool,
        c: char,
    ) -> (r: (u8, bool))
        requires
            self.newlines > 0,
            nl_count < self.newlines,
            self.line_ending == NewlineType::Lf ==> !pending_cr,
        ensures
            ({
                let cur = step(
                    self.line_ending,
                    self.newlines as nat,
                    self.replace@,
                    ScanState { count: nl_count as nat, pending_cr },
                    c,
                );
                &&& r.0 as nat == cur.0.count
                &&& r.1 == cur.0.pending_cr
                &&& final(output)@ == old(output)@ + cur.1
            }),
            r.0 < self.newlines,
            self.line_ending == NewlineType::Lf ==> !r.1,
    {
        if pending_cr {
            if c == '\n' {
                (self.handle_newline(output, nl_count), false)
            } else if c == '\r' {
                self.flush_pending(output, nl_count);
                output.push('\r');
                proof {
                    assert(output@ =~= old(output)@ + (repeat_newlines(
                        self.line_ending,
                        nl_count as nat,
                    ) + seq!['\r']));
                }
                (0, true)
            } else {
                self.flush_pending(output, nl_count);
                output.push('\r');
                output.push(c);
                proof {
                    assert(output@ =~= old(output)@ + (repeat_newlines(
                        self.line_ending,
                        nl_count as nat,
                    ) + seq!['\r', c]));
                }
                (0, false)
            }
        } else {
            let is_crlf = match self.line_ending {
                NewlineType::Lf => false,
                NewlineType::Crlf => true,
            };
            if is_crlf && c == '\r' {
                proof {
                    assert(output@ =~= old(output)@ + Seq::<char>::empty());
                }
                (nl_count, true)
            } else if c == '\n' {
                (self.handle_newline(output, nl_count), false)
            } else {
                (self.handle_char(output, c, nl_count), false)
            }
        }
    }
}

impl Default for Editor {
    /// An editor that makes no changes to input text.
    fn default() -> (r: Editor)
        ensures
            r.replace@ == Seq::<char>::empty(),
            r.newlines == 0,
            r.line_ending == NewlineType::Lf,
    {
        Editor { replace: String::new(), newlines: 0, line_ending: NewlineType::Lf }
    }
}

} // verus!
