//! Convenience functions for creating a configured [`Editor`].
//!
//! Variations are based on the desired type of edit: append, insert, or
//! replace.  Each has a CRLF version.  The assembled editor's replacement
//! string is the user text placed after, before, or instead of `newlines`
//! literal newline units, as [`crate::replacement_spec`] states.

use vstd::prelude::*;

use vstd::string::StringExecFns;

use crate::editor::EditType;
use crate::editor::Editor;
use crate::editor::NewlineType;
use crate::model::newline_seq;
use crate::model::repeat_newlines;
use crate::model::replacement_spec;

verus! {

/// Relies on `String::with_capacity`: creates a new empty string, merely
/// pre-allocating room for at least `capacity` bytes.
pub assume_specification[ String::with_capacity ](capacity: usize) -> (r: String)
    ensures
        r@ == Seq::<char>::empty(),
;

/// Create an [`Editor`] that appends text *after* newlines.
pub fn appender(text: &str, newlines: u8) -> (r: Editor)
    ensures
        r.replace@ == replacement_spec(text@, newlines as nat, EditType::Append, NewlineType::Lf),
        r.newlines == newlines,
        r.line_ending == NewlineType::Lf,
{
    Factory::build(text, newlines, EditType::Append, NewlineType::Lf)
}

/// Create an [`Editor`] that inserts text *before* newlines.
pub fn inserter(text: &str, newlines: u8) -> (r: Editor)
    ensures
        r.replace@ == replacement_spec(text@, newlines as nat, EditType::Insert, NewlineType::Lf),
        r.newlines == newlines,
        r.line_ending == NewlineType::Lf,
{
    Factory::build(text, newlines, EditType::Insert, NewlineType::Lf)
}

/// Create an [`Editor`] that replaces newlines with given text.
pub fn replacer(text: &str, newlines: u8) -> (r: Editor)
    ensures
        r.replace@ == text@,
        r.newlines == newlines,
        r.line_ending == NewlineType::Lf,
{
    Factory::build(text, newlines, EditType::Replace, NewlineType::Lf)
}

/// Create an [`Editor`] that appends text *after* CRLF newlines.
pub fn appender_crlf(text: &str, newlines: u8) -> (r: Editor)
    ensures
        r.replace@ == replacement_spec(text@, newlines as nat, EditType::Append, NewlineType::Crlf),
        r.newlines == newlines,
        r.line_ending == NewlineType::Crlf,
{
    Factory::build(text, newlines, EditType::Append, NewlineType::Crlf)
}

/// Create an [`Editor`] that inserts text *before* CRLF newlines.
pub fn inserter_crlf(text: &str, newlines: u8) -> (r: Editor)
    ensures
        r.replace@ == replacement_spec(text@, newlines as nat, EditType::Insert, NewlineType::Crlf),
        r.newlines == newlines,
        r.line_ending == NewlineType::Crlf,
{
    Factory::build(text, newlines, EditType::Insert, NewlineType::Crlf)
}

/// Create an [`Editor`] that replaces CRLF newlines with given text.
pub fn replacer_crlf(text: &str, newlines: u8) -> (r: Editor)
    ensures
        r.replace@ == text@,
        r.newlines == newlines,
        r.line_ending == NewlineType::Crlf,
{
    Factory::build(text, newlines, EditType::Replace, NewlineType::Crlf)
}

/// The configuration assembler: derives the concrete replacement string an
/// [`Editor`] needs from the high-level edit intent.
struct Factory<'a> {
    /// Text to replace/insert/append.
    text: &'a str,
    /// Type of edit to make to newlines.
    edit_type: EditType,
    /// Line ending type.
    newline: NewlineType,
    /// Number of newlines to trigger replacement.
    trigger: u8,
}

impl<'a> Factory<'a> {
    fn build(text: &'a str, trigger: u8, edit_type: EditType, newline: NewlineType) -> (r: Editor)
        ensures
            r.replace@ == replacement_spec(text@, trigger as nat, edit_type, newline),
            r.newlines == trigger,
            r.line_ending == newline,
    {
        let factory = Factory { text, trigger, edit_type, newline };
        factory.create_editor()
    }

    fn create_editor(&self) -> (r: Editor)
        ensures
            r.replace@ == replacement_spec(
                self.text@,
                self.trigger as nat,
                self.edit_type,
                self.newline,
            ),
            r.newlines == self.trigger,
            r.line_ending == self.newline,
    {
        let replace = match self.edit_type {
            EditType::Append => self.append_string(),
            EditType::Insert => self.insert_string(),
            EditType::Replace => self.text.to_owned(),
        };
        Editor::new(replace, self.trigger, self.newline)
    }

    fn append_string(&self) -> (r: String)
        ensures
            r@ == repeat_newlines(self.newline, self.trigger as nat) + self.text@,
    {
        let mut replace = self.string_with_replace_capacity();
        let mut k: u8 = 0;
        while k < self.trigger
            invariant
                k <= self.trigger,
                replace@ == repeat_newlines(self.newline, k as nat),
            decreases self.trigger - k,
        {
            replace.append(self.newline.as_str());
            proof {
                assert(repeat_newlines(self.newline, k as nat + 1) =~= repeat_newlines(
                    self.newline,
                    k as nat,
                ) + newline_seq(self.newline));
            }
            k = k + 1;
        }
        replace.append(self.text);
        replace
    }

    fn insert_string(&self) -> (r: String)
        ensures
            r@ == self.text@ + repeat_newlines(self.newline, self.trigger as nat),
    {
        let mut replace = self.string_with_replace_capacity();
        replace.append(self.text);
        let mut k: u8 = 0;
        while k < self.trigger
            invariant
                k <= self.trigger,
                replace@ == self.text@ + repeat_newlines(self.newline, k as nat),
            decreases self.trigger - k,
        {
            replace.append(self.newline.as_str());
            proof {
                assert(repeat_newlines(self.newline, k as nat + 1) =~= repeat_newlines(
                    self.newline,
                    k as nat,
                ) + newline_seq(self.newline));
                assert(self.text@ + repeat_newlines(self.newline, k as nat + 1) =~= (self.text@
                    + repeat_newlines(self.newline, k as nat)) + newline_seq(self.newline));
            }
            k = k + 1;
        }
        replace
    }

    /// An empty string sized in advance for the replacement to be built:
    /// the text plus `trigger` newline units, whose length is known exactly.
    fn string_with_replace_capacity(&self) -> (r: String)
        ensures
            r@ == Seq::<char>::empty(),
    {
        let newline_len: usize = match self.newline {
            NewlineType::Lf => 1,
            NewlineType::Crlf => 2,
        };
        let capacity = self.text.len().saturating_add((self.trigger as usize) * newline_len);
        String::with_capacity(capacity)
    }
}

} // verus!
