//! A builder that configures, prepares, and builds [`Editor`] instances.

use vstd::prelude::*;

use vstd::string::StringExecFns;

use crate::editor::EditType;
use crate::editor::Editor;
use crate::editor::NewlineType;
use crate::model::newline_seq;

verus! {

/// The replacement string this builder prepares: the edit text placed after
/// (append), before (insert), or instead of (replace) a single newline unit.
pub open spec fn builder_replacement(text: Seq<char>, mode: EditType, style: NewlineType) -> Seq<
    char,
> {
    match mode {
        EditType::Append => newline_seq(style) + text,
        EditType::Insert => text + newline_seq(style),
        EditType::Replace => text,
    }
}

/// Configures, prepares, and builds [`Editor`] instances.
///
/// The replacement string is derived once, by [`EditorBuilder::prepare`],
/// from the edit text, the edit type and the newline style; setters mark
/// the builder dirty so that [`EditorBuilder::build`] knows to prepare it
/// again.  Unlike the [`crate::factory`] functions, which splice in one
/// newline unit per triggering newline, this builder always splices in a
/// single newline unit.
#[derive(Debug, PartialEq)]
pub struct EditorBuilder<'a> {
    /// Prepared string to replace newlines with.
    pub replace: String,
    /// Number of newlines to trigger replacement.
    pub trigger: u8,
    /// Line ending type.
    pub newline: NewlineType,
    /// Text to replace/insert/append.
    pub text: &'a str,
    /// Type of edit to make to newlines.
    pub edit_type: EditType,
    /// Whether this builder has been edited since being prepared.
    pub dirty: bool,
}

impl<'a> Default for EditorBuilder<'a> {
    /// Will build into the default [`Editor`], which makes no changes.
    fn default() -> (r: EditorBuilder<'a>)
        ensures
            r.replace@ == Seq::<char>::empty(),
            r.trigger == 0,
            r.newline == NewlineType::Lf,
            r.text@ == Seq::<char>::empty(),
            r.edit_type == EditType::Replace,
            !r.dirty,
    {
        proof {
            reveal_strlit("");
        }
        EditorBuilder {
            replace: String::new(),
            trigger: 0,
            newline: NewlineType::Lf,
            text: "",
            edit_type: EditType::Replace,
            dirty: false,
        }
    }
}

impl<'a> EditorBuilder<'a> {
    /// Creates a new builder with the following defaults:
    ///
    /// - text: `""`,
    /// - newline trigger: `0`,
    /// - edit type: replace.
    ///
    /// The [`Editor`] made by an unaltered builder will make no changes
    /// when editing.
    pub fn new() -> (r: EditorBuilder<'a>)
        ensures
            r.replace@ == Seq::<char>::empty(),
            r.trigger == 0,
            r.newline == NewlineType::Lf,
            r.text@ == Seq::<char>::empty(),
            r.edit_type == EditType::Replace,
            !r.dirty,
    {
        Self::default()
    }

    /// Prepare and build a new [`Editor`] instance.
    ///
    /// This is a convenience method for both preparing and building.  If
    /// you are going to be constructing multiple [`Editor`] instances, it
    /// is recommended to use [`prepare`](Self::prepare) and
    /// [`build_prepared`](Self::build_prepared) instead.
    pub fn build(&mut self) -> (r: Editor)
        ensures
            !final(self).dirty,
            final(self).trigger == old(self).trigger,
            final(self).newline == old(self).newline,
            final(self).text == old(self).text,
            final(self).edit_type == old(self).edit_type,
            r.newlines == old(self).trigger,
            r.line_ending == old(self).newline,
            old(self).dirty ==> r.replace@ == builder_replacement(
                old(self).text@,
                old(self).edit_type,
                old(self).newline,
            ),
            !old(self).dirty ==> r.replace@ == old(self).replace@,
    {
        if self.dirty {
            self.prepare();
        }
        self.build_prepared()
    }

    /// Build a new [`Editor`] instance.
    ///
    /// This method should only be used after [`prepare`](Self::prepare)
    /// has been called.
    pub fn build_prepared(&self) -> (r: Editor)
        ensures
            r.replace@ == self.replace@,
            r.newlines == self.trigger,
            r.line_ending == self.newline,
    {
        Editor::new(self.replace.clone(), self.trigger, self.newline)
    }

    /// Prepare the builder after updating values.
    ///
    /// This only needs to be called once, when all values have been set.
    /// After preparation, the builder can be used to create [`Editor`]
    /// instances with the [`build_prepared`](Self::build_prepared) method,
    /// which only needs a shared reference.
    pub fn prepare(&mut self)
        ensures
            final(self).replace@ == builder_replacement(
                old(self).text@,
                old(self).edit_type,
                old(self).newline,
            ),
            !final(self).dirty,
            final(self).trigger == old(self).trigger,
            final(self).newline == old(self).newline,
            final(self).text == old(self).text,
            final(self).edit_type == old(self).edit_type,
    {
        self.replace = String::new();
        let text = self.text;
        match self.edit_type {
            EditType::Append => {
                let unit = self.newline.as_str();
                self.replace.append(unit);
                self.replace.append(text);
            },
            EditType::Insert => {
                let unit = self.newline.as_str();
                self.replace.append(text);
                self.replace.append(unit);
            },
            EditType::Replace => {
                self.replace.append(text);
            },
        }
        self.dirty = false;
    }

    /// Set the number of newlines to trigger edits.
    ///
    /// By default, this is `0`, causing no editing to be triggered.
    pub fn newline_trigger(&mut self, trigger: u8)
        ensures
            *final(self) == (EditorBuilder { trigger, dirty: true, ..*old(self) }),
    {
        self.dirty = true;
        self.trigger = trigger;
    }

    /// Set the text used when editing.
    ///
    /// By default, this is an empty string: `""`.
    ///
    /// If the edit type is set to [`append`](Self::append), the text will
    /// be added *after* the newline.  If the edit type is set to
    /// [`insert`](Self::insert), the text will be inserted *before* the
    /// newline.  If the edit type is left as the default,
    /// [`replace`](Self::replace), matching newlines will be *replaced*
    /// with the text.
    pub fn text(&mut self, text: &'a str)
        ensures
            *final(self) == (EditorBuilder { text, dirty: true, ..*old(self) }),
    {
        self.dirty = true;
        self.text = text;
    }

    /// Set the editor to append the edit text *after* newlines.
    pub fn append(&mut self)
        ensures
            *final(self) == (EditorBuilder { edit_type: EditType::Append, dirty: true, ..*old(self) }),
    {
        self.dirty = true;
        self.edit_type = EditType::Append;
    }

    /// Set the editor to insert the edit text *before* newlines.
    pub fn insert(&mut self)
        ensures
            *final(self) == (EditorBuilder { edit_type: EditType::Insert, dirty: true, ..*old(self) }),
    {
        self.dirty = true;
        self.edit_type = EditType::Insert;
    }

    /// Set the editor to replace newlines with the edit text.
    ///
    /// This is the default.
    pub fn replace(&mut self)
        ensures
            *final(self) == (EditorBuilder {
                edit_type: EditType::Replace,
                dirty: true,
                ..*old(self)
            }),
    {
        self.dirty = true;
        self.edit_type = EditType::Replace;
    }

    /// Set the editor to use `\n` as the line ending.
    ///
    /// This is the default.
    pub fn newline_lf(&mut self)
        ensures
            *final(self) == (EditorBuilder { newline: NewlineType::Lf, dirty: true, ..*old(self) }),
    {
        self.dirty = true;
        self.newline = NewlineType::Lf;
    }

    /// Set the editor to use `\r\n` as the line ending.
    pub fn newline_crlf(&mut self)
        ensures
            *final(self) == (EditorBuilder { newline: NewlineType::Crlf, dirty: true, ..*old(self) }),
    {
        self.dirty = true;
        self.newline = NewlineType::Crlf;
    }
}

} // verus!
