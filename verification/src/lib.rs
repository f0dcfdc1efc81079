//! An easy to use library for manipulating multiple newlines.
//!
//! An [`Editor`] replaces runs of consecutive newlines with a configured
//! string once the run reaches a trigger count.  Create one with
//! [`Editor::new`], with one of the [`factory`] functions, or with an
//! [`EditorBuilder`].  Use [`Editor::edit`] for in-memory text and a
//! [`BufEditor`] to edit a stream one chunk at a time.
//!
//! What an edit produces is stated by [`edit_spec`]; the guarantees the
//! library proves about it include [`lemma_zero_trigger_identity`] and
//! [`lemma_streaming_equivalence`].

mod builder;
mod editor;
mod model;
mod stream;

pub mod factory;

pub use builder::EditorBuilder;
pub use builder::builder_replacement;
pub use editor::EditType;
pub use editor::Editor;
pub use editor::NewlineType;
pub use model::ScanState;
pub use model::concat_chunks;
pub use model::edit_spec;
pub use model::flush_out;
pub use model::init_state;
pub use model::lemma_ordinary_text_unchanged;
pub use model::lemma_streaming_equivalence;
pub use model::lemma_zero_trigger_identity;
pub use model::newline_seq;
pub use model::repeat_newlines;
pub use model::replacement_spec;
pub use model::scan_from;
pub use model::step;
pub use model::step_newline;
pub use model::stream_output;
pub use model::stream_scan;
pub use stream::BufEditor;
