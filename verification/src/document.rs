//! The document: an editable text buffer together with the optional path of
//! the file it was last loaded from or saved to. File reads and writes happen
//! outside this crate; the document receives their outcomes as plain values
//! and either commits them or, on an error, stays exactly as it was.

use vstd::prelude::*;
use crate::text_ops::{match_offsets, replaced, to_ints};
use crate::text_ops::{find_matches, replace_matches};

verus! {

/// Why a file read or write failed. Carried through from the caller that
/// performed the I/O; the document itself never fabricates one.
#[derive(Debug, Clone, PartialEq, Eq)]
pub enum IoError {
    /// The file does not exist.
    NotFound,
    /// The file exists but may not be read or written.
    PermissionDenied,
    /// The file's bytes are not valid text in the expected encoding.
    InvalidData,
    /// Any other cause, described in words.
    Other(String),
}

/// An in-memory text buffer and the path it is bound to, if any.
/// `source_path` is `None` while no load or save has succeeded.
#[derive(Debug, Clone)]
pub struct Document {
    /// The editable content.
    pub text: String,
    /// The path of the most recent successful load or save.
    pub source_path: Option<String>,
}

/// The document that a successful load of `contents` from `path` yields,
/// whatever the document held before.
pub open spec fn loaded(d: Document, path: String, contents: String) -> Document {
    Document { text: contents, source_path: Some(path) }
}

/// The document that a successful save to `path` yields: the text is kept,
/// the path is bound.
pub open spec fn saved(d: Document, path: String) -> Document {
    Document { text: d.text, source_path: Some(path) }
}

impl Document {
    /// An empty document bound to no file.
    pub fn new() -> (d: Document)
        ensures
            d.text@ == Seq::<char>::empty(),
            d.source_path is None,
    {
        Document { text: String::new(), source_path: None }
    }

    /// Empty the text and unbind the path, whatever the prior state.
    pub fn clear(&mut self)
        ensures
            final(self).text@ == Seq::<char>::empty(),
            final(self).source_path is None,
    {
        self.text = String::new();
        self.source_path = None;
    }

    /// The length of the text in characters.
    pub fn char_count(&self) -> (n: usize)
        ensures
            n == self.text@.len(),
    {
        self.text.as_str().unicode_len()
    }

    /// The character offsets of the non-overlapping, left-to-right matches of
    /// `needle` in the text. The empty needle yields no offsets.
    pub fn find_all(&self, needle: &str) -> (r: Vec<usize>)
        ensures
            to_ints(r@) == match_offsets(self.text@, needle@, 0),
            needle@.len() == 0 ==> r@.len() == 0,
    {
        find_matches(self.text.as_str(), needle)
    }

    /// Replace every non-overlapping, left-to-right match of `pat` with
    /// `rep`, returning how many were replaced. The empty pattern replaces
    /// nothing. The bound path is untouched.
    pub fn replace_all(&mut self, pat: &str, rep: &str) -> (count: usize)
        ensures
            final(self).text@ == replaced(old(self).text@, pat@, rep@, 0),
            count as int == match_offsets(old(self).text@, pat@, 0).len(),
            final(self).source_path == old(self).source_path,
            pat@.len() == 0 ==> final(self).text@ == old(self).text@ && count == 0,
    {
        let (new_text, count) = replace_matches(self.text.as_str(), pat, rep);
        self.text = new_text;
        count
    }

    /// Commit the outcome of reading `path`. On a successful read the text
    /// becomes the contents read and the document is bound to `path`; on a
    /// failed read the document stays exactly as it was and the error is
    /// handed back.
    pub fn finish_load(&mut self, path: String, read: Result<String, IoError>) -> (r: Result<
        (),
        IoError,
    >)
        ensures
            match read {
                Ok(contents) => {
                    &&& *final(self) == loaded(*old(self), path, contents)
                    &&& r is Ok
                },
                Err(e) => {
                    &&& *final(self) == *old(self)
                    &&& r == Err::<(), IoError>(e)
                },
            },
    {
        match read {
            Ok(contents) => {
                self.text = contents;
                self.source_path = Some(path);
                Ok(())
            },
            Err(e) => Err(e),
        }
    }

    /// The path a save will write to: the requested one if any, else the
    /// bound one. `None` means neither exists and the caller must obtain a
    /// destination before saving.
    pub fn save_target(&self, requested: Option<String>) -> (t: Option<String>)
        ensures
            match requested {
                Some(p) => t == Some(p),
                None => t == self.source_path,
            },
    {
        match requested {
            Some(p) => Some(p),
            None => match &self.source_path {
                Some(q) => Some(q.clone()),
                None => None,
            },
        }
    }

    /// Commit the outcome of writing the text to `path`. On a successful
    /// write the document keeps its text and is bound to `path`; on a failed
    /// write it stays exactly as it was and the error is handed back.
    pub fn finish_save(&mut self, path: String, write: Result<(), IoError>) -> (r: Result<
        (),
        IoError,
    >)
        ensures
            match write {
                Ok(()) => {
                    &&& *final(self) == saved(*old(self), path)
                    &&& r is Ok
                },
                Err(e) => {
                    &&& *final(self) == *old(self)
                    &&& r == Err::<(), IoError>(e)
                },
            },
    {
        match write {
            Ok(()) => {
                self.source_path = Some(path);
                Ok(())
            },
            Err(e) => Err(e),
        }
    }
}

/// Round trip through storage: a successful save to `p` keeps the text
/// unchanged, so it writes exactly `d.text`; loading that same text back
/// from `p` into any document — a fresh one included — restores it. Storage
/// returning the written text verbatim is the caller's premise.
pub proof fn lemma_save_load_round_trip(d: Document, fresh: Document, p: String)
    ensures
        saved(d, p).text == d.text,
        loaded(fresh, p, saved(d, p).text).text == d.text,
        loaded(fresh, p, saved(d, p).text).source_path == Some(p),
{
}

} // verus!
