//! The editor's state and its transitions: what each menu entry and tool
//! window button does to the document, the tool-window flags and the input
//! fields. The windowing layer renders this state and performs the file
//! dialogs and the reads and writes; each transition here returns what, if
//! anything, it needs that layer to do next.

use vstd::prelude::*;
use crate::document::{Document, IoError, loaded, saved};
use crate::text_ops::{match_offsets, replaced};
use crate::numfmt::joined_offsets;
use crate::numfmt::join_offsets;

verus! {

/// An entry of the menu bar.
#[derive(Debug, Clone, Copy, PartialEq, Eq)]
pub enum MenuChoice {
    /// File > New
    New,
    /// File > Open...
    Open,
    /// File > Save
    Save,
    /// File > Save as...
    SaveAs,
    /// File > Exit
    Exit,
    /// Tools > Replace...
    ReplaceTool,
    /// Tools > Search...
    SearchTool,
    /// Tools > Statistics...
    StatisticsTool,
}

/// What the windowing layer must do after a transition: nothing, let the
/// user pick a file to open, write the current text to a path, or let the
/// user pick a destination to save to.
#[derive(Debug, Clone, PartialEq, Eq)]
pub enum UiRequest {
    /// Nothing to do.
    Idle,
    /// Show an open dialog, read the chosen file, then call `finish_open`.
    PickFileToOpen,
    /// Write the document's text to this path, then call `finish_save`.
    WriteTo(String),
    /// Show a save dialog, write to the chosen path, then call `finish_save`.
    PickSavePath,
}

/// The whole editor: the document plus the state of the three tool windows.
/// Each tool keeps its own input fields, so no text leaks between tools.
#[derive(Debug, Clone)]
pub struct SimpleEdit {
    /// The document being edited.
    pub doc: Document,
    /// Whether the replace window is open.
    pub replace_window_shown: bool,
    /// The replace window's "old" field: the pattern to replace.
    pub replace_old: String,
    /// The replace window's "new" field: the replacement.
    pub replace_new: String,
    /// Whether the search window is open.
    pub search_window_shown: bool,
    /// The search window's input: the needle to look for.
    pub search_input: String,
    /// The search window's output: the offsets found, comma-joined.
    pub search_result: String,
    /// Whether the statistics window is open.
    pub statistics_window_shown: bool,
    /// Set when the user chose Exit; the event loop reads it and closes.
    pub close_requested: bool,
}

impl SimpleEdit {
    /// A fresh editor: empty unbound document, all tool windows closed,
    /// all fields empty.
    pub fn new() -> (e: SimpleEdit)
        ensures
            e.doc.text@ == Seq::<char>::empty(),
            e.doc.source_path is None,
            !e.replace_window_shown,
            e.replace_old@ == Seq::<char>::empty(),
            e.replace_new@ == Seq::<char>::empty(),
            !e.search_window_shown,
            e.search_input@ == Seq::<char>::empty(),
            e.search_result@ == Seq::<char>::empty(),
            !e.statistics_window_shown,
            !e.close_requested,
    {
        SimpleEdit {
            doc: Document::new(),
            replace_window_shown: false,
            replace_old: String::new(),
            replace_new: String::new(),
            search_window_shown: false,
            search_input: String::new(),
            search_result: String::new(),
            statistics_window_shown: false,
            close_requested: false,
        }
    }

    /// File > New: empty the document and unbind it. The tool windows and
    /// their fields are untouched.
    pub fn handle_new(&mut self)
        ensures
            final(self).doc.text@ == Seq::<char>::empty(),
            final(self).doc.source_path is None,
            *final(self) == (SimpleEdit { doc: final(self).doc, ..*old(self) }),
    {
        self.doc.clear();
    }

    /// File > Save: write to the bound path if there is one, else ask the
    /// windowing layer for a destination first.
    pub fn handle_save(&self) -> (r: UiRequest)
        ensures
            match self.doc.source_path {
                Some(p) => r == UiRequest::WriteTo(p),
                None => r == UiRequest::PickSavePath,
            },
    {
        let target = self.doc.save_target(None);
        self.handle_save_as(target)
    }

    /// File > Save as..., or a save with the destination already chosen:
    /// write to `chosen` if given, else ask for a destination.
    pub fn handle_save_as(&self, chosen: Option<String>) -> (r: UiRequest)
        ensures
            match chosen {
                Some(p) => r == UiRequest::WriteTo(p),
                None => r == UiRequest::PickSavePath,
            },
    {
        match chosen {
            Some(p) => UiRequest::WriteTo(p),
            None => UiRequest::PickSavePath,
        }
    }

    /// One menu click: update the state and say what the windowing layer
    /// must do next. Exit never ends the process here; it only raises
    /// `close_requested` for the event loop to honour.
    pub fn handle_menu(&mut self, choice: MenuChoice) -> (r: UiRequest)
        ensures
            match choice {
                MenuChoice::New => {
                    &&& final(self).doc.text@ == Seq::<char>::empty()
                    &&& final(self).doc.source_path is None
                    &&& *final(self) == (SimpleEdit { doc: final(self).doc, ..*old(self) })
                    &&& r == UiRequest::Idle
                },
                MenuChoice::Open => {
                    &&& *final(self) == *old(self)
                    &&& r == UiRequest::PickFileToOpen
                },
                MenuChoice::Save => {
                    &&& *final(self) == *old(self)
                    &&& match old(self).doc.source_path {
                        Some(p) => r == UiRequest::WriteTo(p),
                        None => r == UiRequest::PickSavePath,
                    }
                },
                MenuChoice::SaveAs => {
                    &&& *final(self) == *old(self)
                    &&& r == UiRequest::PickSavePath
                },
                MenuChoice::Exit => {
                    &&& *final(self) == (SimpleEdit { close_requested: true, ..*old(self) })
                    &&& r == UiRequest::Idle
                },
                MenuChoice::ReplaceTool => {
                    &&& *final(self) == (SimpleEdit { replace_window_shown: true, ..*old(self) })
                    &&& r == UiRequest::Idle
                },
                MenuChoice::SearchTool => {
                    &&& *final(self) == (SimpleEdit { search_window_shown: true, ..*old(self) })
                    &&& r == UiRequest::Idle
                },
                MenuChoice::StatisticsTool => {
                    &&& *final(self) == (SimpleEdit { statistics_window_shown: true, ..*old(self) })
                    &&& r == UiRequest::Idle
                },
            },
    {
        match choice {
            MenuChoice::New => {
                self.handle_new();
                UiRequest::Idle
            },
            MenuChoice::Open => UiRequest::PickFileToOpen,
            MenuChoice::Save => self.handle_save(),
            MenuChoice::SaveAs => UiRequest::PickSavePath,
            MenuChoice::Exit => {
                self.close_requested = true;
                UiRequest::Idle
            },
            MenuChoice::ReplaceTool => {
                self.replace_window_shown = true;
                UiRequest::Idle
            },
            MenuChoice::SearchTool => {
                self.search_window_shown = true;
                UiRequest::Idle
            },
            MenuChoice::StatisticsTool => {
                self.statistics_window_shown = true;
                UiRequest::Idle
            },
        }
    }

    /// Commit the outcome of opening a file: the document takes the contents
    /// on success and stays as it was on an error; nothing else changes.
    pub fn finish_open(&mut self, path: String, read: Result<String, IoError>) -> (r: Result<
        (),
        IoError,
    >)
        ensures
            *final(self) == (SimpleEdit { doc: final(self).doc, ..*old(self) }),
            match read {
                Ok(contents) => {
                    &&& final(self).doc == loaded(old(self).doc, path, contents)
                    &&& r is Ok
                },
                Err(e) => {
                    &&& final(self).doc == old(self).doc
                    &&& r == Err::<(), IoError>(e)
                },
            },
    {
        self.doc.finish_load(path, read)
    }

    /// Commit the outcome of writing the text to `path`: the document binds
    /// the path on success and stays as it was on an error; nothing else
    /// changes.
    pub fn finish_save(&mut self, path: String, write: Result<(), IoError>) -> (r: Result<
        (),
        IoError,
    >)
        ensures
            *final(self) == (SimpleEdit { doc: final(self).doc, ..*old(self) }),
            match write {
                Ok(()) => {
                    &&& final(self).doc == saved(old(self).doc, path)
                    &&& r is Ok
                },
                Err(e) => {
                    &&& final(self).doc == old(self).doc
                    &&& r == Err::<(), IoError>(e)
                },
            },
    {
        self.doc.finish_save(path, write)
    }

    /// The replace window's Replace button: replace every match of the "old"
    /// field with the "new" field, report the count, then close the window
    /// and empty both fields.
    pub fn apply_replace(&mut self) -> (count: usize)
        ensures
            final(self).doc.text@ == replaced(
                old(self).doc.text@,
                old(self).replace_old@,
                old(self).replace_new@,
                0,
            ),
            count as int == match_offsets(old(self).doc.text@, old(self).replace_old@, 0).len(),
            final(self).doc.source_path == old(self).doc.source_path,
            !final(self).replace_window_shown,
            final(self).replace_old@ == Seq::<char>::empty(),
            final(self).replace_new@ == Seq::<char>::empty(),
            *final(self) == (SimpleEdit {
                doc: final(self).doc,
                replace_window_shown: false,
                replace_old: final(self).replace_old,
                replace_new: final(self).replace_new,
                ..*old(self)
            }),
    {
        let count = self.doc.replace_all(self.replace_old.as_str(), self.replace_new.as_str());
        self.replace_window_shown = false;
        self.replace_old = String::new();
        self.replace_new = String::new();
        count
    }

    /// The replace window's Skip button: close the window and empty both
    /// fields without touching the document.
    pub fn dismiss_replace(&mut self)
        ensures
            !final(self).replace_window_shown,
            final(self).replace_old@ == Seq::<char>::empty(),
            final(self).replace_new@ == Seq::<char>::empty(),
            *final(self) == (SimpleEdit {
                replace_window_shown: false,
                replace_old: final(self).replace_old,
                replace_new: final(self).replace_new,
                ..*old(self)
            }),
    {
        self.replace_window_shown = false;
        self.replace_old = String::new();
        self.replace_new = String::new();
    }

    /// The search window's Search button: find every match of the input in
    /// the document and render the offsets, comma-joined, into the result
    /// field. The document and the input are untouched and the window stays
    /// open.
    pub fn run_search(&mut self)
        ensures
            final(self).search_result@ == joined_offsets(
                match_offsets(old(self).doc.text@, old(self).search_input@, 0),
            ),
            *final(self) == (SimpleEdit { search_result: final(self).search_result, ..*old(self) }),
    {
        let offsets = self.doc.find_all(self.search_input.as_str());
        self.search_result = join_offsets(&offsets);
    }

    /// The search window's Abort button: close the window and empty its
    /// input and result without touching the document.
    pub fn dismiss_search(&mut self)
        ensures
            !final(self).search_window_shown,
            final(self).search_input@ == Seq::<char>::empty(),
            final(self).search_result@ == Seq::<char>::empty(),
            *final(self) == (SimpleEdit {
                search_window_shown: false,
                search_input: final(self).search_input,
                search_result: final(self).search_result,
                ..*old(self)
            }),
    {
        self.search_window_shown = false;
        self.search_input = String::new();
        self.search_result = String::new();
    }

    /// The statistics window's Close button.
    pub fn dismiss_statistics(&mut self)
        ensures
            *final(self) == (SimpleEdit { statistics_window_shown: false, ..*old(self) }),
    {
        self.statistics_window_shown = false;
    }

    /// What the statistics window shows for the bound path: the path itself,
    /// or "none" while the document is unbound.
    pub fn bound_path_label(&self) -> (r: String)
        ensures
            match self.doc.source_path {
                Some(p) => r@ == p@,
                None => r@ == "none"@,
            },
    {
        match &self.doc.source_path {
            Some(p) => p.clone(),
            None => {
                let r: String = "none".to_owned();
                r
            },
        }
    }
}

} // verus!
