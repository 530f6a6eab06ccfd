use vstd::prelude::*;

use crate::entry::is_valid_entry;
use crate::error::{Fault, FaultView};
use crate::store::{target_path, DataStore, User, UserView};

verus! {

/// Where a read stands: the next thing to do on disk, or its outcome.
#[derive(Debug)]
pub enum ReadStep {
    /// Find out whether a file exists at this path.
    Search(String),
    /// Read the whole file at this path as text.
    Load(String),
    /// Decode this text into a record.
    Decode(String),
    /// The read is over: a record or a caller fault, or a system fault.
    Done(Result<Result<User, String>, Fault>),
}

/// Where a write stands: the next thing to do, or its outcome.
#[derive(Debug)]
pub enum WriteStep {
    /// Encode this record; the text then goes to this path.
    Encode(String, User),
    /// Write this text (second) to the file at this path (first), creating it
    /// or replacing all of its content.
    Store(String, String),
    /// The write is over: done or a caller fault, or a system fault.
    Done(Result<Result<(), String>, Fault>),
}

pub enum ReadStepView {
    Search(Seq<char>),
    Load(Seq<char>),
    Decode(Seq<char>),
    Done(Result<Result<UserView, Seq<char>>, FaultView>),
}

pub enum WriteStepView {
    Encode(Seq<char>, UserView),
    Store(Seq<char>, Seq<char>),
    Done(Result<Result<(), Seq<char>>, FaultView>),
}

impl View for ReadStep {
    type V = ReadStepView;

    open spec fn view(&self) -> ReadStepView {
        match self {
            ReadStep::Search(p) => ReadStepView::Search(p@),
            ReadStep::Load(p) => ReadStepView::Load(p@),
            ReadStep::Decode(t) => ReadStepView::Decode(t@),
            ReadStep::Done(Ok(Ok(u))) => ReadStepView::Done(Ok(Ok(u@))),
            ReadStep::Done(Ok(Err(m))) => ReadStepView::Done(Ok(Err(m@))),
            ReadStep::Done(Err(f)) => ReadStepView::Done(Err(f@)),
        }
    }
}

impl View for WriteStep {
    type V = WriteStepView;

    open spec fn view(&self) -> WriteStepView {
        match self {
            WriteStep::Encode(p, u) => WriteStepView::Encode(p@, u@),
            WriteStep::Store(p, t) => WriteStepView::Store(p@, t@),
            WriteStep::Done(Ok(Ok(()))) => WriteStepView::Done(Ok(Ok(()))),
            WriteStep::Done(Ok(Err(m))) => WriteStepView::Done(Ok(Err(m@))),
            WriteStep::Done(Err(f)) => WriteStepView::Done(Err(f@)),
        }
    }
}

/// An outcome reported by the caller, with the failure's cause as text.
pub open spec fn reported<T>(r: Result<T, String>) -> Result<T, Seq<char>> {
    match r {
        Ok(v) => Ok(v),
        Err(c) => Err(c@),
    }
}

pub open spec fn reported_text(r: Result<String, String>) -> Result<Seq<char>, Seq<char>> {
    match r {
        Ok(t) => Ok(t@),
        Err(c) => Err(c@),
    }
}

pub open spec fn reported_user(r: Result<User, String>) -> Result<UserView, Seq<char>> {
    match r {
        Ok(u) => Ok(u@),
        Err(c) => Err(c@),
    }
}

pub open spec fn invalid_entry_message() -> Seq<char> {
    "Received invalid entry"@
}

pub open spec fn not_found_message() -> Seq<char> {
    "Entry not found"@
}

pub open spec fn fault(context: Seq<char>, cause: Seq<char>) -> FaultView {
    FaultView { context, cause }
}

/// The first step of reading `entry` from the store on `base`.
pub open spec fn read_begin(base: Seq<char>, entry: Seq<char>) -> ReadStepView {
    if is_valid_entry(entry) {
        ReadStepView::Search(target_path(base, entry))
    } else {
        ReadStepView::Done(Ok(Err(invalid_entry_message())))
    }
}

/// The step after looking for the file at `path`.
pub open spec fn after_search(path: Seq<char>, found: Result<bool, Seq<char>>) -> ReadStepView {
    match found {
        Ok(true) => ReadStepView::Load(path),
        Ok(false) => ReadStepView::Done(Ok(Err(not_found_message()))),
        Err(c) => ReadStepView::Done(Err(fault("Failed to search entry"@, c))),
    }
}

/// The step after reading the file's text.
pub open spec fn after_load(content: Result<Seq<char>, Seq<char>>) -> ReadStepView {
    match content {
        Ok(t) => ReadStepView::Decode(t),
        Err(c) => ReadStepView::Done(Err(fault("Failed to read from filesystem"@, c))),
    }
}

/// The step after decoding the text.
pub open spec fn after_decode(user: Result<UserView, Seq<char>>) -> ReadStepView {
    match user {
        Ok(u) => ReadStepView::Done(Ok(Ok(u))),
        Err(c) => ReadStepView::Done(Err(fault("Failed to deserialize data from filesystem"@, c))),
    }
}

/// The first step of writing `user` under `entry` in the store on `base`.
pub open spec fn write_begin(base: Seq<char>, entry: Seq<char>, user: UserView) -> WriteStepView {
    if is_valid_entry(entry) {
        WriteStepView::Encode(target_path(base, entry), user)
    } else {
        WriteStepView::Done(Ok(Err(invalid_entry_message())))
    }
}

/// The step after encoding the record that goes to `path`.
pub open spec fn after_encode(path: Seq<char>, text: Result<Seq<char>, Seq<char>>) -> WriteStepView {
    match text {
        Ok(t) => WriteStepView::Store(path, t),
        Err(c) => WriteStepView::Done(Err(fault("Failed to serialize data"@, c))),
    }
}

/// The step after writing the file.
pub open spec fn after_store(written: Result<(), Seq<char>>) -> WriteStepView {
    match written {
        Ok(()) => WriteStepView::Done(Ok(Ok(()))),
        Err(c) => WriteStepView::Done(Err(fault("Failed to write serialized data to filesystem"@, c))),
    }
}

impl DataStore {
    /// Starts reading the record of `entry`. An invalid key ends the read at
    /// once, before any file system work.
    pub fn read(&self, entry: &str) -> (r: ReadStep)
        ensures
            r@ == read_begin(self@, entry@),
    {
        match self.parse_entry(entry) {
            Some(valid) => ReadStep::Search(self.target(&valid)),
            None => ReadStep::Done(Ok(Err("Received invalid entry".to_owned()))),
        }
    }

    /// Starts writing `data` as the record of `entry`. An invalid key ends the
    /// write at once, before any file system work.
    pub fn write(&self, entry: &str, data: User) -> (r: WriteStep)
        ensures
            r@ == write_begin(self@, entry@, data@),
    {
        match self.parse_entry(entry) {
            Some(valid) => WriteStep::Encode(self.target(&valid), data),
            None => WriteStep::Done(Ok(Err("Received invalid entry".to_owned()))),
        }
    }
}

impl ReadStep {
    /// Goes on from `Search(path)`, given whether the file was found.
    pub fn searched(path: String, found: Result<bool, String>) -> (r: ReadStep)
        ensures
            r@ == after_search(path@, reported(found)),
    {
        match found {
            Ok(true) => ReadStep::Load(path),
            Ok(false) => ReadStep::Done(Ok(Err("Entry not found".to_owned()))),
            Err(c) => ReadStep::Done(Err(Fault { context: "Failed to search entry".to_owned(), cause: c })),
        }
    }

    /// Goes on from `Load`, given the file's text.
    pub fn loaded(content: Result<String, String>) -> (r: ReadStep)
        ensures
            r@ == after_load(reported_text(content)),
    {
        match content {
            Ok(t) => ReadStep::Decode(t),
            Err(c) => ReadStep::Done(
                Err(Fault { context: "Failed to read from filesystem".to_owned(), cause: c }),
            ),
        }
    }

    /// Goes on from `Decode`, given the decoded record.
    pub fn decoded(user: Result<User, String>) -> (r: ReadStep)
        ensures
            r@ == after_decode(reported_user(user)),
    {
        match user {
            Ok(u) => ReadStep::Done(Ok(Ok(u))),
            Err(c) => ReadStep::Done(
                Err(
                    Fault {
                        context: "Failed to deserialize data from filesystem".to_owned(),
                        cause: c,
                    },
                ),
            ),
        }
    }
}

impl WriteStep {
    /// Goes on from `Encode(path, _)`, given the encoded text.
    pub fn encoded(path: String, text: Result<String, String>) -> (r: WriteStep)
        ensures
            r@ == after_encode(path@, reported_text(text)),
    {
        match text {
            Ok(t) => WriteStep::Store(path, t),
            Err(c) => WriteStep::Done(
                Err(Fault { context: "Failed to serialize data".to_owned(), cause: c }),
            ),
        }
    }

    /// Goes on from `Store`, given how writing the file went.
    pub fn stored(written: Result<(), String>) -> (r: WriteStep)
        ensures
            r@ == after_store(reported(written)),
    {
        match written {
            Ok(()) => WriteStep::Done(Ok(Ok(()))),
            Err(c) => WriteStep::Done(
                Err(
                    Fault {
                        context: "Failed to write serialized data to filesystem".to_owned(),
                        cause: c,
                    },
                ),
            ),
        }
    }
}

} // verus!
