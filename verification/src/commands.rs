//! The commands on files and directories.
//!
//! A command does not touch the file system. It says which call its host has
//! to make, as a pending value that holds the call's arguments, and takes the
//! call's outcome through `resolve`, which gives the next pending call or the
//! command's result. A pending value can only be had from the step before it,
//! so a host cannot write a file whose directory it was asked to create first
//! and did not.

use vstd::prelude::*;
use crate::failure::{
    io_failure, no_selection, FailureView, IoFailure, IoFailureView, IoStep, OperationFailure,
};
use crate::listing::{collect_names, entry_views, listed_names, texts, DirEntry, EntryView};
use crate::outcome::{option_view, result_view};
use crate::path::{parent_of, parent_text};

verus! {

/// The result of choosing a directory, from what the user did with the prompt:
/// the chosen path, or the failure of a prompt closed without a choice.
pub open spec fn selection(choice: Option<Seq<char>>) -> Result<Seq<char>, FailureView> {
    match choice {
        Some(path) => Ok(path),
        None => Err(no_selection()),
    }
}

/// The result of reading a file, from the outcome of the host's read: the
/// content as it was read, or the failure of the read.
pub open spec fn read_result(outcome: Result<Seq<char>, IoFailureView>) -> Result<
    Seq<char>,
    FailureView,
> {
    match outcome {
        Ok(content) => Ok(content),
        Err(failure) => Err(io_failure(IoStep::ReadFile, failure)),
    }
}

/// The result of listing a directory, from the outcome of the host's listing:
/// the names of the entries that have one in text, or the failure to open the
/// directory.
pub open spec fn list_result(outcome: Result<Seq<EntryView>, IoFailureView>) -> Result<
    Seq<Seq<char>>,
    FailureView,
> {
    match outcome {
        Ok(entries) => Ok(listed_names(entries)),
        Err(failure) => Err(io_failure(IoStep::ListDir, failure)),
    }
}

/// A write that the host has been asked for: the file's path and its new content.
pub struct WriteView {
    pub path: Seq<char>,
    pub content: Seq<char>,
}

/// A directory that the host has been asked to create, and the write that
/// waits for it.
pub struct DirsView {
    pub dir: Seq<char>,
    pub write: WriteView,
}

/// The first step of writing a file.
pub enum WritePlan {
    /// Create the file's directory, then write.
    CreateDirs(DirsView),
    /// Write at once.
    Write(WriteView),
}

impl WritePlan {
    /// The directory that the plan creates first, if it creates one.
    pub open spec fn parent(self) -> Option<Seq<char>> {
        match self {
            WritePlan::CreateDirs(dirs) => Some(dirs.dir),
            WritePlan::Write(_) => None,
        }
    }

    /// The write that the plan ends in.
    pub open spec fn write(self) -> WriteView {
        match self {
            WritePlan::CreateDirs(dirs) => dirs.write,
            WritePlan::Write(write) => write,
        }
    }
}

/// The first step of writing `content` to `path`, where `parent` is the
/// directory that holds `path`, if it has one: with a parent the directory is
/// created first, without one the file is written at once. Either way the
/// write is of `content` to `path`.
pub open spec fn write_plan(
    path: Seq<char>,
    content: Seq<char>,
    parent: Option<Seq<char>>,
) -> WritePlan {
    let write = WriteView { path, content };
    match parent {
        Some(dir) => WritePlan::CreateDirs(DirsView { dir, write }),
        None => WritePlan::Write(write),
    }
}

/// What follows the creation of a directory, from its outcome: the write that
/// waited for it, or the failure of the creation, after which nothing is
/// written.
pub open spec fn dirs_result(pending: DirsView, outcome: Result<(), IoFailureView>) -> Result<
    WriteView,
    FailureView,
> {
    match outcome {
        Ok(_) => Ok(pending.write),
        Err(failure) => Err(io_failure(IoStep::CreateDirs, failure)),
    }
}

/// The result of writing a file, from the outcome of the host's write.
pub open spec fn write_result(outcome: Result<(), IoFailureView>) -> Result<(), FailureView> {
    match outcome {
        Ok(_) => Ok(()),
        Err(failure) => Err(io_failure(IoStep::WriteFile, failure)),
    }
}

/// The mathematical value of the outcome of a host's listing.
pub open spec fn listing_view(outcome: Result<Vec<DirEntry>, IoFailure>) -> Result<
    Seq<EntryView>,
    IoFailureView,
> {
    match outcome {
        Ok(entries) => Ok(entry_views(entries@)),
        Err(failure) => Err(failure@),
    }
}

/// The mathematical value of the result of listing a directory.
pub open spec fn names_view(result: Result<Vec<String>, OperationFailure>) -> Result<
    Seq<Seq<char>>,
    FailureView,
> {
    match result {
        Ok(names) => Ok(texts(names@)),
        Err(failure) => Err(failure@),
    }
}

/// A file that the host has been asked to read as text.
#[derive(Debug)]
pub struct PendingRead {
    path: String,
}

impl View for PendingRead {
    type V = Seq<char>;

    /// The path of the file to read.
    closed spec fn view(&self) -> Seq<char> {
        self.path@
    }
}

/// A directory that the host has been asked to list.
#[derive(Debug)]
pub struct PendingList {
    dir: String,
}

impl View for PendingList {
    type V = Seq<char>;

    /// The path of the directory to list.
    closed spec fn view(&self) -> Seq<char> {
        self.dir@
    }
}

/// A file that the host has been asked to write.
#[derive(Debug)]
pub struct PendingWrite {
    path: String,
    content: String,
}

impl View for PendingWrite {
    type V = WriteView;

    closed spec fn view(&self) -> WriteView {
        WriteView { path: self.path@, content: self.content@ }
    }
}

/// A directory that the host has been asked to create, with every missing
/// ancestor of it, before a file is written.
#[derive(Debug)]
pub struct PendingDirs {
    dir: String,
    write: PendingWrite,
}

impl View for PendingDirs {
    type V = DirsView;

    closed spec fn view(&self) -> DirsView {
        DirsView { dir: self.dir@, write: self.write@ }
    }
}

/// The first step of writing a file: the call that the host has to make first.
#[derive(Debug)]
pub enum WriteStep {
    /// Create the file's directory; the write follows when that is done.
    CreateDirs(PendingDirs),
    /// Write the file.
    Write(PendingWrite),
}

impl View for WriteStep {
    type V = WritePlan;

    open spec fn view(&self) -> WritePlan {
        match self {
            WriteStep::CreateDirs(dirs) => WritePlan::CreateDirs(dirs@),
            WriteStep::Write(write) => WritePlan::Write(write@),
        }
    }
}

/// Chooses a directory: `choice` is what the user did with the host's prompt,
/// the path of the chosen directory or nothing. A choice is returned as it is;
/// a prompt closed without one is a failure of its own kind.
pub fn select_directory(choice: Option<String>) -> (result: Result<String, OperationFailure>)
    ensures
        result_view(result) == selection(option_view(choice)),
{
    match choice {
        Some(path) => Ok(path),
        None => Err(OperationFailure::cancelled()),
    }
}

/// Reads the file at `file_path`: asks the host to read it whole, as text.
pub fn read_file(file_path: String) -> (pending: PendingRead)
    ensures
        pending@ == file_path@,
{
    PendingRead { path: file_path }
}

impl PendingRead {
    /// The path of the file to read.
    pub fn path(&self) -> (path: &str)
        ensures
            path@ == self@,
    {
        self.path.as_str()
    }

    /// Ends the read with the host's outcome: the content as the host read it,
    /// or the failure of the read.
    pub fn resolve(self, outcome: Result<String, IoFailure>) -> (result: Result<
        String,
        OperationFailure,
    >)
        ensures
            result_view(result) == read_result(result_view(outcome)),
    {
        match outcome {
            Ok(content) => Ok(content),
            Err(failure) => Err(OperationFailure::from_io(IoStep::ReadFile, failure)),
        }
    }
}

/// Lists the directory at `dir_path`: asks the host for its entries.
pub fn list_files(dir_path: String) -> (pending: PendingList)
    ensures
        pending@ == dir_path@,
{
    PendingList { dir: dir_path }
}

impl PendingList {
    /// The path of the directory to list.
    pub fn dir(&self) -> (dir: &str)
        ensures
            dir@ == self@,
    {
        self.dir.as_str()
    }

    /// Ends the listing with the host's outcome, the entries in the order in
    /// which the directory yielded them: the names of the entries that have one
    /// in text, in that order, or the failure to open the directory.
    pub fn resolve(self, outcome: Result<Vec<DirEntry>, IoFailure>) -> (result: Result<
        Vec<String>,
        OperationFailure,
    >)
        ensures
            names_view(result) == list_result(listing_view(outcome)),
    {
        match outcome {
            Ok(entries) => Ok(collect_names(&entries)),
            Err(failure) => Err(OperationFailure::from_io(IoStep::ListDir, failure)),
        }
    }
}

/// The first step of writing `content` to `file_path`, where `parent` is the
/// directory that holds the file, if the path has one.
pub fn plan_write(file_path: String, content: String, parent: Option<String>) -> (step: WriteStep)
    ensures
        step@ == write_plan(file_path@, content@, option_view(parent)),
{
    let write = PendingWrite { path: file_path, content };
    match parent {
        Some(dir) => WriteStep::CreateDirs(PendingDirs { dir, write }),
        None => WriteStep::Write(write),
    }
}

/// Writes `content` to the file at `file_path`: asks the host to create the
/// directory that holds the file, with every missing directory above it, where
/// the path has such a directory, and then to write. The directory is the one
/// that the platform's path syntax gives for `file_path`: it is shorter than
/// the path, the path begins with it, and the empty path has none.
pub fn write_file(file_path: String, content: String) -> (step: WriteStep)
    ensures
        step@ == write_plan(file_path@, content@, parent_text(file_path@)),
        file_path@.len() == 0 ==> step@.parent() is None,
        step@.parent() matches Some(dir) ==> dir.len() < file_path@.len() && dir
            == file_path@.subrange(0, dir.len() as int),
{
    let parent = parent_of(file_path.as_str());
    plan_write(file_path, content, parent)
}

impl PendingDirs {
    /// The path of the directory to create.
    pub fn dir(&self) -> (dir: &str)
        ensures
            dir@ == self@.dir,
    {
        self.dir.as_str()
    }

    /// Goes on with the host's outcome: to the write that waited for the
    /// directory, or to the failure of its creation.
    pub fn resolve(self, outcome: Result<(), IoFailure>) -> (result: Result<
        PendingWrite,
        OperationFailure,
    >)
        ensures
            result_view(result) == dirs_result(self@, result_view(outcome)),
    {
        match outcome {
            Ok(_) => Ok(self.write),
            Err(failure) => Err(OperationFailure::from_io(IoStep::CreateDirs, failure)),
        }
    }
}

impl PendingWrite {
    /// The path of the file to write.
    pub fn path(&self) -> (path: &str)
        ensures
            path@ == self@.path,
    {
        self.path.as_str()
    }

    /// The content to write, in place of whatever the file held.
    pub fn content(&self) -> (content: &str)
        ensures
            content@ == self@.content,
    {
        self.content.as_str()
    }

    /// Ends the write with the host's outcome.
    pub fn resolve(self, outcome: Result<(), IoFailure>) -> (result: Result<(), OperationFailure>)
        ensures
            result_view(result) == write_result(result_view(outcome)),
    {
        match outcome {
            Ok(_) => Ok(()),
            Err(failure) => Err(OperationFailure::from_io(IoStep::WriteFile, failure)),
        }
    }
}

} // verus!
