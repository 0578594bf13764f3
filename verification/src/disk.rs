//! The commands run against a model of the host's file system.
//!
//! The facade never sees a disk: it sees what its host reports. What a command
//! does to the files is therefore stated here against a model, a disk that
//! changes as a host changes it. A call that the host reports as done has had
//! its whole effect. Of a call that it reports as failed the model says only
//! what it cannot have touched: how much of a file was written, or which
//! directories were made before the failure, is left open. The laws below hold
//! for every disk, for every report of the host, and for every state that such
//! a failure may leave.

use vstd::prelude::*;
use crate::commands::{dirs_result, read_result, write_plan, write_result, WritePlan, WriteView};
use crate::failure::{io_failure, FailureView, IoFailureView, IoStep};

verus! {

/// A disk, as far as the commands can tell one from another: the text of each
/// file by its path, and the directories that exist.
#[verifier::ext_equal]
pub struct Disk {
    pub files: Map<Seq<char>, Seq<char>>,
    pub dirs: Set<Seq<char>>,
}

impl Disk {
    /// The disk after `dir` was created with every missing directory above
    /// it, where `ancestors` are the directories above `dir`: `dir` and each
    /// of them exists, next to the directories that were there before.
    pub open spec fn with_dirs(self, dir: Seq<char>, ancestors: Set<Seq<char>>) -> Disk {
        Disk { files: self.files, dirs: self.dirs.union(ancestors).insert(dir) }
    }

    /// The disk after `content` was written to `path`, in place of whatever
    /// the file held.
    pub open spec fn with_file(self, path: Seq<char>, content: Seq<char>) -> Disk {
        Disk { files: self.files.insert(path, content), dirs: self.dirs }
    }

    /// Whether `after` can be the disk once the creation of `dir` has failed:
    /// no file is touched, no directory is gone, and no directory is new but
    /// `dir` and those of `ancestors`. Which of these the host had made when
    /// it failed is left open.
    pub open spec fn after_failed_creation(
        self,
        dir: Seq<char>,
        ancestors: Set<Seq<char>>,
        after: Disk,
    ) -> bool {
        &&& after.files == self.files
        &&& self.dirs.subset_of(after.dirs)
        &&& after.dirs.subset_of(self.dirs.union(ancestors).insert(dir))
    }

    /// Whether `after` can be the disk once the write to `path` has failed: no
    /// directory is touched, and no file but the one at `path`. Whether that
    /// file is there, and what it holds, is left open.
    pub open spec fn after_failed_write(self, path: Seq<char>, after: Disk) -> bool {
        &&& after.dirs == self.dirs
        &&& after.files.remove(path) == self.files.remove(path)
    }

    /// What the host reports of reading `path`: the text of the file if the
    /// disk holds it, else the failure `absent`.
    pub open spec fn read_to_string(self, path: Seq<char>, absent: IoFailureView) -> Result<
        Seq<char>,
        IoFailureView,
    > {
        if self.files.contains_key(path) {
            Ok(self.files[path])
        } else {
            Err(absent)
        }
    }
}

/// One run of the command that writes a file: what it was called with, what
/// the platform's path syntax gives for the path, and what the host reports.
pub struct WriteRun {
    /// The path of the file to write.
    pub path: Seq<char>,
    /// The content to write.
    pub content: Seq<char>,
    /// The directory that holds `path`, if the path has one.
    pub parent: Option<Seq<char>>,
    /// The directories above `parent`, each of which has to exist for
    /// `parent` to exist.
    pub ancestors: Set<Seq<char>>,
    /// What the host reports of creating `parent`. It is asked only where
    /// there is a parent.
    pub created: Result<(), IoFailureView>,
    /// What the host reports of the write. It is asked only where the
    /// creation did not fail.
    pub written: Result<(), IoFailureView>,
}

/// Whether `after` can be the disk once the host was asked for `write` on
/// `before` and reported `written`.
pub open spec fn write_leaves(
    before: Disk,
    write: WriteView,
    written: Result<(), IoFailureView>,
    after: Disk,
) -> bool {
    match written {
        Ok(_) => after == before.with_file(write.path, write.content),
        Err(_) => before.after_failed_write(write.path, after),
    }
}

/// Whether `run`, started on the disk `before`, can end on the disk `after`
/// with `result`. The command asks for the parent directory first, where the
/// path has one, and for the write only when that is done; its result is the
/// one that the host's reports give.
pub open spec fn write_run(
    before: Disk,
    run: WriteRun,
    after: Disk,
    result: Result<(), FailureView>,
) -> bool {
    match write_plan(run.path, run.content, run.parent) {
        WritePlan::CreateDirs(dirs) => match dirs_result(dirs, run.created) {
            Ok(write) => {
                &&& write_leaves(
                    before.with_dirs(dirs.dir, run.ancestors),
                    write,
                    run.written,
                    after,
                )
                &&& result == write_result(run.written)
            },
            Err(failure) => {
                &&& before.after_failed_creation(dirs.dir, run.ancestors, after)
                &&& result == Err::<(), FailureView>(failure)
            },
        },
        WritePlan::Write(write) => {
            &&& write_leaves(before, write, run.written, after)
            &&& result == write_result(run.written)
        },
    }
}

/// The command that reads `path`, run on `disk`: its result, where the host
/// reports `absent` of a file that the disk does not hold.
pub open spec fn run_read(disk: Disk, path: Seq<char>, absent: IoFailureView) -> Result<
    Seq<char>,
    FailureView,
> {
    read_result(disk.read_to_string(path, absent))
}

/// Every run ends: whatever the disk, the arguments and the host's reports,
/// there is a disk and a result that the run can end with.
pub proof fn lemma_every_write_run_ends(before: Disk, run: WriteRun)
    ensures
        exists|after: Disk, result: Result<(), FailureView>| write_run(before, run, after, result),
{
    let start = match run.parent {
        Some(dir) => if run.created is Ok {
            before.with_dirs(dir, run.ancestors)
        } else {
            before
        },
        None => before,
    };
    let after = if run.written is Ok && !(run.parent is Some && run.created is Err) {
        start.with_file(run.path, run.content)
    } else {
        start
    };
    let result = match run.parent {
        Some(_) => match run.created {
            Ok(_) => write_result(run.written),
            Err(failure) => Err(io_failure(IoStep::CreateDirs, failure)),
        },
        None => write_result(run.written),
    };
    assert(write_run(before, run, after, result));
}

/// Round trip: where writing `content` to `path` has succeeded, reading `path`
/// returns `content`, letter for letter, whatever the disk held before.
pub proof fn lemma_write_then_read(
    before: Disk,
    run: WriteRun,
    after: Disk,
    result: Result<(), FailureView>,
    absent: IoFailureView,
)
    requires
        write_run(before, run, after, result),
        result is Ok,
    ensures
        run_read(after, run.path, absent) == Ok::<Seq<char>, FailureView>(run.content),
{
}

/// Writing succeeds wherever the host does, and leaves every directory
/// behind. If the host reports each call that it is asked for as done, the
/// command succeeds and the file holds the content. Where the path has a
/// parent, the parent and every directory above it exist afterwards, whether
/// or not they did before. Nothing that was there is gone, and nothing else is
/// new: the disk is the one before, with those directories and that file.
pub proof fn lemma_write_creates_every_parent(
    before: Disk,
    run: WriteRun,
    after: Disk,
    result: Result<(), FailureView>,
)
    requires
        write_run(before, run, after, result),
        run.parent is Some ==> run.created is Ok,
        run.written is Ok,
    ensures
        result is Ok,
        after.files.contains_key(run.path) && after.files[run.path] == run.content,
        run.parent matches Some(dir) ==> after.dirs.contains(dir),
        run.parent is Some ==> forall|ancestor: Seq<char>|
            run.ancestors.contains(ancestor) ==> after.dirs.contains(ancestor),
        forall|dir: Seq<char>| before.dirs.contains(dir) ==> after.dirs.contains(dir),
        after == (match run.parent {
            Some(dir) => before.with_dirs(dir, run.ancestors),
            None => before,
        }).with_file(run.path, run.content),
{
}

/// No write without its directory: where the parent could not be created, the
/// command fails with that failure and no file is touched. No directory is
/// gone, and none is new but the parent and the directories above it.
pub proof fn lemma_failed_parent_stops_write(
    before: Disk,
    run: WriteRun,
    after: Disk,
    result: Result<(), FailureView>,
)
    requires
        write_run(before, run, after, result),
        run.parent is Some,
        run.created is Err,
    ensures
        result == Err::<(), FailureView>(io_failure(IoStep::CreateDirs, run.created->Err_0)),
        after.files == before.files,
        forall|dir: Seq<char>| before.dirs.contains(dir) ==> after.dirs.contains(dir),
        forall|dir: Seq<char>|
            after.dirs.contains(dir) ==> before.dirs.contains(dir) || run.parent == Some(dir)
                || run.ancestors.contains(dir),
{
}

/// A failed write spares every other file: where the write itself failed, the
/// command fails with that failure, and a file at another path is there
/// exactly if it was, with the text that it had.
pub proof fn lemma_failed_write_spares_other_files(
    before: Disk,
    run: WriteRun,
    after: Disk,
    result: Result<(), FailureView>,
    other: Seq<char>,
)
    requires
        write_run(before, run, after, result),
        run.parent is Some ==> run.created is Ok,
        run.written is Err,
        other != run.path,
    ensures
        result == Err::<(), FailureView>(io_failure(IoStep::WriteFile, run.written->Err_0)),
        after.files.contains_key(other) == before.files.contains_key(other),
        before.files.contains_key(other) ==> after.files[other] == before.files[other],
{
    let kept = after.files.remove(run.path);
    let held = before.files.remove(run.path);
    assert(kept.contains_key(other) == after.files.contains_key(other));
    assert(held.contains_key(other) == before.files.contains_key(other));
    if before.files.contains_key(other) {
        assert(kept[other] == after.files[other]);
        assert(held[other] == before.files[other]);
    }
}

/// Reading a file that is not there fails, with the failure that the host
/// reported: it never succeeds, and never with another failure.
pub proof fn lemma_read_of_absent_file_fails(disk: Disk, path: Seq<char>, absent: IoFailureView)
    requires
        !disk.files.contains_key(path),
    ensures
        run_read(disk, path, absent) == Err::<Seq<char>, FailureView>(
            io_failure(IoStep::ReadFile, absent),
        ),
{
}

} // verus!
