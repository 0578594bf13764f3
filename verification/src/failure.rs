//! Failures: what a host reports of a failed call, and what a command returns.

use vstd::prelude::*;
use vstd::string::StringExecFns;

verus! {

/// The cause of a failed call on the file system, as the host reports it.
#[derive(Clone, Copy, Debug, PartialEq, Eq, Structural)]
pub enum IoCause {
    /// The file or directory does not exist.
    NotFound,
    /// The host was not allowed to touch the path.
    PermissionDenied,
    /// The data read was not valid text.
    InvalidData,
    /// Anything else.
    Other,
}

/// The call on the file system that a failure came from.
#[derive(Clone, Copy, Debug, PartialEq, Eq, Structural)]
pub enum IoStep {
    /// Reading a whole file as text.
    ReadFile,
    /// Creating a directory and every missing ancestor of it.
    CreateDirs,
    /// Writing a whole file.
    WriteFile,
    /// Opening a directory for listing.
    ListDir,
}

/// What kind of failure a command ended in.
#[derive(Clone, Copy, Debug, PartialEq, Eq, Structural)]
pub enum FailureKind {
    /// The user closed the directory prompt without choosing.
    NoSelection,
    /// A file or directory was missing.
    NotFound,
    /// Access to a path was denied.
    PermissionDenied,
    /// A file did not hold valid text.
    Encoding,
    /// Any other failure of the file system.
    Other,
}

/// A failed call on the file system: its cause, and the host's description of it.
#[derive(Clone, Debug, PartialEq, Eq)]
pub struct IoFailure {
    pub cause: IoCause,
    pub reason: String,
}

/// The mathematical value of an [`IoFailure`].
pub struct IoFailureView {
    pub cause: IoCause,
    pub reason: Seq<char>,
}

impl View for IoFailure {
    type V = IoFailureView;

    open spec fn view(&self) -> IoFailureView {
        IoFailureView { cause: self.cause, reason: self.reason@ }
    }
}

/// The failure of a command: its kind, and a message fit for display.
#[derive(Clone, Debug, PartialEq, Eq)]
pub struct OperationFailure {
    pub kind: FailureKind,
    pub message: String,
}

/// The mathematical value of an [`OperationFailure`].
pub struct FailureView {
    pub kind: FailureKind,
    pub message: Seq<char>,
}

impl View for OperationFailure {
    type V = FailureView;

    open spec fn view(&self) -> FailureView {
        FailureView { kind: self.kind, message: self.message@ }
    }
}

/// The kind of failure that a cause stands for.
pub open spec fn kind_of(cause: IoCause) -> FailureKind {
    match cause {
        IoCause::NotFound => FailureKind::NotFound,
        IoCause::PermissionDenied => FailureKind::PermissionDenied,
        IoCause::InvalidData => FailureKind::Encoding,
        IoCause::Other => FailureKind::Other,
    }
}

/// The words that open the message of a failure at `step`.
pub open spec fn prefix_of(step: IoStep) -> Seq<char> {
    match step {
        IoStep::ReadFile => "Erreur lecture fichier: "@,
        IoStep::CreateDirs => "Erreur création dossier: "@,
        IoStep::WriteFile => "Erreur écriture fichier: "@,
        IoStep::ListDir => "Erreur lecture dossier: "@,
    }
}

/// The failure that a command returns when the call at `step` failed with `failure`:
/// the kind follows the cause, the message is the step's prefix and then the
/// host's description.
pub open spec fn io_failure(step: IoStep, failure: IoFailureView) -> FailureView {
    FailureView { kind: kind_of(failure.cause), message: prefix_of(step) + failure.reason }
}

/// The failure that a command returns when the user chose no directory.
pub open spec fn no_selection() -> FailureView {
    FailureView { kind: FailureKind::NoSelection, message: "Aucun dossier sélectionné"@ }
}

impl FailureKind {
    /// The kind of failure that `cause` stands for.
    pub fn from_cause(cause: IoCause) -> (kind: FailureKind)
        ensures
            kind == kind_of(cause),
    {
        match cause {
            IoCause::NotFound => FailureKind::NotFound,
            IoCause::PermissionDenied => FailureKind::PermissionDenied,
            IoCause::InvalidData => FailureKind::Encoding,
            IoCause::Other => FailureKind::Other,
        }
    }
}

impl IoStep {
    /// The words that open the message of a failure at this step.
    pub fn prefix(self) -> (words: &'static str)
        ensures
            words@ == prefix_of(self),
    {
        match self {
            IoStep::ReadFile => "Erreur lecture fichier: ",
            IoStep::CreateDirs => "Erreur création dossier: ",
            IoStep::WriteFile => "Erreur écriture fichier: ",
            IoStep::ListDir => "Erreur lecture dossier: ",
        }
    }
}

impl OperationFailure {
    /// The failure of a directory prompt that the user closed without choosing.
    pub fn cancelled() -> (failure: OperationFailure)
        ensures
            failure@ == no_selection(),
    {
        OperationFailure {
            kind: FailureKind::NoSelection,
            message: String::from_str("Aucun dossier sélectionné"),
        }
    }

    /// The failure of a command whose call at `step` failed with `failure`.
    pub fn from_io(step: IoStep, failure: IoFailure) -> (result: OperationFailure)
        ensures
            result@ == io_failure(step, failure@),
    {
        let mut message = String::from_str(step.prefix());
        message.append(failure.reason.as_str());
        OperationFailure { kind: FailureKind::from_cause(failure.cause), message }
    }

    /// The message alone, as a caller that shows it to the user wants it.
    pub fn into_message(self) -> (message: String)
        ensures
            message@ == self@.message,
    {
        self.message
    }
}

/// A cancelled prompt can be told from every failure of the file system: their
/// kinds differ, whatever the step, the cause and the host's description.
pub proof fn lemma_cancellation_is_no_io_failure(step: IoStep, failure: IoFailureView)
    ensures
        no_selection().kind != io_failure(step, failure).kind,
        no_selection().kind == FailureKind::NoSelection,
{
}

} // verus!
