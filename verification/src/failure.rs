//! Failures of a copy: what was reported, which kind of failure that is, and
//! the text the caller gets.

use vstd::prelude::*;

verus! {

/// The four kinds of failure a copy can end in.
#[derive(Clone, Copy, Debug, PartialEq, Eq, Structural)]
pub enum FailureKind {
    /// The source is missing, is no directory, or a path cannot be used.
    Input,
    /// Reading or writing was denied somewhere under the source or the
    /// destination.
    Permission,
    /// The machine ran out of something (space, memory, quota), or the copy
    /// was cut short.
    Resource,
    /// An entry of the destination stands in the way and cannot be replaced,
    /// such as a file where the source has a directory.
    Conflict,
}

/// A report of the operating system that the copy passes on unnamed.
#[derive(Clone, Copy, Debug, PartialEq, Eq, Structural)]
pub enum IoCause {
    /// A directory was needed and something else was found.
    NotADirectory,
    /// A file was needed and a directory was found.
    IsADirectory,
    /// A directory that had to be empty was not.
    DirectoryNotEmpty,
    /// The file system takes no writes.
    ReadOnlyFilesystem,
    /// No space is left on the device.
    StorageFull,
    /// A quota is used up.
    QuotaExceeded,
    /// The file is larger than the file system allows.
    FileTooLarge,
    /// No memory is left.
    OutOfMemory,
    /// A parameter was refused.
    InvalidInput,
    /// A file name was refused.
    InvalidFilename,
    /// Any other report.
    Unclassified,
}

/// The reason a copy stopped, or does not stand.
#[derive(Clone, Copy, Debug, PartialEq, Eq, Structural)]
pub enum Cause {
    /// An entry was not found.
    NotFound,
    /// The operation lacked the privileges to complete.
    PermissionDenied,
    /// An entry exists already.
    AlreadyExists,
    /// The operation was interrupted.
    Interrupted,
    /// The path is no directory.
    InvalidFolder,
    /// The path is no file.
    InvalidFile,
    /// The file name cannot be used.
    InvalidFileName,
    /// The path cannot be used.
    InvalidPath,
    /// A report of the operating system, passed on.
    Io(IoCause),
    /// A path of the source did not start with the source.
    StripPrefix,
    /// A name is no valid text.
    OsString,
    /// Anything else.
    Other,
}

/// The kind of failure that a report of the operating system stands for.
pub open spec fn kind_of_io(cause: IoCause) -> FailureKind {
    match cause {
        IoCause::NotADirectory | IoCause::IsADirectory | IoCause::DirectoryNotEmpty =>
            FailureKind::Conflict,
        IoCause::ReadOnlyFilesystem => FailureKind::Permission,
        IoCause::InvalidInput | IoCause::InvalidFilename => FailureKind::Input,
        IoCause::StorageFull
        | IoCause::QuotaExceeded
        | IoCause::FileTooLarge
        | IoCause::OutOfMemory
        | IoCause::Unclassified => FailureKind::Resource,
    }
}

/// The kind of failure that a cause stands for.
pub open spec fn kind_of(cause: Cause) -> FailureKind {
    match cause {
        Cause::NotFound
        | Cause::InvalidFolder
        | Cause::InvalidFile
        | Cause::InvalidFileName
        | Cause::InvalidPath
        | Cause::StripPrefix
        | Cause::OsString => FailureKind::Input,
        Cause::PermissionDenied => FailureKind::Permission,
        Cause::AlreadyExists => FailureKind::Conflict,
        Cause::Interrupted | Cause::Other => FailureKind::Resource,
        Cause::Io(report) => kind_of_io(report),
    }
}

impl IoCause {
    /// The kind of failure this report stands for.
    pub fn kind(&self) -> (kind: FailureKind)
        ensures
            kind == kind_of_io(*self),
    {
        match self {
            IoCause::NotADirectory => FailureKind::Conflict,
            IoCause::IsADirectory => FailureKind::Conflict,
            IoCause::DirectoryNotEmpty => FailureKind::Conflict,
            IoCause::ReadOnlyFilesystem => FailureKind::Permission,
            IoCause::InvalidInput => FailureKind::Input,
            IoCause::InvalidFilename => FailureKind::Input,
            IoCause::StorageFull => FailureKind::Resource,
            IoCause::QuotaExceeded => FailureKind::Resource,
            IoCause::FileTooLarge => FailureKind::Resource,
            IoCause::OutOfMemory => FailureKind::Resource,
            IoCause::Unclassified => FailureKind::Resource,
        }
    }
}

impl Cause {
    /// The kind of failure this cause stands for.
    pub fn kind(&self) -> (kind: FailureKind)
        ensures
            kind == kind_of(*self),
    {
        match self {
            Cause::NotFound => FailureKind::Input,
            Cause::InvalidFolder => FailureKind::Input,
            Cause::InvalidFile => FailureKind::Input,
            Cause::InvalidFileName => FailureKind::Input,
            Cause::InvalidPath => FailureKind::Input,
            Cause::StripPrefix => FailureKind::Input,
            Cause::OsString => FailureKind::Input,
            Cause::PermissionDenied => FailureKind::Permission,
            Cause::AlreadyExists => FailureKind::Conflict,
            Cause::Interrupted => FailureKind::Resource,
            Cause::Other => FailureKind::Resource,
            Cause::Io(report) => report.kind(),
        }
    }
}

/// A copy that stopped: why, and the sentence that describes it.
#[derive(Debug, PartialEq, Eq)]
pub struct CopyFailure {
    /// The reason the copy gave.
    pub cause: Cause,
    /// The description of the first thing that went wrong.
    pub message: String,
}

impl CopyFailure {
    /// A failure with the given cause and description.
    pub fn new(cause: Cause, message: String) -> (failure: CopyFailure)
        ensures
            failure.cause == cause,
            failure.message@ == message@,
    {
        CopyFailure { cause, message }
    }

    /// The kind of this failure.
    pub fn kind(&self) -> (kind: FailureKind)
        ensures
            kind == kind_of(self.cause),
    {
        self.cause.kind()
    }

    /// The text the caller is given: the description, as it was reported.
    pub fn into_text(self) -> (text: String)
        ensures
            text@ == self.message@,
    {
        self.message
    }
}

} // verus!
