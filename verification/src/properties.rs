//! The capabilities a local filesystem advertises.
//!
//! Ordinary operations are guaranteed. Ranged reads are conditional on the
//! entry being a regular file. Atomic and durable publication features are
//! conditional, and advertised only where the native engine reports that it
//! can attempt them.

use vstd::prelude::*;

use crate::options_plan::NativeSymlinkPolicy;
use crate::options_plan::SymlinkPolicy;

verus! {

/// What the native engine reports it can attempt.
#[derive(Clone, Copy, Debug, PartialEq, Eq, Structural)]
pub struct NativeCapabilities {
    /// Atomic rename.
    pub atomic_rename: bool,
    /// Atomic replacement of an existing entry.
    pub atomic_replace: bool,
    /// Atomic persistence of a temporary resource.
    pub atomic_temp_persist: bool,
    /// Durable rename.
    pub durable_rename: bool,
    /// Durable file copy.
    pub durable_file_copy: bool,
    /// Durable write.
    pub durable_write: bool,
}

/// A portable filesystem capability.
#[derive(Clone, Copy, Debug, PartialEq, Eq, Structural)]
pub enum Capability {
    /// Directory listing.
    List,
    /// Sequential reads.
    Read,
    /// Byte-range reads.
    RangeRead,
    /// Version-conditional reads.
    ConditionalRead,
    /// Checksum validation of reads.
    ChecksumValidation,
    /// Writes.
    Write,
    /// Appending writes.
    Append,
    /// Conditional writes.
    ConditionalWrite,
    /// Directory creation.
    CreateDirectory,
    /// Empty directories as entries.
    EmptyDirectory,
    /// Deletion.
    Delete,
    /// Recursive deletion.
    RecursiveDelete,
    /// Rename.
    Rename,
    /// Atomic rename.
    AtomicRename,
    /// Atomic replacement.
    AtomicReplace,
    /// Copy.
    Copy,
    /// Atomic file copy.
    AtomicFileCopy,
    /// Temporary files.
    TempFile,
    /// Temporary directories.
    TempDirectory,
    /// Atomic persistence of temporary resources.
    AtomicTempPersist,
    /// Durable rename.
    DurableRename,
    /// Durable file copy.
    DurableFileCopy,
    /// Durable writes.
    DurableWrite,
    /// User metadata.
    UserMetadata,
    /// Any capability this adapter does not advertise.
    Other,
}

/// How far a capability is supported.
#[derive(Clone, Copy, Debug, PartialEq, Eq, Structural)]
pub enum Support {
    /// Not supported.
    Unsupported,
    /// Supported for some valid requests.
    Conditional,
    /// Supported for every valid request.
    Guaranteed,
}

/// Support only where the native engine reports it.
pub open spec fn conditional_if(flag: bool) -> Support {
    if flag {
        Support::Conditional
    } else {
        Support::Unsupported
    }
}

/// The support a local filesystem advertises for a capability.
pub open spec fn support_of(native: NativeCapabilities, capability: Capability) -> Support {
    match capability {
        Capability::List
        | Capability::Read
        | Capability::Write
        | Capability::Append
        | Capability::CreateDirectory
        | Capability::EmptyDirectory
        | Capability::Delete
        | Capability::RecursiveDelete
        | Capability::Rename
        | Capability::Copy
        | Capability::TempFile
        | Capability::TempDirectory => Support::Guaranteed,
        Capability::RangeRead => Support::Conditional,
        Capability::AtomicRename => conditional_if(native.atomic_rename),
        Capability::AtomicReplace | Capability::AtomicFileCopy => conditional_if(native.atomic_replace),
        Capability::AtomicTempPersist => conditional_if(native.atomic_temp_persist),
        Capability::DurableRename => conditional_if(native.durable_rename),
        Capability::DurableFileCopy => conditional_if(native.durable_file_copy),
        Capability::DurableWrite => conditional_if(native.durable_write),
        _ => Support::Unsupported,
    }
}

/// Support flag for a native report.
fn conditional(flag: bool) -> (r: Support)
    ensures
        r == conditional_if(flag),
{
    if flag {
        Support::Conditional
    } else {
        Support::Unsupported
    }
}

/// Returns the support a local filesystem advertises for a capability.
pub fn capability_support(native: &NativeCapabilities, capability: Capability) -> (r: Support)
    ensures
        r == support_of(*native, capability),
{
    match capability {
        Capability::List
        | Capability::Read
        | Capability::Write
        | Capability::Append
        | Capability::CreateDirectory
        | Capability::EmptyDirectory
        | Capability::Delete
        | Capability::RecursiveDelete
        | Capability::Rename
        | Capability::Copy
        | Capability::TempFile
        | Capability::TempDirectory => Support::Guaranteed,
        Capability::RangeRead => Support::Conditional,
        Capability::AtomicRename => conditional(native.atomic_rename),
        Capability::AtomicReplace | Capability::AtomicFileCopy => conditional(native.atomic_replace),
        Capability::AtomicTempPersist => conditional(native.atomic_temp_persist),
        Capability::DurableRename => conditional(native.durable_rename),
        Capability::DurableFileCopy => conditional(native.durable_file_copy),
        Capability::DurableWrite => conditional(native.durable_write),
        _ => Support::Unsupported,
    }
}

/// An operation that a filesystem provider may implement.
#[derive(Clone, Copy, Debug, PartialEq, Eq, Structural)]
pub enum ProviderOperation {
    /// Reading an entry's metadata.
    Stat,
    /// Listing a directory.
    List,
    /// Opening a reader.
    OpenReader,
    /// Opening a writer.
    OpenWriter,
    /// Creating a directory.
    CreateDirectory,
    /// Deleting a file.
    DeleteFile,
    /// Deleting a directory.
    DeleteDirectory,
    /// Copying within the filesystem.
    TryCopy,
    /// Renaming.
    Rename,
    /// Creating a temporary file.
    CreateTempFile,
    /// Creating a temporary directory.
    CreateTempDirectory,
}

/// The operations a local filesystem implements, in the order it reports
/// them: every provider operation.
pub open spec fn local_operations() -> Seq<ProviderOperation> {
    seq![
        ProviderOperation::Stat,
        ProviderOperation::List,
        ProviderOperation::OpenReader,
        ProviderOperation::OpenWriter,
        ProviderOperation::CreateDirectory,
        ProviderOperation::DeleteFile,
        ProviderOperation::DeleteDirectory,
        ProviderOperation::TryCopy,
        ProviderOperation::Rename,
        ProviderOperation::CreateTempFile,
        ProviderOperation::CreateTempDirectory,
    ]
}

/// Returns the operations a local filesystem reports as supported.
pub fn supported_operations() -> (r: Vec<ProviderOperation>)
    ensures
        r@ == local_operations(),
        forall|op: ProviderOperation| r@.contains(op),
{
    let mut r: Vec<ProviderOperation> = Vec::new();
    r.push(ProviderOperation::Stat);
    r.push(ProviderOperation::List);
    r.push(ProviderOperation::OpenReader);
    r.push(ProviderOperation::OpenWriter);
    r.push(ProviderOperation::CreateDirectory);
    r.push(ProviderOperation::DeleteFile);
    r.push(ProviderOperation::DeleteDirectory);
    r.push(ProviderOperation::TryCopy);
    r.push(ProviderOperation::Rename);
    r.push(ProviderOperation::CreateTempFile);
    r.push(ProviderOperation::CreateTempDirectory);
    assert(r@ =~= local_operations());
    assert forall|op: ProviderOperation| r@.contains(op) by {
        let i: int = match op {
            ProviderOperation::Stat => 0,
            ProviderOperation::List => 1,
            ProviderOperation::OpenReader => 2,
            ProviderOperation::OpenWriter => 3,
            ProviderOperation::CreateDirectory => 4,
            ProviderOperation::DeleteFile => 5,
            ProviderOperation::DeleteDirectory => 6,
            ProviderOperation::TryCopy => 7,
            ProviderOperation::Rename => 8,
            ProviderOperation::CreateTempFile => 9,
            ProviderOperation::CreateTempDirectory => 10,
        };
        assert(r@[i] == op);
    }
    r
}

/// The portable symbolic-link policy a native engine's policy stands for:
/// any following policy follows within the filesystem it serves.
pub fn portable_symlink_policy(native: NativeSymlinkPolicy) -> (r: SymlinkPolicy)
    ensures
        r == (if native == NativeSymlinkPolicy::Reject {
            SymlinkPolicy::Reject
        } else {
            SymlinkPolicy::FollowWithinFileSystem
        }),
{
    match native {
        NativeSymlinkPolicy::Reject => SymlinkPolicy::Reject,
        NativeSymlinkPolicy::FollowWithinScope | NativeSymlinkPolicy::FollowAcrossScope => SymlinkPolicy::FollowWithinFileSystem,
    }
}

/// A local filesystem never advertises an atomic or durable feature the
/// native engine does not report, and never guarantees one: such features
/// are at most conditional.
pub proof fn lemma_publication_features_follow_native(native: NativeCapabilities, capability: Capability)
    requires
        capability == Capability::AtomicRename || capability == Capability::AtomicReplace
            || capability == Capability::AtomicFileCopy || capability == Capability::AtomicTempPersist
            || capability == Capability::DurableRename || capability == Capability::DurableFileCopy
            || capability == Capability::DurableWrite,
    ensures
        support_of(native, capability) != Support::Guaranteed,
        !native.atomic_rename && !native.atomic_replace && !native.atomic_temp_persist
            && !native.durable_rename && !native.durable_file_copy && !native.durable_write
            ==> support_of(native, capability) == Support::Unsupported,
{
}

/// Ordinary operations are guaranteed whatever the native engine reports,
/// ranged reads are always conditional (they need a regular file), and the
/// features this adapter never offers are never advertised.
pub proof fn lemma_ordinary_operations_are_guaranteed(native: NativeCapabilities)
    ensures
        support_of(native, Capability::List) == Support::Guaranteed,
        support_of(native, Capability::Read) == Support::Guaranteed,
        support_of(native, Capability::Write) == Support::Guaranteed,
        support_of(native, Capability::Append) == Support::Guaranteed,
        support_of(native, Capability::CreateDirectory) == Support::Guaranteed,
        support_of(native, Capability::EmptyDirectory) == Support::Guaranteed,
        support_of(native, Capability::Delete) == Support::Guaranteed,
        support_of(native, Capability::RecursiveDelete) == Support::Guaranteed,
        support_of(native, Capability::Rename) == Support::Guaranteed,
        support_of(native, Capability::Copy) == Support::Guaranteed,
        support_of(native, Capability::TempFile) == Support::Guaranteed,
        support_of(native, Capability::TempDirectory) == Support::Guaranteed,
        support_of(native, Capability::RangeRead) == Support::Conditional,
        support_of(native, Capability::ConditionalRead) == Support::Unsupported,
        support_of(native, Capability::ChecksumValidation) == Support::Unsupported,
        support_of(native, Capability::ConditionalWrite) == Support::Unsupported,
        support_of(native, Capability::UserMetadata) == Support::Unsupported,
{
}

/// Each atomic or durable publication feature is advertised, as
/// conditional, exactly when the native engine reports the matching ability.
pub proof fn lemma_publication_features_track_the_report(native: NativeCapabilities)
    ensures
        (support_of(native, Capability::AtomicRename) == Support::Conditional) == native.atomic_rename,
        (support_of(native, Capability::AtomicReplace) == Support::Conditional) == native.atomic_replace,
        (support_of(native, Capability::AtomicFileCopy) == Support::Conditional) == native.atomic_replace,
        (support_of(native, Capability::AtomicTempPersist) == Support::Conditional) == native.atomic_temp_persist,
        (support_of(native, Capability::DurableRename) == Support::Conditional) == native.durable_rename,
        (support_of(native, Capability::DurableFileCopy) == Support::Conditional) == native.durable_file_copy,
        (support_of(native, Capability::DurableWrite) == Support::Conditional) == native.durable_write,
{
}

} // verus!
