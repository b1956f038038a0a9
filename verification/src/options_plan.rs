//! Translation of portable request options into native engine options.
//!
//! Each request's options are read as plain values; the result is the plan
//! of native options to apply, or the refusal of an option the local engine
//! cannot express.

use vstd::prelude::*;

use crate::error::LocalEffectState;
use crate::error::LocalError;
use crate::error::LocalErrorKind;
use crate::error::LocalOperation;
use crate::outcome_map::MetadataPreservePolicy;
use crate::outcome_map::NativeMetadataPreservation;

verus! {

/// Authority a native engine works in.
#[derive(Clone, Copy, Debug, PartialEq, Eq, Structural)]
pub enum AuthorityScope {
    /// The process host namespace.
    Host,
    /// One retained native directory.
    Rooted,
}

/// Strength of a requested guarantee.
#[derive(Clone, Copy, Debug, PartialEq, Eq, Structural)]
pub enum Requirement {
    /// The guarantee must hold.
    Required,
    /// The guarantee should hold where possible.
    Preferred,
    /// The guarantee is not needed.
    NotRequired,
}

/// Portable symbolic-link policy.
#[derive(Clone, Copy, Debug, PartialEq, Eq, Structural)]
pub enum SymlinkPolicy {
    /// Refuse symbolic links.
    Reject,
    /// Follow links that stay within the filesystem.
    FollowWithinFileSystem,
    /// A policy the local engine cannot express.
    Other,
}

/// Native symbolic-link policy.
#[derive(Clone, Copy, Debug, PartialEq, Eq, Structural)]
pub enum NativeSymlinkPolicy {
    /// Refuse symbolic links.
    Reject,
    /// Follow links that stay within the retained authority.
    FollowWithinScope,
    /// Follow links anywhere in the host namespace.
    FollowAcrossScope,
}

/// The failure for an option the local adapter cannot express.
pub open spec fn is_unsupported_option(operation: LocalOperation, r: LocalError) -> bool {
    &&& r.kind == LocalErrorKind::RequirementNotMet
    &&& r.operation == operation
    &&& r.message@ == "local adapter cannot express requested option"@
    &&& r.effect is None
}

/// Builds the failure for an option the local adapter cannot express.
pub fn unsupported(operation: LocalOperation) -> (r: LocalError)
    ensures
        is_unsupported_option(operation, r),
{
    LocalError::new(
        LocalErrorKind::RequirementNotMet,
        operation,
        "local adapter cannot express requested option",
    )
}

/// Native policy for a portable symbolic-link policy in a scope: following
/// within the filesystem means following within a rooted authority, and
/// anywhere in the host namespace.
pub open spec fn native_symlink_of(policy: SymlinkPolicy, scope: AuthorityScope) -> Option<NativeSymlinkPolicy> {
    match policy {
        SymlinkPolicy::Reject => Some(NativeSymlinkPolicy::Reject),
        SymlinkPolicy::FollowWithinFileSystem => Some(
            match scope {
                AuthorityScope::Host => NativeSymlinkPolicy::FollowAcrossScope,
                AuthorityScope::Rooted => NativeSymlinkPolicy::FollowWithinScope,
            },
        ),
        SymlinkPolicy::Other => None,
    }
}

/// Converts a portable symbolic-link policy to the native policy of a scope,
/// refusing a policy the engine cannot express.
pub fn native_symlink_policy(policy: SymlinkPolicy, scope: AuthorityScope, operation: LocalOperation) -> (r: Result<NativeSymlinkPolicy, LocalError>)
    ensures
        native_symlink_of(policy, scope) matches Some(p) ==> r == Ok::<NativeSymlinkPolicy, LocalError>(p),
        native_symlink_of(policy, scope) is None ==> (r matches Err(e) && is_unsupported_option(operation, e)),
{
    match policy {
        SymlinkPolicy::Reject => Ok(NativeSymlinkPolicy::Reject),
        SymlinkPolicy::FollowWithinFileSystem => Ok(
            match scope {
                AuthorityScope::Host => NativeSymlinkPolicy::FollowAcrossScope,
                AuthorityScope::Rooted => NativeSymlinkPolicy::FollowWithinScope,
            },
        ),
        SymlinkPolicy::Other => Err(unsupported(operation)),
    }
}

/// Listing options of a request, as the adapter reads them.
#[derive(Clone, Copy, Debug, PartialEq, Eq, Structural)]
pub struct ListRequestOptions {
    /// Whether the caller asked for a recursive listing.
    pub recursive: bool,
    /// Whether the caller filters by a prefix.
    pub has_prefix: bool,
    /// Symbolic-link policy the caller set explicitly, if any.
    pub symlink_override: Option<SymlinkPolicy>,
}

/// Native listing options to apply over the engine defaults.
#[derive(Clone, Copy, Debug, PartialEq, Eq, Structural)]
pub struct ListPlan {
    /// Whether the native walk must be recursive.
    pub recursive: bool,
    /// Native symbolic-link policy to set, if any.
    pub symlink: Option<NativeSymlinkPolicy>,
}

/// Plans a native listing. A prefix filter can match entries at any depth,
/// so it needs a recursive walk; an explicit symbolic-link policy must be
/// expressible.
pub fn list(options: &ListRequestOptions, scope: AuthorityScope) -> (r: Result<ListPlan, LocalError>)
    ensures
        r is Ok <==> (options.symlink_override matches Some(p) ==> native_symlink_of(p, scope) is Some),
        r matches Ok(plan) ==> {
            &&& plan.recursive == (options.recursive || options.has_prefix)
            &&& plan.symlink == (match options.symlink_override {
                Some(p) => native_symlink_of(p, scope),
                None => None,
            })
        },
        r matches Err(e) ==> is_unsupported_option(LocalOperation::List, e),
{
    let symlink = match options.symlink_override {
        Some(policy) => Some(native_symlink_policy(policy, scope, LocalOperation::List)?),
        None => None,
    };
    Ok(ListPlan { recursive: options.recursive || options.has_prefix, symlink })
}

/// How a write treats an existing destination.
#[derive(Clone, Copy, Debug, PartialEq, Eq, Structural)]
pub enum WriteDisposition {
    /// Fail when the destination exists.
    CreateNew,
    /// Create the destination or replace it.
    CreateOrReplace,
    /// Append to the destination.
    Append,
}

/// Write options of a request, as the adapter reads them.
#[derive(Clone, Copy, Debug, PartialEq, Eq, Structural)]
pub struct WriteRequestOptions {
    /// Treatment of an existing destination.
    pub disposition: WriteDisposition,
    /// Requested atomicity.
    pub atomicity: Requirement,
    /// Whether missing parents are created.
    pub create_parent: bool,
    /// Whether a write precondition was set.
    pub has_precondition: bool,
    /// Whether a content type was set.
    pub has_content_type: bool,
    /// Whether user metadata was set.
    pub has_user_metadata: bool,
    /// Whether a checksum was requested.
    pub has_checksum: bool,
}

/// Native write options.
#[derive(Clone, Copy, Debug, PartialEq, Eq, Structural)]
pub struct WritePlan {
    /// Treatment of an existing destination.
    pub disposition: WriteDisposition,
    /// Requested atomicity.
    pub atomicity: Requirement,
    /// Whether missing parents are created.
    pub create_parent: bool,
}

/// Whether write options ask for something a local file cannot carry.
pub open spec fn write_needs_unsupported(options: WriteRequestOptions) -> bool {
    options.has_precondition || options.has_content_type || options.has_user_metadata
        || options.has_checksum
}

/// Plans a native write; preconditions, content types, user metadata and
/// checksums cannot be expressed by a local file.
pub fn write(options: &WriteRequestOptions) -> (r: Result<WritePlan, LocalError>)
    ensures
        r is Ok <==> !write_needs_unsupported(*options),
        r matches Ok(plan) ==> plan.disposition == options.disposition && plan.atomicity
            == options.atomicity && plan.create_parent == options.create_parent,
        r matches Err(e) ==> is_unsupported_option(LocalOperation::OpenWriter, e),
{
    if options.has_precondition || options.has_content_type || options.has_user_metadata
        || options.has_checksum {
        return Err(unsupported(LocalOperation::OpenWriter));
    }
    Ok(
        WritePlan {
            disposition: options.disposition,
            atomicity: options.atomicity,
            create_parent: options.create_parent,
        },
    )
}

/// Plans the opening of a writer. A refused option is reported with the
/// known fact that nothing changed.
pub fn open_writer(options: &WriteRequestOptions) -> (r: Result<WritePlan, LocalError>)
    ensures
        r is Ok <==> !write_needs_unsupported(*options),
        r matches Ok(plan) ==> plan.disposition == options.disposition && plan.atomicity
            == options.atomicity && plan.create_parent == options.create_parent,
        r matches Err(e) ==> {
            &&& e.kind == LocalErrorKind::RequirementNotMet
            &&& e.operation == LocalOperation::OpenWriter
            &&& e.message@ == "local adapter cannot express requested option"@
            &&& e.effect == Some(LocalEffectState::Unchanged)
        },
{
    match write(options) {
        Ok(plan) => Ok(plan),
        Err(error) => Err(error.with_effect(LocalEffectState::Unchanged)),
    }
}

/// Directory creation options of a request, as the adapter reads them.
#[derive(Clone, Copy, Debug, PartialEq, Eq, Structural)]
pub struct CreateDirectoryRequestOptions {
    /// Whether user metadata was set.
    pub has_user_metadata: bool,
    /// Whether missing ancestors are created.
    pub recursive: bool,
    /// Whether an existing directory is accepted.
    pub exists_ok: bool,
}

/// Native directory creation options.
#[derive(Clone, Copy, Debug, PartialEq, Eq, Structural)]
pub struct CreateDirectoryPlan {
    /// Whether missing ancestors are created.
    pub recursive: bool,
    /// Whether an existing directory is accepted.
    pub exists_ok: bool,
}

/// Plans a native directory creation; a local directory cannot carry user
/// metadata.
pub fn create_directory(options: &CreateDirectoryRequestOptions) -> (r: Result<CreateDirectoryPlan, LocalError>)
    ensures
        r is Ok <==> !options.has_user_metadata,
        r matches Ok(plan) ==> plan.recursive == options.recursive && plan.exists_ok
            == options.exists_ok,
        r matches Err(e) ==> is_unsupported_option(LocalOperation::CreateDir, e),
{
    if options.has_user_metadata {
        return Err(unsupported(LocalOperation::CreateDir));
    }
    Ok(CreateDirectoryPlan { recursive: options.recursive, exists_ok: options.exists_ok })
}

/// How a copy treats an existing destination entry.
#[derive(Clone, Copy, Debug, PartialEq, Eq, Structural)]
pub enum CopyConflictPolicy {
    /// Fail on a conflict.
    Fail,
    /// Overwrite the existing entry.
    Overwrite,
    /// Skip the conflicting entry.
    Skip,
}

/// What a copy source is taken to be.
#[derive(Clone, Copy, Debug, PartialEq, Eq, Structural)]
pub enum CopyMode {
    /// A single file.
    File,
    /// A directory tree.
    Tree,
    /// Whatever the source is.
    Auto,
}

/// How a copy treats a destination entry of another type.
#[derive(Clone, Copy, Debug, PartialEq, Eq, Structural)]
pub enum TypeConflictPolicy {
    /// Replace the entry.
    Replace,
    /// Skip the entry.
    Skip,
}

/// Copy options of a request, as the adapter reads them.
#[derive(Clone, Copy, Debug, PartialEq, Eq, Structural)]
pub struct CopyRequestOptions {
    /// Whether the copy continues past entry failures.
    pub continue_on_error: bool,
    /// Whether a server-side copy is required.
    pub server_side_required: bool,
    /// Treatment of conflicting entries.
    pub conflict: CopyConflictPolicy,
    /// Metadata to preserve.
    pub preserve: MetadataPreservePolicy,
    /// Requested atomicity.
    pub atomicity: Requirement,
    /// Requested durability.
    pub durability: Requirement,
    /// Whether the caller set a symbolic-link policy explicitly.
    pub symlink_override: bool,
    /// Symbolic-link policy in effect for the request.
    pub symlink_policy: SymlinkPolicy,
    /// What the source is taken to be.
    pub mode: CopyMode,
    /// Whether missing parents of the destination are created.
    pub create_parent: bool,
}

/// Native copy options to apply over the engine defaults.
#[derive(Clone, Copy, Debug, PartialEq, Eq, Structural)]
pub struct CopyPlan {
    /// Treatment of conflicting entries.
    pub conflict: CopyConflictPolicy,
    /// Metadata to preserve.
    pub metadata: NativeMetadataPreservation,
    /// Requested atomicity.
    pub atomicity: Requirement,
    /// Requested durability.
    pub durability: Requirement,
    /// Native symbolic-link policy to set, if any.
    pub symlink: Option<NativeSymlinkPolicy>,
    /// What the source is taken to be.
    pub mode: CopyMode,
    /// Treatment of entries of another type, if set.
    pub type_conflict: Option<TypeConflictPolicy>,
    /// Whether missing parents of the destination are created.
    pub create_parent: bool,
}

/// Native metadata preservation for a portable policy, if the local engine
/// can honour it: only content and permissions can be preserved.
pub open spec fn native_preservation_of(policy: MetadataPreservePolicy) -> Option<NativeMetadataPreservation> {
    match policy {
        MetadataPreservePolicy::ContentOnly => Some(NativeMetadataPreservation::ContentOnly),
        MetadataPreservePolicy::Portable => Some(NativeMetadataPreservation::Permissions),
        _ => None,
    }
}

/// Converts a portable metadata preservation policy, refusing what a local
/// copy cannot preserve.
pub fn metadata_preservation(policy: MetadataPreservePolicy) -> (r: Result<NativeMetadataPreservation, LocalError>)
    ensures
        native_preservation_of(policy) matches Some(p) ==> r == Ok::<NativeMetadataPreservation, LocalError>(p),
        native_preservation_of(policy) is None ==> (r matches Err(e) && is_unsupported_option(
            LocalOperation::Copy,
            e,
        )),
{
    match policy {
        MetadataPreservePolicy::ContentOnly => Ok(NativeMetadataPreservation::ContentOnly),
        MetadataPreservePolicy::Portable => Ok(NativeMetadataPreservation::Permissions),
        MetadataPreservePolicy::UserMetadata
        | MetadataPreservePolicy::ProviderNative
        | MetadataPreservePolicy::All => Err(unsupported(LocalOperation::Copy)),
    }
}

/// Whether a local copy can honour these options in a scope.
pub open spec fn copy_expressible(options: CopyRequestOptions, scope: AuthorityScope) -> bool {
    &&& !options.continue_on_error
    &&& !options.server_side_required
    &&& native_preservation_of(options.preserve) is Some
    &&& options.symlink_override ==> native_symlink_of(options.symlink_policy, scope) is Some
}

/// Plans a native copy. A local copy stops at the first failure and is never
/// server-side; overwriting or skipping conflicts extends to entries of
/// another type.
pub fn copy(options: &CopyRequestOptions, scope: AuthorityScope) -> (r: Result<CopyPlan, LocalError>)
    ensures
        r is Ok <==> copy_expressible(*options, scope),
        r matches Ok(plan) ==> {
            &&& plan.conflict == options.conflict
            &&& Some(plan.metadata) == native_preservation_of(options.preserve)
            &&& plan.atomicity == options.atomicity
            &&& plan.durability == options.durability
            &&& plan.symlink == (if options.symlink_override {
                native_symlink_of(options.symlink_policy, scope)
            } else {
                None
            })
            &&& plan.mode == options.mode
            &&& plan.type_conflict == (match options.conflict {
                CopyConflictPolicy::Overwrite => Some(TypeConflictPolicy::Replace),
                CopyConflictPolicy::Skip => Some(TypeConflictPolicy::Skip),
                CopyConflictPolicy::Fail => None,
            })
            &&& plan.create_parent == options.create_parent
        },
        r matches Err(e) ==> is_unsupported_option(LocalOperation::Copy, e),
{
    if options.continue_on_error || options.server_side_required {
        return Err(unsupported(LocalOperation::Copy));
    }
    let metadata = metadata_preservation(options.preserve)?;
    let symlink = if options.symlink_override {
        Some(native_symlink_policy(options.symlink_policy, scope, LocalOperation::Copy)?)
    } else {
        None
    };
    let type_conflict = match options.conflict {
        CopyConflictPolicy::Overwrite => Some(TypeConflictPolicy::Replace),
        CopyConflictPolicy::Skip => Some(TypeConflictPolicy::Skip),
        CopyConflictPolicy::Fail => None,
    };
    Ok(
        CopyPlan {
            conflict: options.conflict,
            metadata,
            atomicity: options.atomicity,
            durability: options.durability,
            symlink,
            mode: options.mode,
            type_conflict,
            create_parent: options.create_parent,
        },
    )
}

} // verus!
