//! Projection of generated temporary paths onto the caller's parent
//! spelling.
//!
//! The native engine creates each temporary resource inside a private
//! `sandbox-*` directory under the native parent. The caller may have named
//! that parent through an alias; generated paths are reported under the
//! caller's spelling by replacing the native parent prefix.
//!
//! Native paths are handled as their component lists, with the component
//! rules of host paths: a root component can only come first, a current
//! directory component only first, and a normal component is a non-empty
//! name.

use vstd::prelude::*;

use crate::error::LocalError;
use crate::error::LocalErrorKind;
use crate::error::LocalOperation;

verus! {

/// One component of a native path.
#[derive(Debug)]
pub enum NativeComponent {
    /// The root of the namespace.
    RootDir,
    /// The current directory.
    CurDir,
    /// The parent directory.
    ParentDir,
    /// A named entry, as raw bytes.
    Normal(Vec<u8>),
}

/// Mathematical form of a native path component.
pub enum ComponentView {
    /// The root of the namespace.
    RootDir,
    /// The current directory.
    CurDir,
    /// The parent directory.
    ParentDir,
    /// A named entry.
    Normal(Seq<u8>),
}

impl View for NativeComponent {
    type V = ComponentView;

    open spec fn view(&self) -> ComponentView {
        match self {
            NativeComponent::RootDir => ComponentView::RootDir,
            NativeComponent::CurDir => ComponentView::CurDir,
            NativeComponent::ParentDir => ComponentView::ParentDir,
            NativeComponent::Normal(name) => ComponentView::Normal(name@),
        }
    }
}

/// A native path given by its components.
#[derive(Debug)]
pub struct NativePathParts {
    /// The components, in order.
    pub components: Vec<NativeComponent>,
}

impl View for NativePathParts {
    type V = Seq<ComponentView>;

    open spec fn view(&self) -> Seq<ComponentView> {
        self.components@.map_values(|c: NativeComponent| c@)
    }
}

/// The bytes every private creation sandbox name starts with.
pub open spec fn sandbox_marker() -> Seq<u8> {
    seq![0x73u8, 0x61u8, 0x6eu8, 0x64u8, 0x62u8, 0x6fu8, 0x78u8, 0x2du8]
}

/// Whether a component names a private creation sandbox.
pub open spec fn is_sandbox_component(c: ComponentView) -> bool {
    c matches ComponentView::Normal(name) && sandbox_marker().is_prefix_of(name)
}

/// The native parent of the sandbox holding a resource, if the resource sits
/// directly inside a sandbox: the resource's grandparent.
pub open spec fn sandbox_parent_of(resource: Seq<ComponentView>) -> Option<Seq<ComponentView>> {
    if resource.len() >= 2 && is_sandbox_component(resource[resource.len() - 2]) {
        Some(resource.subrange(0, resource.len() - 2))
    } else {
        None
    }
}

/// The result of joining a relative remainder onto a parent: a remainder
/// that starts at the root replaces the parent, and a leading current
/// directory component disappears behind a non-empty parent.
pub open spec fn joined(parent: Seq<ComponentView>, rest: Seq<ComponentView>) -> Seq<ComponentView> {
    if rest.len() > 0 && rest[0] is RootDir {
        rest
    } else if parent.len() > 0 && rest.len() > 0 && rest[0] is CurDir {
        parent + rest.subrange(1, rest.len() as int)
    } else {
        parent + rest
    }
}

/// The projection of `path` from the native parent onto the requested
/// parent, if `path` lies under the native parent.
pub open spec fn projected(requested: Seq<ComponentView>, native: Seq<ComponentView>, path: Seq<ComponentView>) -> Option<Seq<ComponentView>> {
    if native.is_prefix_of(path) {
        Some(joined(requested, path.subrange(native.len() as int, path.len() as int)))
    } else {
        None
    }
}

/// Copies a byte string.
fn copy_bytes(bytes: &Vec<u8>) -> (r: Vec<u8>)
    ensures
        r@ == bytes@,
{
    let mut out: Vec<u8> = Vec::new();
    let mut i: usize = 0;
    while i < bytes.len()
        invariant
            i <= bytes.len(),
            out@ == bytes@.subrange(0, i as int),
        decreases bytes.len() - i,
    {
        out.push(bytes[i]);
        i = i + 1;
    }
    proof {
        assert(bytes@.subrange(0, bytes.len() as int) =~= bytes@);
    }
    out
}

/// Copies a path component.
fn copy_component(c: &NativeComponent) -> (r: NativeComponent)
    ensures
        r@ == c@,
{
    match c {
        NativeComponent::RootDir => NativeComponent::RootDir,
        NativeComponent::CurDir => NativeComponent::CurDir,
        NativeComponent::ParentDir => NativeComponent::ParentDir,
        NativeComponent::Normal(name) => NativeComponent::Normal(copy_bytes(name)),
    }
}

/// Whether two byte strings are equal.
fn bytes_equal(a: &Vec<u8>, b: &Vec<u8>) -> (r: bool)
    ensures
        r == (a@ == b@),
{
    if a.len() != b.len() {
        return false;
    }
    let mut i: usize = 0;
    while i < a.len()
        invariant
            i <= a.len(),
            a.len() == b.len(),
            a@.subrange(0, i as int) == b@.subrange(0, i as int),
        decreases a.len() - i,
    {
        if a[i] != b[i] {
            assert(a@[i as int] != b@[i as int]);
            return false;
        }
        proof {
            assert(a@.subrange(0, i + 1) =~= a@.subrange(0, i as int).push(a@[i as int]));
            assert(b@.subrange(0, i + 1) =~= b@.subrange(0, i as int).push(b@[i as int]));
        }
        i = i + 1;
    }
    proof {
        assert(a@ =~= a@.subrange(0, i as int));
        assert(b@ =~= b@.subrange(0, i as int));
    }
    true
}

/// Whether two path components are equal.
fn component_equal(a: &NativeComponent, b: &NativeComponent) -> (r: bool)
    ensures
        r == (a@ == b@),
{
    match (a, b) {
        (NativeComponent::RootDir, NativeComponent::RootDir) => true,
        (NativeComponent::CurDir, NativeComponent::CurDir) => true,
        (NativeComponent::ParentDir, NativeComponent::ParentDir) => true,
        (NativeComponent::Normal(x), NativeComponent::Normal(y)) => bytes_equal(x, y),
        _ => false,
    }
}

/// Copies the components `parts[start..end]` onto `out`.
fn append_components(out: &mut Vec<NativeComponent>, parts: &Vec<NativeComponent>, start: usize, end: usize)
    requires
        start <= end <= parts.len(),
    ensures
        final(out)@.map_values(|c: NativeComponent| c@) == old(out)@.map_values(
            |c: NativeComponent| c@,
        ) + parts@.map_values(|c: NativeComponent| c@).subrange(start as int, end as int),
{
    let ghost base = old(out)@.map_values(|c: NativeComponent| c@);
    let ghost whole = parts@.map_values(|c: NativeComponent| c@);
    let mut i = start;
    while i < end
        invariant
            start <= i <= end,
            end <= parts.len(),
            whole == parts@.map_values(|c: NativeComponent| c@),
            out@.map_values(|c: NativeComponent| c@) == base + whole.subrange(start as int, i as int),
        decreases end - i,
    {
        let c = copy_component(&parts[i]);
        let ghost before = out@.map_values(|c: NativeComponent| c@);
        out.push(c);
        proof {
            assert(out@.map_values(|c: NativeComponent| c@) =~= before.push(whole[i as int]));
            assert(whole.subrange(start as int, i + 1) =~= whole.subrange(start as int, i as int).push(
                whole[i as int],
            ));
        }
        i = i + 1;
    }
}

/// Whether `name` starts with the sandbox marker.
fn has_sandbox_marker(name: &Vec<u8>) -> (r: bool)
    ensures
        r == sandbox_marker().is_prefix_of(name@),
{
    let r = name.len() >= 8 && name[0] == 0x73 && name[1] == 0x61 && name[2] == 0x6e && name[3]
        == 0x64 && name[4] == 0x62 && name[5] == 0x6f && name[6] == 0x78 && name[7] == 0x2d;
    proof {
        if r {
            assert(name@.subrange(0, 8) =~= sandbox_marker());
        }
        if sandbox_marker().is_prefix_of(name@) {
            assert(name@.subrange(0, 8) =~= sandbox_marker());
            assert(name@[0] == sandbox_marker()[0]);
            assert(name@[1] == sandbox_marker()[1]);
            assert(name@[2] == sandbox_marker()[2]);
            assert(name@[3] == sandbox_marker()[3]);
            assert(name@[4] == sandbox_marker()[4]);
            assert(name@[5] == sandbox_marker()[5]);
            assert(name@[6] == sandbox_marker()[6]);
            assert(name@[7] == sandbox_marker()[7]);
        }
    }
    r
}

/// How generated temporary paths are reported: under the caller's parent
/// spelling instead of the native parent that holds the sandbox.
#[derive(Debug)]
pub struct LocalTempPathProjection {
    requested_parent: NativePathParts,
    native_parent: NativePathParts,
}

impl LocalTempPathProjection {
    /// The caller's parent spelling.
    pub closed spec fn requested_parent_spec(&self) -> Seq<ComponentView> {
        self.requested_parent@
    }

    /// The native parent that holds the sandbox.
    pub closed spec fn native_parent_spec(&self) -> Seq<ComponentView> {
        self.native_parent@
    }

    /// Builds the projection for a resource created under `requested_parent`.
    ///
    /// Fails with a provider contract violation when the resource does not
    /// sit directly inside a private creation sandbox.
    pub fn new(requested_parent: NativePathParts, resource: &NativePathParts) -> (r: Result<Self, LocalError>)
        ensures
            r is Ok <==> sandbox_parent_of(resource@) is Some,
            r matches Ok(p) ==> p.requested_parent_spec() == requested_parent@ && Some(
                p.native_parent_spec(),
            ) == sandbox_parent_of(resource@),
            r matches Err(e) ==> {
                &&& e.kind == LocalErrorKind::ProviderContractViolation
                &&& e.operation == LocalOperation::CreateTemp
                &&& e.message@ == "native temporary resource has no private creation sandbox"@
                &&& e.effect is None
            },
    {
        let n = resource.components.len();
        let sandboxed = n >= 2 && match &resource.components[n - 2] {
            NativeComponent::Normal(name) => has_sandbox_marker(name),
            _ => false,
        };
        if !sandboxed {
            return Err(
                LocalError::new(
                    LocalErrorKind::ProviderContractViolation,
                    LocalOperation::CreateTemp,
                    "native temporary resource has no private creation sandbox",
                ),
            );
        }
        let mut native: Vec<NativeComponent> = Vec::new();
        append_components(&mut native, &resource.components, 0, n - 2);
        proof {
            assert(native@.map_values(|c: NativeComponent| c@) =~= resource@.subrange(
                0,
                n - 2,
            ));
        }
        Ok(LocalTempPathProjection { requested_parent, native_parent: NativePathParts { components: native } })
    }

    /// Reports `path` under the caller's parent spelling.
    ///
    /// Fails with a provider contract violation when `path` does not lie
    /// under the native parent.
    pub fn project(&self, path: &NativePathParts, operation: LocalOperation) -> (r: Result<NativePathParts, LocalError>)
        ensures
            r is Ok <==> projected(self.requested_parent_spec(), self.native_parent_spec(), path@) is Some,
            r matches Ok(p) ==> Some(p@) == projected(
                self.requested_parent_spec(),
                self.native_parent_spec(),
                path@,
            ),
            r matches Err(e) ==> {
                &&& e.kind == LocalErrorKind::ProviderContractViolation
                &&& e.operation == operation
                &&& e.message@ == "generated temporary path escaped its creation parent"@
                &&& e.effect is None
            },
    {
        let base = &self.native_parent.components;
        let parts = &path.components;
        let ghost bv = self.native_parent@;
        let ghost pv = path@;
        if base.len() > parts.len() {
            proof {
                assert(bv.len() > pv.len());
                assert(!bv.is_prefix_of(pv));
            }
            return Err(escaped(operation));
        }
        let mut i: usize = 0;
        while i < base.len()
            invariant
                i <= base.len() <= parts.len(),
                bv == base@.map_values(|c: NativeComponent| c@),
                pv == parts@.map_values(|c: NativeComponent| c@),
                bv == self.native_parent_spec(),
                pv == path@,
                bv.subrange(0, i as int) == pv.subrange(0, i as int),
            decreases base.len() - i,
        {
            if !component_equal(&base[i], &parts[i]) {
                proof {
                    assert(bv[i as int] != pv[i as int]);
                    assert(!bv.is_prefix_of(pv));
                }
                return Err(escaped(operation));
            }
            proof {
                assert(bv.subrange(0, i + 1) =~= bv.subrange(0, i as int).push(bv[i as int]));
                assert(pv.subrange(0, i + 1) =~= pv.subrange(0, i as int).push(pv[i as int]));
            }
            i = i + 1;
        }
        proof {
            assert(bv =~= bv.subrange(0, i as int));
            assert(bv.is_prefix_of(pv));
        }
        let k = base.len();
        let n = parts.len();
        let ghost rest = pv.subrange(k as int, n as int);
        let mut out: Vec<NativeComponent> = Vec::new();
        let starts_at_root = k < n && match &parts[k] {
            NativeComponent::RootDir => true,
            _ => false,
        };
        let starts_at_current = k < n && match &parts[k] {
            NativeComponent::CurDir => true,
            _ => false,
        };
        if starts_at_root {
            append_components(&mut out, parts, k, n);
            proof {
                assert(out@.map_values(|c: NativeComponent| c@) =~= rest);
            }
        } else {
            append_components(&mut out, &self.requested_parent.components, 0, self.requested_parent.components.len());
            let skip = if starts_at_current && self.requested_parent.components.len() > 0 {
                k + 1
            } else {
                k
            };
            append_components(&mut out, parts, skip, n);
            proof {
                let req = self.requested_parent@;
                assert(req.subrange(0, req.len() as int) =~= req);
                if starts_at_current && req.len() > 0 {
                    assert(rest.subrange(1, rest.len() as int) =~= pv.subrange(k + 1, n as int));
                } else {
                    assert(rest =~= pv.subrange(k as int, n as int));
                }
            }
        }
        Ok(NativePathParts { components: out })
    }
}

/// The failure for a generated path outside its creation parent.
fn escaped(operation: LocalOperation) -> (r: LocalError)
    ensures
        r.kind == LocalErrorKind::ProviderContractViolation,
        r.operation == operation,
        r.message@ == "generated temporary path escaped its creation parent"@,
        r.effect is None,
{
    LocalError::new(
        LocalErrorKind::ProviderContractViolation,
        operation,
        "generated temporary path escaped its creation parent",
    )
}

/// Projecting a path that lies under the native parent and does not restart
/// at the root replaces exactly the native parent prefix: the components
/// after the prefix are kept in order behind the requested parent.
pub proof fn lemma_projection_keeps_relative_components(
    requested: Seq<ComponentView>,
    native: Seq<ComponentView>,
    rest: Seq<ComponentView>,
)
    requires
        rest.len() > 0 ==> rest[0] is Normal,
    ensures
        projected(requested, native, native + rest) == Some(requested + rest),
{
    assert((native + rest).subrange(0, native.len() as int) =~= native);
    assert((native + rest).subrange(native.len() as int, (native + rest).len() as int) =~= rest);
}

} // verus!
