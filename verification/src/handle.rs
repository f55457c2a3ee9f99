//! Native handles as plain values.

use vstd::prelude::*;

verus! {

/// The kinds of native object that the engine hands out.
#[derive(Clone, Copy, Debug, PartialEq, Eq, Structural)]
pub enum ResourceKind {
    Config,
    Engine,
    RouteParams,
    TableParams,
    Annotations,
    RouteResponse,
    TableResponse,
}

/// One native object: its kind and the address that the engine gave it.
#[derive(Clone, Copy, Debug, PartialEq, Eq, Structural)]
pub struct Handle {
    pub kind: ResourceKind,
    pub address: usize,
}

impl ResourceKind {
    /// Whether an object of this kind outlives the query that made it, and
    /// goes to the caller.
    pub open spec fn outlives(self) -> bool {
        self == ResourceKind::Engine || self == ResourceKind::TableResponse
    }
}

impl Handle {
    /// A handle never stands for the null address.
    pub open spec fn wf(self) -> bool {
        self.address != 0
    }

    /// Wraps what a native constructor returned, refusing the null address.
    pub fn wrap(kind: ResourceKind, address: usize) -> (r: Option<Handle>)
        ensures
            r == (if address == 0 { None } else { Some(Handle { kind, address }) }),
            r matches Some(h) ==> h.wf(),
    {
        if address == 0 {
            None
        } else {
            Some(Handle { kind, address })
        }
    }
}

/// The kinds of a sequence of handles, in the same order.
pub open spec fn kinds_of(handles: Seq<Handle>) -> Seq<ResourceKind> {
    Seq::new(handles.len(), |i: int| handles[i].kind)
}

/// Whether one of `handles` has the kind `kind`.
pub open spec fn holds_kind(handles: Seq<Handle>, kind: ResourceKind) -> bool {
    exists|i: int| 0 <= i < handles.len() && (#[trigger] handles[i]).kind == kind
}

/// A kind is among the kinds of some handles exactly when one of them has it.
pub proof fn lemma_kinds_contains(handles: Seq<Handle>, kind: ResourceKind)
    ensures
        kinds_of(handles).contains(kind) <==> holds_kind(handles, kind),
{
    if kinds_of(handles).contains(kind) {
        let i = choose|i: int| 0 <= i < kinds_of(handles).len() && kinds_of(handles)[i] == kind;
        assert(handles[i].kind == kind);
    }
    if holds_kind(handles, kind) {
        let i = choose|i: int| 0 <= i < handles.len() && (#[trigger] handles[i]).kind == kind;
        assert(kinds_of(handles)[i] == kind);
    }
}

/// The handle of kind `kind` nearest the end of `handles`, if there is one.
pub open spec fn newest(handles: Seq<Handle>, kind: ResourceKind) -> Option<Handle>
    decreases handles.len(),
{
    if handles.len() == 0 {
        None
    } else if handles.last().kind == kind {
        Some(handles.last())
    } else {
        newest(handles.drop_last(), kind)
    }
}

/// A handle of a kind is found exactly when one is held, and it is one of them.
pub proof fn lemma_newest(handles: Seq<Handle>, kind: ResourceKind)
    ensures
        newest(handles, kind) is Some <==> holds_kind(handles, kind),
        newest(handles, kind) matches Some(h) ==> h.kind == kind && handles.contains(h),
    decreases handles.len(),
{
    if handles.len() > 0 {
        let rest = handles.drop_last();
        lemma_newest(rest, kind);
        if handles.last().kind == kind {
            assert(handles[handles.len() - 1].kind == kind);
        } else {
            if holds_kind(rest, kind) {
                let i = choose|i: int| 0 <= i < rest.len() && (#[trigger] rest[i]).kind == kind;
                assert(handles[i].kind == kind);
            }
            if holds_kind(handles, kind) {
                let i = choose|i: int|
                    0 <= i < handles.len() && (#[trigger] handles[i]).kind == kind;
                assert(rest[i].kind == kind);
            }
            if let Some(h) = newest(rest, kind) {
                let i = choose|i: int| 0 <= i < rest.len() && rest[i] == h;
                assert(handles[i] == h);
            }
        }
    }
}

/// Finds the handle of kind `kind` nearest the end of `handles`.
pub fn find_kind(handles: &Vec<Handle>, kind: ResourceKind) -> (r: Option<Handle>)
    ensures
        r == newest(handles@, kind),
{
    let mut i: usize = handles.len();
    proof {
        assert(handles@.take(i as int) =~= handles@);
    }
    while i > 0
        invariant
            i <= handles.len(),
            newest(handles@, kind) == newest(handles@.take(i as int), kind),
        decreases i,
    {
        i -= 1;
        proof {
            assert(handles@.take(i + 1).drop_last() =~= handles@.take(i as int));
        }
        if handles[i].kind == kind {
            return Some(handles[i]);
        }
    }
    None
}

} // verus!
