//! Scopes: the handles that name one running component instance.
use vstd::prelude::*;

verus! {

/// The identity of a scope: the component type's tag and the instance id.
#[derive(Clone, Copy, PartialEq, Eq, Structural, Debug)]
pub struct ScopeRef {
    pub kind: u64,
    pub id: u64,
}

/// A handle on one component instance, tagged with its component type and
/// linked to the scope of its parent, if it has one.
#[derive(Clone, Copy, PartialEq, Eq, Structural, Debug)]
pub struct Scope {
    kind: u64,
    id: u64,
    parent: Option<ScopeRef>,
}

impl Scope {
    pub closed spec fn kind_spec(&self) -> u64 {
        self.kind
    }

    pub closed spec fn id_spec(&self) -> u64 {
        self.id
    }

    pub closed spec fn parent_spec(&self) -> Option<ScopeRef> {
        self.parent
    }

    pub open spec fn identity(&self) -> ScopeRef {
        ScopeRef { kind: self.kind_spec(), id: self.id_spec() }
    }

    /// A root scope: it has no parent.
    pub fn new(kind: u64, id: u64) -> (r: Scope)
        ensures
            r.kind_spec() == kind,
            r.id_spec() == id,
            r.parent_spec() == None::<ScopeRef>,
    {
        Scope { kind, id, parent: None }
    }

    /// A child scope that records `self` as its parent.
    pub fn inherit(&self, kind: u64, id: u64) -> (r: Scope)
        ensures
            r.kind_spec() == kind,
            r.id_spec() == id,
            r.parent_spec() == Some(self.identity()),
    {
        Scope { kind, id, parent: Some(ScopeRef { kind: self.kind, id: self.id }) }
    }

    pub fn kind(&self) -> (r: u64)
        ensures
            r == self.kind_spec(),
    {
        self.kind
    }

    pub fn id(&self) -> (r: u64)
        ensures
            r == self.id_spec(),
    {
        self.id
    }

    pub fn parent(&self) -> (r: Option<ScopeRef>)
        ensures
            r == self.parent_spec(),
    {
        self.parent
    }
}

/// A scope with its component type erased: it can be stored next to scopes of
/// other component types and recovered only under the type it was erased from.
#[derive(Clone, Copy, PartialEq, Eq, Structural, Debug)]
pub struct AnyScope {
    tag: u64,
    scope: Scope,
}

impl AnyScope {
    /// The component-type tag recorded at erasure.
    pub closed spec fn tag_spec(&self) -> u64 {
        self.tag
    }

    /// The scope that was erased.
    pub closed spec fn scope_spec(&self) -> Scope {
        self.scope
    }

    /// What erasing `scope` gives.
    pub closed spec fn erased(scope: Scope) -> AnyScope {
        AnyScope { tag: scope.kind, scope }
    }

    /// What `try_get` gives for a component-type tag.
    pub open spec fn recovered(&self, kind: u64) -> Option<Scope> {
        if kind == self.tag_spec() {
            Some(self.scope_spec())
        } else {
            None
        }
    }

    /// Erases the component type of `scope`, recording it as the tag.
    pub fn erase(scope: Scope) -> (r: AnyScope)
        ensures
            r.tag_spec() == scope.kind_spec(),
            r.scope_spec() == scope,
            r == AnyScope::erased(scope),
    {
        AnyScope { tag: scope.kind, scope }
    }

    pub fn tag(&self) -> (r: u64)
        ensures
            r == self.tag_spec(),
    {
        self.tag
    }

    /// Recovers the scope when `kind` is the tag recorded at erasure; any
    /// other tag gives nothing.
    pub fn try_get(&self, kind: u64) -> (r: Option<Scope>)
        ensures
            r == self.recovered(kind),
            r is Some <==> kind == self.tag_spec(),
    {
        if kind == self.tag {
            Some(self.scope)
        } else {
            None
        }
    }
}

/// Erasing a scope and recovering it under a component-type tag gives the
/// scope back exactly when the tag is the scope's own component type, and
/// nothing for every other tag.
pub proof fn lemma_erase_then_recover(scope: Scope, kind: u64)
    ensures
        AnyScope::erased(scope).tag_spec() == scope.kind_spec(),
        AnyScope::erased(scope).scope_spec() == scope,
        AnyScope::erased(scope).recovered(kind) == (if kind == scope.kind_spec() {
            Some(scope)
        } else {
            None
        }),
{
}

} // verus!
