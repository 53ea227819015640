//! The ambient context of a poll: which parent scope and which root widget
//! belong to the component being polled. A task publishes it before it
//! drains its events and clears it when the poll ends, whatever the outcome,
//! and hands it to `view` so that nested components can find their parent.
use crate::scope::{AnyScope, Scope};
use vstd::prelude::*;

verus! {

/// The context published for one poll; empty between polls.
pub struct LocalContext {
    parent_scope: Option<AnyScope>,
    current_widget: Option<u64>,
}

impl LocalContext {
    pub closed spec fn parent_scope_spec(&self) -> Option<AnyScope> {
        self.parent_scope
    }

    /// The handle of the published root widget.
    pub closed spec fn widget_spec(&self) -> Option<u64> {
        self.current_widget
    }

    /// The context that holds exactly `parent_scope` and `widget`.
    pub closed spec fn published(parent_scope: Option<AnyScope>, widget: Option<u64>) -> LocalContext {
        LocalContext { parent_scope, current_widget: widget }
    }

    /// Nothing is published.
    pub open spec fn is_empty(&self) -> bool {
        self.parent_scope_spec() is None && self.widget_spec() is None
    }

    /// What `current_parent_scope` gives for a component-type tag.
    pub open spec fn parent_scope_for(&self, kind: u64) -> Option<Scope> {
        match self.parent_scope_spec() {
            Some(any) => any.recovered(kind),
            None => None,
        }
    }

    /// An empty context.
    pub fn new() -> (r: LocalContext)
        ensures
            r.is_empty(),
    {
        LocalContext { parent_scope: None, current_widget: None }
    }

    /// Replaces whatever was published with the context of one poll; nothing
    /// of the earlier value is kept.
    pub fn publish(&mut self, parent_scope: Option<AnyScope>, widget: Option<u64>)
        ensures
            *final(self) == LocalContext::published(parent_scope, widget),
            final(self).parent_scope_spec() == parent_scope,
            final(self).widget_spec() == widget,
    {
        self.parent_scope = parent_scope;
        self.current_widget = widget;
    }

    /// What `published` holds.
    pub proof fn lemma_published(parent_scope: Option<AnyScope>, widget: Option<u64>)
        ensures
            LocalContext::published(parent_scope, widget).parent_scope_spec() == parent_scope,
            LocalContext::published(parent_scope, widget).widget_spec() == widget,
    {
    }

    /// Ends the poll's context.
    pub fn clear(&mut self)
        ensures
            final(self).is_empty(),
    {
        self.parent_scope = None;
        self.current_widget = None;
    }

    /// The published parent scope, recovered as the component type `kind`.
    /// Asking with nothing published, or under another component type, is a
    /// programming error and is ruled out by the precondition.
    pub fn current_parent_scope(&self, kind: u64) -> (r: Scope)
        requires
            self.parent_scope_for(kind) is Some,
        ensures
            self.parent_scope_for(kind) == Some(r),
    {
        let any = self.parent_scope.unwrap();
        any.try_get(kind).unwrap()
    }

    /// The published parent scope recovered as the component type `kind`,
    /// or nothing when none is published or its type is another.
    pub fn try_parent_scope(&self, kind: u64) -> (r: Option<Scope>)
        ensures
            r == self.parent_scope_for(kind),
    {
        match &self.parent_scope {
            Some(any) => any.try_get(kind),
            None => None,
        }
    }
}

/// The handle of the root widget published in `ctx`, if any.
pub fn current_widget(ctx: &LocalContext) -> (r: Option<u64>)
    ensures
        r == ctx.widget_spec(),
{
    ctx.current_widget
}

} // verus!
