//! Components and the task that runs one of them.
//!
//! A task owns one component instance, its rendered UI state, its mailbox and
//! its scope. Each poll drains every ready event, folding the handlers'
//! "changed" verdicts into one dirty flag, and reconciles the UI at most once,
//! with the scope muted so that the patch cannot feed events back into it.
use crate::context::LocalContext;
use crate::mailbox::{ComponentMessage, Mailbox, Polled};
use crate::scope::{AnyScope, Scope, ScopeRef};
use vstd::prelude::*;

verus! {

/// A stateful UI component, implemented by the library's users. Its spec
/// functions say what each method does; the task's contracts are stated over
/// them.
pub trait Component: Sized {
    type Message;
    type Properties;
    /// The description of the tree that `view` renders.
    type View;

    /// The instance that `create` builds from `props`.
    spec fn created(props: Self::Properties) -> Self;

    /// The state after handling `event`, and whether it asks for a new render.
    spec fn handle(&self, event: ComponentMessage<Self::Message, Self::Properties>) -> (Self, bool);

    /// The tree that `view` renders in the context `ctx`.
    spec fn rendered(&self, ctx: LocalContext) -> Self::View;

    /// Builds the instance from its first properties.
    fn create(props: Self::Properties) -> (r: Self)
        ensures
            r == Self::created(props),
    ;

    /// Handles a message; the result says whether the view must be rendered
    /// again.
    fn update(&mut self, msg: Self::Message) -> (r: bool)
        ensures
            (*final(self), r) == old(self).handle(ComponentMessage::Update(msg)),
    ;

    /// Takes new properties; the result says whether the view must be
    /// rendered again.
    fn change(&mut self, props: Self::Properties) -> (r: bool)
        ensures
            (*final(self), r) == old(self).handle(ComponentMessage::Props(props)),
    ;

    /// Called once the component's widget is in the tree; never asks for a
    /// render.
    fn mounted(&mut self)
        ensures
            (*final(self), false) == old(self).handle(ComponentMessage::Mounted),
    ;

    /// Called once the component's widget has left the tree; never asks for
    /// a render.
    fn unmounted(&mut self)
        ensures
            (*final(self), false) == old(self).handle(ComponentMessage::Unmounted),
    ;

    /// Renders the current state. `ctx` is the context of the poll in
    /// progress, through which nested components find their parent.
    fn view(&self, ctx: &LocalContext) -> (r: Self::View)
        ensures
            r == self.rendered(*ctx),
    ;
}

/// The rendered widget tree of one component: built once from a view, then
/// reconciled in place against each new view.
pub trait UiState<V>: Sized {
    /// Every view the tree was built or patched to, with the attach point and
    /// the scope handed over, oldest first.
    spec fn applied(&self) -> Seq<(V, Option<u64>, Scope)>;

    /// Whether the latest patch could be applied in place.
    spec fn patch_succeeded(&self) -> bool;

    /// The handle of the root widget.
    spec fn root_widget_spec(&self) -> u64;

    /// Materialises `view`, attached under the widget `parent` if given.
    fn build(view: &V, parent: Option<u64>, scope: &Scope, ctx: &LocalContext) -> (r: Self)
        ensures
            r.applied() == seq![(*view, parent, *scope)],
    ;

    /// Brings the widgets in line with `view`; `false` means the tree could
    /// not be patched in place.
    fn patch(&mut self, view: &V, parent: Option<u64>, scope: &Scope, ctx: &LocalContext) -> (r:
        bool)
        ensures
            final(self).applied() == old(self).applied().push((*view, parent, *scope)),
            r == final(self).patch_succeeded(),
    ;

    /// The handle of the root widget.
    fn root_widget(&self) -> (r: u64)
        ensures
            r == self.root_widget_spec(),
    ;
}

/// The outcome of one poll of a task.
#[derive(Clone, Copy, PartialEq, Eq, Structural, Debug)]
pub enum TaskStatus {
    /// The task is alive and waits for more events.
    Pending,
    /// Every sender was dropped: the task is done.
    Ready,
    /// The UI could not be patched to the new view. This has no recovery:
    /// the caller is to treat it as fatal.
    PatchFailed,
}

/// Whether some verdict in `s` is "changed".
pub open spec fn any_changed(s: Seq<bool>) -> bool {
    exists|i: int| 0 <= i < s.len() && #[trigger] s[i]
}

proof fn lemma_any_changed_push(s: Seq<bool>, b: bool)
    ensures
        any_changed(s.push(b)) == (any_changed(s) || b),
{
    if b {
        assert(s.push(b)[s.len() as int]);
    }
    if any_changed(s) {
        let i = choose|i: int| 0 <= i < s.len() && #[trigger] s[i];
        assert(s.push(b)[i]);
    }
    if any_changed(s.push(b)) {
        let i = choose|i: int| 0 <= i < s.push(b).len() && #[trigger] s.push(b)[i];
        if i < s.len() {
            assert(s[i]);
        }
    }
}

/// User messages as the events that reach `update`.
pub open spec fn as_updates<M, P>(msgs: Seq<M>) -> Seq<ComponentMessage<M, P>> {
    msgs.map_values(|m: M| ComponentMessage::<M, P>::Update(m))
}

/// `d` merges `a` and `b`, keeping the order within each.
pub open spec fn interleaves<T>(d: Seq<T>, a: Seq<T>, b: Seq<T>) -> bool
    decreases d.len(),
{
    if d.len() == 0 {
        a.len() == 0 && b.len() == 0
    } else {
        ||| (a.len() > 0 && d.last() == a.last() && interleaves(d.drop_last(), a.drop_last(), b))
        ||| (b.len() > 0 && d.last() == b.last() && interleaves(d.drop_last(), a, b.drop_last()))
    }
}

/// Handles the events `d` in order, starting from `c`: the final state and
/// each handler's verdict.
pub open spec fn run<C: Component>(c: C, d: Seq<ComponentMessage<C::Message, C::Properties>>) -> (
    C,
    Seq<bool>,
)
    decreases d.len(),
{
    if d.len() == 0 {
        (c, Seq::empty())
    } else {
        let prev = run(c, d.drop_last());
        let step = prev.0.handle(d.last());
        (step.0, prev.1.push(step.1))
    }
}

/// The task that runs one component.
pub struct ComponentTask<C: Component, U: UiState<C::View>> {
    scope: Scope,
    parent_scope: Option<Scope>,
    state: C,
    ui_state: U,
    mailbox: Mailbox<C::Message, C::Properties>,
    finished: bool,
    drained: Ghost<Seq<ComponentMessage<C::Message, C::Properties>>>,
}

impl<C: Component, U: UiState<C::View>> ComponentTask<C, U> {
    pub closed spec fn scope_spec(&self) -> Scope {
        self.scope
    }

    pub closed spec fn parent_scope_spec(&self) -> Option<Scope> {
        self.parent_scope
    }

    /// The component instance.
    pub closed spec fn state_spec(&self) -> C {
        self.state
    }

    /// The rendered widget tree.
    pub closed spec fn ui_spec(&self) -> U {
        self.ui_state
    }

    pub closed spec fn mailbox_spec(&self) -> Mailbox<C::Message, C::Properties> {
        self.mailbox
    }

    /// The task has reported completion.
    pub closed spec fn finished(&self) -> bool {
        self.finished
    }

    /// The events that the latest poll handed to the handlers, in order.
    pub closed spec fn drained(&self) -> Seq<ComponentMessage<C::Message, C::Properties>> {
        self.drained@
    }

    /// The scope is only muted while a patch is under way.
    pub open spec fn wf(&self) -> bool {
        !self.mailbox_spec().muted()
    }

    /// The parent scope as a poll publishes it.
    pub open spec fn published_parent(&self) -> Option<AnyScope> {
        match self.parent_scope_spec() {
            Some(p) => Some(AnyScope::erased(p)),
            None => None,
        }
    }

    /// The context that a poll of the task publishes.
    pub open spec fn poll_context(&self) -> LocalContext {
        LocalContext::published(self.published_parent(), Some(self.ui_spec().root_widget_spec()))
    }

    /// Whether the events of `pre`'s queues, handled in the order `post`
    /// records, ask for a render.
    pub open spec fn dirty(pre: Self, post: Self) -> bool {
        any_changed(run(pre.state_spec(), post.drained()).1)
    }

    /// What one poll does in the context `ctx`, from the task before to the
    /// task after and the status returned. Every queued event is handed to
    /// the handler of its kind, once, in an order that keeps each queue's
    /// order; if some handler asked for it, the state after them is rendered
    /// once and the tree patched to it with no attach point and the task's
    /// own scope; otherwise the tree is left alone.
    pub open spec fn polled(pre: Self, post: Self, ctx: LocalContext, r: TaskStatus) -> bool {
        &&& post.scope_spec() == pre.scope_spec()
        &&& post.parent_scope_spec() == pre.parent_scope_spec()
        &&& post.mailbox_spec().open() == pre.mailbox_spec().open()
        &&& if pre.finished() {
            &&& r == TaskStatus::Ready
            &&& post == pre
        } else {
            &&& post.mailbox_spec().ready_count() == 0
            &&& interleaves(
                post.drained(),
                as_updates(pre.mailbox_spec().user_queue()),
                pre.mailbox_spec().system_queue(),
            )
            &&& post.state_spec() == run(pre.state_spec(), post.drained()).0
            &&& if Self::dirty(pre, post) {
                &&& post.ui_spec().applied() == pre.ui_spec().applied().push(
                    (post.state_spec().rendered(ctx), None, pre.scope_spec()),
                )
                &&& r == (if post.ui_spec().patch_succeeded() {
                    TaskStatus::Pending
                } else {
                    TaskStatus::PatchFailed
                })
                &&& !post.finished()
            } else {
                &&& post.ui_spec() == pre.ui_spec()
                &&& r == (if pre.mailbox_spec().open() {
                    TaskStatus::Pending
                } else {
                    TaskStatus::Ready
                })
                &&& post.finished() == !pre.mailbox_spec().open()
            }
        }
    }

    /// Builds the task: makes the component's scope (a child of
    /// `parent_scope` when given), creates the instance from `props`, renders
    /// it and builds the UI under `parent`. Returns the scope and the task.
    pub fn new(
        props: C::Properties,
        parent: Option<u64>,
        parent_scope: Option<Scope>,
        kind: u64,
        id: u64,
        ctx: &LocalContext,
    ) -> (r: (Scope, Self))
        ensures
            r.0 == r.1.scope_spec(),
            r.0.kind_spec() == kind,
            r.0.id_spec() == id,
            r.0.parent_spec() == (match parent_scope {
                Some(p) => Some(p.identity()),
                None => None::<ScopeRef>,
            }),
            r.1.parent_scope_spec() == parent_scope,
            r.1.state_spec() == C::created(props),
            r.1.ui_spec().applied() == seq![(C::created(props).rendered(*ctx), parent, r.0)],
            r.1.mailbox_spec().user_queue().len() == 0,
            r.1.mailbox_spec().system_queue().len() == 0,
            r.1.mailbox_spec().open(),
            r.1.wf(),
            !r.1.finished(),
            r.1.drained().len() == 0,
    {
        let scope = match &parent_scope {
            Some(p) => p.inherit(kind, id),
            None => Scope::new(kind, id),
        };
        let state = C::create(props);
        let initial_view = state.view(ctx);
        let ui_state = U::build(&initial_view, parent, &scope, ctx);
        let task = ComponentTask {
            scope,
            parent_scope,
            state,
            ui_state,
            mailbox: Mailbox::new(),
            finished: false,
            drained: Ghost(Seq::empty()),
        };
        (scope, task)
    }

    /// Renders the state and patches the UI to it, with the scope muted for
    /// the length of the patch.
    fn reconcile(&mut self, ctx: &LocalContext) -> (r: TaskStatus)
        requires
            old(self).wf(),
        ensures
            final(self).wf(),
            final(self).ui_spec().applied() == old(self).ui_spec().applied().push(
                (old(self).state_spec().rendered(*ctx), None, old(self).scope_spec()),
            ),
            r == (if final(self).ui_spec().patch_succeeded() {
                TaskStatus::Pending
            } else {
                TaskStatus::PatchFailed
            }),
            final(self).scope_spec() == old(self).scope_spec(),
            final(self).parent_scope_spec() == old(self).parent_scope_spec(),
            final(self).state_spec() == old(self).state_spec(),
            final(self).mailbox_spec().user_queue() == old(self).mailbox_spec().user_queue(),
            final(self).mailbox_spec().system_queue() == old(self).mailbox_spec().system_queue(),
            final(self).mailbox_spec().open() == old(self).mailbox_spec().open(),
            final(self).finished() == old(self).finished(),
            final(self).drained() == old(self).drained(),
    {
        let new_view = self.state.view(ctx);
        self.mailbox.mute();
        let patched = self.ui_state.patch(&new_view, None, &self.scope, ctx);
        self.mailbox.unmute();
        if patched {
            TaskStatus::Pending
        } else {
            TaskStatus::PatchFailed
        }
    }

    /// Drains every ready event, then reconciles once if any handler reported
    /// a change. Completion is reported once every sender is gone and nothing
    /// is left to render; a finished task does nothing more.
    pub fn process(&mut self, ctx: &LocalContext) -> (r: TaskStatus)
        requires
            old(self).wf(),
        ensures
            final(self).wf(),
            Self::polled(*old(self), *final(self), *ctx, r),
    {
        if self.finished {
            return TaskStatus::Ready;
        }
        let ghost start = *self;
        let ghost users = as_updates::<C::Message, C::Properties>(self.mailbox.user_queue());
        let ghost systems = self.mailbox.system_queue();
        let ghost mut k: int = 0;
        let ghost mut j: int = 0;
        let mut render = false;
        self.drained = Ghost(Seq::empty());
        proof {
            assert(users.take(0) =~= Seq::empty());
            assert(systems.take(0) =~= Seq::empty());
            assert(users.skip(0) =~= users);
            assert(systems.skip(0) =~= systems);
        }
        loop
            invariant
                self.wf(),
                !self.finished,
                start == *old(self),
                !start.finished,
                self.scope == start.scope,
                self.parent_scope == start.parent_scope,
                self.ui_state == start.ui_state,
                self.mailbox.open() == start.mailbox.open(),
                users == as_updates::<C::Message, C::Properties>(start.mailbox.user_queue()),
                systems == start.mailbox.system_queue(),
                0 <= k <= users.len(),
                0 <= j <= systems.len(),
                as_updates::<C::Message, C::Properties>(self.mailbox.user_queue()) == users.skip(k),
                self.mailbox.system_queue() == systems.skip(j),
                interleaves(self.drained@, users.take(k), systems.take(j)),
                self.state == run(start.state, self.drained@).0,
                render == any_changed(run(start.state, self.drained@).1),
            decreases self.mailbox.ready_count(),
        {
            let ghost pre_user = self.mailbox.user_queue();
            let ghost pre_sys = self.mailbox.system_queue();
            let ghost pre_state = self.state;
            let ghost d = self.drained@;
            proof {
                assert(as_updates::<C::Message, C::Properties>(pre_user).len() == pre_user.len());
            }
            match self.mailbox.next() {
                Polled::Ready(event) => {
                    let changed = match event {
                        ComponentMessage::Update(msg) => self.state.update(msg),
                        ComponentMessage::Props(props) => self.state.change(props),
                        ComponentMessage::Mounted => {
                            self.state.mounted();
                            false
                        },
                        ComponentMessage::Unmounted => {
                            self.state.unmounted();
                            false
                        },
                    };
                    proof {
                        assert((self.state, changed) == pre_state.handle(event));
                        let nd = d.push(event);
                        assert(nd.drop_last() =~= d);
                        lemma_any_changed_push(run(start.state, d).1, changed);
                        if self.mailbox.user_queue().len() < pre_user.len() {
                            let u = as_updates::<C::Message, C::Properties>(pre_user);
                            assert(u[0] == users[k]);
                            assert(event == users[k]);
                            assert(self.mailbox.user_queue() == pre_user.drop_first());
                            assert(as_updates::<C::Message, C::Properties>(pre_user.drop_first())
                                =~= u.drop_first());
                            assert(u.drop_first() =~= users.skip(k + 1));
                            assert(users.take(k + 1).drop_last() =~= users.take(k));
                            k = k + 1;
                        } else {
                            assert(event == systems[j]);
                            assert(self.mailbox.system_queue() =~= systems.skip(j + 1));
                            assert(systems.take(j + 1).drop_last() =~= systems.take(j));
                            j = j + 1;
                        }
                    }
                    self.drained = Ghost(self.drained@.push(event));
                    render = render || changed;
                },
                Polled::Pending => {
                    proof {
                        assert(users.take(k) =~= users);
                        assert(systems.take(j) =~= systems);
                    }
                    if render {
                        return self.reconcile(ctx);
                    }
                    return TaskStatus::Pending;
                },
                Polled::Exhausted => {
                    proof {
                        assert(users.take(k) =~= users);
                        assert(systems.take(j) =~= systems);
                    }
                    if render {
                        return self.reconcile(ctx);
                    }
                    self.finished = true;
                    return TaskStatus::Ready;
                },
            }
        }
    }

    /// Sets `ctx` to the context of a poll of the task: its parent scope,
    /// type-erased, and its root widget, overwriting any earlier value.
    pub fn publish_context(&self, ctx: &mut LocalContext)
        ensures
            *final(ctx) == self.poll_context(),
            final(ctx).parent_scope_spec() == self.published_parent(),
            final(ctx).widget_spec() == Some(self.ui_spec().root_widget_spec()),
    {
        let parent = match &self.parent_scope {
            Some(p) => Some(AnyScope::erase(*p)),
            None => None,
        };
        let widget = self.ui_state.root_widget();
        ctx.publish(parent, Some(widget));
    }

    /// One poll: publishes the task's context, processes the events in it
    /// and clears the context again, whatever the outcome.
    pub fn poll(&mut self, ctx: &mut LocalContext) -> (r: TaskStatus)
        requires
            old(self).wf(),
        ensures
            final(self).wf(),
            Self::polled(*old(self), *final(self), old(self).poll_context(), r),
            final(ctx).is_empty(),
    {
        self.publish_context(ctx);
        let r = self.process(ctx);
        ctx.clear();
        r
    }

    /// Sends a message through the task's scope; dropped while muted.
    pub fn send(&mut self, msg: C::Message)
        ensures
            final(self).mailbox_spec().user_queue() == (if old(self).mailbox_spec().muted()
                || !old(self).mailbox_spec().open() {
                old(self).mailbox_spec().user_queue()
            } else {
                old(self).mailbox_spec().user_queue().push(msg)
            }),
            final(self).mailbox_spec().system_queue() == old(self).mailbox_spec().system_queue(),
            final(self).mailbox_spec().muted() == old(self).mailbox_spec().muted(),
            final(self).mailbox_spec().open() == old(self).mailbox_spec().open(),
            final(self).scope_spec() == old(self).scope_spec(),
            final(self).parent_scope_spec() == old(self).parent_scope_spec(),
            final(self).finished() == old(self).finished(),
            final(self).state_spec() == old(self).state_spec(),
            final(self).ui_spec() == old(self).ui_spec(),
    {
        self.mailbox.send(msg);
    }

    /// Delivers a system event (new properties, mount, unmount).
    pub fn send_system(&mut self, event: ComponentMessage<C::Message, C::Properties>)
        ensures
            final(self).mailbox_spec().system_queue() == (if old(self).mailbox_spec().open() {
                old(self).mailbox_spec().system_queue().push(event)
            } else {
                old(self).mailbox_spec().system_queue()
            }),
            final(self).mailbox_spec().user_queue() == old(self).mailbox_spec().user_queue(),
            final(self).mailbox_spec().muted() == old(self).mailbox_spec().muted(),
            final(self).mailbox_spec().open() == old(self).mailbox_spec().open(),
            final(self).scope_spec() == old(self).scope_spec(),
            final(self).parent_scope_spec() == old(self).parent_scope_spec(),
            final(self).finished() == old(self).finished(),
            final(self).state_spec() == old(self).state_spec(),
            final(self).ui_spec() == old(self).ui_spec(),
    {
        self.mailbox.send_system(event);
    }

    /// Drops every sender of the task: once what is queued is drained, the
    /// next poll reports completion.
    pub fn close(&mut self)
        ensures
            !final(self).mailbox_spec().open(),
            final(self).mailbox_spec().user_queue() == old(self).mailbox_spec().user_queue(),
            final(self).mailbox_spec().system_queue() == old(self).mailbox_spec().system_queue(),
            final(self).mailbox_spec().muted() == old(self).mailbox_spec().muted(),
            final(self).scope_spec() == old(self).scope_spec(),
            final(self).parent_scope_spec() == old(self).parent_scope_spec(),
            final(self).finished() == old(self).finished(),
            final(self).state_spec() == old(self).state_spec(),
            final(self).ui_spec() == old(self).ui_spec(),
    {
        self.mailbox.close();
    }

    /// The task's own scope.
    pub fn scope(&self) -> (r: Scope)
        ensures
            r == self.scope_spec(),
    {
        self.scope
    }

    /// The scope of the parent component, if any.
    pub fn parent_scope(&self) -> (r: Option<Scope>)
        ensures
            r == self.parent_scope_spec(),
    {
        self.parent_scope
    }

    /// Whether the task has reported completion.
    pub fn is_finished(&self) -> (r: bool)
        ensures
            r == self.finished(),
    {
        self.finished
    }

    /// The handle of the component's root widget.
    pub fn widget(&self) -> (r: u64)
        ensures
            r == self.ui_spec().root_widget_spec(),
    {
        self.ui_state.root_widget()
    }
}

/// However many events were ready, one poll hands each of them to a handler
/// and reconciles the UI at most once.
pub proof fn lemma_poll_coalesces<C: Component, U: UiState<C::View>>(
    pre: ComponentTask<C, U>,
    post: ComponentTask<C, U>,
    ctx: LocalContext,
    r: TaskStatus,
)
    requires
        ComponentTask::<C, U>::polled(pre, post, ctx, r),
        !pre.finished(),
    ensures
        post.mailbox_spec().ready_count() == 0,
        post.drained().len() == pre.mailbox_spec().ready_count(),
        post.ui_spec().applied().len() <= pre.ui_spec().applied().len() + 1,
{
    lemma_interleaves_len(
        post.drained(),
        as_updates(pre.mailbox_spec().user_queue()),
        pre.mailbox_spec().system_queue(),
    );
}

/// A poll patches the UI exactly when some handler it ran asked for a
/// render; otherwise the UI is left as it was.
pub proof fn lemma_reconcile_only_when_changed<C: Component, U: UiState<C::View>>(
    pre: ComponentTask<C, U>,
    post: ComponentTask<C, U>,
    ctx: LocalContext,
    r: TaskStatus,
)
    requires
        ComponentTask::<C, U>::polled(pre, post, ctx, r),
        !pre.finished(),
    ensures
        post.ui_spec().applied().len() > pre.ui_spec().applied().len() <==> any_changed(
            run(pre.state_spec(), post.drained()).1,
        ),
        !any_changed(run(pre.state_spec(), post.drained()).1) ==> post.ui_spec() == pre.ui_spec(),
{
}

/// Every event that a poll hands to a handler was queued when the poll
/// began: a message dropped by a muted send never reaches `update`.
pub proof fn lemma_handled_events_were_queued<C: Component, U: UiState<C::View>>(
    pre: ComponentTask<C, U>,
    post: ComponentTask<C, U>,
    ctx: LocalContext,
    r: TaskStatus,
    i: int,
)
    requires
        ComponentTask::<C, U>::polled(pre, post, ctx, r),
        !pre.finished(),
        0 <= i < post.drained().len(),
    ensures
        as_updates(pre.mailbox_spec().user_queue()).contains(post.drained()[i])
            || pre.mailbox_spec().system_queue().contains(post.drained()[i]),
{
    lemma_interleaves_member(
        post.drained(),
        as_updates(pre.mailbox_spec().user_queue()),
        pre.mailbox_spec().system_queue(),
        i,
    );
}

proof fn lemma_interleaves_len<T>(d: Seq<T>, a: Seq<T>, b: Seq<T>)
    requires
        interleaves(d, a, b),
    ensures
        d.len() == a.len() + b.len(),
    decreases d.len(),
{
    if d.len() > 0 {
        if a.len() > 0 && d.last() == a.last() && interleaves(d.drop_last(), a.drop_last(), b) {
            lemma_interleaves_len(d.drop_last(), a.drop_last(), b);
        } else {
            lemma_interleaves_len(d.drop_last(), a, b.drop_last());
        }
    }
}

proof fn lemma_interleaves_member<T>(d: Seq<T>, a: Seq<T>, b: Seq<T>, i: int)
    requires
        interleaves(d, a, b),
        0 <= i < d.len(),
    ensures
        a.contains(d[i]) || b.contains(d[i]),
    decreases d.len(),
{
    if a.len() > 0 && d.last() == a.last() && interleaves(d.drop_last(), a.drop_last(), b) {
        if i == d.len() - 1 {
            assert(a[a.len() - 1] == d[i]);
        } else {
            lemma_interleaves_member(d.drop_last(), a.drop_last(), b, i);
            if a.drop_last().contains(d[i]) {
                let k = choose|k: int| 0 <= k < a.drop_last().len() && a.drop_last()[k] == d[i];
                assert(a[k] == d[i]);
            }
        }
    } else {
        if i == d.len() - 1 {
            assert(b[b.len() - 1] == d[i]);
        } else {
            lemma_interleaves_member(d.drop_last(), a, b.drop_last(), i);
            if b.drop_last().contains(d[i]) {
                let k = choose|k: int| 0 <= k < b.drop_last().len() && b.drop_last()[k] == d[i];
                assert(b[k] == d[i]);
            }
        }
    }
}

/// Once a task has reported completion, further polls report it again and
/// change nothing: no handler runs and nothing is reconciled.
pub proof fn lemma_finished_stays_finished<C: Component, U: UiState<C::View>>(
    pre: ComponentTask<C, U>,
    post: ComponentTask<C, U>,
    ctx: LocalContext,
    r: TaskStatus,
)
    requires
        ComponentTask::<C, U>::polled(pre, post, ctx, r),
        pre.finished(),
    ensures
        r == TaskStatus::Ready,
        post == pre,
{
}

/// In the context that a poll of a task publishes, and hands to `view`, the
/// component finds as its parent scope, under the parent's component type,
/// exactly the scope the task was built with.
pub proof fn lemma_child_finds_parent<C: Component, U: UiState<C::View>>(
    task: ComponentTask<C, U>,
    parent: Scope,
)
    requires
        task.parent_scope_spec() == Some(parent),
    ensures
        task.poll_context().parent_scope_for(parent.kind_spec()) == Some(parent),
{
    LocalContext::lemma_published(task.published_parent(), Some(task.ui_spec().root_widget_spec()));
    crate::scope::lemma_erase_then_recover(parent, parent.kind_spec());
}

} // verus!
