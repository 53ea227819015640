use std::cell::RefCell;
use std::rc::Rc;

use vgtk::{
    current_widget, AnyScope, Component, ComponentMessage, ComponentTask, LocalContext, Mailbox, Polled, Scope,
    ScopeRef, TaskStatus, UiState,
};

const COUNTER: u64 = 1;
const PARENT: u64 = 2;

/// What the mock UI saw: each build and patch with the view's value, and the
/// parent scope that each `view` call found in its context.
#[derive(Default)]
struct Log {
    built: Vec<i64>,
    patched: Vec<i64>,
    parents_seen: Vec<Option<Scope>>,
    mounted: u32,
    unmounted: u32,
    fail_patch: bool,
}

type Shared = Rc<RefCell<Log>>;

struct Counter {
    value: i64,
    report_changes: bool,
    log: Shared,
}

struct CounterView {
    value: i64,
    log: Shared,
}

enum Msg {
    Add(i64),
}

impl Component for Counter {
    type Message = Msg;
    type Properties = (i64, bool, Shared);
    type View = CounterView;

    fn created(props: Self::Properties) -> Self {
        Counter { value: props.0, report_changes: props.1, log: props.2 }
    }

    fn handle(&self, event: ComponentMessage<Msg, Self::Properties>) -> (Self, bool) {
        let mut next = Counter { value: self.value, report_changes: self.report_changes, log: self.log.clone() };
        let changed = match event {
            ComponentMessage::Update(msg) => next.update(msg),
            ComponentMessage::Props(props) => next.change(props),
            ComponentMessage::Mounted | ComponentMessage::Unmounted => false,
        };
        (next, changed)
    }

    fn rendered(&self, _ctx: LocalContext) -> CounterView {
        CounterView { value: self.value, log: self.log.clone() }
    }

    fn create(props: Self::Properties) -> Self {
        Self::created(props)
    }

    fn update(&mut self, msg: Msg) -> bool {
        match msg {
            Msg::Add(n) => self.value += n,
        }
        self.report_changes
    }

    fn change(&mut self, props: Self::Properties) -> bool {
        let changed = self.value != props.0;
        self.value = props.0;
        changed
    }

    fn mounted(&mut self) {
        self.log.borrow_mut().mounted += 1;
    }

    fn unmounted(&mut self) {
        self.log.borrow_mut().unmounted += 1;
    }

    fn view(&self, ctx: &LocalContext) -> CounterView {
        self.log.borrow_mut().parents_seen.push(ctx.try_parent_scope(PARENT));
        CounterView { value: self.value, log: self.log.clone() }
    }
}

struct MockUi {
    widget: u64,
    last_patch_ok: bool,
}

impl UiState<CounterView> for MockUi {
    fn applied(&self) -> vstd::seq::Seq<(CounterView, Option<u64>, Scope)> {
        unreachable!("the history of views is a specification item")
    }

    fn patch_succeeded(&self) -> bool {
        self.last_patch_ok
    }

    fn root_widget_spec(&self) -> u64 {
        self.widget
    }

    fn build(view: &CounterView, _parent: Option<u64>, scope: &Scope, _ctx: &LocalContext) -> Self {
        view.log.borrow_mut().built.push(view.value);
        MockUi { widget: 100 + scope.id(), last_patch_ok: true }
    }

    fn patch(&mut self, view: &CounterView, _parent: Option<u64>, _scope: &Scope, _ctx: &LocalContext) -> bool {
        let mut log = view.log.borrow_mut();
        log.patched.push(view.value);
        self.last_patch_ok = !log.fail_patch;
        self.last_patch_ok
    }

    fn root_widget(&self) -> u64 {
        self.widget
    }
}

type Task = ComponentTask<Counter, MockUi>;

fn make(report_changes: bool, parent_scope: Option<Scope>) -> (Scope, Task, Shared) {
    let log: Shared = Rc::new(RefCell::new(Log::default()));
    let ctx = LocalContext::new();
    let (scope, task) = Task::new((0, report_changes, log.clone()), None, parent_scope, COUNTER, 7, &ctx);
    (scope, task, log)
}

#[test]
fn construction_renders_and_builds_once() {
    let (scope, task, log) = make(true, None);
    assert_eq!(log.borrow().built, vec![0]);
    assert!(log.borrow().patched.is_empty());
    assert_eq!(scope.kind(), COUNTER);
    assert_eq!(scope.id(), 7);
    assert_eq!(scope.parent(), None);
    assert_eq!(task.scope(), scope);
    assert_eq!(task.widget(), 107);
    assert!(!task.is_finished());
}

#[test]
fn rapid_updates_coalesce_into_one_patch() {
    let (_, mut task, log) = make(true, None);
    for n in 1..=5 {
        task.send(Msg::Add(n));
    }
    let mut ctx = LocalContext::new();
    assert_eq!(task.poll(&mut ctx), TaskStatus::Pending);
    assert_eq!(log.borrow().patched, vec![15]);
    assert_eq!(task.poll(&mut ctx), TaskStatus::Pending);
    assert_eq!(log.borrow().patched, vec![15]);
}

#[test]
fn update_returning_true_patches_with_new_view() {
    let (_, mut task, log) = make(true, None);
    task.send(Msg::Add(3));
    let mut ctx = LocalContext::new();
    assert_eq!(task.poll(&mut ctx), TaskStatus::Pending);
    assert_eq!(log.borrow().patched, vec![3]);
}

#[test]
fn update_returning_false_never_patches() {
    let (_, mut task, log) = make(false, None);
    let mut ctx = LocalContext::new();
    for n in 0..4 {
        task.send(Msg::Add(n));
        assert_eq!(task.poll(&mut ctx), TaskStatus::Pending);
    }
    assert!(log.borrow().patched.is_empty());
}

#[test]
fn property_change_patches_only_when_different() {
    let (_, mut task, log) = make(false, None);
    let mut ctx = LocalContext::new();
    let shared = log.clone();
    task.send_system(ComponentMessage::Props((0, false, shared.clone())));
    assert_eq!(task.poll(&mut ctx), TaskStatus::Pending);
    assert!(log.borrow().patched.is_empty());
    task.send_system(ComponentMessage::Props((9, false, shared)));
    assert_eq!(task.poll(&mut ctx), TaskStatus::Pending);
    assert_eq!(log.borrow().patched, vec![9]);
}

#[test]
fn mount_events_call_hooks_without_patching() {
    let (_, mut task, log) = make(true, None);
    let mut ctx = LocalContext::new();
    task.send_system(ComponentMessage::Mounted);
    task.send_system(ComponentMessage::Unmounted);
    assert_eq!(task.poll(&mut ctx), TaskStatus::Pending);
    assert_eq!(log.borrow().mounted, 1);
    assert_eq!(log.borrow().unmounted, 1);
    assert!(log.borrow().patched.is_empty());
}

#[test]
fn failed_patch_is_reported() {
    let (_, mut task, log) = make(true, None);
    log.borrow_mut().fail_patch = true;
    task.send(Msg::Add(1));
    let mut ctx = LocalContext::new();
    assert_eq!(task.poll(&mut ctx), TaskStatus::PatchFailed);
    assert!(current_widget(&ctx).is_none());
}

#[test]
fn exhausted_task_completes_once_and_stays_done() {
    let (_, mut task, log) = make(true, None);
    let mut ctx = LocalContext::new();
    task.close();
    assert_eq!(task.poll(&mut ctx), TaskStatus::Ready);
    assert!(task.is_finished());
    task.send(Msg::Add(1));
    assert_eq!(task.poll(&mut ctx), TaskStatus::Ready);
    assert!(log.borrow().patched.is_empty());
}

#[test]
fn pending_change_is_rendered_before_completion() {
    let (_, mut task, log) = make(true, None);
    let mut ctx = LocalContext::new();
    task.send(Msg::Add(4));
    task.close();
    assert_eq!(task.poll(&mut ctx), TaskStatus::Pending);
    assert_eq!(log.borrow().patched, vec![4]);
    assert_eq!(task.poll(&mut ctx), TaskStatus::Ready);
}

#[test]
fn context_is_empty_after_every_poll() {
    let parent = Scope::new(PARENT, 1);
    let (_, mut task, _log) = make(true, Some(parent));
    let mut ctx = LocalContext::new();
    assert_eq!(task.poll(&mut ctx), TaskStatus::Pending);
    assert_eq!(ctx.try_parent_scope(PARENT), None);
    assert_eq!(current_widget(&ctx), None);
    task.send(Msg::Add(1));
    assert_eq!(task.poll(&mut ctx), TaskStatus::Pending);
    assert_eq!(ctx.try_parent_scope(PARENT), None);
    assert_eq!(current_widget(&ctx), None);
}

#[test]
fn child_view_finds_its_construction_parent() {
    let parent = Scope::new(PARENT, 1);
    let (scope, mut task, log) = make(true, Some(parent));
    assert_eq!(scope.parent(), Some(ScopeRef { kind: PARENT, id: 1 }));
    assert_eq!(task.parent_scope(), Some(parent));
    task.send(Msg::Add(2));
    let mut ctx = LocalContext::new();
    assert_eq!(task.poll(&mut ctx), TaskStatus::Pending);
    // The first view ran at construction, outside any poll.
    assert_eq!(log.borrow().parents_seen, vec![None, Some(parent)]);
}

#[test]
fn publish_replaces_the_previous_context() {
    let parent = Scope::new(PARENT, 1);
    let (_, task, _log) = make(true, Some(parent));
    let mut ctx = LocalContext::new();
    ctx.publish(Some(AnyScope::erase(Scope::new(COUNTER, 99))), Some(5));
    task.publish_context(&mut ctx);
    assert_eq!(ctx.current_parent_scope(PARENT), parent);
    assert_eq!(ctx.try_parent_scope(COUNTER), None);
    assert_eq!(current_widget(&ctx), Some(107));
    ctx.clear();
    assert_eq!(ctx.try_parent_scope(PARENT), None);
}

#[test]
fn try_get_recovers_only_under_the_erased_tag() {
    let scope = Scope::new(PARENT, 4);
    let any = AnyScope::erase(scope);
    assert_eq!(any.tag(), PARENT);
    assert_eq!(any.try_get(PARENT), Some(scope));
    assert_eq!(any.try_get(COUNTER), None);
    assert_eq!(any.try_get(0), None);
}

#[test]
fn inherit_links_child_to_parent() {
    let root = Scope::new(PARENT, 1);
    let child = root.inherit(COUNTER, 2);
    assert_eq!(child.kind(), COUNTER);
    assert_eq!(child.id(), 2);
    assert_eq!(child.parent(), Some(ScopeRef { kind: PARENT, id: 1 }));
    assert_eq!(root.parent(), None);
}

#[test]
fn muted_send_is_dropped_not_deferred() {
    let mut mailbox: Mailbox<u32, ()> = Mailbox::new();
    mailbox.mute();
    assert!(mailbox.is_muted());
    mailbox.send(1);
    mailbox.unmute();
    assert!(matches!(mailbox.next(), Polled::Pending));
    mailbox.send(2);
    assert!(matches!(mailbox.next(), Polled::Ready(ComponentMessage::Update(2))));
}

#[test]
fn muting_leaves_system_events_queued() {
    let mut mailbox: Mailbox<u32, u8> = Mailbox::new();
    mailbox.mute();
    mailbox.send_system(ComponentMessage::Props(8));
    assert!(matches!(mailbox.next(), Polled::Ready(ComponentMessage::Props(8))));
}

#[test]
fn each_queue_keeps_its_order() {
    let mut mailbox: Mailbox<u32, u8> = Mailbox::new();
    for m in 1..=3 {
        mailbox.send(m);
    }
    mailbox.send_system(ComponentMessage::Props(1));
    mailbox.send_system(ComponentMessage::Props(2));
    let mut user = Vec::new();
    let mut system = Vec::new();
    loop {
        match mailbox.next() {
            Polled::Ready(ComponentMessage::Update(m)) => user.push(m),
            Polled::Ready(ComponentMessage::Props(p)) => system.push(p),
            Polled::Ready(_) => panic!("unexpected event"),
            Polled::Pending => break,
            Polled::Exhausted => panic!("senders are still open"),
        }
    }
    assert_eq!(user, vec![1, 2, 3]);
    assert_eq!(system, vec![1, 2]);
}

#[test]
fn closed_mailbox_drains_then_reports_exhaustion() {
    let mut mailbox: Mailbox<u32, ()> = Mailbox::new();
    mailbox.send(5);
    mailbox.close();
    assert!(!mailbox.is_open());
    mailbox.send(6);
    assert!(matches!(mailbox.next(), Polled::Ready(ComponentMessage::Update(5))));
    assert!(matches!(mailbox.next(), Polled::Exhausted));
    assert!(matches!(mailbox.next(), Polled::Exhausted));
}

#[test]
fn cloned_message_keeps_its_payload() {
    let msg: ComponentMessage<u32, String> = ComponentMessage::Props("p".to_string());
    match msg.clone() {
        ComponentMessage::Props(p) => assert_eq!(p, "p"),
        _ => panic!("clone changed the variant"),
    }
    assert!(matches!(ComponentMessage::<u32, ()>::Mounted.clone(), ComponentMessage::Mounted));
}

/// A component whose messages never change it and whose properties always do.
struct Quiet;

impl Component for Quiet {
    type Message = u8;
    type Properties = ();
    type View = u8;

    fn created(_props: ()) -> Self {
        Quiet
    }

    fn handle(&self, event: ComponentMessage<u8, ()>) -> (Self, bool) {
        (Quiet, matches!(event, ComponentMessage::Props(_)))
    }

    fn rendered(&self, _ctx: LocalContext) -> u8 {
        0
    }

    fn create(_props: ()) -> Self {
        Quiet
    }

    fn update(&mut self, _msg: u8) -> bool {
        false
    }

    fn mounted(&mut self) {}

    fn unmounted(&mut self) {}

    fn change(&mut self, _props: ()) -> bool {
        true
    }

    fn view(&self, _ctx: &LocalContext) -> u8 {
        0
    }
}

struct CountingUi {
    patches: u64,
}

impl UiState<u8> for CountingUi {
    fn applied(&self) -> vstd::seq::Seq<(u8, Option<u64>, Scope)> {
        unreachable!("the history of views is a specification item")
    }

    fn patch_succeeded(&self) -> bool {
        true
    }

    fn root_widget_spec(&self) -> u64 {
        self.patches
    }

    fn build(_view: &u8, _parent: Option<u64>, _scope: &Scope, _ctx: &LocalContext) -> Self {
        CountingUi { patches: 0 }
    }

    fn patch(&mut self, _view: &u8, _parent: Option<u64>, _scope: &Scope, _ctx: &LocalContext) -> bool {
        self.patches += 1;
        true
    }

    fn root_widget(&self) -> u64 {
        self.patches
    }
}

#[test]
fn only_property_changes_ask_for_a_render() {
    let ctx = LocalContext::new();
    let (_, mut task) = ComponentTask::<Quiet, CountingUi>::new((), Some(3), None, 5, 1, &ctx);
    let mut ctx = LocalContext::new();
    task.send(1);
    task.send_system(ComponentMessage::Mounted);
    task.send_system(ComponentMessage::Unmounted);
    assert_eq!(task.poll(&mut ctx), TaskStatus::Pending);
    assert_eq!(task.widget(), 0);
    task.send_system(ComponentMessage::Props(()));
    assert_eq!(task.poll(&mut ctx), TaskStatus::Pending);
    assert_eq!(task.widget(), 1);
}
