use std::collections::HashMap;
use vstd::prelude::*;

use crate::hit_test::{HitTestMode, HitTestStep, hit_test_step, spec_hit_test_step};

verus! {

broadcast use vstd::std_specs::hash::group_hash_axioms;

/// The bytes of a UUID that names one custom protocol task.
pub type TaskUuid = [u8; 16];

/// The instance state of a `WryWebView`.
pub struct WryWebViewIvars {
    /// Whether the web view is a child web view inside a window.
    pub is_child: bool,
    /// Whether a click that activates the window also reaches the web view.
    pub accept_first_mouse: bool,
    /// The UUID given to each custom protocol task that is in flight, by task id.
    pub custom_protocol_task_ids: HashMap<usize, TaskUuid>,
    /// The current hit-test mode.
    pub hit_test_mode: HitTestMode,
    /// The counter from which interactive hit regions take their ids.
    pub hit_region_counter: u64,
}

/// How the web view answers a key-equivalent event (a shortcut such as Cmd+Q).
#[derive(Clone, Copy, Debug, PartialEq, Eq, Structural)]
pub enum KeyEquivalentResponse {
    /// Report the event as not handled, so that it reaches the window and its menu.
    NotHandled,
    /// Let the superclass handle the event.
    DelegateToSuper,
}

/// Where the web view's input accessory view comes from.
#[derive(Clone, Copy, Debug, PartialEq, Eq, Structural)]
pub enum AccessoryViewSource {
    /// The builder that the user installed makes it.
    Builder,
    /// The superclass provides it.
    Superclass,
}

/// The input accessory view comes from the user's builder where one is
/// installed, and from the superclass otherwise.
pub fn accessory_view_source(has_builder: bool) -> (source: AccessoryViewSource)
    ensures
        source == (if has_builder { AccessoryViewSource::Builder } else { AccessoryViewSource::Superclass }),
{
    if has_builder {
        AccessoryViewSource::Builder
    } else {
        AccessoryViewSource::Superclass
    }
}

/// The UUID that a task table gives for `task_id`, if it has one.
pub open spec fn spec_task_uuid(tasks: Map<usize, TaskUuid>, task_id: usize) -> Option<TaskUuid> {
    if tasks.contains_key(task_id) {
        Some(tasks[task_id])
    } else {
        None
    }
}

/// Reading a task back after recording it gives the UUID just recorded, and
/// recording a task leaves what every other task reads unchanged.
pub proof fn lemma_task_uuid_after_add(
    tasks: Map<usize, TaskUuid>,
    task_id: usize,
    task_uuid: TaskUuid,
    other_id: usize,
)
    ensures
        spec_task_uuid(tasks.insert(task_id, task_uuid), task_id) == Some(task_uuid),
        other_id != task_id ==> spec_task_uuid(tasks.insert(task_id, task_uuid), other_id)
            == spec_task_uuid(tasks, other_id),
{
}

/// A task reads as absent once it is forgotten, and forgetting a task leaves
/// what every other task reads unchanged.
pub proof fn lemma_task_uuid_after_remove(tasks: Map<usize, TaskUuid>, task_id: usize, other_id: usize)
    ensures
        spec_task_uuid(tasks.remove(task_id), task_id) == None::<TaskUuid>,
        other_id != task_id ==> spec_task_uuid(tasks.remove(task_id), other_id) == spec_task_uuid(
            tasks,
            other_id,
        ),
{
}

/// Recording a task and then forgetting it leaves the table as it was when
/// the task was not in it before.
pub proof fn lemma_add_then_remove_restores(tasks: Map<usize, TaskUuid>, task_id: usize, task_uuid: TaskUuid)
    requires
        !tasks.contains_key(task_id),
    ensures
        tasks.insert(task_id, task_uuid).remove(task_id) == tasks,
{
    assert(tasks.insert(task_id, task_uuid).remove(task_id) =~= tasks);
}

/// One change to a custom protocol task table.
pub enum TaskTableOp {
    /// Record a UUID for a task, as `WryWebView::add_custom_task_key` does.
    Add(usize, TaskUuid),
    /// Forget a task, as `WryWebView::remove_custom_task_key` does.
    Remove(usize),
}

/// The table after one change, as the contracts of the add and remove
/// operations describe it.
pub open spec fn spec_apply_task_op(tasks: Map<usize, TaskUuid>, op: TaskTableOp) -> Map<usize, TaskUuid> {
    match op {
        TaskTableOp::Add(task_id, task_uuid) => tasks.insert(task_id, task_uuid),
        TaskTableOp::Remove(task_id) => tasks.remove(task_id),
    }
}

/// The table after a sequence of changes, applied first to last.
pub open spec fn spec_apply_task_ops(tasks: Map<usize, TaskUuid>, ops: Seq<TaskTableOp>) -> Map<usize, TaskUuid>
    decreases ops.len(),
{
    if ops.len() == 0 {
        tasks
    } else {
        spec_apply_task_op(spec_apply_task_ops(tasks, ops.drop_last()), ops.last())
    }
}

/// What a read of `task_id` should give after `ops`: the UUID of the last
/// change naming the task if that was an add, nothing if it was a remove,
/// and what the table gave before if no change named the task.
pub open spec fn spec_last_task_uuid(tasks: Map<usize, TaskUuid>, ops: Seq<TaskTableOp>, task_id: usize) -> Option<
    TaskUuid,
>
    decreases ops.len(),
{
    if ops.len() == 0 {
        spec_task_uuid(tasks, task_id)
    } else {
        match ops.last() {
            TaskTableOp::Add(id, task_uuid) => if id == task_id {
                Some(task_uuid)
            } else {
                spec_last_task_uuid(tasks, ops.drop_last(), task_id)
            },
            TaskTableOp::Remove(id) => if id == task_id {
                None
            } else {
                spec_last_task_uuid(tasks, ops.drop_last(), task_id)
            },
        }
    }
}

/// After any sequence of adds and removes, a read of a task gives the UUID of
/// the last add that named it when the last change naming it was an add,
/// nothing when it was a remove, and what the table gave before when no
/// change named it (so nothing, for a table that started empty).
pub proof fn lemma_task_uuid_after_ops(tasks: Map<usize, TaskUuid>, ops: Seq<TaskTableOp>, task_id: usize)
    ensures
        spec_task_uuid(spec_apply_task_ops(tasks, ops), task_id) == spec_last_task_uuid(tasks, ops, task_id),
        tasks == Map::<usize, TaskUuid>::empty() && (forall|i: int| 0 <= i < ops.len() ==> match #[trigger] ops[i] {
            TaskTableOp::Add(id, _) => id != task_id,
            TaskTableOp::Remove(id) => id != task_id,
        }) ==> spec_task_uuid(spec_apply_task_ops(tasks, ops), task_id) == None::<TaskUuid>,
    decreases ops.len(),
{
    if ops.len() > 0 {
        let prefix = ops.drop_last();
        lemma_task_uuid_after_ops(tasks, prefix, task_id);
        let before = spec_apply_task_ops(tasks, prefix);
        match ops.last() {
            TaskTableOp::Add(id, task_uuid) => {
                lemma_task_uuid_after_add(before, id, task_uuid, task_id);
            },
            TaskTableOp::Remove(id) => {
                lemma_task_uuid_after_remove(before, id, task_id);
            },
        }
        if tasks == Map::<usize, TaskUuid>::empty() && (forall|i: int| 0 <= i < ops.len() ==> match #[trigger] ops[i] {
            TaskTableOp::Add(id, _) => id != task_id,
            TaskTableOp::Remove(id) => id != task_id,
        }) {
            assert forall|i: int| 0 <= i < prefix.len() implies match #[trigger] prefix[i] {
                TaskTableOp::Add(id, _) => id != task_id,
                TaskTableOp::Remove(id) => id != task_id,
            } by {
                assert(prefix[i] == ops[i]);
            }
            assert(ops[ops.len() - 1] == ops.last());
        }
    }
}

/// The counter value after one region id is drawn: one more, wrapping to
/// zero past the largest value as an atomic 64-bit counter does.
pub open spec fn spec_next_counter(counter: u64) -> u64 {
    if counter < u64::MAX {
        (counter + 1) as u64
    } else {
        0
    }
}

/// The ids drawn from a counter that starts at `start` are `start`,
/// `start + 1`, ...: so the ids of any two different draws differ, as long as
/// the counter does not wrap.
pub proof fn lemma_region_ids_distinct(start: u64, draws: nat)
    requires
        start + draws <= u64::MAX,
    ensures
        forall|i: nat, j: nat|
            i < j <= draws ==> #[trigger] spec_counter_after(start, i) < #[trigger] spec_counter_after(start, j),
        spec_counter_after(start, draws) == start + draws,
    decreases draws,
{
    if draws > 0 {
        lemma_region_ids_distinct(start, (draws - 1) as nat);
        assert forall|i: nat, j: nat|
            i < j <= draws implies #[trigger] spec_counter_after(start, i) < #[trigger] spec_counter_after(start, j) by {
            if j == draws {
                assert(spec_counter_after(start, i) == start + i) by {
                    lemma_counter_after_value(start, i);
                }
            }
        }
    }
}

/// The counter after `draws` ids have been drawn from a counter at `start`.
pub open spec fn spec_counter_after(start: u64, draws: nat) -> u64
    decreases draws,
{
    if draws == 0 {
        start
    } else {
        spec_next_counter(spec_counter_after(start, (draws - 1) as nat))
    }
}

/// Without a wrap, drawing `draws` ids advances the counter by exactly `draws`.
pub proof fn lemma_counter_after_value(start: u64, draws: nat)
    requires
        start + draws <= u64::MAX,
    ensures
        spec_counter_after(start, draws) == start + draws,
    decreases draws,
{
    if draws > 0 {
        lemma_counter_after_value(start, (draws - 1) as nat);
    }
}

impl WryWebViewIvars {
    /// The task table as a map from task id to UUID.
    pub open spec fn task_table(&self) -> Map<usize, TaskUuid> {
        self.custom_protocol_task_ids@
    }

    /// A child web view reports key equivalents as not handled, so that the
    /// window's menu shortcuts still fire; any other web view lets its
    /// superclass handle them.
    pub fn key_equivalent_response(&self) -> (response: KeyEquivalentResponse)
        ensures
            response == (if self.is_child {
                KeyEquivalentResponse::NotHandled
            } else {
                KeyEquivalentResponse::DelegateToSuper
            }),
    {
        if self.is_child {
            KeyEquivalentResponse::NotHandled
        } else {
            KeyEquivalentResponse::DelegateToSuper
        }
    }

    /// Whether a click that activates the window is also delivered to the web view.
    pub fn accepts_first_mouse(&self) -> (accepts: bool)
        ensures
            accepts == self.accept_first_mouse,
    {
        self.accept_first_mouse
    }

    /// The first step of a hit test, taken from the current mode.
    pub fn hit_test_step(&self) -> (step: HitTestStep)
        ensures
            step == spec_hit_test_step(self.hit_test_mode),
    {
        hit_test_step(self.hit_test_mode)
    }
}

/// The state of a `WryWebView`, reached through its instance variables.
pub struct WryWebView {
    ivars: WryWebViewIvars,
}

impl WryWebView {
    /// The instance variables as a plain value.
    pub closed spec fn spec_ivars(&self) -> WryWebViewIvars {
        self.ivars
    }

    /// The custom protocol task table as a map from task id to UUID.
    pub open spec fn task_table(&self) -> Map<usize, TaskUuid> {
        self.spec_ivars().task_table()
    }

    /// A web view with the given instance variables.
    pub fn new(ivars: WryWebViewIvars) -> (view: Self)
        ensures
            view.spec_ivars() == ivars,
    {
        WryWebView { ivars }
    }

    /// The instance variables.
    pub fn ivars(&self) -> (ivars: &WryWebViewIvars)
        ensures
            *ivars == self.spec_ivars(),
    {
        &self.ivars
    }

    /// Switches the web view to another hit-test mode.
    pub fn set_hit_test_mode(&mut self, mode: HitTestMode)
        ensures
            final(self).spec_ivars().hit_test_mode == mode,
            final(self).task_table() == old(self).task_table(),
            final(self).spec_ivars().is_child == old(self).spec_ivars().is_child,
            final(self).spec_ivars().accept_first_mouse == old(self).spec_ivars().accept_first_mouse,
            final(self).spec_ivars().hit_region_counter == old(self).spec_ivars().hit_region_counter,
    {
        self.ivars.hit_test_mode = mode;
    }

    /// Draws an id for a new interactive region: returns the counter and
    /// advances it by one, wrapping to zero past the largest value.
    pub fn next_hit_region_id(&mut self) -> (id: u64)
        ensures
            id == old(self).spec_ivars().hit_region_counter,
            final(self).spec_ivars().hit_region_counter == spec_next_counter(id),
            final(self).task_table() == old(self).task_table(),
            final(self).spec_ivars().is_child == old(self).spec_ivars().is_child,
            final(self).spec_ivars().accept_first_mouse == old(self).spec_ivars().accept_first_mouse,
            final(self).spec_ivars().hit_test_mode == old(self).spec_ivars().hit_test_mode,
    {
        let id = self.ivars.hit_region_counter;
        self.ivars.hit_region_counter = if id < u64::MAX {
            id + 1
        } else {
            0
        };
        id
    }

    /// Records `task_uuid` as the UUID of the custom protocol task `task_id`,
    /// in place of any UUID that the task had.
    pub fn add_custom_task_key(&mut self, task_id: usize, task_uuid: TaskUuid)
        ensures
            final(self).task_table() == old(self).task_table().insert(task_id, task_uuid),
            final(self).spec_ivars().is_child == old(self).spec_ivars().is_child,
            final(self).spec_ivars().accept_first_mouse == old(self).spec_ivars().accept_first_mouse,
            final(self).spec_ivars().hit_test_mode == old(self).spec_ivars().hit_test_mode,
            final(self).spec_ivars().hit_region_counter == old(self).spec_ivars().hit_region_counter,
    {
        self.ivars.custom_protocol_task_ids.insert(task_id, task_uuid);
    }

    /// Forgets the custom protocol task `task_id`; nothing changes where it is unknown.
    pub fn remove_custom_task_key(&mut self, task_id: usize)
        ensures
            final(self).task_table() == old(self).task_table().remove(task_id),
            final(self).spec_ivars().is_child == old(self).spec_ivars().is_child,
            final(self).spec_ivars().accept_first_mouse == old(self).spec_ivars().accept_first_mouse,
            final(self).spec_ivars().hit_test_mode == old(self).spec_ivars().hit_test_mode,
            final(self).spec_ivars().hit_region_counter == old(self).spec_ivars().hit_region_counter,
    {
        self.ivars.custom_protocol_task_ids.remove(&task_id);
    }

    /// The UUID recorded for the custom protocol task `task_id`, if any.
    pub fn get_custom_task_uuid(&self, task_id: usize) -> (uuid: Option<TaskUuid>)
        ensures
            uuid == spec_task_uuid(self.task_table(), task_id),
    {
        match self.ivars.custom_protocol_task_ids.get(&task_id) {
            Some(uuid) => Some(*uuid),
            None => None,
        }
    }
}

} // verus!
