//! The task record and the payloads of the requests that create and edit it.

use vstd::prelude::*;

verus! {

/// Bits of an identifier that hold the version and the variant of a UUID.
pub const LAYOUT_MASK: u128 = 0x0000_0000_0000_F000_C000_0000_0000_0000u128;

/// What the layout bits hold in a random (version 4) UUID of the standard
/// variant.
pub const RANDOM_LAYOUT: u128 = 0x0000_0000_0000_4000_8000_0000_0000_0000u128;

/// The identifier of a task: the 128 bits of a UUID, first byte in the most
/// significant position.
#[derive(Clone, Copy, Debug, PartialEq, Eq, Hash, Structural)]
pub struct TaskId {
    pub value: u128,
}

impl TaskId {
    /// Whether the identifier has the layout of a random UUID.
    pub open spec fn spec_is_random(&self) -> bool {
        self.value & LAYOUT_MASK == RANDOM_LAYOUT
    }

    /// Whether the identifier has the layout of a random UUID.
    #[verifier::when_used_as_spec(spec_is_random)]
    pub fn is_random(&self) -> (random: bool)
        ensures
            random == self.spec_is_random(),
    {
        self.value & LAYOUT_MASK == RANDOM_LAYOUT
    }
}

/// A task as the store holds it and as the service hands it out.
#[derive(Debug, PartialEq, Eq)]
pub struct Task {
    pub id: TaskId,
    pub text: String,
    pub completed: bool,
}

/// The mathematical value of a [`Task`].
pub struct TaskView {
    pub id: TaskId,
    pub text: Seq<char>,
    pub completed: bool,
}

impl View for Task {
    type V = TaskView;

    open spec fn view(&self) -> TaskView {
        TaskView { id: self.id, text: self.text@, completed: self.completed }
    }
}

impl Clone for Task {
    fn clone(&self) -> (copy: Task)
        ensures
            copy == *self,
    {
        Task { id: self.id, text: self.text.clone(), completed: self.completed }
    }
}

/// The views of a sequence of tasks, in the same order.
pub open spec fn task_views(tasks: Seq<Task>) -> Seq<TaskView> {
    tasks.map_values(|task: Task| task@)
}

/// The payload of a request to create a task.
#[derive(Debug, PartialEq, Eq)]
pub struct NewTask {
    pub text: String,
}

/// The payload of a request to edit a task: each field is either a new value
/// or absent, and an absent field is left as it is.
#[derive(Debug, PartialEq, Eq)]
pub struct EditTask {
    pub text: Option<String>,
    pub completed: Option<bool>,
}

/// The mathematical value of an [`EditTask`].
pub struct Patch {
    pub text: Option<Seq<char>>,
    pub completed: Option<bool>,
}

impl Patch {
    /// Whether the patch names no field at all.
    pub open spec fn is_empty(self) -> bool {
        self.text is None && self.completed is None
    }

    /// The task with the fields that the patch names replaced.
    pub open spec fn apply(self, task: TaskView) -> TaskView {
        TaskView {
            id: task.id,
            text: match self.text {
                Some(text) => text,
                None => task.text,
            },
            completed: match self.completed {
                Some(completed) => completed,
                None => task.completed,
            },
        }
    }
}

impl View for EditTask {
    type V = Patch;

    open spec fn view(&self) -> Patch {
        Patch {
            text: match self.text {
                Some(text) => Some(text@),
                None => None,
            },
            completed: self.completed,
        }
    }
}

} // verus!
