//! Run state of the pad scanner, shared between the scanner and the
//! settings screens.
use vstd::prelude::*;

verus! {

#[derive(Debug, Copy, Clone, PartialEq, Eq, Structural)]
pub enum TaskStatus {
    Running,
    Suspended,
    Updating,
}

/// The byte a status is stored as.
pub open spec fn status_code(s: TaskStatus) -> u8 {
    match s {
        TaskStatus::Running => 0,
        TaskStatus::Suspended => 1,
        TaskStatus::Updating => 2,
    }
}

/// The status a stored byte stands for; unknown codes read as suspended.
pub open spec fn status_of_code(c: u8) -> TaskStatus {
    if c == 0 {
        TaskStatus::Running
    } else if c == 1 {
        TaskStatus::Suspended
    } else if c == 2 {
        TaskStatus::Updating
    } else {
        TaskStatus::Suspended
    }
}

/// The scanner status, stored as one byte.
#[derive(Debug, Copy, Clone, PartialEq, Eq, Structural)]
pub struct TaskState {
    status: u8,
}

impl TaskState {
    pub closed spec fn spec_code(&self) -> u8 {
        self.status
    }

    pub open spec fn spec_status(&self) -> TaskStatus {
        status_of_code(self.spec_code())
    }

    fn code(status: TaskStatus) -> (r: u8)
        ensures
            r == status_code(status),
    {
        match status {
            TaskStatus::Running => 0,
            TaskStatus::Suspended => 1,
            TaskStatus::Updating => 2,
        }
    }

    pub fn new(initial: TaskStatus) -> (r: Self)
        ensures
            r.spec_code() == status_code(initial),
            r.spec_status() == initial,
    {
        TaskState { status: Self::code(initial) }
    }

    pub fn set(&mut self, status: TaskStatus)
        ensures
            final(self).spec_code() == status_code(status),
            final(self).spec_status() == status,
    {
        self.status = Self::code(status);
    }

    pub fn get(&self) -> (r: TaskStatus)
        ensures
            r == status_of_code(self.spec_code()),
    {
        match self.status {
            0 => TaskStatus::Running,
            1 => TaskStatus::Suspended,
            2 => TaskStatus::Updating,
            _ => TaskStatus::Suspended,
        }
    }
}

/// Reading a state gives back the status last set.
pub proof fn lemma_task_state_set_get(s: TaskStatus)
    ensures
        status_of_code(status_code(s)) == s,
{
}

} // verus!
