use vstd::prelude::*;

use crate::text::{decimal_digits, push_char, push_decimal};

verus! {

/// Identifies one dispatch: the worker that created it and a number drawn
/// from a process-wide counter.
#[derive(Copy, Clone, Debug, PartialEq, Eq)]
pub struct TaskId {
    pub worker: u64,
    pub seq: u64,
}

impl TaskId {
    pub fn new(worker: u64, seq: u64) -> (r: TaskId)
        ensures
            r.worker == worker,
            r.seq == seq,
    {
        TaskId { worker, seq }
    }

    /// `Task(<worker>.<seq>)`, as it appears in the log.
    pub open spec fn spec_label(&self) -> Seq<char> {
        "Task("@ + decimal_digits(self.worker as nat) + seq!['.'] + decimal_digits(self.seq as nat)
            + seq![')']
    }

    /// The label of the task in log lines.
    pub fn label(&self) -> (r: String)
        ensures
            r@ == self.spec_label(),
    {
        let mut s = "Task(".to_owned();
        push_decimal(&mut s, self.worker);
        push_char(&mut s, '.');
        push_decimal(&mut s, self.seq);
        push_char(&mut s, ')');
        s
    }
}

/// Where an input's bytes come from.
#[derive(Debug)]
pub enum InputData {
    /// A file on disk; the flag says that it is removed once read.
    File(String, bool),
    /// The process's standard input.
    Stdin,
    /// The standard output of a running unpacker.
    Stdout,
}

impl InputData {
    /// Whether the bytes come from a running child's standard output.
    pub fn is_stdout(&self) -> (r: bool)
        ensures
            r == (self is Stdout),
    {
        match self {
            InputData::Stdout => true,
            _ => false,
        }
    }

    /// The file that holds the bytes, when they lie on disk.
    pub fn file(&self) -> (r: Option<&String>)
        ensures
            match self {
                InputData::File(p, _) => r == Some(p),
                _ => r.is_none(),
            },
    {
        match self {
            InputData::File(path, _) => Some(path),
            _ => None,
        }
    }

    /// Whether the file is removed once it has been read.
    pub fn is_temp(&self) -> (r: bool)
        ensures
            r == (*self matches InputData::File(_, t) && t),
    {
        match self {
            InputData::File(_, temp) => *temp,
            _ => false,
        }
    }
}

/// One item to classify and dispatch.
#[derive(Debug)]
pub struct Input {
    pub task_id: TaskId,
    pub item_path: String,
    pub data: InputData,
}

/// Hands out inputs, each with a number that no earlier input had.
pub struct InputFactory {
    pub last_id: u64,
    /// The numbers handed out so far.
    pub issued: Ghost<Set<u64>>,
}

impl InputFactory {
    /// Every number handed out lies below the next one.
    pub open spec fn wf(&self) -> bool {
        forall|s: u64| self.issued@.contains(s) ==> s < self.last_id
    }

    pub fn new() -> (r: InputFactory)
        ensures
            r.wf(),
            r.last_id == 0,
            r.issued@ == Set::<u64>::empty(),
    {
        InputFactory { last_id: 0, issued: Ghost(Set::empty()) }
    }

    /// Whether another number can be handed out.
    pub fn can_issue(&self) -> (r: bool)
        ensures
            r == (self.last_id < u64::MAX),
    {
        self.last_id < u64::MAX
    }

    /// A new input, made by worker `worker`, numbered with the next number.
    /// The number differs from every number handed out before.
    pub fn new_input(&mut self, worker: u64, item_path: String, data: InputData) -> (r: Input)
        requires
            old(self).wf(),
            old(self).last_id < u64::MAX,
        ensures
            final(self).wf(),
            r.task_id == (TaskId { worker, seq: old(self).last_id }),
            !old(self).issued@.contains(r.task_id.seq),
            final(self).issued@ == old(self).issued@.insert(r.task_id.seq),
            final(self).last_id == old(self).last_id + 1,
            r.item_path@ == item_path@,
            r.data == data,
    {
        let seq = self.last_id;
        self.last_id = seq + 1;
        self.issued = Ghost(self.issued@.insert(seq));
        Input { task_id: TaskId::new(worker, seq), item_path, data }
    }
}

/// The number a factory hands out next was never handed out before, so no
/// two inputs of one factory share a number.
pub proof fn lemma_next_is_fresh(f: InputFactory, s: u64)
    requires
        f.wf(),
        f.issued@.contains(s),
    ensures
        s != f.last_id,
{
}

} // verus!
