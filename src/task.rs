use vstd::prelude::*;

use crate::input::{InputData, TaskId};
use crate::plugin::{InputPath, OutputPath, PreppedPlugin};

verus! {

/// What a plugin run hands to the output workers.
#[derive(Debug)]
pub enum OutputData {
    /// A file whose lines become records; it is removed once read.
    File(String),
    /// The child's standard output, whose lines become records.
    Stdout,
    /// The child's standard output, whose lines go to the log.
    LogStdout,
    /// The child's standard error, whose lines go to the log.
    LogStderr,
}

impl OutputData {
    /// Whether the lines become records on the output stream, rather than
    /// log lines.
    pub fn emits_records(&self) -> (r: bool)
        ensures
            r == (self is File || self is Stdout),
    {
        match self {
            OutputData::File(_) | OutputData::Stdout => true,
            _ => false,
        }
    }
}

/// A byproduct of one plugin run.
#[derive(Debug)]
pub struct Output {
    pub task_id: TaskId,
    pub item_path: String,
    pub item_type: String,
    pub plugin_name: String,
    pub data: OutputData,
}

impl Output {
    pub fn new(task_id: TaskId, item_path: String, item_type: String, plugin_name: String, data: OutputData) -> (r:
        Output)
        ensures
            r.task_id == task_id,
            r.item_path@ == item_path@,
            r.item_type@ == item_type@,
            r.plugin_name@ == plugin_name@,
            r.data == data,
    {
        Output { task_id, item_path, item_type, plugin_name, data }
    }
}

/// One step of a plugin run, in the order in which they are taken.
#[derive(Copy, Clone, Debug, PartialEq, Eq, Structural)]
pub enum Step {
    /// Write the input's bytes to the plugin's input file.
    CreateInput,
    /// Create the plugin's output directory.
    CreateDir,
    /// Start the child.
    Spawn,
    /// Hand the child's standard error to the log.
    LogStderr,
    /// Hand the child's standard output back as a new input.
    FeedUnpacker,
    /// Hand the child's standard output over to become records.
    EmitStdout,
    /// Hand the child's standard output to the log.
    LogStdout,
    /// Copy the input's bytes to the child's standard input and close it.
    FeedStdin,
    /// Wait for the child to exit.
    Wait,
    /// Remove the input file written by `CreateInput`.
    RemoveInput,
    /// Hand the output file back as a new input, removed once read.
    UnpackFile,
    /// Hand the output file over to become records.
    EmitFile,
    /// Hand each file under the output directory back as a new input.
    UnpackDir,
    /// Hand each file under the output directory over to become records.
    EmitDir,
}

pub open spec fn when(b: bool, s: Step) -> Seq<Step> {
    if b {
        seq![s]
    } else {
        seq![]
    }
}

/// The steps of a run of `p`. `input_exists` says whether the plugin's
/// input file already lies on disk.
pub open spec fn steps_of(p: PreppedPlugin, input_exists: bool) -> Seq<Step> {
    let creates = p.input_path is File && !input_exists;
    let stdout_step = if p.output_path is Stdout {
        if p.unpacker {
            Step::FeedUnpacker
        } else {
            Step::EmitStdout
        }
    } else {
        Step::LogStdout
    };
    let finish = match p.output_path {
        OutputPath::Stdout => seq![],
        OutputPath::File(_) => seq![if p.unpacker { Step::UnpackFile } else { Step::EmitFile }],
        OutputPath::Dir(_) => seq![if p.unpacker { Step::UnpackDir } else { Step::EmitDir }],
    };
    when(creates, Step::CreateInput) + when(p.output_path is Dir, Step::CreateDir) + seq![
        Step::Spawn,
        Step::LogStderr,
        stdout_step,
    ] + when(p.input_path is Stdin, Step::FeedStdin) + seq![Step::Wait] + when(
        creates,
        Step::RemoveInput,
    ) + finish
}

fn push_when(v: &mut Vec<Step>, b: bool, s: Step)
    ensures
        final(v)@ == old(v)@ + when(b, s),
{
    if b {
        v.push(s);
    } else {
        assert(v@ =~= v@ + when(b, s));
    }
}

/// The steps of a run of `plugin`, in order. The child's standard error is
/// routed before its standard output, its input is fed only once both are
/// routed, and a temporary input file is removed after the child exits.
pub fn task_steps(plugin: &PreppedPlugin, input_exists: bool) -> (r: Vec<Step>)
    ensures
        r@ == steps_of(*plugin, input_exists),
{
    let creates = match &plugin.input_path {
        InputPath::File(_) => !input_exists,
        InputPath::Stdin => false,
    };
    let mut v: Vec<Step> = Vec::new();
    push_when(&mut v, creates, Step::CreateInput);
    push_when(&mut v, plugin.output_path.dir().is_some(), Step::CreateDir);
    v.push(Step::Spawn);
    v.push(Step::LogStderr);
    if plugin.output_path.stdout() {
        if plugin.unpacker {
            v.push(Step::FeedUnpacker);
        } else {
            v.push(Step::EmitStdout);
        }
    } else {
        v.push(Step::LogStdout);
    }
    push_when(&mut v, plugin.input_path.stdin(), Step::FeedStdin);
    v.push(Step::Wait);
    push_when(&mut v, creates, Step::RemoveInput);
    match &plugin.output_path {
        OutputPath::Stdout => {},
        OutputPath::File(_) => {
            if plugin.unpacker {
                v.push(Step::UnpackFile);
            } else {
                v.push(Step::EmitFile);
            }
        },
        OutputPath::Dir(_) => {
            if plugin.unpacker {
                v.push(Step::UnpackDir);
            } else {
                v.push(Step::EmitDir);
            }
        },
    }
    assert(v@ =~= steps_of(*plugin, input_exists));
    v
}

/// Whether `s` stands at position `i` of `steps`.
pub open spec fn occurs_at(steps: Seq<Step>, s: Step, i: int) -> bool {
    0 <= i < steps.len() && steps[i] == s
}

/// A run that writes a temporary input file removes it, and only after the
/// child has exited; and the child's standard error is always routed before
/// its standard output and before the run waits.
pub proof fn lemma_steps_clean_up(p: PreppedPlugin, input_exists: bool)
    ensures
        ({
            let s = steps_of(p, input_exists);
            &&& (s.contains(Step::CreateInput) ==> exists|i: int, j: int|
                i < j && occurs_at(s, Step::Wait, i) && occurs_at(s, Step::RemoveInput, j))
            &&& (s.contains(Step::RemoveInput) ==> s.contains(Step::CreateInput))
            &&& exists|i: int, j: int, k: int|
                i < j < k && occurs_at(s, Step::LogStderr, i) && occurs_at(s, Step::Spawn, i - 1)
                    && (occurs_at(s, Step::FeedUnpacker, j) || occurs_at(s, Step::EmitStdout, j)
                    || occurs_at(s, Step::LogStdout, j)) && occurs_at(s, Step::Wait, k)
        }),
{
    let s = steps_of(p, input_exists);
    let creates = p.input_path is File && !input_exists;
    let a: int = (when(creates, Step::CreateInput).len() + when(p.output_path is Dir, Step::CreateDir).len()) as int;
    let b: int = a + 3 + when(p.input_path is Stdin, Step::FeedStdin).len();
    assert(s[a] == Step::Spawn);
    assert(s[a + 1] == Step::LogStderr);
    assert(occurs_at(s, Step::Wait, b));
    if s.contains(Step::CreateInput) {
        if !creates {
            let k = choose|k: int| 0 <= k < s.len() && s[k] == Step::CreateInput;
            assert(false);
        }
        assert(s[0] == Step::CreateInput);
        assert(occurs_at(s, Step::RemoveInput, b + 1));
        assert(b < b + 1 && occurs_at(s, Step::Wait, b) && occurs_at(s, Step::RemoveInput, b + 1));
    }
    if s.contains(Step::RemoveInput) {
        if !creates {
            let k = choose|k: int| 0 <= k < s.len() && s[k] == Step::RemoveInput;
            assert(false);
        }
        assert(s[0] == Step::CreateInput);
    }
    assert(occurs_at(s, Step::LogStderr, a + 1));
    assert(occurs_at(s, Step::Spawn, a));
    assert(occurs_at(s, Step::FeedUnpacker, a + 2) || occurs_at(s, Step::EmitStdout, a + 2)
        || occurs_at(s, Step::LogStdout, a + 2));
    assert(a + 1 < a + 2 < b);
}

/// What a step hands on to the queues.
#[derive(Debug)]
pub enum Handoff {
    /// An output for the output workers, with the task's metadata.
    Output(OutputData),
    /// A new input with the task's item path.
    Input(InputData),
    /// One hand-off for each file under the output directory.
    EachFile,
    /// Nothing.
    Nothing,
}

/// What `step` of a run of `p` hands on.
pub open spec fn handoff_of(p: PreppedPlugin, step: Step) -> Handoff {
    match step {
        Step::LogStderr => Handoff::Output(OutputData::LogStderr),
        Step::EmitStdout => Handoff::Output(OutputData::Stdout),
        Step::LogStdout => Handoff::Output(OutputData::LogStdout),
        Step::FeedUnpacker => Handoff::Input(InputData::Stdout),
        Step::UnpackFile => match p.output_path {
            OutputPath::File(f) => Handoff::Input(InputData::File(f, true)),
            _ => Handoff::Nothing,
        },
        Step::EmitFile => match p.output_path {
            OutputPath::File(f) => Handoff::Output(OutputData::File(f)),
            _ => Handoff::Nothing,
        },
        Step::UnpackDir | Step::EmitDir => if p.output_path is Dir {
            Handoff::EachFile
        } else {
            Handoff::Nothing
        },
        _ => Handoff::Nothing,
    }
}

/// What `step` of a run of `plugin` hands on: the child's pipes and output
/// file go to the output workers, or back to the input queue when the
/// plugin is an unpacker; an output file handed back is removed once read.
pub fn handoff(plugin: &PreppedPlugin, step: Step) -> (r: Handoff)
    ensures
        match (r, handoff_of(*plugin, step)) {
            (Handoff::Output(OutputData::File(a)), Handoff::Output(OutputData::File(b))) => a@ == b@,
            (Handoff::Input(InputData::File(a, t)), Handoff::Input(InputData::File(b, u))) => a@ == b@
                && t == u,
            (Handoff::Output(OutputData::File(_)), _) => false,
            (Handoff::Input(InputData::File(_, _)), _) => false,
            (x, y) => x == y,
        },
{
    match step {
        Step::LogStderr => Handoff::Output(OutputData::LogStderr),
        Step::EmitStdout => Handoff::Output(OutputData::Stdout),
        Step::LogStdout => Handoff::Output(OutputData::LogStdout),
        Step::FeedUnpacker => Handoff::Input(InputData::Stdout),
        Step::UnpackFile => match &plugin.output_path {
            OutputPath::File(f) => Handoff::Input(InputData::File(f.clone(), true)),
            _ => Handoff::Nothing,
        },
        Step::EmitFile => match &plugin.output_path {
            OutputPath::File(f) => Handoff::Output(OutputData::File(f.clone())),
            _ => Handoff::Nothing,
        },
        Step::UnpackDir | Step::EmitDir => match &plugin.output_path {
            OutputPath::Dir(_) => Handoff::EachFile,
            _ => Handoff::Nothing,
        },
        _ => Handoff::Nothing,
    }
}

/// What a file found under the output directory of a run becomes, with the
/// item path that goes with it. For an unpacker: a new input, removed once
/// read, whose item path is the file's own (`file_item_path`). Else: an
/// output under the task's item path (`task_item_path`).
pub fn dir_file_handoff(unpacker: bool, path: String, file_item_path: String, task_item_path: String) -> (r: (
    Handoff,
    String,
))
    ensures
        unpacker ==> (r.0 matches Handoff::Input(InputData::File(p, t)) && p@ == path@ && t)
            && r.1@ == file_item_path@,
        !unpacker ==> (r.0 matches Handoff::Output(OutputData::File(p)) && p@ == path@)
            && r.1@ == task_item_path@,
{
    if unpacker {
        (Handoff::Input(InputData::File(path, true)), file_item_path)
    } else {
        (Handoff::Output(OutputData::File(path)), task_item_path)
    }
}

} // verus!
