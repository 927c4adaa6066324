use factory::input::{InputData, InputFactory, TaskId};
use factory::plugin::{OutputType, Plugin, InputType};
use factory::task::{dir_file_handoff, handoff, task_steps, Handoff, Output, OutputData, Step};

fn prepped(input: InputType, output: OutputType, unpacker: bool) -> factory::plugin::PreppedPlugin {
    let p = Plugin {
        name: "p".into(),
        path: "/bin/p".into(),
        args: None,
        input: Some(input),
        output: Some(output),
        unpacker: Some(unpacker),
    };
    p.prep_with(None, "/w/in".into(), "/w/out".into())
}

#[test]
fn steps_for_stream_input_to_stdout() {
    let p = prepped(InputType::file, OutputType::stdout, false);
    assert_eq!(
        task_steps(&p, false),
        vec![Step::CreateInput, Step::Spawn, Step::LogStderr, Step::EmitStdout, Step::Wait, Step::RemoveInput]
    );
    assert_eq!(task_steps(&p, true), vec![Step::Spawn, Step::LogStderr, Step::EmitStdout, Step::Wait]);
}

#[test]
fn steps_for_stdin_unpacker_to_stdout() {
    let p = prepped(InputType::stdin, OutputType::stdout, true);
    assert_eq!(
        task_steps(&p, false),
        vec![Step::Spawn, Step::LogStderr, Step::FeedUnpacker, Step::FeedStdin, Step::Wait]
    );
}

#[test]
fn steps_for_file_and_dir_outputs() {
    let p = prepped(InputType::stdin, OutputType::file, false);
    assert_eq!(
        task_steps(&p, true),
        vec![Step::Spawn, Step::LogStderr, Step::LogStdout, Step::FeedStdin, Step::Wait, Step::EmitFile]
    );
    let p = prepped(InputType::file, OutputType::dir, true);
    assert_eq!(
        task_steps(&p, true),
        vec![Step::CreateDir, Step::Spawn, Step::LogStderr, Step::LogStdout, Step::Wait, Step::UnpackDir]
    );
    let p = prepped(InputType::file, OutputType::dir, false);
    assert_eq!(task_steps(&p, false).last(), Some(&Step::EmitDir));
    let p = prepped(InputType::file, OutputType::file, true);
    assert_eq!(task_steps(&p, true).last(), Some(&Step::UnpackFile));
}

#[test]
fn factory_numbers_inputs_uniquely() {
    let mut f = InputFactory::new();
    assert!(f.can_issue());
    let a = f.new_input(1, "x".into(), InputData::Stdin);
    let b = f.new_input(2, "y".into(), InputData::File("/w/f".into(), true));
    let c = f.new_input(1, "z".into(), InputData::Stdout);
    assert_eq!(a.task_id, TaskId::new(1, 0));
    assert_eq!(b.task_id, TaskId::new(2, 1));
    assert_eq!(c.task_id, TaskId::new(1, 2));
    assert_ne!(a.task_id.seq, c.task_id.seq);
    assert_eq!(f.last_id, 3);
    assert_eq!(b.item_path, "y");
    assert!(b.data.is_temp());
    assert_eq!(b.data.file().map(|p| p.as_str()), Some("/w/f"));
    assert!(c.data.is_stdout());
    assert!(!a.data.is_temp());
    assert_eq!(a.data.file(), None);
}

#[test]
fn factory_stops_at_the_last_number() {
    let mut f = InputFactory::new();
    f.last_id = u64::MAX;
    assert!(!f.can_issue());
}

#[test]
fn output_kinds() {
    let o = Output::new(TaskId::new(0, 0), "a".into(), "t".into(), "p".into(), OutputData::File("/w/o".into()));
    assert!(o.data.emits_records());
    assert_eq!(o.plugin_name, "p");
    assert!(OutputData::Stdout.emits_records());
    assert!(!OutputData::LogStdout.emits_records());
    assert!(!OutputData::LogStderr.emits_records());
}

#[test]
fn handoffs_follow_the_plugin() {
    let p = prepped(InputType::stdin, OutputType::stdout, true);
    assert!(matches!(handoff(&p, Step::FeedUnpacker), Handoff::Input(InputData::Stdout)));
    assert!(matches!(handoff(&p, Step::LogStderr), Handoff::Output(OutputData::LogStderr)));
    assert!(matches!(handoff(&p, Step::Wait), Handoff::Nothing));
    let p = prepped(InputType::file, OutputType::file, true);
    assert!(matches!(handoff(&p, Step::UnpackFile), Handoff::Input(InputData::File(ref f, true)) if f == "/w/out"));
    let p = prepped(InputType::file, OutputType::file, false);
    assert!(matches!(handoff(&p, Step::EmitFile), Handoff::Output(OutputData::File(ref f)) if f == "/w/out"));
    assert!(matches!(handoff(&p, Step::LogStdout), Handoff::Output(OutputData::LogStdout)));
    let p = prepped(InputType::file, OutputType::dir, false);
    assert!(matches!(handoff(&p, Step::EmitDir), Handoff::EachFile));
    assert!(matches!(handoff(&p, Step::EmitStdout), Handoff::Output(OutputData::Stdout)));

    let (h, ip) = dir_file_handoff(true, "/w/out/a.txt".into(), "outer/a.txt".into(), "outer".into());
    assert!(matches!(h, Handoff::Input(InputData::File(ref f, true)) if f == "/w/out/a.txt"));
    assert_eq!(ip, "outer/a.txt");
    let (h, ip) = dir_file_handoff(false, "/w/out/a.txt".into(), "outer/a.txt".into(), "outer".into());
    assert!(matches!(h, Handoff::Output(OutputData::File(ref f)) if f == "/w/out/a.txt"));
    assert_eq!(ip, "outer");
}

#[test]
fn task_label_names_worker_and_number() {
    assert_eq!(TaskId::new(3, 0).label(), "Task(3.0)");
    assert_eq!(TaskId::new(12, 18446744073709551615).label(), "Task(12.18446744073709551615)");
}
