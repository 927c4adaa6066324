use factory::plugin::{OutputType, Plugin, StdinMode};
use factory::record::format_record;
use factory::task::{task_steps, Step};

#[test]
fn test_run_task() {
    let plugin = Plugin {
        name: "foo".into(),
        path: "/bin/sh".into(),
        args: Some(vec!["$INPUT".into()]),
        input: None,
        output: Some(OutputType::stdout),
        unpacker: None,
    };
    let prepped = plugin.prep(None, "/tmp");
    assert_eq!(
        task_steps(&prepped, false),
        vec![Step::CreateInput, Step::Spawn, Step::LogStderr, Step::EmitStdout, Step::Wait, Step::RemoveInput]
    );
    let input = prepped.input_path.file().unwrap().clone();
    assert_eq!(prepped.command.program, "/bin/sh");
    assert_eq!(prepped.command.args, vec![input.clone()]);
    assert_eq!(prepped.command.env, vec![("INPUT".to_string(), input)]);
    assert_eq!(prepped.command.stdin, StdinMode::Null);
    // `/bin/sh` on "#!/bin/sh\necho foobar" writes one line.
    let out = format_record(&prepped.plugin_name, "", "", "foobar\n");
    let result: serde_json::Value = serde_json::from_slice(&out).unwrap();
    assert_eq!(
        result.as_object().unwrap().get("data").unwrap(),
        &serde_json::Value::String("foobar".into())
    );
}
