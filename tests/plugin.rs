use factory::plugin::{
    gen_path, path_for, replace_arg, InputPath, InputType, OutputPath, OutputType, Plugin,
    StdinMode,
};

fn sh_plugin(output: Option<OutputType>) -> Plugin {
    Plugin {
        name: "foo".into(),
        path: "bar".into(),
        args: Some(vec!["--baz".into(), "$INPUT".into()]),
        input: None,
        output,
        unpacker: None,
    }
}

#[test]
fn test_prep() {
    let plugin = sh_plugin(Some(OutputType::stdout));
    let prepped = plugin.prep(None, "/tmp/work");
    assert_eq!(
        prepped.input_path.file().map(|p| p.as_str()),
        prepped.command.args.get(1).map(|a| a.as_str())
    );
    assert!(prepped.output_path.stdout());
    let given = String::from("/foo/bar");
    let prepped = plugin.prep(Some(&given), "/tmp/work");
    assert_eq!(Some("/foo/bar"), prepped.command.args.get(1).map(|a| a.as_str()));
}

#[test]
fn replace_arg_replaces_exact_tokens_only() {
    let mut args: Vec<String> = vec!["$INPUT".into(), "x$INPUT".into(), "$INPUT".into(), "-v".into()];
    replace_arg(&mut args, "$INPUT", "/w/in");
    assert_eq!(args, vec!["/w/in", "x$INPUT", "/w/in", "-v"]);
}

#[test]
fn path_for_gives_sixteen_lower_hex_digits() {
    assert_eq!(path_for("/work", 0xdead_beef), "/work/00000000deadbeef");
    assert_eq!(path_for("/work/", u64::MAX), "/work/ffffffffffffffff");
    assert_eq!(path_for("", 1), "0000000000000001");
}

#[test]
fn gen_path_lies_under_the_directory() {
    let p = gen_path("/work");
    assert_eq!(p.len(), "/work/".len() + 16);
    assert!(p.starts_with("/work/"));
    assert!(p["/work/".len()..].chars().all(|c| c.is_ascii_hexdigit() && !c.is_ascii_uppercase()));
}

#[test]
fn prep_with_file_input_and_file_output() {
    let plugin = Plugin {
        name: "conv".into(),
        path: "/usr/bin/conv".into(),
        args: Some(vec!["$INPUT".into(), "-o".into(), "$OUTPUT".into()]),
        input: None,
        output: None,
        unpacker: Some(true),
    };
    let r = plugin.prep_with(None, "/w/in".into(), "/w/out".into());
    assert_eq!(r.plugin_name, "conv");
    assert_eq!(r.command.program, "/usr/bin/conv");
    assert_eq!(r.command.args, vec!["/w/in", "-o", "/w/out"]);
    assert_eq!(
        r.command.env,
        vec![("INPUT".to_string(), "/w/in".to_string()), ("OUTPUT".to_string(), "/w/out".to_string())]
    );
    assert_eq!(r.command.stdin, StdinMode::Null);
    assert_eq!(r.command.current_dir, None);
    assert!(matches!(r.input_path, InputPath::File(ref p) if p == "/w/in"));
    assert!(matches!(r.output_path, OutputPath::File(ref p) if p == "/w/out"));
    assert!(r.unpacker);
}

#[test]
fn prep_with_stdin_input_and_dir_output() {
    let plugin = Plugin {
        name: "unzip".into(),
        path: "unzip".into(),
        args: Some(vec!["$INPUT".into(), "-d".into(), "$OUTPUT".into()]),
        input: Some(InputType::stdin),
        output: Some(OutputType::dir),
        unpacker: None,
    };
    let given = String::from("/data/x.zip");
    let r = plugin.prep_with(Some(&given), "/w/in".into(), "/w/out".into());
    assert_eq!(r.command.args, vec!["$INPUT", "-d", "/w/out"]);
    assert_eq!(r.command.env, vec![("OUTPUT".to_string(), "/w/out".to_string())]);
    assert_eq!(r.command.stdin, StdinMode::Piped);
    assert_eq!(r.command.current_dir.as_deref(), Some("/w/out"));
    assert!(r.input_path.stdin());
    assert_eq!(r.output_path.dir().map(|p| p.as_str()), Some("/w/out"));
    assert!(!r.unpacker);
}

#[test]
fn prep_with_uses_the_existing_input_file() {
    let plugin = sh_plugin(Some(OutputType::stdout));
    let given = String::from("/data/a.sh");
    let r = plugin.prep_with(Some(&given), "/w/in".into(), "/w/out".into());
    assert_eq!(r.command.args, vec!["--baz", "/data/a.sh"]);
    assert_eq!(r.command.env, vec![("INPUT".to_string(), "/data/a.sh".to_string())]);
    assert!(r.output_path.stdout());
    assert_eq!(r.output_path.dir(), None);
}
