use factory::plugin::Plugin;
use factory::pre_process::{hex_pattern, hex_upper, ConfigError, Header, PreProcessor, Settings, Skip};
use factory::input::TaskId;

fn empty_plugin() -> Plugin {
    Plugin { name: "".into(), path: "".into(), args: None, input: None, output: None, unpacker: None }
}

fn settings(regex: &str, hex: Option<bool>, plugin: Plugin) -> Settings {
    Settings { header: Header { regex: regex.into(), hex }, plugin }
}

#[test]
fn test_get_file_type() {
    let conf = vec![("foo".to_string(), settings("^.FOO", None, empty_plugin()))];
    let pp = PreProcessor::new(conf).unwrap();
    assert_eq!(pp.get_file_type(&[0x8b, 0x46, 0x4f, 0x4f, 0x8b]), Some("foo".into()));
}

#[test]
fn test_get_file_type_hex() {
    let conf = vec![("bar".to_string(), settings("^8B 00 .. 4f4F$", Some(true), empty_plugin()))];
    let pp = PreProcessor::new(conf).unwrap();
    assert_eq!(pp.get_file_type(&[0x8b, 0x00, 0x46, 0x4f, 0x4f]), Some("bar".into()));
}

#[test]
fn hex_helpers() {
    assert_eq!(hex_upper(&[0x00, 0x0f, 0xab, 0xff]), "000FABFF");
    assert_eq!(hex_upper(&[]), "");
    assert_eq!(hex_pattern("^8b 00 .. 4f4F$"), "^8B00..4F4F$");
}

#[test]
fn bad_pattern_is_refused() {
    let conf = vec![
        ("ok".to_string(), settings("^a", None, empty_plugin())),
        ("bad".to_string(), settings("(", None, empty_plugin())),
    ];
    match PreProcessor::new(conf) {
        Err(ConfigError::BadPattern(t)) => assert_eq!(t, "bad"),
        Ok(_) => panic!("a pattern that does not compile was accepted"),
    }
}

#[test]
fn text_rules_come_before_hex_rules() {
    let conf = vec![
        ("hex".to_string(), settings("^2321", Some(true), empty_plugin())),
        ("text".to_string(), settings("^#!", None, empty_plugin())),
    ];
    let pp = PreProcessor::new(conf).unwrap();
    assert_eq!(pp.get_file_type(b"#!/bin/sh\n"), Some("text".into()));
    assert_eq!(pp.get_file_type(b"hello\n"), None);
}

fn sh_config() -> Vec<(String, Settings)> {
    let plugin = Plugin {
        name: "foo".into(),
        path: "/bin/sh".into(),
        args: Some(vec!["$INPUT".into()]),
        input: None,
        output: Some(factory::plugin::OutputType::stdout),
        unpacker: None,
    };
    vec![
        ("script/sh".to_string(), settings("^#!/bin/sh", None, plugin)),
        ("text/plain".to_string(), settings("^plain", None, empty_plugin())),
    ]
}

#[test]
fn classification_miss_is_skipped() {
    let mut conf = sh_config();
    conf.pop();
    let pp = PreProcessor::new(conf).unwrap();
    let r = pp.pre_process(TaskId::new(0, 1), "a".into(), None, b"hello\n".to_vec(), "/w");
    assert!(matches!(r, Err(Skip::Undetermined)));
}

#[test]
fn unconfigured_type_is_skipped() {
    let conf = vec![("text/plain".to_string(), settings("^plain", None, empty_plugin()))];
    let mut pp = PreProcessor::new(conf).unwrap();
    pp.plugins.clear();
    let r = pp.pre_process(TaskId::new(0, 1), "a".into(), None, b"plain text".to_vec(), "/w");
    assert!(matches!(r, Err(Skip::NotConfigured(ref t)) if t == "text/plain"));
}

#[test]
fn pre_process_keeps_the_head_and_plans_the_plugin() {
    let pp = PreProcessor::new(sh_config()).unwrap();
    let head = b"#!/bin/sh\necho foobar".to_vec();
    let r = pp.pre_process(TaskId::new(3, 7), "dir/a.sh".into(), None, head.clone(), "/w").unwrap();
    assert_eq!(r.task_id, TaskId::new(3, 7));
    assert_eq!(r.item_path, "dir/a.sh");
    assert_eq!(r.item_type, "script/sh");
    assert_eq!(r.head, head);
    assert_eq!(r.plugin.plugin_name, "foo");
    assert_eq!(r.plugin.command.program, "/bin/sh");
    let input = r.plugin.input_path.file().unwrap().clone();
    assert!(input.starts_with("/w/"));
    assert_eq!(r.plugin.command.args, vec![input]);
}
