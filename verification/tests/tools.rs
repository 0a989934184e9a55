use std::time::Duration;

use stratum::executor::{NoOpExecutor, ToolExecutionError};
use stratum::json::{Json, JsonNumber};
use stratum::json_text::to_json_text;
use stratum::process::ProcessOutcome;
use stratum::subprocess::{
    ArgPiece, CompositeExecutor, ParamPassing, SubprocessExecutor, SubprocessExecutorConfig, ToolCommandSpec,
};
use stratum::text::{i64_to_text, sort_strings, split_whitespace, trim, trim_end_matches_char, u64_to_text};
use stratum::tools::bash::{bash_command, bash_finish, bash_request};
use stratum::tools::create_skill::{render_skill_markdown, skill_file_name, CreateSkillParams};
use stratum::tools::file_ops::{
    list_directory_result, read_window, scan_content, scan_lines, search_files_result, split_lines, DirEntryInfo,
};
use stratum::tools::{BuiltinExecutor, BuiltinStep, NativeTool};

fn s(x: &str) -> Json {
    Json::Str(x.to_string())
}

fn obj(pairs: Vec<(&str, Json)>) -> Json {
    Json::Object(pairs.into_iter().map(|(k, v)| (k.to_string(), v)).collect())
}

#[test]
fn simple_errors_are_not_retryable() {
    let e = ToolExecutionError::simple("boom");
    assert_eq!(e.message, "boom");
    assert!(e.remediation_hint.is_none());
    assert!(!e.is_retryable);
    assert_eq!(e.to_string(), "boom");
}

#[test]
fn noop_answers_ok() {
    let r = NoOpExecutor.execute("x", &Json::Null).unwrap();
    assert_eq!(r, obj(vec![("result", s("ok"))]));
}

#[test]
fn json_text_is_compact_and_escaped() {
    let v = obj(vec![
        ("a", Json::Array(vec![Json::Null, Json::Bool(true), Json::Number(JsonNumber::NegInt(-3))])),
        ("b", s("q\"\\\n\u{1}")),
        ("c", Json::Number(JsonNumber::PosInt(42))),
        ("d", Json::Number(JsonNumber::Float("1.5".to_string()))),
    ]);
    assert_eq!(to_json_text(&v), r#"{"a":[null,true,-3],"b":"q\"\\\n\u0001","c":42,"d":1.5}"#);
    let back: serde_json::Value = serde_json::from_str(&to_json_text(&v)).unwrap();
    assert_eq!(back["b"], "q\"\\\n\u{1}");
}

#[test]
fn text_helpers() {
    assert_eq!(u64_to_text(0), "0");
    assert_eq!(u64_to_text(1234), "1234");
    assert_eq!(i64_to_text(-45), "-45");
    assert_eq!(trim("  a b \n"), "a b");
    assert_eq!(trim("   "), "");
    assert_eq!(trim_end_matches_char("x///", '/'), "x");
    assert_eq!(split_whitespace(" a  b\tc "), vec!["a", "b", "c"]);
    let sorted = sort_strings(vec!["b".to_string(), "a".to_string(), "c".to_string(), "a".to_string()]);
    assert_eq!(sorted, vec!["a", "a", "b", "c"]);
}

#[test]
fn bash_plans_and_results() {
    let req = bash_request(&obj(vec![("command", s("echo hi")), ("timeout_ms", Json::Number(JsonNumber::PosInt(5)))]))
        .unwrap();
    assert_eq!(req.timeout_ms, 5);
    let plan = bash_command(&req);
    assert_eq!(plan.program, "sh");
    assert_eq!(plan.args, vec!["-c", "echo hi"]);
    let out = bash_finish(
        &req,
        ProcessOutcome::Exited { code: Some(3), stdout: "o".to_string(), stderr: "e".to_string() },
    )
    .unwrap();
    assert_eq!(
        out,
        obj(vec![("stdout", s("o")), ("stderr", s("e")), ("exit_code", Json::Number(JsonNumber::PosInt(3)))])
    );
    let e = bash_finish(&req, ProcessOutcome::TimedOut).unwrap_err();
    assert_eq!(e.message, "bash command timed out after 5ms");
    assert!(e.is_retryable);
    assert!(bash_request(&obj(vec![])).is_err());
}

fn executor_with(mode: ParamPassing) -> SubprocessExecutor {
    let spec = ToolCommandSpec {
        program: "tool".to_string(),
        args: vec!["--fixed".to_string()],
        param_passing: mode,
        timeout: None,
        working_dir: None,
        env: vec![("K".to_string(), "V".to_string())],
    };
    SubprocessExecutor::new(SubprocessExecutorConfig::default(), vec![("t".to_string(), spec)])
}

#[test]
fn subprocess_plans() {
    let params = obj(vec![("name", s("x")), ("n", Json::Number(JsonNumber::PosInt(2)))]);
    let plan = executor_with(ParamPassing::CliFlags).plan("t", &params).unwrap();
    let texts: Vec<String> = plan
        .args
        .iter()
        .map(|a| match a {
            ArgPiece::Text(t) => t.clone(),
            ArgPiece::JsonText(j) => to_json_text(j),
        })
        .collect();
    assert_eq!(texts, vec!["--fixed", "--name", "x", "--n", "2"]);
    assert_eq!(plan.timeout, Duration::from_secs(30));
    assert_eq!(plan.env[0], ("STRATUM_TRUST".to_string(), "autonomous".to_string()));
    let plan = executor_with(ParamPassing::Stdin).plan("t", &params).unwrap();
    assert_eq!(plan.stdin, Some(params.clone()));
    assert_eq!(plan.args.len(), 1);
    let e = executor_with(ParamPassing::JsonArg).plan("other", &params).unwrap_err();
    assert_eq!(e.message, "no command spec registered for tool `other`");
}

#[test]
fn subprocess_outcomes() {
    let ex = executor_with(ParamPassing::Stdin);
    let t = Duration::from_secs(30);
    let e = ex
        .finish("t", &t, ProcessOutcome::Exited { code: Some(75), stdout: "  out ".to_string(), stderr: String::new() }, None)
        .unwrap_err();
    assert_eq!(e.message, "process exited with code 75: out");
    assert!(e.is_retryable);
    let e = ex
        .finish("t", &t, ProcessOutcome::Exited { code: Some(2), stdout: String::new(), stderr: " bad ".to_string() }, None)
        .unwrap_err();
    assert_eq!(e.message, "process exited with code 2: bad");
    assert!(!e.is_retryable);
    let e = ex.finish("t", &t, ProcessOutcome::TimedOut, None).unwrap_err();
    assert_eq!(e.message, "tool `t` timed out after 30s");
    let e = SubprocessExecutor::spawn_error("tool", "no such file");
    assert_eq!(e.message, "failed to spawn `tool`: no such file");
}

#[test]
fn composite_routing() {
    let c = CompositeExecutor::new(BuiltinExecutor, executor_with(ParamPassing::Stdin));
    assert!(c.routes_to_builtin("bash"));
    assert!(!c.routes_to_builtin("t"));
}

#[test]
fn builtin_routes() {
    let b = BuiltinExecutor;
    assert!(matches!(b.route("read_file", &Json::Null), Ok(BuiltinStep::Native(NativeTool::ReadFile))));
    let e = b.route("nope", &Json::Null).unwrap_err();
    assert_eq!(e.message, "unknown built-in tool: nope");
    match b.route("memory_write", &obj(vec![("tier", s("working")), ("id", s("a")), ("content", s("c"))])) {
        Ok(BuiltinStep::Marker(m)) => {
            assert_eq!(m.get("_builtin_action"), Some(&s("memory_write")));
            assert_eq!(m.get("tier"), Some(&s("working")));
        }
        _ => panic!("expected a marker"),
    }
}

#[test]
fn file_results() {
    assert_eq!(read_window(10, 3, Some(4)), (3, 7));
    assert_eq!(read_window(10, 12, None), (10, 10));
    assert_eq!(read_window(10, 8, Some(5)), (8, 10));
    let entries = vec![
        DirEntryInfo { name: "b".to_string(), is_directory: false, size: 1 },
        DirEntryInfo { name: "a".to_string(), is_directory: true, size: 0 },
    ];
    let r = list_directory_result("/d", entries);
    let names: Vec<Json> = r.get("entries").unwrap().as_array().unwrap().iter().map(|e| e.get("name").unwrap().clone()).collect();
    assert_eq!(names, vec![s("a"), s("b")]);
    let mut matches = Vec::new();
    let lines = vec!["x needle".to_string(), "nothing".to_string(), "needle y".to_string()];
    scan_lines("f.txt", &lines, "needle", &mut matches, 100);
    assert_eq!(matches.len(), 2);
    assert_eq!(matches[1].get("line"), Some(&Json::Number(JsonNumber::PosInt(3))));
    let r = search_files_result("needle", matches);
    assert_eq!(r.get("count"), Some(&Json::Number(JsonNumber::PosInt(2))));
    assert_eq!(r.get("truncated"), Some(&Json::Bool(false)));
}

#[test]
fn skill_markdown_rendering() {
    let p = CreateSkillParams {
        name: "s".to_string(),
        description: "d".to_string(),
        triggers: vec!["a".to_string(), "b".to_string()],
        content: "body".to_string(),
    };
    assert_eq!(render_skill_markdown(&p), "---\nname: s\ndescription: d\ntriggers:\n  - a\n  - b\n---\nbody");
    assert_eq!(skill_file_name("s"), "s.md");
    let q = CreateSkillParams { triggers: vec![], ..p };
    assert_eq!(render_skill_markdown(&q), "---\nname: s\ndescription: d\ntriggers: []\n---\nbody");
}


#[test]
fn split_lines_follows_str_lines() {
    for text in ["", "a", "a\n", "a\nb", "a\r\nb\r\n", "a\n\nb", "x\r", "\n", "\r\n\r\n"] {
        let expected: Vec<String> = text.lines().map(|l| l.to_string()).collect();
        assert_eq!(split_lines(text), expected, "text {text:?}");
    }
}

#[test]
fn scan_content_numbers_matching_lines() {
    let mut matches = Vec::new();
    scan_content("f.txt", "alpha\r\nbeta\nalphabet\n", "alpha", &mut matches, 10);
    assert_eq!(matches.len(), 2);
    assert_eq!(matches[0].get("line"), Some(&Json::Number(JsonNumber::PosInt(1))));
    assert_eq!(matches[0].get("content"), Some(&s("alpha")));
    assert_eq!(matches[1].get("line"), Some(&Json::Number(JsonNumber::PosInt(3))));
    let mut few = Vec::new();
    scan_content("f.txt", "a\na\na\n", "a", &mut few, 2);
    assert_eq!(few.len(), 2);
}
