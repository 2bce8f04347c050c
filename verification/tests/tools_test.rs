//! Tests of the bash tool, finding bash, and the chat stream.

use neoco::chat::{chat_provider, chat_setup, record_turn, ChatStream, HistoryMessage, StreamItem};
use neoco::config::{Config, Entry, Provider, ProviderType};
use neoco::errors::ChatError;
use neoco::events::TokenUsage;
use neoco::sandbox::{BashSandbox, SandboxError};
use neoco::tools::bash::{bash_path_variables, first_set_path, version_verdict, BashError};
use neoco::tools::{CommandArgs, CommandError, ProcessOutput, RunOutcome, ShellTool};

fn finished(success: bool, code: Option<i32>, out: &str, err: &str) -> RunOutcome {
    RunOutcome::Finished(ProcessOutput {
        success,
        code,
        stdout: out.as_bytes().to_vec(),
        stderr: err.as_bytes().to_vec(),
    })
}

#[test]
fn shell_tool_name_and_description() {
    let tool = ShellTool::new();
    assert_eq!(tool.name(), "bash");
    let d = tool.description("");
    assert!(d.starts_with("Execute a bash command"));
    assert!(!d.contains('\n'));
    let d = tool.description("be careful");
    assert!(d.ends_with("\nAdditional instructions: be careful\n"));
}

#[test]
fn shell_tool_invocation() {
    let tool = ShellTool::default();
    let args = CommandArgs::new("ls -la".to_string(), None);
    let inv = tool.invocation(&args, None);
    assert_eq!(inv.program, "bash");
    assert_eq!(inv.args, vec!["-c".to_string(), "ls -la".to_string()]);
    assert_eq!(inv.timeout_secs, 60);
    let args = CommandArgs::new("true".to_string(), Some(5));
    let inv = tool.invocation(&args, Some("/usr/local/bin/bash".to_string()));
    assert_eq!(inv.program, "/usr/local/bin/bash");
    assert_eq!(inv.timeout_secs, 5);
}

#[test]
fn shell_tool_outcomes() {
    let tool = ShellTool::new();
    assert_eq!(tool.outcome(finished(true, Some(0), "out\n", "err\n"), 60).unwrap(), "out\nerr\n");
    match tool.outcome(finished(false, Some(2), "o", "e"), 60) {
        Err(CommandError::ExitError(code, text)) => {
            assert_eq!(code, 2);
            assert_eq!(text, "oe");
        },
        other => panic!("unexpected outcome: {other:?}"),
    }
    match tool.outcome(finished(false, None, "", ""), 60) {
        Err(e) => assert_eq!(e.message(), "Command failed with exit code -1: "),
        Ok(_) => panic!("a failure must be an error"),
    }
    match tool.outcome(RunOutcome::TimedOut, 7) {
        Err(e) => assert_eq!(e.message(), "Command timed out after 7 seconds"),
        Ok(_) => panic!("a timeout must be an error"),
    }
    let io = std::io::Error::new(std::io::ErrorKind::NotFound, "no bash");
    assert!(matches!(tool.outcome(RunOutcome::Failed(io), 60), Err(CommandError::ExecuteError(_))));
}

#[test]
fn lossy_output_is_decoded() {
    let tool = ShellTool::new();
    let run = RunOutcome::Finished(ProcessOutput { success: true, code: Some(0), stdout: vec![b'a', 0xff], stderr: Vec::new() });
    assert_eq!(tool.outcome(run, 60).unwrap(), "a\u{fffd}");
}

#[test]
fn sandbox_outcomes() {
    let sandbox = BashSandbox::new("/tmp").unwrap();
    assert_eq!(sandbox.outcome(finished(true, Some(0), "hello\n", "")).unwrap(), "hello\n");
    match sandbox.outcome(finished(false, Some(1), "", "bad")) {
        Err(SandboxError::Other(m)) => assert_eq!(m, "Command failed with exit code 1: bad"),
        other => panic!("unexpected outcome: {other:?}"),
    }
    assert!(matches!(sandbox.outcome(RunOutcome::TimedOut), Err(SandboxError::Timeout)));
}

#[test]
fn bash_path_choice() {
    let names = bash_path_variables();
    assert_eq!(names, vec!["NEOCO_GIT_BASH_PATH", "CLAUDE_CODE_GIT_BASH_PATH", "OPENCODE_GIT_BASH_PATH"]);
    assert_eq!(first_set_path(&vec![None, Some(String::new()), Some("/b".to_string())]), Some("/b".to_string()));
    assert_eq!(first_set_path(&vec![None, Some(String::new())]), None);
}

#[test]
fn bash_version_verdicts() {
    assert!(version_verdict(&None, Ok(true)).is_ok());
    assert_eq!(version_verdict(&None, Ok(false)), Err(BashError::DefaultBashFailed));
    assert_eq!(
        version_verdict(&Some("/x/bash".to_string()), Ok(false)),
        Err(BashError::VersionCheck("/x/bash".to_string()))
    );
    let io = std::io::Error::new(std::io::ErrorKind::NotFound, "missing");
    assert!(matches!(version_verdict(&None, Err(io)), Err(BashError::Execute(_))));
    assert_eq!(BashError::VersionCheck("/x".to_string()).message(), "bash --version failed at: /x");
}

#[test]
fn chat_stream_gathers_the_reply() {
    let mut s = ChatStream::new();
    assert_eq!(s.step(StreamItem::Text("Hel".to_string())).unwrap(), vec!["Hel".to_string()]);
    assert_eq!(s.step(StreamItem::Text("lo".to_string())).unwrap(), vec!["lo".to_string()]);
    assert_eq!(s.step(StreamItem::ReasoningDelta("hm".to_string())).unwrap(), vec!["[思考] hm".to_string()]);
    assert_eq!(
        s.step(StreamItem::ToolCall { name: "bash".to_string(), arguments: "{}".to_string() }).unwrap(),
        vec!["[工具调用] bash: ".to_string(), "{}".to_string()]
    );
    assert_eq!(s.step(StreamItem::ToolResult("x".to_string())).unwrap(), vec!["[工具结果] x\n".to_string()]);
    let usage = TokenUsage { input_tokens: 1, output_tokens: 1, total_tokens: 2 };
    assert!(s.step(StreamItem::Final(Some(usage))).unwrap().is_empty());
    let (last, reply, got) = s.finish();
    assert_eq!(last, "\n");
    assert_eq!(reply, "Hello");
    assert_eq!(got, Some(usage));
}

#[test]
fn chat_stream_error_is_a_stream_error() {
    let mut s = ChatStream::new();
    match s.step(StreamItem::Error("reset".to_string())) {
        Err(e) => assert_eq!(e.message(), "Stream error: reset"),
        Ok(_) => panic!("an error item must fail"),
    }
}

#[test]
fn chat_setup_order() {
    let provider = Provider {
        provider_type: ProviderType::Anthropic,
        name: "A".to_string(),
        base_url: "https://a".to_string(),
        api_key_env: "A_KEY".to_string(),
    };
    let config = Config {
        model: None,
        model_group: None,
        model_groups: Vec::new(),
        model_providers: vec![Entry { key: "a".to_string(), value: provider.clone() }],
    };
    assert!(matches!(chat_provider(&config, "b/x"), Err(ChatError::UnknownProvider(m)) if m == "b/x"));
    let p = chat_provider(&config, "a/model?t=1").unwrap();
    match chat_setup(p, None, "a/model?t=1", 1) {
        Err(ChatError::ApiKey(m)) => assert_eq!(m, "Missing API key: set A_KEY environment variable"),
        other => panic!("unexpected setup: {other:?}"),
    }
    assert!(matches!(chat_setup(p, Some("k".to_string()), "a/model?t=1", 0), Err(ChatError::NoMessage)));
    let s = chat_setup(p, Some("k".to_string()), "a/model?t=1", 2).unwrap();
    assert_eq!(s.api_key, "k");
    assert_eq!(s.model_name, "model");
}

#[test]
fn turns_build_the_history() {
    let mut history = Vec::new();
    record_turn(&mut history, "hi", "hello");
    assert_eq!(history.len(), 2);
    assert!(matches!(&history[0], HistoryMessage::User(u) if u == "hi"));
    assert!(matches!(&history[1], HistoryMessage::Assistant(a) if a == "hello"));
}
