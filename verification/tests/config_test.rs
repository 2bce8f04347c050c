//! Tests of the configuration and of the command line's choices.

use neoco::cli::{choose_model, chat_failure_text, tui_turn, CliError, TurnAction};
use neoco::config::{model_name_of, Config, ConfigError, Entry, Provider, ProviderType};
use neoco::errors::RenderError;
use neoco::tools::bash::BashError;

fn minimax() -> Provider {
    Provider {
        provider_type: ProviderType::OpenAICompletions,
        name: "MiniMax".to_string(),
        base_url: "https://api.minimaxi.com/v1".to_string(),
        api_key_env: "MINIMAX_API_KEY".to_string(),
    }
}

fn config_with(groups: Vec<Entry<Vec<String>>>) -> Config {
    Config {
        model: Some("minimax-cn/MiniMax-M2.5".to_string()),
        model_group: Some("balanced".to_string()),
        model_groups: groups,
        model_providers: vec![Entry { key: "minimax-cn".to_string(), value: minimax() }],
    }
}

#[test]
fn lib_test_extract_provider() {
    let config = config_with(Vec::new());

    let provider = config.extract_provider("minimax-cn/MiniMax-M2.5");
    assert!(provider.is_some());
    assert_eq!(provider.unwrap().name, "MiniMax");
}

#[test]
fn config_test_extract_provider() {
    let config = config_with(Vec::new());

    let provider = config.extract_provider("minimax-cn/MiniMax-M2.5");
    assert!(provider.is_some());
    assert_eq!(provider.unwrap().name, "MiniMax");
}

// Further cases.

#[test]
fn provider_lookup_ignores_ascii_case_and_needs_a_match() {
    let config = config_with(Vec::new());
    assert_eq!(config.extract_provider("MINIMAX-CN/x").unwrap().name, "MiniMax");
    assert!(config.extract_provider("other/x").is_none());
}

#[test]
fn model_group_gives_its_first_model() {
    let config = config_with(vec![
        Entry { key: "balanced".to_string(), value: vec!["a/one".to_string(), "b/two".to_string()] },
        Entry { key: "empty".to_string(), value: Vec::new() },
    ]);
    assert_eq!(config.get_model_from_group("balanced"), Some("a/one".to_string()));
    assert_eq!(config.get_model_from_group("empty"), None);
    assert_eq!(config.get_model_from_group("missing"), None);
}

#[test]
fn model_choice_order() {
    let config = config_with(vec![Entry { key: "balanced".to_string(), value: vec!["a/one".to_string()] }]);
    assert_eq!(choose_model(&config, Some("balanced"), Some("x/y")).unwrap(), "a/one");
    assert_eq!(choose_model(&config, None, Some("x/y")).unwrap(), "x/y");
    assert_eq!(choose_model(&config, None, None).unwrap(), "a/one");
    match choose_model(&config, Some("nope"), None) {
        Err(CliError::UnknownModelGroup(g)) => assert_eq!(g, "nope"),
        other => panic!("unexpected result: {other:?}"),
    }
    let bare = Config { model: None, model_group: None, model_groups: Vec::new(), model_providers: Vec::new() };
    assert!(matches!(choose_model(&bare, None, None), Err(CliError::NoModel)));
    let only_model = Config { model: Some("m/n".to_string()), ..bare };
    assert_eq!(choose_model(&only_model, None, None).unwrap(), "m/n");
}

#[test]
fn model_name_cases() {
    assert_eq!(model_name_of("minimax-cn/MiniMax-M2.5?temperature=0.1"), "MiniMax-M2.5");
    assert_eq!(model_name_of("deepseek/deepseek-chat"), "deepseek-chat");
    assert_eq!(model_name_of("plain"), "plain");
}

#[test]
fn api_key_from_the_variable() {
    let p = minimax();
    assert_eq!(Config::get_api_key(&p, Some("k".to_string())).unwrap(), "k");
    match Config::get_api_key(&p, None) {
        Err(e) => {
            assert!(matches!(e, ConfigError::MissingApiKey(_)));
            assert_eq!(e.message(), "Missing API key: set MINIMAX_API_KEY environment variable");
        },
        Ok(_) => panic!("a missing key must fail"),
    }
}

#[test]
fn default_path_is_under_dot_neoco() {
    assert_eq!(Config::default_path(), ".neoco/neoco.toml");
}

#[test]
fn cli_error_messages() {
    assert_eq!(
        CliError::NoModel.message(),
        "No model specified. Use --model or --model_group, or configure in neoco.toml"
    );
    assert_eq!(CliError::UnknownModelGroup("fast".to_string()).message(), "Unknown model group: fast");
    assert_eq!(
        CliError::BashNotAvailable(BashError::DefaultBashFailed).message(),
        "bash is required but not available: default bash --version returned non-zero exit status"
    );
}

#[test]
fn tui_turns() {
    assert!(matches!(tui_turn(Ok("hi".to_string())), TurnAction::Chat(ms) if ms == vec!["hi".to_string()]));
    assert!(matches!(tui_turn(Err(RenderError::RenderFailed("User quit".to_string()))), TurnAction::Quit));
    assert!(matches!(
        tui_turn(Err(RenderError::RenderFailed("boom".to_string()))),
        TurnAction::Fail(RenderError::RenderFailed(_))
    ));
    assert!(matches!(tui_turn(Err(RenderError::Terminal("t".to_string()))), TurnAction::Fail(RenderError::Terminal(_))));
    assert_eq!(chat_failure_text("oops"), "错误: oops");
}

#[test]
fn config_error_messages_show_their_kind() {
    let bad = toml::from_str::<toml::Value>("= 1").unwrap_err();
    assert!(ConfigError::ParseToml(bad).message().starts_with("Failed to parse config file: "));
    let io = std::io::Error::new(std::io::ErrorKind::NotFound, "gone");
    assert_eq!(ConfigError::ReadFile(io).message(), "Failed to read config file: gone");
}
