//! The command line: its errors, and the choice of the model to chat with.
use vstd::prelude::*;

use crate::config::{first_key_index, Config, ConfigError, config_error_text};
use crate::errors::{chat_error_exact, chat_error_text, render_error_text, ChatError, RenderError};
use crate::text::{begins_with, lemma_begins_with_after, lemma_begins_with_self, prefixed};
use crate::tools::bash::{bash_error_text, BashError};

verus! {

/// Errors of the command line.
#[derive(Debug)]
pub enum CliError {
    /// Bash is not available or does not work.
    BashNotAvailable(BashError),
    /// The configuration could not be loaded.
    Config(ConfigError),
    /// The model group does not exist in the configuration.
    UnknownModelGroup(String),
    /// No model was given and none is configured.
    NoModel,
    /// The chat failed.
    Chat(ChatError),
    /// Rendering failed.
    Render(RenderError),
}

/// The known part of a command-line error's message: all of it, but for
/// the text of an I/O, TOML or JSON error inside.
pub open spec fn cli_error_text(e: CliError) -> Seq<char> {
    match e {
        CliError::BashNotAvailable(b) => "bash is required but not available: "@ + bash_error_text(b),
        CliError::Config(c) => "Failed to load config: "@ + config_error_text(c),
        CliError::UnknownModelGroup(g) => "Unknown model group: "@ + g@,
        CliError::NoModel => "No model specified. Use --model or --model_group, or configure in neoco.toml"@,
        CliError::Chat(c) => "Chat error: "@ + chat_error_text(c),
        CliError::Render(r) => "Render error: "@ + render_error_text(r),
    }
}

/// Whether a command-line error's message is known exactly.
pub open spec fn cli_error_exact(e: CliError) -> bool {
    match e {
        CliError::Config(c) => c is MissingApiKey,
        CliError::Chat(c) => chat_error_exact(c),
        CliError::Render(r) => !(r is Io),
        _ => true,
    }
}

/// `prefix` followed by a message whose known part is `known`.
fn prefixed_message(prefix: &str, inner: String, Ghost(known): Ghost<Seq<char>>) -> (res: String)
    requires
        begins_with(inner@, known),
    ensures
        begins_with(res@, prefix@ + known),
        inner@ == known ==> res@ == prefix@ + known,
{
    let res = prefixed(prefix, inner.as_str());
    proof {
        lemma_begins_with_after(prefix@, inner@, known);
    }
    res
}

impl CliError {
    /// The error's message.
    pub fn message(&self) -> (res: String)
        ensures
            begins_with(res@, cli_error_text(*self)),
            cli_error_exact(*self) ==> res@ == cli_error_text(*self),
    {
        let res = match self {
            CliError::BashNotAvailable(b) => {
                let m = b.message();
                proof {
                    lemma_begins_with_self(m@);
                }
                prefixed_message("bash is required but not available: ", m, Ghost(bash_error_text(*b)))
            },
            CliError::Config(c) => prefixed_message("Failed to load config: ", c.message(), Ghost(config_error_text(*c))),
            CliError::UnknownModelGroup(g) => prefixed("Unknown model group: ", g.as_str()),
            CliError::NoModel => "No model specified. Use --model or --model_group, or configure in neoco.toml".to_owned(),
            CliError::Chat(c) => prefixed_message("Chat error: ", c.message(), Ghost(chat_error_text(*c))),
            CliError::Render(r) => prefixed_message("Render error: ", r.message(), Ghost(render_error_text(*r))),
        };
        proof {
            lemma_begins_with_self(res@);
        }
        res
    }
}

/// The model to use: the first model of the requested group, else the
/// requested model, else the first model of the configured group, else
/// the configured model.
pub fn choose_model(config: &Config, group: Option<&str>, model: Option<&str>) -> (res: Result<String, CliError>)
    ensures
        match group {
            Some(g) => match first_key_index(config.model_groups@, g@) {
                Some(i) if config.model_groups@[i].value@.len() > 0 => res matches Ok(m)
                    && m == config.model_groups@[i].value@[0],
                _ => res matches Err(CliError::UnknownModelGroup(n)) && n@ == g@,
            },
            None => match model {
                Some(m) => res matches Ok(r) && r@ == m@,
                None => match config.model_group {
                    Some(g) => match first_key_index(config.model_groups@, g@) {
                        Some(i) if config.model_groups@[i].value@.len() > 0 => res matches Ok(m)
                            && m == config.model_groups@[i].value@[0],
                        _ => res matches Err(CliError::UnknownModelGroup(n)) && n@
                            == g@,
                    },
                    None => match config.model {
                        Some(m) => res matches Ok(r) && r@ == m@,
                        None => res matches Err(CliError::NoModel),
                    },
                },
            },
        },
{
    if let Some(g) = group {
        return match config.get_model_from_group(g) {
            Some(m) => Ok(m),
            None => Err(CliError::UnknownModelGroup(g.to_owned())),
        };
    }
    if let Some(m) = model {
        return Ok(m.to_owned());
    }
    if let Some(g) = &config.model_group {
        return match config.get_model_from_group(g.as_str()) {
            Some(m) => Ok(m),
            None => Err(CliError::UnknownModelGroup(g.clone())),
        };
    }
    if let Some(m) = &config.model {
        return Ok(m.clone());
    }
    Err(CliError::NoModel)
}

/// What the interactive mode does after the renderer hands back a turn.
#[derive(Debug)]
pub enum TurnAction {
    /// Chat with these messages.
    Chat(Vec<String>),
    /// The user quit: shut the renderer down and stop.
    Quit,
    /// Rendering failed: shut the renderer down and fail with the error.
    Fail(RenderError),
}

/// The action for what the renderer handed back: the user's input is
/// chatted about, the `User quit` render failure quits, any other error
/// fails.
pub fn tui_turn(input: Result<String, RenderError>) -> (res: TurnAction)
    ensures
        match input {
            Ok(s) => res matches TurnAction::Chat(ms) && ms@.len() == 1 && ms@[0]@ == s@,
            Err(RenderError::RenderFailed(m)) => if m@ == "User quit"@ {
                res is Quit
            } else {
                res matches TurnAction::Fail(RenderError::RenderFailed(n)) && n@ == m@
            },
            Err(e) => res matches TurnAction::Fail(f) && !(f is RenderFailed) && f == e,
        },
{
    match input {
        Ok(s) => {
            let mut ms: Vec<String> = Vec::new();
            ms.push(s);
            TurnAction::Chat(ms)
        },
        Err(RenderError::RenderFailed(m)) => {
            let mc = crate::text::chars_of(m.as_str());
            let quit = crate::text::chars_of("User quit");
            if crate::text::same_chars(&mc, &quit) {
                TurnAction::Quit
            } else {
                TurnAction::Fail(RenderError::RenderFailed(m))
            }
        },
        Err(e) => TurnAction::Fail(e),
    }
}

/// The text shown in the chat when a turn fails with the error text `e`.
pub fn chat_failure_text(e: &str) -> (res: String)
    ensures
        res@ == "错误: "@ + e@,
{
    prefixed("错误: ", e)
}

} // verus!
