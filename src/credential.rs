//! The Credential Provider's decisions: where the credential comes from, what
//! the persisted record looks like, and the steps of the interactive prompt.

use vstd::prelude::*;
use crate::json::{json_quoted, json_text_at, opt_view, quote_json, text_at};
use crate::text::{trim_of, trim_text};

verus! {

/// The environment variable consulted first for the credential.
pub const KEY_ENV_VAR: &'static str = "ANTHROPIC_API_KEY";

/// The name of the persisted record, in the operator's home directory.
pub const CONFIG_FILE_NAME: &'static str = ".gy_config.json";

/// Where the credential of a run comes from.
pub enum CredentialSource {
    /// A non-empty value of the environment variable.
    Environment(String),
    /// A non-empty value of the persisted record.
    Config(String),
    /// Neither: the operator is asked.
    Prompt,
}

/// The mathematical content of a `CredentialSource`.
pub enum SourceView {
    Environment(Seq<char>),
    Config(Seq<char>),
    Prompt,
}

impl CredentialSource {
    pub open spec fn view(&self) -> SourceView {
        match self {
            CredentialSource::Environment(k) => SourceView::Environment(k@),
            CredentialSource::Config(k) => SourceView::Config(k@),
            CredentialSource::Prompt => SourceView::Prompt,
        }
    }
}

/// First match wins: a non-empty environment value, then a non-empty stored
/// value, then the prompt.
pub open spec fn credential_choice(env: Option<Seq<char>>, stored: Option<Seq<char>>) -> SourceView {
    if env is Some && env->0.len() > 0 {
        SourceView::Environment(env->0)
    } else if stored is Some && stored->0.len() > 0 {
        SourceView::Config(stored->0)
    } else {
        SourceView::Prompt
    }
}

/// Decides where the credential comes from, given the environment variable's
/// value and the persisted record's value, when present.
pub fn resolve_credential(env: Option<String>, stored: Option<String>) -> (r: CredentialSource)
    ensures
        r.view() == credential_choice(opt_view(env), opt_view(stored)),
{
    match env {
        Some(k) if k.as_str().unicode_len() > 0 => CredentialSource::Environment(k),
        _ => match stored {
            Some(k) if k.as_str().unicode_len() > 0 => CredentialSource::Config(k),
            _ => CredentialSource::Prompt,
        },
    }
}

/// An environment value that is present and non-empty is used, whatever the
/// persisted record holds; otherwise a non-empty persisted value is used; the
/// operator is asked only when neither is there.
pub proof fn credential_order(env: Option<Seq<char>>, stored: Option<Seq<char>>)
    ensures
        env is Some && env->0.len() > 0 ==> credential_choice(env, stored) == SourceView::Environment(env->0),
        !(env is Some && env->0.len() > 0) && stored is Some && stored->0.len() > 0
            ==> credential_choice(env, stored) == SourceView::Config(stored->0),
        credential_choice(env, stored) == SourceView::Prompt
            <==> !(env is Some && env->0.len() > 0) && !(stored is Some && stored->0.len() > 0),
{
}

/// Where the persisted record keeps the credential.
pub open spec fn key_pointer() -> Seq<char> {
    "/anthropic_api_key"@
}

/// The credential held by the text of a persisted record, if it holds one.
pub fn stored_credential(record: &str) -> (r: Option<String>)
    ensures
        opt_view(r) == json_text_at(record@, key_pointer()),
{
    text_at(record, "/anthropic_api_key")
}

/// The text of a persisted record holding `key`.
pub open spec fn record_text(key: Seq<char>) -> Seq<char> {
    "{\n  \"anthropic_api_key\": "@ + json_quoted(key) + "\n}"@
}

/// The text of the persisted record that holds `key`.
pub fn config_record(key: &str) -> (r: String)
    ensures
        r@ == record_text(key@),
{
    String::from_str("{\n  \"anthropic_api_key\": ").concat(quote_json(key).as_str()).concat("\n}")
}

/// What the interactive prompt does next.
pub enum KeyStep {
    /// Report the notice and ask again.
    Reprompt(String),
    /// Check this credential with the model service.
    Check(String),
    /// The credential was accepted: persist it and use it.
    Accept(String),
}

/// The mathematical content of a `KeyStep`.
pub enum KeyStepView {
    Reprompt(Seq<char>),
    Check(Seq<char>),
    Accept(Seq<char>),
}

impl KeyStep {
    pub open spec fn view(&self) -> KeyStepView {
        match self {
            KeyStep::Reprompt(n) => KeyStepView::Reprompt(n@),
            KeyStep::Check(k) => KeyStepView::Check(k@),
            KeyStep::Accept(k) => KeyStepView::Accept(k@),
        }
    }
}

/// The step after the operator typed `line`: a blank line is refused, anything
/// else is checked once trimmed.
pub open spec fn after_entry(line: Seq<char>) -> KeyStepView {
    if trim_of(line).len() == 0 {
        KeyStepView::Reprompt("API key cannot be empty. Please try again."@)
    } else {
        KeyStepView::Check(trim_of(line))
    }
}

/// Decides what follows a line typed at the credential prompt.
pub fn on_key_entered(line: &str) -> (r: KeyStep)
    ensures
        r.view() == after_entry(line@),
{
    let key = trim_text(line);
    if key.as_str().unicode_len() == 0 {
        KeyStep::Reprompt(String::from_str("API key cannot be empty. Please try again."))
    } else {
        KeyStep::Check(key)
    }
}

/// The step after a credential check: accepted credentials are kept, refused
/// ones are reported and the operator is asked again.
pub open spec fn after_check(key: Seq<char>, verdict: Result<(), Seq<char>>) -> KeyStepView {
    match verdict {
        Ok(()) => KeyStepView::Accept(key),
        Err(m) => KeyStepView::Reprompt("Error: "@ + m),
    }
}

/// Decides what follows the check of `key`, given the check's verdict.
pub fn on_key_checked(key: String, verdict: Result<(), String>) -> (r: KeyStep)
    ensures
        r.view() == after_check(key@, match verdict {
            Ok(()) => Ok::<(), Seq<char>>(()),
            Err(m) => Err(m@),
        }),
{
    match verdict {
        Ok(()) => KeyStep::Accept(key),
        Err(m) => KeyStep::Reprompt(String::from_str("Error: ").concat(m.as_str())),
    }
}

} // verus!
