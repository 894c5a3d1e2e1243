//! The Message Generator's data: the request sent to the model service and the
//! interpretation of its reply.

use vstd::prelude::*;
use crate::json::{json_quoted, json_text_at, json_array_len_at, quote_json, text_at, array_len_at};
use crate::text::{trim_of, trim_text};

verus! {

/// The output budget of a commit-message request.
pub const MESSAGE_MAX_TOKENS: u32 = 256;

/// The output budget of a credential check.
pub const KEY_CHECK_MAX_TOKENS: u32 = 10;

/// The fixed instruction of a commit-message request: conventional-commit
/// style, lower case, the most significant change decides the type, and
/// nothing but the message in the output.
pub const SYSTEM_PROMPT: &'static str = "You are a git commit message generator. Given a git diff, produce a single conventional commit message (type: description). Use lowercase. Be concise. Output ONLY the commit message, nothing else. If the diff includes multiple logical changes, use the most significant one for the type. Types: feat, fix, refactor, docs, style, test, chore, perf, ci, build.";

/// The trivial instruction of a credential check.
pub const KEY_CHECK_PROMPT: &'static str = "Reply with ok";

/// The single user turn of a credential check.
pub const KEY_CHECK_INPUT: &'static str = "test";

/// The character of a decimal digit.
pub open spec fn digit_char(d: nat) -> char {
    if d == 0 { '0' }
    else if d == 1 { '1' }
    else if d == 2 { '2' }
    else if d == 3 { '3' }
    else if d == 4 { '4' }
    else if d == 5 { '5' }
    else if d == 6 { '6' }
    else if d == 7 { '7' }
    else if d == 8 { '8' }
    else { '9' }
}

/// The decimal notation of a natural number, without leading zeros.
pub open spec fn decimal(n: nat) -> Seq<char>
    decreases n,
{
    if n < 10 {
        seq![digit_char(n)]
    } else {
        decimal(n / 10) + seq![digit_char(n % 10)]
    }
}

fn digit_text(d: u32) -> (r: &'static str)
    requires
        d < 10,
    ensures
        r@ == seq![digit_char(d as nat)],
{
    if d == 0 { proof { reveal_strlit("0"); } assert("0"@ =~= seq!['0']); "0" }
    else if d == 1 { proof { reveal_strlit("1"); } assert("1"@ =~= seq!['1']); "1" }
    else if d == 2 { proof { reveal_strlit("2"); } assert("2"@ =~= seq!['2']); "2" }
    else if d == 3 { proof { reveal_strlit("3"); } assert("3"@ =~= seq!['3']); "3" }
    else if d == 4 { proof { reveal_strlit("4"); } assert("4"@ =~= seq!['4']); "4" }
    else if d == 5 { proof { reveal_strlit("5"); } assert("5"@ =~= seq!['5']); "5" }
    else if d == 6 { proof { reveal_strlit("6"); } assert("6"@ =~= seq!['6']); "6" }
    else if d == 7 { proof { reveal_strlit("7"); } assert("7"@ =~= seq!['7']); "7" }
    else if d == 8 { proof { reveal_strlit("8"); } assert("8"@ =~= seq!['8']); "8" }
    else { proof { reveal_strlit("9"); } assert("9"@ =~= seq!['9']); "9" }
}

/// The decimal notation of `n`.
pub fn decimal_text(n: u32) -> (r: String)
    ensures
        r@ == decimal(n as nat),
{
    let mut rest: u32 = n / 10;
    let mut out = String::from_str(digit_text(n % 10));
    while rest > 0
        invariant
            rest > 0 ==> decimal(n as nat) == decimal(rest as nat) + out@,
            rest == 0 ==> decimal(n as nat) == out@,
        decreases rest,
    {
        let d = rest % 10;
        let prev = out;
        out = String::from_str(digit_text(d)).concat(prev.as_str());
        proof {
            assert(decimal(rest as nat) == decimal((rest / 10) as nat) + seq![digit_char(d as nat)]
                || (rest < 10 && decimal(rest as nat) == seq![digit_char(d as nat)]));
            if rest >= 10 {
                assert(decimal(n as nat) =~= decimal((rest / 10) as nat) + out@);
            } else {
                assert(decimal(n as nat) =~= out@);
            }
        }
        rest = rest / 10;
    }
    out
}

/// A request to the model service: one system instruction and one user turn.
pub struct GenerationRequest {
    pub model: String,
    pub max_tokens: u32,
    pub system: String,
    pub user: String,
}

/// The JSON body of a request, fields in the order model, max_tokens,
/// messages, system.
pub open spec fn request_body(model: Seq<char>, max_tokens: nat, system: Seq<char>, user: Seq<char>) -> Seq<char> {
    "{\"model\":"@ + json_quoted(model) + ",\"max_tokens\":"@ + decimal(max_tokens)
        + ",\"messages\":[{\"role\":\"user\",\"content\":"@ + json_quoted(user)
        + "}],\"system\":"@ + json_quoted(system) + "}"@
}

impl GenerationRequest {
    /// The request for a commit message describing `diff`.
    pub fn commit_message(model: &str, diff: &str) -> (r: GenerationRequest)
        ensures
            r.model@ == model@,
            r.max_tokens == MESSAGE_MAX_TOKENS,
            r.system@ == SYSTEM_PROMPT@,
            r.user@ == diff@,
    {
        GenerationRequest {
            model: String::from_str(model),
            max_tokens: MESSAGE_MAX_TOKENS,
            system: String::from_str(SYSTEM_PROMPT),
            user: String::from_str(diff),
        }
    }

    /// The minimal request that checks whether a credential is accepted by `model`.
    pub fn key_check(model: &str) -> (r: GenerationRequest)
        ensures
            r.model@ == model@,
            r.max_tokens == KEY_CHECK_MAX_TOKENS,
            r.system@ == KEY_CHECK_PROMPT@,
            r.user@ == KEY_CHECK_INPUT@,
    {
        GenerationRequest {
            model: String::from_str(model),
            max_tokens: KEY_CHECK_MAX_TOKENS,
            system: String::from_str(KEY_CHECK_PROMPT),
            user: String::from_str(KEY_CHECK_INPUT),
        }
    }

    /// The JSON text sent as the request's body.
    pub fn body(&self) -> (r: String)
        ensures
            r@ == request_body(self.model@, self.max_tokens as nat, self.system@, self.user@),
    {
        let out = String::from_str("{\"model\":");
        let out = out.concat(quote_json(self.model.as_str()).as_str());
        let out = out.concat(",\"max_tokens\":");
        let out = out.concat(decimal_text(self.max_tokens).as_str());
        let out = out.concat(",\"messages\":[{\"role\":\"user\",\"content\":");
        let out = out.concat(quote_json(self.user.as_str()).as_str());
        let out = out.concat("}],\"system\":");
        let out = out.concat(quote_json(self.system.as_str()).as_str());
        out.concat("}")
    }
}

/// Why a request to the model service gave no message.
pub enum ReplyError {
    /// The request could not be sent or its reply not received.
    Transport(String),
    /// The service refused the request and explained why.
    Api(String),
    /// The service refused the request with a body that explains nothing.
    Status { status: String, body: String },
    /// A successful reply whose body has not the expected shape.
    Unparseable,
    /// A successful reply with no content.
    Empty,
}

/// The mathematical content of a reply's interpretation.
pub enum ReplyView {
    Message(Seq<char>),
    Transport(Seq<char>),
    Api(Seq<char>),
    Status(Seq<char>, Seq<char>),
    Unparseable,
    Empty,
}

impl ReplyError {
    pub open spec fn view(&self) -> ReplyView {
        match self {
            ReplyError::Transport(d) => ReplyView::Transport(d@),
            ReplyError::Api(m) => ReplyView::Api(m@),
            ReplyError::Status { status, body } => ReplyView::Status(status@, body@),
            ReplyError::Unparseable => ReplyView::Unparseable,
            ReplyError::Empty => ReplyView::Empty,
        }
    }

    /// The text reported to the operator.
    pub fn describe(&self) -> (r: String)
        ensures
            r@ == describe_reply_error(self.view()),
    {
        match self {
            ReplyError::Transport(d) => String::from_str("API request failed: ").concat(d.as_str()),
            ReplyError::Api(m) => String::from_str("API error: ").concat(m.as_str()),
            ReplyError::Status { status, body } => {
                let out = String::from_str("API error (").concat(status.as_str());
                out.concat("): ").concat(body.as_str())
            },
            ReplyError::Unparseable => String::from_str("Failed to parse response"),
            ReplyError::Empty => String::from_str("Empty response from API"),
        }
    }
}

/// The operator-facing description of a failed request.
pub open spec fn describe_reply_error(e: ReplyView) -> Seq<char> {
    match e {
        ReplyView::Transport(d) => "API request failed: "@ + d,
        ReplyView::Api(m) => "API error: "@ + m,
        ReplyView::Status(status, body) => "API error ("@ + status + "): "@ + body,
        ReplyView::Unparseable => "Failed to parse response"@,
        ReplyView::Empty => "Empty response from API"@,
        ReplyView::Message(m) => m,
    }
}

/// The view of an interpreted reply.
pub open spec fn reply_view(r: Result<String, ReplyError>) -> ReplyView {
    match r {
        Ok(m) => ReplyView::Message(m@),
        Err(e) => e.view(),
    }
}

/// A 2xx status.
pub open spec fn is_success(status: u16) -> bool {
    200 <= status <= 299
}

/// Where the service puts the explanation of a refusal.
pub open spec fn error_pointer() -> Seq<char> {
    "/error/message"@
}

/// What a reply says: on a refusal, the embedded explanation, else the status
/// and raw body; on success, the first content element's text, trimmed, or
/// the reason there is none.
pub open spec fn interpret(status: u16, status_text: Seq<char>, body: Seq<char>) -> ReplyView {
    if !is_success(status) {
        match json_text_at(body, error_pointer()) {
            Some(m) => ReplyView::Api(m),
            None => ReplyView::Status(status_text, body),
        }
    } else {
        match json_array_len_at(body, "/content"@) {
            None => ReplyView::Unparseable,
            Some(n) => if n == 0 {
                ReplyView::Empty
            } else {
                match json_text_at(body, "/content/0/text"@) {
                    Some(t) => ReplyView::Message(trim_of(t)),
                    None => ReplyView::Unparseable,
                }
            },
        }
    }
}

/// Interprets a reply of the model service to a commit-message request, given
/// its status code, the status as displayed, and its body.
pub fn interpret_reply(status: u16, status_text: &str, body: &str) -> (r: Result<String, ReplyError>)
    ensures
        reply_view(r) == interpret(status, status_text@, body@),
{
    if !(200 <= status && status <= 299) {
        match text_at(body, "/error/message") {
            Some(m) => Err(ReplyError::Api(m)),
            None => Err(ReplyError::Status {
                status: String::from_str(status_text),
                body: String::from_str(body),
            }),
        }
    } else {
        match array_len_at(body, "/content") {
            None => Err(ReplyError::Unparseable),
            Some(n) => if n == 0 {
                Err(ReplyError::Empty)
            } else {
                match text_at(body, "/content/0/text") {
                    Some(t) => Ok(trim_text(t.as_str())),
                    None => Err(ReplyError::Unparseable),
                }
            },
        }
    }
}

/// What a credential check's reply says: accepted on success; otherwise the
/// embedded explanation, or the status alone.
pub open spec fn key_check_verdict(status: u16, status_text: Seq<char>, body: Seq<char>) -> Result<(), Seq<char>> {
    if is_success(status) {
        Ok(())
    } else {
        match json_text_at(body, error_pointer()) {
            Some(m) => Err(m),
            None => Err("API error ("@ + status_text + ")"@),
        }
    }
}

/// Interprets the reply to a credential check.
pub fn interpret_key_check(status: u16, status_text: &str, body: &str) -> (r: Result<(), String>)
    ensures
        match r {
            Ok(()) => key_check_verdict(status, status_text@, body@) == Ok::<(), Seq<char>>(()),
            Err(m) => key_check_verdict(status, status_text@, body@) == Err::<(), Seq<char>>(m@),
        },
{
    if 200 <= status && status <= 299 {
        Ok(())
    } else {
        match text_at(body, "/error/message") {
            Some(m) => Err(m),
            None => Err(String::from_str("API error (").concat(status_text).concat(")")),
        }
    }
}

} // verus!
