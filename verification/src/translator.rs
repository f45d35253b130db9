//! The translation exchange: the request that is sent for one file, and the
//! reading of what came back.

use vstd::prelude::*;
use vstd::string::*;

verus! {

#[verifier::external_type_specification]
#[verifier::external_body]
pub struct ExTokenizerError(anyhow::Error);

/// What `tiktoken_rs::get_completion_max_tokens` returns for a model and a
/// prompt: the number of tokens left for the completion, or `None` where it
/// reports an error.
pub uninterp spec fn completion_max_tokens(model: Seq<char>, prompt: Seq<char>) -> Option<usize>;

/// The context size of the model that requests are addressed to, in tokens.
pub const CONTEXT_SIZE: usize = 4097;

/// The longest prompt, in characters, that is handed to the tokenizer: the
/// context size times 128, the length in bytes of the longest entry of the
/// model's token table. A longer prompt has more tokens than the context
/// holds, so nothing is left for its completion.
pub const MAX_PROMPT_CHARS: usize = 524_416;

/// Calls `tiktoken_rs::get_completion_max_tokens`. Trusted: its result is
/// the one that `completion_max_tokens` names for these two texts, an error
/// standing for `None`; and for the model that requests are addressed to it
/// is never an error and never above the model's context size, since the
/// tokenizer of that model is built from tables that the crate ships, and
/// the result is the context size less the prompt's tokens, or zero.
///
/// The encoder behind the call splits the prompt with a backtracking
/// pattern and unwraps each match. A match fails once the matcher's stack
/// holds a million branches, and every repetition in the pattern puts one
/// there for each character of a run, be it of blanks, letters, digits or
/// anything else. So only prompts well short of a million characters are
/// admitted.
#[verifier::external_body]
fn count_completion_tokens(model: &str, prompt: &str) -> (r: Result<usize, anyhow::Error>)
    requires
        prompt@.len() <= MAX_PROMPT_CHARS,
    ensures
        match r {
            Ok(n) => completion_max_tokens(model@, prompt@) == Some(n) && (model@ == model_name()
                ==> n <= CONTEXT_SIZE),
            Err(_) => completion_max_tokens(model@, prompt@) is None && model@ != model_name(),
        },
{
    tiktoken_rs::get_completion_max_tokens(model, prompt)
}

/// The model that requests are addressed to.
pub open spec fn model_name() -> Seq<char> {
    "text-davinci-003"@
}

/// The prompt that carries `content` to the model.
pub open spec fn prompt_for(content: Seq<char>) -> Seq<char> {
    "#Java to PHP:\nJava:\n"@ + content + "\n\nPHP:"@
}

/// One completion request, ready to be serialised and sent.
#[derive(Debug)]
pub struct CompletionRequest {
    pub model: String,
    pub prompt: String,
    pub max_tokens: usize,
}

/// Why a translation failed.
#[derive(Debug)]
pub enum TranslationError {
    /// The prompt could not be sized for the model.
    Tokenizer(String),
    /// The exchange itself failed: nothing usable came back.
    Network(String),
    /// The service answered with a status outside the success range.
    Status(u16),
    /// The service answered with an error of its own.
    Remote(String),
    /// The service answered without a single candidate.
    NoResult,
}

/// The body of an answer.
#[derive(Debug)]
pub enum Reply {
    /// Candidate translations, the preferred one first.
    Choices(Vec<String>),
    /// An error reported by the service.
    Error(String),
}

/// What one exchange with the service came to.
#[derive(Debug)]
pub enum Exchange {
    /// No answer could be had or decoded.
    Failed(String),
    /// An answer with its status code.
    Answered { status: u16, reply: Reply },
    /// An answer whose body could not be decoded, with its status code and
    /// what the decoder said.
    Undecoded { status: u16, message: String },
}

/// Whether `status` is in the success range.
pub open spec fn is_success(status: u16) -> bool {
    200 <= status < 300
}

/// The prompt for `content`.
pub fn build_prompt(content: &str) -> (r: String)
    ensures
        r@ == prompt_for(content@),
{
    let mut prompt = String::from_str("#Java to PHP:\nJava:\n");
    prompt.append(content);
    prompt.append("\n\nPHP:");
    prompt
}

/// The request for `prompt`, given what sizing the prompt came to.
pub fn request_with_budget(prompt: String, budget: Result<usize, String>) -> (r: Result<
    CompletionRequest,
    TranslationError,
>)
    ensures
        match budget {
            Ok(n) => r matches Ok(q) && q.model@ == model_name() && q.prompt@ == prompt@
                && q.max_tokens == n,
            Err(m) => r matches Err(TranslationError::Tokenizer(t)) && t@ == m@,
        },
{
    match budget {
        Ok(n) => Ok(
            CompletionRequest {
                model: String::from_str("text-davinci-003"),
                prompt,
                max_tokens: n,
            },
        ),
        Err(m) => Err(TranslationError::Tokenizer(m)),
    }
}

/// Whether `q` is the request that asks for the translation of `content`:
/// the prompt built around it, for the model, with as many completion
/// tokens as the model has left after the prompt. For a prompt of more than
/// `MAX_PROMPT_CHARS` characters that is none.
pub open spec fn asks_for(content: Seq<char>, q: CompletionRequest) -> bool {
    &&& q.model@ == model_name()
    &&& q.prompt@ == prompt_for(content)
    &&& q.max_tokens <= CONTEXT_SIZE
    &&& if prompt_for(content).len() <= MAX_PROMPT_CHARS {
        completion_max_tokens(model_name(), prompt_for(content)) == Some(q.max_tokens)
    } else {
        q.max_tokens == 0
    }
}

/// The request that asks for the translation of `content`. There is one for
/// every content. The tokenizer is asked only where the prompt has at most
/// `MAX_PROMPT_CHARS` characters; a longer one fills the context by its
/// length alone.
pub fn prepare_request(content: &str) -> (r: Result<CompletionRequest, TranslationError>)
    ensures
        r matches Ok(q) && asks_for(content@, q),
{
    let prompt = build_prompt(content);
    if prompt.as_str().unicode_len() > MAX_PROMPT_CHARS {
        return request_with_budget(prompt, Ok(0));
    }
    let budget = match count_completion_tokens("text-davinci-003", prompt.as_str()) {
        Ok(n) => Ok(n),
        Err(e) => Err(e.to_string()),
    };
    request_with_budget(prompt, budget)
}

/// The translation that an exchange carries: the first candidate of an
/// answer with a success status, where it has one.
pub open spec fn translation_of(exchange: Exchange) -> Option<Seq<char>> {
    match exchange {
        Exchange::Answered { status, reply: Reply::Choices(c) } => if is_success(status) && c@.len()
            > 0 {
            Some(c@[0]@)
        } else {
            None
        },
        _ => None,
    }
}

/// Whether `r` is the reading of `exchange`: its translation, or the error
/// that says why it carries none.
pub open spec fn reads_as(exchange: Exchange, r: Result<String, TranslationError>) -> bool {
    match exchange {
        Exchange::Failed(m) => r matches Err(TranslationError::Network(t)) && t@ == m@,
        Exchange::Answered { status, reply: Reply::Error(m) } => r matches Err(
            TranslationError::Remote(t),
        ) && t@ == m@,
        Exchange::Answered { status, reply: Reply::Choices(c) } => if !is_success(status) {
            r matches Err(TranslationError::Status(s)) && s == status
        } else if c@.len() == 0 {
            r matches Err(TranslationError::NoResult)
        } else {
            r matches Ok(t) && t@ == c@[0]@
        },
        Exchange::Undecoded { status, message } => if !is_success(status) {
            r matches Err(TranslationError::Status(s)) && s == status
        } else {
            r matches Err(TranslationError::Network(t)) && t@ == message@
        },
    }
}

/// Reads an exchange: the first candidate is the translation. A failed
/// exchange, an error reported by the service, a status outside the success
/// range and an answer without candidates each give their own error. A body
/// that could not be decoded counts as a failed exchange where the status
/// is a success, and as its status where it is not.
pub fn read_exchange(exchange: Exchange) -> (r: Result<String, TranslationError>)
    ensures
        reads_as(exchange, r),
        r is Ok <==> translation_of(exchange) is Some,
{
    match exchange {
        Exchange::Failed(m) => Err(TranslationError::Network(m)),
        Exchange::Answered { status, reply } => match reply {
            Reply::Error(m) => Err(TranslationError::Remote(m)),
            Reply::Choices(choices) => {
                if status < 200 || status >= 300 {
                    Err(TranslationError::Status(status))
                } else if choices.len() == 0 {
                    Err(TranslationError::NoResult)
                } else {
                    Ok(choices[0].clone())
                }
            },
        },
        Exchange::Undecoded { status, message } => {
            if status < 200 || status >= 300 {
                Err(TranslationError::Status(status))
            } else {
                Err(TranslationError::Network(message))
            }
        },
    }
}

impl TranslationError {
    /// The text shown for this error.
    pub open spec fn message_text(&self) -> Seq<char> {
        match self {
            TranslationError::Tokenizer(m) => m@,
            TranslationError::Network(m) => m@,
            TranslationError::Status(_) => "Unsuccessful response status"@,
            TranslationError::Remote(m) => m@,
            TranslationError::NoResult => "No choice received"@,
        }
    }

    /// The text shown for this error.
    pub fn message(&self) -> (r: String)
        ensures
            r@ == self.message_text(),
    {
        match self {
            TranslationError::Tokenizer(m) => m.clone(),
            TranslationError::Network(m) => m.clone(),
            TranslationError::Status(_) => String::from_str("Unsuccessful response status"),
            TranslationError::Remote(m) => m.clone(),
            TranslationError::NoResult => String::from_str("No choice received"),
        }
    }
}

} // verus!
