//! Rewriting functions: the built-in prompts, the custom ones beside them,
//! and what running one takes.

use crate::llm::{LlmConfig, LlmProviderType};
use crate::text::{glue, lowercase_of, str_eq, text_of, to_lowercase};
use vstd::prelude::*;
use vstd::string::*;

verus! {

/// A rewriting function as the interface shows it.
#[derive(Debug, Clone, PartialEq, Eq)]
pub struct AiFunction {
    pub id: String,
    pub name: String,
    pub prompt: String,
    pub provider: String,
    pub model: Option<String>,
    pub is_builtin: bool,
}

/// A rewriting function as it is kept.
#[derive(Debug, Clone, PartialEq, Eq)]
pub struct AiFunctionRow {
    pub id: String,
    pub name: String,
    pub prompt: String,
    pub provider: String,
    pub model: Option<String>,
    pub is_builtin: bool,
}

/// A rewriting function, with its texts as sequences of characters.
pub struct AiFunctionView {
    pub id: Seq<char>,
    pub name: Seq<char>,
    pub prompt: Seq<char>,
    pub provider: Seq<char>,
    pub model: Option<Seq<char>>,
    pub is_builtin: bool,
}

impl View for AiFunction {
    type V = AiFunctionView;

    open spec fn view(&self) -> AiFunctionView {
        AiFunctionView {
            id: self.id@,
            name: self.name@,
            prompt: self.prompt@,
            provider: self.provider@,
            model: text_of(self.model),
            is_builtin: self.is_builtin,
        }
    }
}

impl View for AiFunctionRow {
    type V = AiFunctionView;

    open spec fn view(&self) -> AiFunctionView {
        AiFunctionView {
            id: self.id@,
            name: self.name@,
            prompt: self.prompt@,
            provider: self.provider@,
            model: text_of(self.model),
            is_builtin: self.is_builtin,
        }
    }
}

/// What a list of functions says.
pub open spec fn function_views(list: Seq<AiFunction>) -> Seq<AiFunctionView> {
    Seq::new(list.len(), |i: int| list[i]@)
}

/// What a list of kept functions says.
pub open spec fn row_views(list: Seq<AiFunctionRow>) -> Seq<AiFunctionView> {
    Seq::new(list.len(), |i: int| list[i]@)
}

/// A built-in function: it runs on the default service with that
/// service's model.
pub open spec fn builtin_view(id: Seq<char>, name: Seq<char>, prompt: Seq<char>) -> AiFunctionView {
    AiFunctionView { id, name, prompt, provider: "default"@, model: None, is_builtin: true }
}

/// The five built-in functions.
pub open spec fn builtin_function_views() -> Seq<AiFunctionView> {
    seq![
        builtin_view(
            "email"@,
            "Professional Email"@,
            "Rewrite the following as a professional email. Include a greeting and sign-off. Keep it concise."@,
        ),
        builtin_view(
            "code-prompt"@,
            "Code Prompt"@,
            "Convert the following spoken description into a clear, well-structured code prompt or specification."@,
        ),
        builtin_view(
            "summarize"@,
            "Summarize"@,
            "Summarize the following text concisely, capturing the key points."@,
        ),
        builtin_view(
            "casual"@,
            "Casual Rewrite"@,
            "Rewrite the following text in a casual, friendly tone."@,
        ),
        builtin_view(
            "translate"@,
            "Translate to English"@,
            "Translate the following text to English. If it is already in English, improve clarity."@,
        ),
    ]
}

/// A function with the mark of a custom one.
pub open spec fn as_custom(function: AiFunctionView) -> AiFunctionView {
    AiFunctionView { is_builtin: false, ..function }
}

/// The built-in functions followed by the custom ones, each custom one
/// marked as such.
pub open spec fn listed_functions(custom: Seq<AiFunctionView>) -> Seq<AiFunctionView> {
    builtin_function_views() + Seq::new(custom.len(), |i: int| as_custom(custom[i]))
}

/// The service that a name in lower case stands for: the three that are
/// named, and the first service for any other name.
pub open spec fn provider_for(lower: Seq<char>) -> LlmProviderType {
    if lower == "anthropic"@ {
        LlmProviderType::Anthropic
    } else if lower == "groq"@ {
        LlmProviderType::Groq
    } else if lower == "ollama"@ {
        LlmProviderType::Ollama
    } else {
        LlmProviderType::OpenAI
    }
}

/// The place of the first function whose identifier is `id`.
pub open spec fn function_position(list: Seq<AiFunctionView>, id: Seq<char>) -> Option<int>
    decreases list.len(),
{
    if list.len() == 0 {
        None
    } else if list.first().id == id {
        Some(0)
    } else {
        match function_position(list.drop_first(), id) {
            Some(i) => Some(i + 1),
            None => None,
        }
    }
}

fn builtin_function(id: &str, name: &str, prompt: &str) -> (function: AiFunction)
    ensures
        function@ == builtin_view(id@, name@, prompt@),
{
    AiFunction {
        id: String::from_str(id),
        name: String::from_str(name),
        prompt: String::from_str(prompt),
        provider: String::from_str("default"),
        model: None,
        is_builtin: true,
    }
}

/// The built-in functions.
pub fn builtin_functions() -> (list: Vec<AiFunction>)
    ensures
        function_views(list@) == builtin_function_views(),
{
    let mut list: Vec<AiFunction> = Vec::new();
    list.push(
        builtin_function(
            "email",
            "Professional Email",
            "Rewrite the following as a professional email. Include a greeting and sign-off. Keep it concise.",
        ),
    );
    list.push(
        builtin_function(
            "code-prompt",
            "Code Prompt",
            "Convert the following spoken description into a clear, well-structured code prompt or specification.",
        ),
    );
    list.push(
        builtin_function(
            "summarize",
            "Summarize",
            "Summarize the following text concisely, capturing the key points.",
        ),
    );
    list.push(
        builtin_function(
            "casual",
            "Casual Rewrite",
            "Rewrite the following text in a casual, friendly tone.",
        ),
    );
    list.push(
        builtin_function(
            "translate",
            "Translate to English",
            "Translate the following text to English. If it is already in English, improve clarity.",
        ),
    );
    assert(function_views(list@) =~= builtin_function_views());
    list
}

/// All functions on offer: the built-in ones, then the custom ones that
/// are kept.
pub fn list_ai_functions(custom: Vec<AiFunctionRow>) -> (list: Vec<AiFunction>)
    ensures
        function_views(list@) == listed_functions(row_views(custom@)),
{
    let mut list = builtin_functions();
    let mut custom = custom;
    let ghost kept = custom@;
    let total = custom.len();
    let mut i: usize = 0;
    while i < total
        invariant
            i <= total,
            total == kept.len(),
            custom@ == kept.subrange(i as int, total as int),
            function_views(list@) == builtin_function_views() + Seq::new(
                i as nat,
                |k: int| as_custom(kept[k]@),
            ),
        decreases total - i,
    {
        let ghost before = function_views(list@);
        let row = custom.remove(0);
        assert(row == kept[i as int]);
        assert(custom@ =~= kept.subrange(i + 1, total as int));
        list.push(
            AiFunction {
                id: row.id,
                name: row.name,
                prompt: row.prompt,
                provider: row.provider,
                model: row.model,
                is_builtin: false,
            },
        );
        assert(function_views(list@) =~= before.push(as_custom(kept[i as int]@)));
        assert(before.push(as_custom(kept[i as int]@)) =~= builtin_function_views() + Seq::new(
            (i + 1) as nat,
            |k: int| as_custom(kept[k]@),
        ));
        i += 1;
    }
    assert(Seq::new(total as nat, |k: int| as_custom(kept[k]@)) =~= Seq::new(
        row_views(kept).len(),
        |k: int| as_custom(row_views(kept)[k]),
    ));
    list
}

/// The form in which a function is kept: as a custom one.
pub fn to_row(function: AiFunction) -> (row: AiFunctionRow)
    ensures
        row@ == as_custom(function@),
{
    AiFunctionRow {
        id: function.id,
        name: function.name,
        prompt: function.prompt,
        provider: function.provider,
        model: function.model,
        is_builtin: false,
    }
}

/// Looks a function up by its identifier.
pub fn find_function(list: &Vec<AiFunction>, function_id: &str) -> (found: Option<usize>)
    ensures
        match found {
            Some(i) => i < list.len() && function_position(function_views(list@), function_id@)
                == Some(i as int),
            None => function_position(function_views(list@), function_id@) is None,
        },
{
    let key = String::from_str(function_id);
    let mut i: usize = 0;
    let ghost all = function_views(list@);
    assert(all.subrange(0, all.len() as int) =~= all);
    while i < list.len()
        invariant
            i <= list.len(),
            key@ == function_id@,
            all == function_views(list@),
            function_position(all, function_id@) == match function_position(
                all.subrange(i as int, all.len() as int),
                function_id@,
            ) {
                Some(k) => Some(k + i),
                None => None,
            },
        decreases list.len() - i,
    {
        let ghost rest = all.subrange(i as int, all.len() as int);
        assert(rest.first() == list@[i as int]@);
        assert(rest.drop_first() =~= all.subrange(i + 1, all.len() as int));
        if list[i].id == key {
            return Some(i);
        }
        i += 1;
    }
    None
}

/// The service that a name, already in lower case, stands for.
pub fn provider_from_lowercase(lower: &str) -> (provider: LlmProviderType)
    ensures
        provider == provider_for(lower@),
{
    if str_eq(lower, "anthropic") {
        LlmProviderType::Anthropic
    } else if str_eq(lower, "groq") {
        LlmProviderType::Groq
    } else if str_eq(lower, "ollama") {
        LlmProviderType::Ollama
    } else {
        LlmProviderType::OpenAI
    }
}

/// The service that a name stands for, whatever its case.
pub fn parse_provider_type(s: &str) -> (provider: LlmProviderType)
    ensures
        provider == provider_for(lowercase_of(s@)),
{
    let lower = to_lowercase(s);
    provider_from_lowercase(lower.as_str())
}

/// The configuration for running a function on the named service. An
/// empty key counts as no key.
pub fn call_config(provider: &str, api_key: String, model: String) -> (config: LlmConfig)
    ensures
        config.provider == provider_for(lowercase_of(provider@)),
        text_of(config.api_key) == if api_key@.len() == 0 {
            None::<Seq<char>>
        } else {
            Some(api_key@)
        },
        config.model@ == model@,
        config.base_url is None,
{
    let key = if api_key.as_str().unicode_len() == 0 {
        None
    } else {
        Some(api_key)
    };
    LlmConfig { provider: parse_provider_type(provider), api_key: key, model, base_url: None }
}

/// Judges what a function's run gave: a failure is reported as the
/// function's, and so is an empty text.
pub fn check_function_output(outcome: Result<String, String>) -> (checked: Result<String, String>)
    ensures
        match outcome {
            Ok(text) => if text@.len() == 0 {
                checked matches Err(message) && message@
                    == "AI function returned empty response"@
            } else {
                checked matches Ok(kept) && kept@ == text@
            },
            Err(reason) => checked matches Err(message) && message@ == "AI function failed: "@
                + reason@,
        },
{
    match outcome {
        Ok(text) => {
            if text.as_str().unicode_len() == 0 {
                Err(String::from_str("AI function returned empty response"))
            } else {
                Ok(text)
            }
        },
        Err(reason) => Err(glue("AI function failed: ", reason.as_str())),
    }
}

} // verus!
