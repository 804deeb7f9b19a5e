//! Local engine adapters: engine selection, model discovery results and replies.

use vstd::prelude::*;
use crate::protocol::{CatalogModel, ProviderMode};
use crate::text::{
    ascii_lower, ascii_lowercase, chars_of, join_lines, last_segment, last_segment_of, lemma_present_texts_step,
    lemma_lowercase_idempotent, lower_char, lowercase, owned, present_texts,
};

verus! {

/// The kind of local inference engine a node talks to.
#[derive(Clone, Copy, Debug, PartialEq, Eq, Structural)]
pub enum EngineKind {
    Ollama,
    OpenAiCompatible,
}

/// Errors of engine selection and of reading engine replies.
#[derive(Debug)]
pub enum ConnectorError {
    /// The engine name is none of the supported ones; holds the name as given.
    UnsupportedEngine(String),
    /// The engine's base URL does not parse as an absolute URL; holds the parser's reason.
    InvalidEngineUrl(url::ParseError),
    /// An OpenAI-compatible model listing without a `data` array.
    MissingModelList,
}

impl EngineKind {
    /// The canonical name of the engine kind.
    pub open spec fn name(self) -> Seq<char> {
        match self {
            EngineKind::Ollama => "ollama"@,
            EngineKind::OpenAiCompatible => "openai-compatible"@,
        }
    }

    /// The engine kind that a (case-insensitive) name selects, if any.
    pub open spec fn named(value: Seq<char>) -> Option<EngineKind> {
        let v = lowercase(value);
        if v == "ollama"@ {
            Some(EngineKind::Ollama)
        } else if v == "openai"@ || v == "lmstudio"@ || v == "llama.cpp"@ || v == "vllm"@
            || v == "openai-compatible"@ {
            Some(EngineKind::OpenAiCompatible)
        } else {
            None
        }
    }

    pub fn as_str(self) -> (r: &'static str)
        ensures
            r@ == self.name(),
    {
        match self {
            EngineKind::Ollama => "ollama",
            EngineKind::OpenAiCompatible => "openai-compatible",
        }
    }

    /// Selects the engine kind by name; ASCII letters match in either case.
    pub fn from_name(value: &str) -> (r: Result<EngineKind, ConnectorError>)
        ensures
            match Self::named(value@) {
                Some(k) => r == Ok::<EngineKind, ConnectorError>(k),
                None => r matches Err(ConnectorError::UnsupportedEngine(v)) && v@ == value@,
            },
    {
        let v = ascii_lowercase(value);
        if v == owned("ollama") {
            Ok(EngineKind::Ollama)
        } else if v == owned("openai") || v == owned("lmstudio") || v == owned("llama.cpp")
            || v == owned("vllm") || v == owned("openai-compatible") {
            Ok(EngineKind::OpenAiCompatible)
        } else {
            Err(ConnectorError::UnsupportedEngine(owned(value)))
        }
    }
}

/// The canonical name of every engine kind selects that kind again.
pub proof fn lemma_engine_name_round_trip(k: EngineKind)
    ensures
        EngineKind::named(k.name()) == Some(k),
{
    reveal_strlit("ollama");
    reveal_strlit("openai-compatible");
    reveal_strlit("openai");
    reveal_strlit("lmstudio");
    reveal_strlit("llama.cpp");
    reveal_strlit("vllm");
    assert(lowercase("ollama"@) =~= "ollama"@);
    assert(lowercase("openai-compatible"@) =~= "openai-compatible"@);
    assert("openai-compatible"@ != "ollama"@);
    assert("openai-compatible"@ != "openai"@);
}

/// The names an engine is configured by: `ollama`, and for OpenAI-compatible servers
/// `openai`, `lmstudio`, `llama.cpp`, `vllm` and `openai-compatible`, in any ASCII case.
pub proof fn lemma_engine_aliases(value: Seq<char>)
    ensures
        lowercase(value) == "ollama"@ ==> EngineKind::named(value) == Some(EngineKind::Ollama),
        (lowercase(value) == "openai"@ || lowercase(value) == "lmstudio"@ || lowercase(value) == "llama.cpp"@
            || lowercase(value) == "vllm"@ || lowercase(value) == "openai-compatible"@) ==> EngineKind::named(value)
            == Some(EngineKind::OpenAiCompatible),
        !(lowercase(value) == "ollama"@ || lowercase(value) == "openai"@ || lowercase(value) == "lmstudio"@
            || lowercase(value) == "llama.cpp"@ || lowercase(value) == "vllm"@ || lowercase(value)
            == "openai-compatible"@) ==> EngineKind::named(value) is None,
{
    reveal_strlit("ollama");
    reveal_strlit("openai");
    reveal_strlit("lmstudio");
    reveal_strlit("llama.cpp");
    reveal_strlit("vllm");
    reveal_strlit("openai-compatible");
    assert("openai"@[1] != "ollama"@[1]);
    assert("lmstudio"@.len() != "ollama"@.len());
    assert("llama.cpp"@.len() != "ollama"@.len());
    assert("vllm"@.len() != "ollama"@.len());
    assert("openai-compatible"@.len() != "ollama"@.len());
}

/// Engine names are matched without regard to ASCII case.
pub proof fn lemma_engine_name_case_insensitive(value: Seq<char>)
    ensures
        EngineKind::named(value) == EngineKind::named(lowercase(value)),
{
    lemma_lowercase_idempotent(value);
}

impl std::str::FromStr for EngineKind {
    type Err = ConnectorError;

    fn from_str(value: &str) -> (r: Result<Self, Self::Err>)
        ensures
            match EngineKind::named(value@) {
                Some(k) => r == Ok::<EngineKind, ConnectorError>(k),
                None => r matches Err(ConnectorError::UnsupportedEngine(v)) && v@ == value@,
            },
    {
        EngineKind::from_name(value)
    }
}

impl ConnectorError {
    /// The text of the error.
    pub fn message(&self) -> (r: String)
        ensures
            match self {
                ConnectorError::UnsupportedEngine(v) => r@ == "unsupported engine: "@ + v@,
                ConnectorError::InvalidEngineUrl(_) => r@ == "invalid engine URL"@,
                ConnectorError::MissingModelList => r@ == "models response has no data array"@,
            },
    {
        match self {
            ConnectorError::UnsupportedEngine(v) => {
                let mut r = owned("unsupported engine: ");
                r.append(v.as_str());
                r
            },
            ConnectorError::InvalidEngineUrl(_) => owned("invalid engine URL"),
            ConnectorError::MissingModelList => owned("models response has no data array"),
        }
    }
}

/// A model that a local engine reports as installed.
#[derive(Clone, Debug)]
pub struct DiscoveredModel {
    pub id: String,
    pub display_name: String,
    pub architecture: String,
    pub context_length: u32,
    pub quantization: Option<String>,
}

/// The reply of an engine to one chat request.
#[derive(Clone, Debug)]
pub struct InferenceResult {
    pub content: String,
    pub prompt_tokens: u64,
    pub completion_tokens: u64,
}

/// A model identifier may keep ASCII letters and digits, `-`, `_` and `.`.
pub open spec fn is_slug_char(c: char) -> bool {
    ('a' <= c && c <= 'z') || ('A' <= c && c <= 'Z') || ('0' <= c && c <= '9') || c == '-' || c == '_'
        || c == '.'
}

/// One character of a slug: lower-cased, and `-` in place of anything not allowed.
pub open spec fn slug_char(c: char) -> char {
    let l = ascii_lower(c);
    if is_slug_char(l) {
        l
    } else {
        '-'
    }
}

/// The slug of a model identifier, character by character.
pub open spec fn slug(id: Seq<char>) -> Seq<char> {
    id.map_values(|c: char| slug_char(c))
}

/// A slug has one character for each character of the identifier, each of them a lower-case
/// ASCII letter, a digit, `-`, `_` or `.`; a slug is its own slug.
pub proof fn lemma_slug_is_safe(id: Seq<char>)
    ensures
        slug(id).len() == id.len(),
        forall|i: int|
            0 <= i < id.len() ==> {
                let c = #[trigger] slug(id)[i];
                ('a' <= c && c <= 'z') || ('0' <= c && c <= '9') || c == '-' || c == '_' || c == '.'
            },
        slug(slug(id)) == slug(id),
{
    assert forall|i: int| 0 <= i < id.len() implies {
        let c = #[trigger] slug(id)[i];
        ('a' <= c && c <= 'z') || ('0' <= c && c <= '9') || c == '-' || c == '_' || c == '.'
    } by {
        let c = id[i];
        if 'A' <= c && c <= 'Z' {
            assert(ascii_lower(c) == ((c as u32) + 32) as char);
        }
    }
    assert(slug(slug(id)) =~= slug(id));
}

/// Each character of a slug comes from the character at the same place of the identifier:
/// a capital ASCII letter is lower-cased, any other ASCII letter or digit and `-`, `_`, `.`
/// are kept, and every other character becomes `-`.
pub proof fn lemma_slug_keeps_allowed_characters(id: Seq<char>)
    ensures
        slug(id).len() == id.len(),
        forall|i: int|
            0 <= i < id.len() ==> {
                let c = id[i];
                let t = #[trigger] slug(id)[i];
                &&& ('A' <= c && c <= 'Z') ==> t == ((c as u32) + 32) as char
                &&& (('a' <= c && c <= 'z') || ('0' <= c && c <= '9') || c == '-' || c == '_' || c == '.') ==> t == c
                &&& !(('A' <= c && c <= 'Z') || ('a' <= c && c <= 'z') || ('0' <= c && c <= '9') || c == '-' || c
                    == '_' || c == '.') ==> t == '-'
            },
{
    assert forall|i: int| 0 <= i < id.len() implies {
        let c = id[i];
        let t = #[trigger] slug(id)[i];
        &&& ('A' <= c && c <= 'Z') ==> t == ((c as u32) + 32) as char
        &&& (('a' <= c && c <= 'z') || ('0' <= c && c <= '9') || c == '-' || c == '_' || c == '.') ==> t == c
        &&& !(('A' <= c && c <= 'Z') || ('a' <= c && c <= 'z') || ('0' <= c && c <= '9') || c == '-' || c == '_'
            || c == '.') ==> t == '-'
    } by {
        let c = id[i];
        if 'A' <= c && c <= 'Z' {
            let l = ((c as u32) + 32) as char;
            assert('a' <= l && l <= 'z');
        }
    }
}

/// A catalog-safe identifier: ASCII letters lower-cased, other disallowed characters as `-`.
pub fn sanitize_slug(id: &str) -> (r: String)
    ensures
        r@ == slug(id@),
{
    let cs = chars_of(id);
    let mut r = String::new();
    for i in 0..cs.len()
        invariant
            cs@ == id@,
            r@ == slug(id@.take(i as int)),
    {
        let l = lower_char(cs[i]);
        let keep = ('a' <= l && l <= 'z') || ('A' <= l && l <= 'Z') || ('0' <= l && l <= '9') || l == '-'
            || l == '_' || l == '.';
        if keep {
            r.push(l);
        } else {
            r.push('-');
        }
        assert(slug(id@.take(i + 1)) =~= slug(id@.take(i as int)).push(slug_char(cs@[i as int])));
    }
    assert(id@.take(cs.len() as int) =~= id@);
    r
}

/// The description that every discovered model is published with.
pub open spec fn discovered_description() -> Seq<char> {
    "Automatically discovered by Token2Token Client."@
}

/// `c` publishes the discovered model `m` with the given prices and terms, ready to serve.
pub open spec fn catalogued(
    m: DiscoveredModel,
    c: CatalogModel,
    input_price: String,
    output_price: String,
    license_id: String,
    commercial_hosting_confirmed: bool,
    mode: ProviderMode,
) -> bool {
    &&& c.id@ == slug(m.id@)
    &&& c.display_name == m.display_name
    &&& c.engine_model_id == m.id
    &&& c.description@ == discovered_description()
    &&& c.architecture == m.architecture
    &&& c.context_length == m.context_length
    &&& c.input_modalities.deep_view() == seq!["text"@]
    &&& c.output_modalities.deep_view() == seq!["text"@]
    &&& c.parameters.deep_view() == seq!["temperature"@, "max_tokens"@, "top_p"@]
    &&& c.license_id == license_id
    &&& c.commercial_hosting_confirmed == commercial_hosting_confirmed
    &&& c.quantization == m.quantization
    &&& c.input_price == input_price
    &&& c.output_price == output_price
    &&& c.mode == mode
    &&& c.ready
}

impl DiscoveredModel {
    /// The catalog entry that publishes this model with the given prices and terms.
    pub fn into_catalog(
        self,
        input_price: String,
        output_price: String,
        license_id: String,
        commercial_hosting_confirmed: bool,
        mode: ProviderMode,
    ) -> (r: CatalogModel)
        ensures
            catalogued(self, r, input_price, output_price, license_id, commercial_hosting_confirmed, mode),
    {
        let mut input_modalities: Vec<String> = Vec::new();
        input_modalities.push(owned("text"));
        let mut output_modalities: Vec<String> = Vec::new();
        output_modalities.push(owned("text"));
        let mut parameters: Vec<String> = Vec::new();
        parameters.push(owned("temperature"));
        parameters.push(owned("max_tokens"));
        parameters.push(owned("top_p"));
        assert(input_modalities.deep_view() =~= seq!["text"@]);
        assert(output_modalities.deep_view() =~= seq!["text"@]);
        assert(parameters.deep_view() =~= seq!["temperature"@, "max_tokens"@, "top_p"@]);
        CatalogModel {
            id: sanitize_slug(self.id.as_str()),
            display_name: self.display_name,
            engine_model_id: self.id,
            description: owned("Automatically discovered by Token2Token Client."),
            architecture: self.architecture,
            context_length: self.context_length,
            input_modalities,
            output_modalities,
            parameters,
            license_id,
            commercial_hosting_confirmed,
            quantization: self.quantization,
            input_price,
            output_price,
            mode,
            ready: true,
        }
    }
}


/// The content of a chat message, as far as a text-only engine reads it:
/// a string, a list of parts (each part's `text` string, if it has one), or anything else.
#[derive(Clone, Debug)]
pub enum MessageContent {
    Text(String),
    Parts(Vec<Option<String>>),
    Other,
}

/// The text of a message: the string itself, or the parts' texts joined by newlines.
pub open spec fn content_text(content: MessageContent) -> Seq<char> {
    match content {
        MessageContent::Text(t) => t@,
        MessageContent::Parts(parts) => join_lines(present_texts(parts@)),
        MessageContent::Other => Seq::empty(),
    }
}

/// Flattens message content to plain text for engines that take only text.
pub fn content_as_text(content: &MessageContent) -> (r: String)
    ensures
        r@ == content_text(*content),
{
    match content {
        MessageContent::Text(t) => t.clone(),
        MessageContent::Parts(parts) => {
            let mut r = String::new();
            let mut first = true;
            for i in 0..parts.len()
                invariant
                    r@ == join_lines(present_texts(parts@.take(i as int))),
                    first == (present_texts(parts@.take(i as int)).len() == 0),
            {
                proof {
                    lemma_present_texts_step(parts@, i as int);
                }
                match &parts[i] {
                    Some(t) => {
                        if !first {
                            r.push('\n');
                        }
                        r.append(t.as_str());
                        first = false;
                        let ghost ts = present_texts(parts@.take(i + 1));
                        assert(ts.drop_last() =~= present_texts(parts@.take(i as int)));
                    },
                    None => {},
                }
            }
            assert(parts@.take(parts.len() as int) =~= parts@);
            r
        },
        MessageContent::Other => String::new(),
    }
}

/// The model name that an engine is asked for: the part of the requested model after its last `/`.
pub fn engine_model_name(model: &str) -> (r: String)
    ensures
        r@ == last_segment(model@),
{
    last_segment_of(model)
}

/// The context length assumed for every discovered model.
pub const DEFAULT_CONTEXT_LENGTH: u32 = 4096;

/// One entry of an Ollama tag listing; absent details read as empty.
#[derive(Clone, Debug)]
pub struct OllamaTag {
    pub name: String,
    pub family: String,
    pub parameter_size: String,
    pub quantization_level: Option<String>,
}

/// `m` is the model an Ollama tag with these fields reports: named by the tag, `unknown`
/// architecture for an empty family, the quantization level or else a non-empty parameter size.
pub open spec fn from_tag(
    name: String,
    family: String,
    parameter_size: String,
    quantization_level: Option<String>,
    m: DiscoveredModel,
) -> bool {
    &&& m.id == name
    &&& m.display_name == name
    &&& m.architecture@ == (if family@.len() == 0 {
        "unknown"@
    } else {
        family@
    })
    &&& m.context_length == DEFAULT_CONTEXT_LENGTH
    &&& m.quantization == (match quantization_level {
        Some(q) => Some(q),
        None => if parameter_size@.len() == 0 {
            None
        } else {
            Some(parameter_size)
        },
    })
}

impl DiscoveredModel {
    /// A model from an Ollama tag listing. An empty family reads as `unknown`; without a
    /// quantization level the parameter size, if given, stands in its place.
    pub fn from_ollama(
        name: String,
        family: String,
        parameter_size: String,
        quantization_level: Option<String>,
    ) -> (r: DiscoveredModel)
        ensures
            from_tag(name, family, parameter_size, quantization_level, r),
    {
        let architecture = if family.as_str().is_empty() {
            owned("unknown")
        } else {
            family
        };
        let quantization = match quantization_level {
            Some(q) => Some(q),
            None => if parameter_size.as_str().is_empty() {
                None
            } else {
                Some(parameter_size)
            },
        };
        DiscoveredModel {
            display_name: name.clone(),
            id: name,
            architecture,
            context_length: DEFAULT_CONTEXT_LENGTH,
            quantization,
        }
    }

    /// A model from an OpenAI-compatible listing, known only by its identifier.
    pub open spec fn listed(id: Seq<char>, m: DiscoveredModel) -> bool {
        &&& m.id@ == id
        &&& m.display_name@ == id
        &&& m.architecture@ == "unknown"@
        &&& m.context_length == DEFAULT_CONTEXT_LENGTH
        &&& m.quantization is None
    }
}

/// The models of an Ollama tag listing: one for each tag, in order.
pub fn ollama_models(tags: Vec<OllamaTag>) -> (r: Vec<DiscoveredModel>)
    ensures
        r@.len() == tags@.len(),
        forall|i: int|
            0 <= i < tags@.len() ==> from_tag(
                #[trigger] tags@[i].name,
                tags@[i].family,
                tags@[i].parameter_size,
                tags@[i].quantization_level,
                r@[i],
            ),
{
    let mut out: Vec<DiscoveredModel> = Vec::new();
    let n = tags.len();
    let mut rest = tags;
    let ghost all = rest@;
    let mut i: usize = 0;
    while i < n
        invariant
            n == all.len(),
            i <= n,
            rest@ == all.skip(i as int),
            out@.len() == i,
            forall|j: int|
                0 <= j < i ==> from_tag(
                    #[trigger] all[j].name,
                    all[j].family,
                    all[j].parameter_size,
                    all[j].quantization_level,
                    out@[j],
                ),
        decreases n - i,
    {
        let tag = rest.remove(0);
        out.push(DiscoveredModel::from_ollama(tag.name, tag.family, tag.parameter_size, tag.quantization_level));
        i = i + 1;
    }
    out
}

/// The models of an OpenAI-compatible listing: one for each entry whose `id` is a string,
/// in order. `data` is `None` where the listing has no `data` array.
pub fn openai_models(data: Option<Vec<Option<String>>>) -> (r: Result<Vec<DiscoveredModel>, ConnectorError>)
    ensures
        match data {
            None => r matches Err(ConnectorError::MissingModelList),
            Some(ids) => r matches Ok(models) && models@.len() == present_texts(ids@).len() && forall|i: int|
                0 <= i < models@.len() ==> DiscoveredModel::listed(present_texts(ids@)[i], #[trigger] models@[i]),
        },
{
    match data {
        None => Err(ConnectorError::MissingModelList),
        Some(ids) => {
            let mut models: Vec<DiscoveredModel> = Vec::new();
            for i in 0..ids.len()
                invariant
                    models@.len() == present_texts(ids@.take(i as int)).len(),
                    forall|j: int|
                        0 <= j < models@.len() ==> DiscoveredModel::listed(
                            present_texts(ids@.take(i as int))[j],
                            #[trigger] models@[j],
                        ),
            {
                proof {
                    lemma_present_texts_step(ids@, i as int);
                }
                match &ids[i] {
                    Some(id) => {
                        models.push(
                            DiscoveredModel {
                                id: id.clone(),
                                display_name: id.clone(),
                                architecture: owned("unknown"),
                                context_length: DEFAULT_CONTEXT_LENGTH,
                                quantization: None,
                            },
                        );
                    },
                    None => {},
                }
            }
            assert(ids@.take(ids.len() as int) =~= ids@);
            Ok(models)
        },
    }
}

impl InferenceResult {
    /// The result read from an engine's reply: missing content reads as empty text,
    /// missing token counts as zero.
    pub fn from_reply(content: Option<String>, prompt_tokens: Option<u64>, completion_tokens: Option<u64>) -> (r:
        InferenceResult)
        ensures
            r.content@ == (match content {
                Some(c) => c@,
                None => Seq::empty(),
            }),
            r.prompt_tokens == (match prompt_tokens {
                Some(n) => n,
                None => 0,
            }),
            r.completion_tokens == (match completion_tokens {
                Some(n) => n,
                None => 0,
            }),
    {
        InferenceResult {
            content: match content {
                Some(c) => c,
                None => String::new(),
            },
            prompt_tokens: match prompt_tokens {
                Some(n) => n,
                None => 0,
            },
            completion_tokens: match completion_tokens {
                Some(n) => n,
                None => 0,
            },
        }
    }
}


/// `url::Url`, carried through unopened.
#[verifier::external_type_specification]
#[verifier::external_body]
pub struct ExUrl(url::Url);

/// `url::ParseError`, carried through unopened.
#[verifier::external_type_specification]
#[verifier::external_body]
pub struct ExUrlParseError(url::ParseError);

/// What `url::Url::parse` makes of `input`: the parsed absolute URL, or the reason it
/// refuses the input.
pub uninterp spec fn parsed_url(input: Seq<char>) -> Result<url::Url, url::ParseError>;

/// Calls `url::Url::parse`. Trusted: the outcome, URL or refusal with its reason, depends on
/// the input alone and is the one that `parsed_url` names.
#[verifier::external_body]
pub(crate) fn parse_url(input: &str) -> (r: Result<url::Url, url::ParseError>)
    ensures
        r == parsed_url(input@),
{
    url::Url::parse(input)
}

/// What a node needs to reach its engine: the kind, the parsed base URL and, for
/// OpenAI-compatible engines, a bearer key.
pub struct EngineSettings {
    pub kind: EngineKind,
    pub base_url: url::Url,
    pub api_key: Option<String>,
}

/// The bearer key an engine is given: a non-empty key, and only for OpenAI-compatible engines.
pub open spec fn effective_api_key(kind: EngineKind, api_key: Option<&str>) -> Option<Seq<char>> {
    match (kind, api_key) {
        (EngineKind::OpenAiCompatible, Some(k)) => if k@.len() > 0 {
            Some(k@)
        } else {
            None
        },
        _ => None,
    }
}

/// An Ollama engine is never handed a key, and no engine is handed an empty one; an
/// OpenAI-compatible engine gets the configured key whenever it is non-empty.
pub proof fn lemma_engine_key_rules(kind: EngineKind, api_key: Option<&str>)
    ensures
        kind == EngineKind::Ollama ==> effective_api_key(kind, api_key) is None,
        effective_api_key(kind, api_key) matches Some(k) ==> k.len() > 0,
        kind == EngineKind::OpenAiCompatible ==> match api_key {
            Some(k) => k@.len() > 0 ==> effective_api_key(kind, api_key) == Some(k@),
            None => effective_api_key(kind, api_key) is None,
        },
{
}

/// Validates an engine's configuration: the base URL must parse. The key is kept only
/// where it is non-empty and the engine is OpenAI-compatible.
pub fn build_engine(kind: EngineKind, base_url: &str, api_key: Option<&str>) -> (r: Result<
    EngineSettings,
    ConnectorError,
>)
    ensures
        r.is_ok() == parsed_url(base_url@) is Ok,
        r matches Err(e) ==> match parsed_url(base_url@) {
            Err(cause) => e == ConnectorError::InvalidEngineUrl(cause),
            Ok(_) => false,
        },
        r matches Ok(s) ==> parsed_url(base_url@) == Ok::<url::Url, url::ParseError>(s.base_url),
        r matches Ok(s) ==> s.kind == kind && match (s.api_key, effective_api_key(kind, api_key)) {
            (Some(k), Some(e)) => k@ == e,
            (None, None) => true,
            _ => false,
        },
{
    let url = match parse_url(base_url) {
        Ok(u) => u,
        Err(cause) => {
            return Err(ConnectorError::InvalidEngineUrl(cause));
        },
    };
    let key = match kind {
        EngineKind::Ollama => None,
        EngineKind::OpenAiCompatible => match api_key {
            Some(k) => if k.is_empty() {
                None
            } else {
                Some(owned(k))
            },
            None => None,
        },
    };
    Ok(EngineSettings { kind, base_url: url, api_key: key })
}

} // verus!
