//! Task kinds, model formats and the small value types around them.

use vstd::prelude::*;
use crate::text::{lower_of, lowercase, str_eq, upper_of, uppercase};

verus! {

/// The kinds of work a worker can execute.
#[derive(Debug, Clone, Copy, PartialEq, Eq, Hash, Structural)]
pub enum TaskType {
    TextCompletion,
    Embeddings,
    Classification,
    QuestionAnswering,
    Summarization,
    TrainingBatch,
    Validation,
    WebCrawl,
}

/// Every task kind, in declaration order.
pub open spec fn all_task_types() -> Seq<TaskType> {
    seq![
        TaskType::TextCompletion,
        TaskType::Embeddings,
        TaskType::Classification,
        TaskType::QuestionAnswering,
        TaskType::Summarization,
        TaskType::TrainingBatch,
        TaskType::Validation,
        TaskType::WebCrawl,
    ]
}

impl TaskType {
    /// All task kinds.
    pub fn all() -> (r: Vec<TaskType>)
        ensures
            r@ == all_task_types(),
    {
        let r = vec![
            TaskType::TextCompletion,
            TaskType::Embeddings,
            TaskType::Classification,
            TaskType::QuestionAnswering,
            TaskType::Summarization,
            TaskType::TrainingBatch,
            TaskType::Validation,
            TaskType::WebCrawl,
        ];
        assert(r@ =~= all_task_types());
        r
    }

    /// Only training batches need training support.
    pub fn requires_training(&self) -> (r: bool)
        ensures
            r == (*self == TaskType::TrainingBatch),
    {
        matches!(self, TaskType::TrainingBatch)
    }

    pub open spec fn vram_spec(self) -> u64 {
        match self {
            TaskType::TextCompletion => 4096,
            TaskType::Embeddings => 1024,
            TaskType::Classification => 2048,
            TaskType::QuestionAnswering => 4096,
            TaskType::Summarization => 4096,
            TaskType::TrainingBatch => 8192,
            TaskType::Validation => 4096,
            TaskType::WebCrawl => 0,
        }
    }

    /// Estimated VRAM need in MB for a standard model of this kind.
    pub fn estimated_vram_mb(&self) -> (r: u64)
        ensures
            r == self.vram_spec(),
    {
        match self {
            TaskType::TextCompletion => 4096,
            TaskType::Embeddings => 1024,
            TaskType::Classification => 2048,
            TaskType::QuestionAnswering => 4096,
            TaskType::Summarization => 4096,
            TaskType::TrainingBatch => 8192,
            TaskType::Validation => 4096,
            TaskType::WebCrawl => 0,
        }
    }

    pub open spec fn name_spec(self) -> Seq<char> {
        match self {
            TaskType::TextCompletion => "text_completion"@,
            TaskType::Embeddings => "embeddings"@,
            TaskType::Classification => "classification"@,
            TaskType::QuestionAnswering => "question_answering"@,
            TaskType::Summarization => "summarization"@,
            TaskType::TrainingBatch => "training_batch"@,
            TaskType::Validation => "validation"@,
            TaskType::WebCrawl => "web_crawl"@,
        }
    }

    /// The snake-case name of the kind.
    pub fn as_str(&self) -> (r: &'static str)
        ensures
            r@ == self.name_spec(),
    {
        match self {
            TaskType::TextCompletion => "text_completion",
            TaskType::Embeddings => "embeddings",
            TaskType::Classification => "classification",
            TaskType::QuestionAnswering => "question_answering",
            TaskType::Summarization => "summarization",
            TaskType::TrainingBatch => "training_batch",
            TaskType::Validation => "validation",
            TaskType::WebCrawl => "web_crawl",
        }
    }

    /// The snake-case name as an owned string.
    pub fn to_string(&self) -> (r: String)
        ensures
            r@ == self.name_spec(),
    {
        self.as_str().to_owned()
    }
}

/// Token counts of one generation.
#[derive(Debug, Clone, Copy, Default, PartialEq, Eq, Structural)]
pub struct TokenUsage {
    pub prompt_tokens: u32,
    pub completion_tokens: u32,
    pub total_tokens: u32,
}

impl TokenUsage {
    /// Usage whose total is the sum of the two parts.
    pub fn new(prompt: u32, completion: u32) -> (r: Self)
        requires
            prompt + completion <= u32::MAX,
        ensures
            r.prompt_tokens == prompt,
            r.completion_tokens == completion,
            r.total_tokens == prompt + completion,
    {
        TokenUsage { prompt_tokens: prompt, completion_tokens: completion, total_tokens: prompt + completion }
    }
}

/// Why generation stopped.
#[derive(Debug, Clone, Copy, PartialEq, Eq, Structural)]
pub enum FinishReason {
    Length,
    Stop,
    ContentFilter,
    Cancelled,
    Error,
}

impl FinishReason {
    pub open spec fn name_spec(self) -> Seq<char> {
        match self {
            FinishReason::Length => "length"@,
            FinishReason::Stop => "stop"@,
            FinishReason::ContentFilter => "content_filter"@,
            FinishReason::Cancelled => "cancelled"@,
            FinishReason::Error => "error"@,
        }
    }

    /// The wire name of the reason.
    pub fn as_str(&self) -> (r: &'static str)
        ensures
            r@ == self.name_spec(),
    {
        match self {
            FinishReason::Length => "length",
            FinishReason::Stop => "stop",
            FinishReason::ContentFilter => "content_filter",
            FinishReason::Cancelled => "cancelled",
            FinishReason::Error => "error",
        }
    }
}

impl Default for FinishReason {
    fn default() -> (r: Self)
        ensures
            r == FinishReason::Stop,
    {
        FinishReason::Stop
    }
}

/// Output of a text completion.
#[derive(Debug, Clone)]
pub struct TextCompletionOutput {
    pub text: String,
    pub finish_reason: FinishReason,
    pub usage: TokenUsage,
    pub generation_time_ms: u64,
}

/// Input of an embeddings task.
#[derive(Debug, Clone)]
pub struct EmbeddingsInput {
    pub texts: Vec<String>,
    pub normalize: bool,
}

impl EmbeddingsInput {
    /// Embeddings of the given texts, normalized as by default.
    pub fn new(texts: Vec<String>) -> (r: Self)
        ensures
            r.texts@ == texts@,
            r.normalize,
    {
        EmbeddingsInput { texts, normalize: true }
    }
}

/// Input of a classification task.
#[derive(Debug, Clone)]
pub struct ClassificationInput {
    pub text: String,
    pub labels: Vec<String>,
    pub multi_label: bool,
}

/// Layout of a summary.
#[derive(Debug, Clone, Copy, PartialEq, Eq, Structural)]
pub enum SummarizationStyle {
    Bullets,
    Paragraph,
    Tldr,
}

impl Default for SummarizationStyle {
    fn default() -> (r: Self)
        ensures
            r == SummarizationStyle::Paragraph,
    {
        SummarizationStyle::Paragraph
    }
}

/// One supervised training pair.
#[derive(Debug, Clone)]
pub struct TrainingExample {
    pub input: String,
    pub output: String,
}

/// Input of a web crawl.
#[derive(Debug, Clone)]
pub struct WebCrawlInput {
    pub url: String,
    pub max_depth: u32,
    pub max_pages: u32,
}

/// On-disk formats of model files.
#[derive(Debug, Clone, Copy, PartialEq, Eq, Hash, Structural)]
pub enum ModelFormat {
    Gguf,
    Ggml,
    SafeTensors,
    Pytorch,
}

/// The format that a lower-case file extension names.
pub open spec fn format_of_extension(ext: Seq<char>) -> Option<ModelFormat> {
    if ext == "gguf"@ {
        Some(ModelFormat::Gguf)
    } else if ext == "ggml"@ || ext == "bin"@ {
        Some(ModelFormat::Ggml)
    } else if ext == "safetensors"@ {
        Some(ModelFormat::SafeTensors)
    } else if ext == "pt"@ || ext == "pth"@ {
        Some(ModelFormat::Pytorch)
    } else {
        None
    }
}

/// What `Path::extension` gives for a path, as text.
pub uninterp spec fn extension_of(path: Seq<char>) -> Option<Seq<char>>;

/// Relies on `std::path::Path::extension` (then `OsStr::to_str`): the
/// extension of the final component, a function of the path text alone.
#[verifier::external_body]
fn path_extension(path: &str) -> (r: Option<String>)
    ensures
        match r {
            Some(e) => extension_of(path@) == Some(e@),
            None => extension_of(path@).is_none(),
        },
{
    std::path::Path::new(path).extension().and_then(|e| e.to_str()).map(|e| e.to_string())
}

impl ModelFormat {
    pub open spec fn extension_spec(self) -> Seq<char> {
        match self {
            ModelFormat::Gguf => "gguf"@,
            ModelFormat::Ggml => "ggml"@,
            ModelFormat::SafeTensors => "safetensors"@,
            ModelFormat::Pytorch => "pt"@,
        }
    }

    /// The canonical file extension.
    pub fn extension(&self) -> (r: &'static str)
        ensures
            r@ == self.extension_spec(),
    {
        match self {
            ModelFormat::Gguf => "gguf",
            ModelFormat::Ggml => "ggml",
            ModelFormat::SafeTensors => "safetensors",
            ModelFormat::Pytorch => "pt",
        }
    }

    /// The format named by an extension already in lower case.
    pub fn from_lower_extension(ext: &str) -> (r: Option<Self>)
        ensures
            r == format_of_extension(ext@),
    {
        if str_eq(ext, "gguf") {
            Some(ModelFormat::Gguf)
        } else if str_eq(ext, "ggml") || str_eq(ext, "bin") {
            Some(ModelFormat::Ggml)
        } else if str_eq(ext, "safetensors") {
            Some(ModelFormat::SafeTensors)
        } else if str_eq(ext, "pt") || str_eq(ext, "pth") {
            Some(ModelFormat::Pytorch)
        } else {
            None
        }
    }

    /// The format of a model file, from its extension in any case.
    pub fn from_path(path: &str) -> (r: Option<Self>)
        ensures
            r == match extension_of(path@) {
                Some(e) => format_of_extension(lower_of(e)),
                None => None,
            },
    {
        match path_extension(path) {
            Some(e) => {
                let l = lowercase(e.as_str());
                ModelFormat::from_lower_extension(l.as_str())
            },
            None => None,
        }
    }
}

/// Weight quantization schemes.
#[allow(non_camel_case_types)]
#[derive(Debug, Clone, Copy, PartialEq, Eq, Hash, Structural)]
pub enum QuantizationType {
    F32,
    F16,
    Q8_0,
    Q6_K,
    Q5_K_M,
    Q5_K_S,
    Q4_K_M,
    Q4_K_S,
    Q4_0,
    Q4_1,
    Q3_K_M,
    Q3_K_S,
    Q3_K_L,
    Q2_K,
    IQ4_NL,
    IQ4_XS,
    IQ3_XXS,
    IQ2_XXS,
    Unknown,
}

/// The scheme that an upper-case name denotes; anything else is `Unknown`.
pub open spec fn quantization_of_name(s: Seq<char>) -> QuantizationType {
    if s == "F32"@ { QuantizationType::F32 }
    else if s == "F16"@ { QuantizationType::F16 }
    else if s == "Q8_0"@ { QuantizationType::Q8_0 }
    else if s == "Q6_K"@ { QuantizationType::Q6_K }
    else if s == "Q5_K_M"@ { QuantizationType::Q5_K_M }
    else if s == "Q5_K_S"@ { QuantizationType::Q5_K_S }
    else if s == "Q4_K_M"@ { QuantizationType::Q4_K_M }
    else if s == "Q4_K_S"@ { QuantizationType::Q4_K_S }
    else if s == "Q4_0"@ { QuantizationType::Q4_0 }
    else if s == "Q4_1"@ { QuantizationType::Q4_1 }
    else if s == "Q3_K_M"@ { QuantizationType::Q3_K_M }
    else if s == "Q3_K_S"@ { QuantizationType::Q3_K_S }
    else if s == "Q3_K_L"@ { QuantizationType::Q3_K_L }
    else if s == "Q2_K"@ { QuantizationType::Q2_K }
    else if s == "IQ4_NL"@ { QuantizationType::IQ4_NL }
    else if s == "IQ4_XS"@ { QuantizationType::IQ4_XS }
    else if s == "IQ3_XXS"@ { QuantizationType::IQ3_XXS }
    else if s == "IQ2_XXS"@ { QuantizationType::IQ2_XXS }
    else { QuantizationType::Unknown }
}

impl QuantizationType {
    /// The scheme named by an upper-case string.
    pub fn from_upper_name(s: &str) -> (r: Self)
        ensures
            r == quantization_of_name(s@),
    {
        if str_eq(s, "F32") { QuantizationType::F32 }
        else if str_eq(s, "F16") { QuantizationType::F16 }
        else if str_eq(s, "Q8_0") { QuantizationType::Q8_0 }
        else if str_eq(s, "Q6_K") { QuantizationType::Q6_K }
        else if str_eq(s, "Q5_K_M") { QuantizationType::Q5_K_M }
        else if str_eq(s, "Q5_K_S") { QuantizationType::Q5_K_S }
        else if str_eq(s, "Q4_K_M") { QuantizationType::Q4_K_M }
        else if str_eq(s, "Q4_K_S") { QuantizationType::Q4_K_S }
        else if str_eq(s, "Q4_0") { QuantizationType::Q4_0 }
        else if str_eq(s, "Q4_1") { QuantizationType::Q4_1 }
        else if str_eq(s, "Q3_K_M") { QuantizationType::Q3_K_M }
        else if str_eq(s, "Q3_K_S") { QuantizationType::Q3_K_S }
        else if str_eq(s, "Q3_K_L") { QuantizationType::Q3_K_L }
        else if str_eq(s, "Q2_K") { QuantizationType::Q2_K }
        else if str_eq(s, "IQ4_NL") { QuantizationType::IQ4_NL }
        else if str_eq(s, "IQ4_XS") { QuantizationType::IQ4_XS }
        else if str_eq(s, "IQ3_XXS") { QuantizationType::IQ3_XXS }
        else if str_eq(s, "IQ2_XXS") { QuantizationType::IQ2_XXS }
        else { QuantizationType::Unknown }
    }

    /// The scheme named by a string in any case.
    pub fn from_str(s: &str) -> (r: Self)
        ensures
            r == quantization_of_name(upper_of(s@)),
    {
        let u = uppercase(s);
        QuantizationType::from_upper_name(u.as_str())
    }
}

/// Metadata read from a GGUF model file.
#[derive(Debug, Clone, Default)]
pub struct GgufMetadata {
    pub architecture: Option<String>,
    pub name: Option<String>,
    pub author: Option<String>,
    pub license: Option<String>,
    pub description: Option<String>,
    pub quantization: Option<String>,
    pub context_length: Option<u32>,
    pub embedding_length: Option<u32>,
    pub head_count: Option<u32>,
    pub block_count: Option<u32>,
    pub vocab_size: Option<u32>,
    pub bos_token_id: Option<u32>,
    pub eos_token_id: Option<u32>,
    pub chat_template: Option<String>,
}

} // verus!
