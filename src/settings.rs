use vstd::prelude::*;
use vstd::string::*;

verus! {

/// A completion or embedding service, by the name used in the settings.
#[derive(Clone, Copy, Debug, PartialEq, Eq, Structural)]
pub enum Provider {
    Anthropic,
    Azure,
    Cohere,
    Deepseek,
    Galadriel,
    Gemini,
    Groq,
    Hyperbolic,
    Moonshot,
    OpenAI,
    Perplexity,
    Xai,
}

/// The settings name of a provider.
pub open spec fn provider_name(p: Provider) -> Seq<char> {
    match p {
        Provider::Anthropic => "anthropic"@,
        Provider::Azure => "azure"@,
        Provider::Cohere => "cohere"@,
        Provider::Deepseek => "deepseek"@,
        Provider::Galadriel => "galadriel"@,
        Provider::Gemini => "gemini"@,
        Provider::Groq => "groq"@,
        Provider::Hyperbolic => "hyperbolic"@,
        Provider::Moonshot => "moonshot"@,
        Provider::OpenAI => "openai"@,
        Provider::Perplexity => "perplexity"@,
        Provider::Xai => "xai"@,
    }
}

/// The provider a settings name stands for; `openai-api` and
/// `openai-compatible` also name OpenAI.
pub open spec fn provider_for(s: Seq<char>) -> Option<Provider> {
    if s == "anthropic"@ {
        Some(Provider::Anthropic)
    } else if s == "azure"@ {
        Some(Provider::Azure)
    } else if s == "cohere"@ {
        Some(Provider::Cohere)
    } else if s == "deepseek"@ {
        Some(Provider::Deepseek)
    } else if s == "galadriel"@ {
        Some(Provider::Galadriel)
    } else if s == "gemini"@ {
        Some(Provider::Gemini)
    } else if s == "groq"@ {
        Some(Provider::Groq)
    } else if s == "hyperbolic"@ {
        Some(Provider::Hyperbolic)
    } else if s == "moonshot"@ {
        Some(Provider::Moonshot)
    } else if s == "openai"@ {
        Some(Provider::OpenAI)
    } else if s == "openai-api"@ || s == "openai-compatible"@ {
        Some(Provider::OpenAI)
    } else if s == "perplexity"@ {
        Some(Provider::Perplexity)
    } else if s == "xai"@ {
        Some(Provider::Xai)
    } else {
        None
    }
}

impl Provider {
    /// The settings name.
    pub fn name(&self) -> (r: String)
        ensures
            r@ == provider_name(*self),
    {
        match self {
            Provider::Anthropic => String::from_str("anthropic"),
            Provider::Azure => String::from_str("azure"),
            Provider::Cohere => String::from_str("cohere"),
            Provider::Deepseek => String::from_str("deepseek"),
            Provider::Galadriel => String::from_str("galadriel"),
            Provider::Gemini => String::from_str("gemini"),
            Provider::Groq => String::from_str("groq"),
            Provider::Hyperbolic => String::from_str("hyperbolic"),
            Provider::Moonshot => String::from_str("moonshot"),
            Provider::OpenAI => String::from_str("openai"),
            Provider::Perplexity => String::from_str("perplexity"),
            Provider::Xai => String::from_str("xai"),
        }
    }


    /// The provider named `s` in the settings, if any.
    pub fn from_name(s: &str) -> (r: Option<Provider>)
        ensures
            r == provider_for(s@),
    {
        let t = String::from_str(s);
        if t == String::from_str("anthropic") {
            Some(Provider::Anthropic)
        } else if t == String::from_str("azure") {
            Some(Provider::Azure)
        } else if t == String::from_str("cohere") {
            Some(Provider::Cohere)
        } else if t == String::from_str("deepseek") {
            Some(Provider::Deepseek)
        } else if t == String::from_str("galadriel") {
            Some(Provider::Galadriel)
        } else if t == String::from_str("gemini") {
            Some(Provider::Gemini)
        } else if t == String::from_str("groq") {
            Some(Provider::Groq)
        } else if t == String::from_str("hyperbolic") {
            Some(Provider::Hyperbolic)
        } else if t == String::from_str("moonshot") {
            Some(Provider::Moonshot)
        } else if t == String::from_str("openai") {
            Some(Provider::OpenAI)
        } else if t == String::from_str("openai-api") || t == String::from_str("openai-compatible") {
            Some(Provider::OpenAI)
        } else if t == String::from_str("perplexity") {
            Some(Provider::Perplexity)
        } else if t == String::from_str("xai") {
            Some(Provider::Xai)
        } else {
            None
        }
    }

}

impl Default for Provider {
    /// OpenAI, unless the settings say otherwise.
    fn default() -> (r: Provider)
        ensures
            r == Provider::OpenAI,
    {
        Provider::OpenAI
    }
}


/// A setting that the configuration command can show or change.
#[derive(Clone, Copy, Debug, PartialEq, Eq, Structural)]
pub enum KeyChoice {
    ApiKey,
    Model,
    EmbeddingModel,
    EmbeddingProvider,
    EmbeddingApiKey,
    UseTools,
    ForceLowercase,
    Provider,
    MaxTokens,
    Temperature,
    TopP,
    VectorSize,
    SimilarityThreshold,
    QdrantHost,
    QdrantPort,
    QdrantHttps,
}


/// How a setting is labelled to the user.
pub open spec fn key_label(k: KeyChoice) -> Seq<char> {
    match k {
        KeyChoice::ApiKey => "API Key"@,
        KeyChoice::Model => "Model"@,
        KeyChoice::EmbeddingModel => "Embedding Model"@,
        KeyChoice::EmbeddingProvider => "Embedding Provider"@,
        KeyChoice::EmbeddingApiKey => "Embedding API Key"@,
        KeyChoice::UseTools => "Use Tools"@,
        KeyChoice::ForceLowercase => "Force Lowercase"@,
        KeyChoice::Provider => "Provider"@,
        KeyChoice::MaxTokens => "Max Tokens"@,
        KeyChoice::Temperature => "Temperature"@,
        KeyChoice::TopP => "Top P"@,
        KeyChoice::VectorSize => "Vector Size"@,
        KeyChoice::SimilarityThreshold => "Memory Similarity Threshold"@,
        KeyChoice::QdrantHost => "QDrant Host"@,
        KeyChoice::QdrantPort => "QDrant Port"@,
        KeyChoice::QdrantHttps => "Use HTTPs for QDrant"@,
    }
}


impl KeyChoice {
    /// The label shown to the user.
    pub fn label(&self) -> (r: String)
        ensures
            r@ == key_label(*self),
    {
        match self {
            KeyChoice::ApiKey => String::from_str("API Key"),
            KeyChoice::Model => String::from_str("Model"),
            KeyChoice::EmbeddingModel => String::from_str("Embedding Model"),
            KeyChoice::EmbeddingProvider => String::from_str("Embedding Provider"),
            KeyChoice::EmbeddingApiKey => String::from_str("Embedding API Key"),
            KeyChoice::UseTools => String::from_str("Use Tools"),
            KeyChoice::ForceLowercase => String::from_str("Force Lowercase"),
            KeyChoice::Provider => String::from_str("Provider"),
            KeyChoice::MaxTokens => String::from_str("Max Tokens"),
            KeyChoice::Temperature => String::from_str("Temperature"),
            KeyChoice::TopP => String::from_str("Top P"),
            KeyChoice::VectorSize => String::from_str("Vector Size"),
            KeyChoice::SimilarityThreshold => String::from_str("Memory Similarity Threshold"),
            KeyChoice::QdrantHost => String::from_str("QDrant Host"),
            KeyChoice::QdrantPort => String::from_str("QDrant Port"),
            KeyChoice::QdrantHttps => String::from_str("Use HTTPs for QDrant"),
        }
    }
}


} // verus!
