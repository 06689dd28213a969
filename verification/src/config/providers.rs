//! Credentials of the model providers.

use crate::config::builder::{ConfigItem, Row, or_not_set, push_item, redact_sensitive, redacted, row, rows, shown};
use vstd::prelude::*;

verus! {

/// OpenAI.
#[derive(Clone, Debug)]
pub struct OpenAIConfig {
    /// API key.
    pub api_key: String,
    /// Address of the API, where it is not the usual one.
    pub base_url: String,
}

impl OpenAIConfig {
    /// Every field holds its default.
    pub open spec fn is_default(&self) -> bool {
        &&& self.api_key@ == Seq::<char>::empty()
        &&& self.base_url@ == Seq::<char>::empty()
    }

    /// The rows this record adds to the debug table.
    pub open spec fn debug_rows(&self) -> Seq<Row> {
        seq![
            row("OpenAI"@, "API Key"@, redacted(self.api_key@)),
        ]
    }

    /// Appends this record's rows to the debug table.
    pub fn add_to_debug(&self, items: &mut Vec<ConfigItem>)
        ensures
            rows(final(items)@) == rows(old(items)@) + self.debug_rows(),
    {
        push_item(items, "OpenAI", "API Key", redact_sensitive(self.api_key.as_str()));
    }
}

impl Default for OpenAIConfig {
    fn default() -> (out: Self)
        ensures
            out.is_default(),
    {
        OpenAIConfig {
            api_key: String::new(),
            base_url: String::new(),
        }
    }
}

/// Anthropic.
#[derive(Clone, Debug)]
pub struct AnthropicConfig {
    /// API key.
    pub api_key: String,
    /// Address of the API, where it is not the usual one.
    pub base_url: String,
}

impl AnthropicConfig {
    /// Every field holds its default.
    pub open spec fn is_default(&self) -> bool {
        &&& self.api_key@ == Seq::<char>::empty()
        &&& self.base_url@ == Seq::<char>::empty()
    }

    /// The rows this record adds to the debug table.
    pub open spec fn debug_rows(&self) -> Seq<Row> {
        seq![
            row("Anthropic"@, "API Key"@, redacted(self.api_key@)),
            row("Anthropic"@, "Base URL"@, if self.base_url@.len() == 0 { "<default>"@ } else { self.base_url@ }),
        ]
    }

    /// Appends this record's rows to the debug table.
    pub fn add_to_debug(&self, items: &mut Vec<ConfigItem>)
        ensures
            rows(final(items)@) == rows(old(items)@) + self.debug_rows(),
    {
        push_item(items, "Anthropic", "API Key", redact_sensitive(self.api_key.as_str()));
        push_item(items, "Anthropic", "Base URL", if self.base_url.as_str().is_empty() { String::from_str("<default>") } else { self.base_url.clone() });
    }
}

impl Default for AnthropicConfig {
    fn default() -> (out: Self)
        ensures
            out.is_default(),
    {
        AnthropicConfig {
            api_key: String::new(),
            base_url: String::new(),
        }
    }
}

/// AWS Bedrock.
#[derive(Clone, Debug)]
pub struct BedrockConfig {
    /// API key.
    pub api_key: String,
    /// Access key.
    pub access_key: String,
    /// Address of the API, where it is not the usual one.
    pub base_url: String,
}

impl BedrockConfig {
    /// Every field holds its default.
    pub open spec fn is_default(&self) -> bool {
        &&& self.api_key@ == Seq::<char>::empty()
        &&& self.access_key@ == Seq::<char>::empty()
        &&& self.base_url@ == Seq::<char>::empty()
    }

    /// The rows this record adds to the debug table.
    pub open spec fn debug_rows(&self) -> Seq<Row> {
        seq![
            row("AWS Bedrock"@, "API Key"@, redacted(self.api_key@)),
            row("AWS Bedrock"@, "Access Key"@, redacted(self.access_key@)),
        ]
    }

    /// Appends this record's rows to the debug table.
    pub fn add_to_debug(&self, items: &mut Vec<ConfigItem>)
        ensures
            rows(final(items)@) == rows(old(items)@) + self.debug_rows(),
    {
        push_item(items, "AWS Bedrock", "API Key", redact_sensitive(self.api_key.as_str()));
        push_item(items, "AWS Bedrock", "Access Key", redact_sensitive(self.access_key.as_str()));
    }
}

impl Default for BedrockConfig {
    fn default() -> (out: Self)
        ensures
            out.is_default(),
    {
        BedrockConfig {
            api_key: String::new(),
            access_key: String::new(),
            base_url: String::new(),
        }
    }
}

/// Cohere.
#[derive(Clone, Debug)]
pub struct CohereConfig {
    /// API key.
    pub api_key: String,
    /// Address of the API, where it is not the usual one.
    pub base_url: String,
}

impl CohereConfig {
    /// Every field holds its default.
    pub open spec fn is_default(&self) -> bool {
        &&& self.api_key@ == Seq::<char>::empty()
        &&& self.base_url@ == Seq::<char>::empty()
    }

    /// The rows this record adds to the debug table.
    pub open spec fn debug_rows(&self) -> Seq<Row> {
        seq![
            row("Cohere"@, "API Key"@, redacted(self.api_key@)),
        ]
    }

    /// Appends this record's rows to the debug table.
    pub fn add_to_debug(&self, items: &mut Vec<ConfigItem>)
        ensures
            rows(final(items)@) == rows(old(items)@) + self.debug_rows(),
    {
        push_item(items, "Cohere", "API Key", redact_sensitive(self.api_key.as_str()));
    }
}

impl Default for CohereConfig {
    fn default() -> (out: Self)
        ensures
            out.is_default(),
    {
        CohereConfig {
            api_key: String::new(),
            base_url: String::new(),
        }
    }
}

/// Azure OpenAI.
#[derive(Clone, Debug)]
pub struct AzureOpenAIConfig {
    /// API key.
    pub api_key: String,
    /// Address of the deployment.
    pub endpoint: String,
}

impl AzureOpenAIConfig {
    /// Every field holds its default.
    pub open spec fn is_default(&self) -> bool {
        &&& self.api_key@ == Seq::<char>::empty()
        &&& self.endpoint@ == Seq::<char>::empty()
    }

    /// The rows this record adds to the debug table.
    pub open spec fn debug_rows(&self) -> Seq<Row> {
        seq![
            row("Azure OpenAI"@, "API Key"@, redacted(self.api_key@)),
            row("Azure OpenAI"@, "Endpoint"@, shown(self.endpoint@)),
        ]
    }

    /// Appends this record's rows to the debug table.
    pub fn add_to_debug(&self, items: &mut Vec<ConfigItem>)
        ensures
            rows(final(items)@) == rows(old(items)@) + self.debug_rows(),
    {
        push_item(items, "Azure OpenAI", "API Key", redact_sensitive(self.api_key.as_str()));
        push_item(items, "Azure OpenAI", "Endpoint", or_not_set(&self.endpoint));
    }
}

impl Default for AzureOpenAIConfig {
    fn default() -> (out: Self)
        ensures
            out.is_default(),
    {
        AzureOpenAIConfig {
            api_key: String::new(),
            endpoint: String::new(),
        }
    }
}

/// Google Vertex AI.
#[derive(Clone, Debug)]
pub struct VertexConfig {
    /// Project the models run in.
    pub project_id: String,
    /// Path of the credentials file.
    pub credentials: String,
    /// Address of the API, where it is not the usual one.
    pub base_url: String,
}

impl VertexConfig {
    /// Every field holds its default.
    pub open spec fn is_default(&self) -> bool {
        &&& self.project_id@ == Seq::<char>::empty()
        &&& self.credentials@ == Seq::<char>::empty()
        &&& self.base_url@ == Seq::<char>::empty()
    }

    /// The rows this record adds to the debug table.
    pub open spec fn debug_rows(&self) -> Seq<Row> {
        seq![
            row("Google Vertex AI"@, "Project ID"@, shown(self.project_id@)),
            row("Google Vertex AI"@, "Credentials Path"@, shown(self.credentials@)),
        ]
    }

    /// Appends this record's rows to the debug table.
    pub fn add_to_debug(&self, items: &mut Vec<ConfigItem>)
        ensures
            rows(final(items)@) == rows(old(items)@) + self.debug_rows(),
    {
        push_item(items, "Google Vertex AI", "Project ID", or_not_set(&self.project_id));
        push_item(items, "Google Vertex AI", "Credentials Path", or_not_set(&self.credentials));
    }
}

impl Default for VertexConfig {
    fn default() -> (out: Self)
        ensures
            out.is_default(),
    {
        VertexConfig {
            project_id: String::new(),
            credentials: String::new(),
            base_url: String::new(),
        }
    }
}

} // verus!
