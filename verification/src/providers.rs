//! The model providers the server can route to.

use vstd::prelude::*;

verus! {

/// A provider of AI models.
#[derive(Clone, Copy, Debug, PartialEq, Eq, Hash, Structural)]
pub enum ModelProvider {
    OpenAI,
    Anthropic,
    AzureOpenAI,
    Bedrock,
    Cohere,
    Vertex,
}

} // verus!
