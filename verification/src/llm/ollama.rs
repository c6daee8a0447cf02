//! Where a local Ollama server is reached, and how long a request may take.
use vstd::prelude::*;

verus! {

/// Ollama API endpoint configuration.
#[derive(Debug, Clone)]
pub struct OllamaConfig {
    pub base_url: String,
    /// Request timeout, in seconds.
    pub timeout_secs: u64,
}

impl Default for OllamaConfig {
    fn default() -> (r: Self)
        ensures
            r.base_url@ == "http://localhost:11434"@,
            r.timeout_secs == 120,
    {
        OllamaConfig { base_url: "http://localhost:11434".to_owned(), timeout_secs: 120 }
    }
}

} // verus!
