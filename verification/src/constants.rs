//! The fixed parameters of the pipeline.

use vstd::prelude::*;

verus! {

/// The model that embeds prompts and chunks.
pub const EMBEDDING_MODEL: &'static str = "text-embedding-3-small";

/// The model that answers.
pub const CHAT_MODEL: &'static str = "gpt-4o-mini";

/// The most characters a context may hold; a longer one is cut there.
pub const MAX_CONTEXT_CHARS: usize = 12000;

/// How many nearest neighbours a retrieval asks for.
pub const TOP_K: u32 = 5;

} // verus!
