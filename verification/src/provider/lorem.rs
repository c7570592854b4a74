//! A test provider that streams "lorem ipsum" text and emits test errors during the stream.

use crate::provider::{chunk_view, ChunkView, LlmStreamChunk, LlmStreamChunkResult, LlmStreamError};
use vstd::prelude::*;

verus! {

/// Delay between two streamed words, in milliseconds, unless configured otherwise.
pub const DEFAULT_INTERVAL_MS: u32 = 400;

/// A test/dummy provider that streams 'lorem ipsum...' and emits test errors during the stream.
#[derive(Debug, Clone, Copy)]
pub struct LoremProvider {
    pub config: LoremConfig,
}

/// Configuration of the lorem provider: the delay between two streamed words, in milliseconds.
#[derive(Debug, Clone, Copy)]
pub struct LoremConfig {
    pub interval: u32,
}

impl LoremProvider {
    pub fn new() -> (r: Self)
        ensures
            r.config.interval == DEFAULT_INTERVAL_MS,
    {
        LoremProvider { config: LoremConfig { interval: DEFAULT_INTERVAL_MS } }
    }

    /// The answer to a single prompt.
    pub fn prompt(&self) -> (r: String)
        ensures
            r@ == "Lorem ipsum"@,
    {
        "Lorem ipsum".to_string()
    }
}

/// The pieces of text that the lorem stream sends, in order.
pub open spec fn lorem_words() -> Seq<Seq<char>> {
    seq![
        "Lorem ipsum "@, "dolor sit "@, "amet, consectetur "@, "adipiscing elit, "@, "sed do"@,
        " eiusmod tempor"@, " incididunt ut"@, " labore et"@, " dolore magna "@, "aliqua. Ut "@,
        "enim ad "@, "minim veniam,"@, " quis nostrud"@, " exercitation ullamco"@,
        " laboris nisi "@, "ut aliquip "@, "ex ea "@, "commodo consequat. "@, "Duis aute "@,
        "irure dolor "@, "in reprehenderit "@, "in voluptate "@, "velit esse "@,
        "cillum dolore "@, "eu fugiat "@, "nulla pariatur."@,
    ]
}

/// Whether a stream item is the lorem item at position `i` (from 0) of a stream of the given
/// words: every tenth item is a provider error "Test error" in place of its word, the others are
/// the words.
pub open spec fn is_lorem_item(c: LlmStreamChunkResult, words: Seq<Seq<char>>, i: int) -> bool {
    if (i + 1) % 10 == 0 {
        c matches Err(LlmStreamError::ProviderError(m)) && m@ == "Test error"@
    } else {
        chunk_view(c) == ChunkView::Text(words[i])
    }
}

/// The lorem stream: the words to send and the position of the next one. Each item is sent when the
/// provider's interval has ticked.
pub struct LoremStream {
    pub words: Vec<&'static str>,
    pub index: usize,
}

impl LoremStream {
    pub open spec fn words_view(&self) -> Seq<Seq<char>> {
        self.words@.map_values(|w: &'static str| w@)
    }

    /// The stream of the lorem words, from its start.
    pub fn new() -> (r: Self)
        ensures
            r.words_view() == lorem_words(),
            r.index == 0,
    {
        let words: Vec<&'static str> = vec![
            "Lorem ipsum ",
            "dolor sit ",
            "amet, consectetur ",
            "adipiscing elit, ",
            "sed do",
            " eiusmod tempor",
            " incididunt ut",
            " labore et",
            " dolore magna ",
            "aliqua. Ut ",
            "enim ad ",
            "minim veniam,",
            " quis nostrud",
            " exercitation ullamco",
            " laboris nisi ",
            "ut aliquip ",
            "ex ea ",
            "commodo consequat. ",
            "Duis aute ",
            "irure dolor ",
            "in reprehenderit ",
            "in voluptate ",
            "velit esse ",
            "cillum dolore ",
            "eu fugiat ",
            "nulla pariatur.",
        ];
        let r = LoremStream { words, index: 0 };
        assert(r.words_view() =~= lorem_words());
        r
    }

    /// The next item of the stream, once the interval has ticked: `None` when all words were sent;
    /// otherwise the word at the current position, or a test error at every tenth position.
    pub fn next_item(&mut self) -> (r: Option<LlmStreamChunkResult>)
        requires
            old(self).index <= old(self).words@.len(),
        ensures
            final(self).words == old(self).words,
            final(self).index <= final(self).words@.len(),
            old(self).index == old(self).words@.len() ==> r is None && final(self).index == old(self).index,
            old(self).index < old(self).words@.len() ==> final(self).index == old(self).index + 1
                && (r matches Some(c) && is_lorem_item(c, old(self).words_view(), old(self).index as int)),
    {
        if self.index >= self.words.len() {
            return None;
        }
        let word = self.words[self.index];
        self.index = self.index + 1;
        if self.index % 10 != 0 {
            Some(Ok(LlmStreamChunk::Text(word.to_string())))
        } else {
            Some(Err(LlmStreamError::ProviderError("Test error".to_string())))
        }
    }
}

} // verus!
