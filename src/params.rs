//! The parameters of one decode run. Every string or array that the engine
//! reads through a pointer is held here as an owned copy, so a pointer taken
//! from this store at the decode call stays valid for the whole call.
use vstd::prelude::*;
use vstd::string::StringSliceAdditionalSpecFns;

use crate::cstr::{no_nul, OwnedCStr};
use crate::error::WhisperError;

verus! {

/// How the decoder picks tokens.
#[derive(Debug, Clone, Copy, PartialEq, Eq, Structural)]
pub enum SamplingStrategy {
    /// Take the most likely token, keeping the best of `best_of` samples.
    Greedy { best_of: i32 },
    /// Beam search with `beam_size` beams.
    BeamSearch { beam_size: i32 },
}

/// What a parameter set holds.
pub ghost struct FullParamsView {
    pub strategy: SamplingStrategy,
    /// The language tag; `None` lets the engine detect the language.
    pub language: Option<Seq<u8>>,
    pub initial_prompt: Option<Seq<u8>>,
    /// The forced token sequence; empty when none is forced.
    pub forced_tokens: Seq<i32>,
    /// The number of threads; `None` leaves the engine's choice.
    pub n_threads: Option<i32>,
    pub translate: bool,
    pub no_context: bool,
    pub single_segment: bool,
    pub print_special: bool,
    pub print_progress: bool,
    pub print_realtime: bool,
    pub print_timestamps: bool,
    pub token_timestamps: bool,
    pub skip_encode: bool,
    pub capture_top_candidates: bool,
    pub n_top_candidates: i32,
}

impl FullParamsView {
    pub open spec fn with_language(self, language: Option<Seq<u8>>) -> FullParamsView {
        FullParamsView { language, ..self }
    }

    pub open spec fn with_initial_prompt(self, initial_prompt: Option<Seq<u8>>) -> FullParamsView {
        FullParamsView { initial_prompt, ..self }
    }

    pub open spec fn with_forced_tokens(self, forced_tokens: Seq<i32>) -> FullParamsView {
        FullParamsView { forced_tokens, ..self }
    }
}

/// Setting the language twice leaves exactly the second value installed:
/// nothing of the first copy remains observable.
pub proof fn lemma_language_set_twice(p: FullParamsView, first: Option<Seq<u8>>, second: Option<Seq<u8>>)
    ensures
        p.with_language(first).with_language(second) == p.with_language(second),
{
}

/// Setting the initial prompt twice leaves exactly the second value installed.
pub proof fn lemma_initial_prompt_set_twice(
    p: FullParamsView,
    first: Option<Seq<u8>>,
    second: Option<Seq<u8>>,
)
    ensures
        p.with_initial_prompt(first).with_initial_prompt(second) == p.with_initial_prompt(second),
{
}

/// Setting the forced tokens twice leaves exactly the second sequence installed.
pub proof fn lemma_forced_tokens_set_twice(p: FullParamsView, first: Seq<i32>, second: Seq<i32>)
    ensures
        p.with_forced_tokens(first).with_forced_tokens(second) == p.with_forced_tokens(second),
{
}

/// The parameters of a fresh set: the engine's documented defaults, with the
/// sampling strategy given.
pub open spec fn default_params(strategy: SamplingStrategy) -> FullParamsView {
    FullParamsView {
        strategy,
        language: None,
        initial_prompt: None,
        forced_tokens: Seq::empty(),
        n_threads: None,
        translate: false,
        no_context: true,
        single_segment: false,
        print_special: false,
        print_progress: true,
        print_realtime: false,
        print_timestamps: true,
        token_timestamps: false,
        skip_encode: false,
        capture_top_candidates: false,
        n_top_candidates: 0,
    }
}

/// A parameter set for one decode run, owning every string and array that
/// the engine will read through a pointer.
pub struct FullParams {
    strategy: SamplingStrategy,
    language: Option<OwnedCStr>,
    initial_prompt: Option<OwnedCStr>,
    forced_tokens: Vec<i32>,
    n_threads: Option<i32>,
    translate: bool,
    no_context: bool,
    single_segment: bool,
    print_special: bool,
    print_progress: bool,
    print_realtime: bool,
    print_timestamps: bool,
    token_timestamps: bool,
    skip_encode: bool,
    capture_top_candidates: bool,
    n_top_candidates: i32,
}

/// The text of an optional owned copy.
pub open spec fn owned_text(c: Option<OwnedCStr>) -> Option<Seq<u8>> {
    match c {
        Some(c) => Some(c@),
        None => None,
    }
}

impl View for FullParams {
    type V = FullParamsView;

    closed spec fn view(&self) -> FullParamsView {
        FullParamsView {
            strategy: self.strategy,
            language: owned_text(self.language),
            initial_prompt: owned_text(self.initial_prompt),
            forced_tokens: self.forced_tokens@,
            n_threads: self.n_threads,
            translate: self.translate,
            no_context: self.no_context,
            single_segment: self.single_segment,
            print_special: self.print_special,
            print_progress: self.print_progress,
            print_realtime: self.print_realtime,
            print_timestamps: self.print_timestamps,
            token_timestamps: self.token_timestamps,
            skip_encode: self.skip_encode,
            capture_top_candidates: self.capture_top_candidates,
            n_top_candidates: self.n_top_candidates,
        }
    }
}

impl FullParams {
    /// A parameter set with the engine's defaults and the given strategy.
    pub fn new(strategy: SamplingStrategy) -> (r: FullParams)
        ensures
            r@ == default_params(strategy),
    {
        FullParams {
            strategy,
            language: None,
            initial_prompt: None,
            forced_tokens: Vec::new(),
            n_threads: None,
            translate: false,
            no_context: true,
            single_segment: false,
            print_special: false,
            print_progress: true,
            print_realtime: false,
            print_timestamps: true,
            token_timestamps: false,
            skip_encode: false,
            capture_top_candidates: false,
            n_top_candidates: 0,
        }
    }

    /// Sets the language tag, replacing (and freeing) any earlier copy;
    /// `None` asks the engine to detect the language. A tag holding a NUL byte
    /// is refused and the set is left as it was.
    pub fn set_language(&mut self, language: Option<&str>) -> (r: Result<(), WhisperError>)
        ensures
            match language {
                None => r is Ok && final(self)@ == old(self)@.with_language(None),
                Some(s) => if no_nul(s.spec_bytes()) {
                    r is Ok && final(self)@ == old(self)@.with_language(Some(s.spec_bytes()))
                } else {
                    r == Err::<(), _>(WhisperError::NullByteInString) && final(self)@ == old(self)@
                },
            },
    {
        match language {
            None => {
                self.language = None;
                Ok(())
            },
            Some(s) => match OwnedCStr::new(s) {
                Ok(c) => {
                    self.language = Some(c);
                    Ok(())
                },
                Err(e) => Err(e),
            },
        }
    }

    /// Sets the initial prompt, replacing (and freeing) any earlier copy. A
    /// prompt holding a NUL byte is refused and the set is left as it was.
    pub fn set_initial_prompt(&mut self, prompt: &str) -> (r: Result<(), WhisperError>)
        ensures
            no_nul(prompt.spec_bytes()) ==> (r is Ok && final(self)@ == old(self)@.with_initial_prompt(
                Some(prompt.spec_bytes()),
            )),
            !no_nul(prompt.spec_bytes()) ==> (r == Err::<(), _>(WhisperError::NullByteInString)
                && final(self)@ == old(self)@),
    {
        match OwnedCStr::new(prompt) {
            Ok(c) => {
                self.initial_prompt = Some(c);
                Ok(())
            },
            Err(e) => Err(e),
        }
    }

    /// Removes the initial prompt and frees its copy.
    pub fn clear_initial_prompt(&mut self)
        ensures
            final(self)@ == old(self)@.with_initial_prompt(None),
    {
        self.initial_prompt = None;
    }

    /// Forces a copy of `tokens` as the start of the decoded sequence; an
    /// empty slice forces nothing.
    pub fn set_forced_tokens(&mut self, tokens: &[i32])
        ensures
            final(self)@ == old(self)@.with_forced_tokens(tokens@),
    {
        let mut copy: Vec<i32> = Vec::new();
        let mut i: usize = 0;
        while i < tokens.len()
            invariant
                i <= tokens@.len(),
                copy@ == tokens@.take(i as int),
            decreases tokens@.len() - i,
        {
            copy.push(tokens[i]);
            i = i + 1;
            assert(copy@ =~= tokens@.take(i as int));
        }
        assert(copy@ =~= tokens@);
        self.forced_tokens = copy;
    }

    /// Forces `tokens`, taken over without a copy, as the start of the decoded
    /// sequence; an empty vector forces nothing.
    pub fn set_forced_tokens_owned(&mut self, tokens: Vec<i32>)
        ensures
            final(self)@ == old(self)@.with_forced_tokens(tokens@),
    {
        self.forced_tokens = tokens;
    }

    /// Forces no token sequence any more, and frees the one held.
    pub fn clear_forced_tokens(&mut self)
        ensures
            final(self)@ == old(self)@.with_forced_tokens(Seq::empty()),
    {
        self.forced_tokens = Vec::new();
    }

    /// The owned copy of the language tag, if one is set.
    pub fn language(&self) -> (r: Option<&OwnedCStr>)
        ensures
            match r {
                Some(c) => self@.language == Some(c@),
                None => self@.language is None,
            },
    {
        match &self.language {
            Some(c) => Some(c),
            None => None,
        }
    }

    /// The sampling strategy.
    pub fn strategy(&self) -> (r: SamplingStrategy)
        ensures
            r == self@.strategy,
    {
        self.strategy
    }

    /// The owned copy of the initial prompt, if one is set.
    pub fn initial_prompt(&self) -> (r: Option<&OwnedCStr>)
        ensures
            match r {
                Some(c) => self@.initial_prompt == Some(c@),
                None => self@.initial_prompt is None,
            },
    {
        match &self.initial_prompt {
            Some(c) => Some(c),
            None => None,
        }
    }

    /// The forced token sequence, or `None` when none is forced: the engine
    /// is then handed a null pointer and a zero length, never an empty array.
    pub fn forced_tokens(&self) -> (r: Option<&[i32]>)
        ensures
            self@.forced_tokens.len() == 0 ==> r is None,
            self@.forced_tokens.len() > 0 ==> (r matches Some(t) && t@ == self@.forced_tokens),
    {
        if self.forced_tokens.len() == 0 {
            None
        } else {
            Some(self.forced_tokens.as_slice())
        }
    }

    /// The number of threads, if one was chosen.
    pub fn n_threads(&self) -> (r: Option<i32>)
        ensures
            r == self@.n_threads,
    {
        self.n_threads
    }

    /// Sets the number of threads the engine decodes with.
    pub fn set_n_threads(&mut self, n_threads: i32)
        ensures
            final(self)@ == (FullParamsView { n_threads: Some(n_threads), ..old(self)@ }),
    {
        self.n_threads = Some(n_threads);
    }

    /// How many candidates the engine keeps for each token when it keeps them.
    pub fn n_top_candidates(&self) -> (r: i32)
        ensures
            r == self@.n_top_candidates,
    {
        self.n_top_candidates
    }

    /// Sets how many candidates the engine keeps for each token.
    pub fn set_n_top_candidates(&mut self, n: i32)
        ensures
            final(self)@ == (FullParamsView { n_top_candidates: n, ..old(self)@ }),
    {
        self.n_top_candidates = n;
    }

    /// Whether to translate the transcript into English.
    pub fn translate(&self) -> (r: bool)
        ensures
            r == self@.translate,
    {
        self.translate
    }

    /// Sets whether to translate the transcript into English.
    pub fn set_translate(&mut self, translate: bool)
        ensures
            final(self)@ == (FullParamsView { translate, ..old(self)@ }),
    {
        self.translate = translate;
    }

    /// Whether to decode without the text of earlier runs as context.
    pub fn no_context(&self) -> (r: bool)
        ensures
            r == self@.no_context,
    {
        self.no_context
    }

    /// Sets whether to decode without the text of earlier runs as context.
    pub fn set_no_context(&mut self, no_context: bool)
        ensures
            final(self)@ == (FullParamsView { no_context, ..old(self)@ }),
    {
        self.no_context = no_context;
    }

    /// Whether to put the whole transcript in one segment.
    pub fn single_segment(&self) -> (r: bool)
        ensures
            r == self@.single_segment,
    {
        self.single_segment
    }

    /// Sets whether to put the whole transcript in one segment.
    pub fn set_single_segment(&mut self, single_segment: bool)
        ensures
            final(self)@ == (FullParamsView { single_segment, ..old(self)@ }),
    {
        self.single_segment = single_segment;
    }

    /// Whether the engine prints special tokens.
    pub fn print_special(&self) -> (r: bool)
        ensures
            r == self@.print_special,
    {
        self.print_special
    }

    /// Sets whether the engine prints special tokens.
    pub fn set_print_special(&mut self, print_special: bool)
        ensures
            final(self)@ == (FullParamsView { print_special, ..old(self)@ }),
    {
        self.print_special = print_special;
    }

    /// Whether the engine prints its progress.
    pub fn print_progress(&self) -> (r: bool)
        ensures
            r == self@.print_progress,
    {
        self.print_progress
    }

    /// Sets whether the engine prints its progress.
    pub fn set_print_progress(&mut self, print_progress: bool)
        ensures
            final(self)@ == (FullParamsView { print_progress, ..old(self)@ }),
    {
        self.print_progress = print_progress;
    }

    /// Whether the engine prints each segment as it is decoded.
    pub fn print_realtime(&self) -> (r: bool)
        ensures
            r == self@.print_realtime,
    {
        self.print_realtime
    }

    /// Sets whether the engine prints each segment as it is decoded.
    pub fn set_print_realtime(&mut self, print_realtime: bool)
        ensures
            final(self)@ == (FullParamsView { print_realtime, ..old(self)@ }),
    {
        self.print_realtime = print_realtime;
    }

    /// Whether the engine prints timestamps with what it prints.
    pub fn print_timestamps(&self) -> (r: bool)
        ensures
            r == self@.print_timestamps,
    {
        self.print_timestamps
    }

    /// Sets whether the engine prints timestamps with what it prints.
    pub fn set_print_timestamps(&mut self, print_timestamps: bool)
        ensures
            final(self)@ == (FullParamsView { print_timestamps, ..old(self)@ }),
    {
        self.print_timestamps = print_timestamps;
    }

    /// Whether the engine computes a timestamp for each token.
    pub fn token_timestamps(&self) -> (r: bool)
        ensures
            r == self@.token_timestamps,
    {
        self.token_timestamps
    }

    /// Sets whether the engine computes a timestamp for each token.
    pub fn set_token_timestamps(&mut self, token_timestamps: bool)
        ensures
            final(self)@ == (FullParamsView { token_timestamps, ..old(self)@ }),
    {
        self.token_timestamps = token_timestamps;
    }

    /// Whether the run reuses the session's last audio encoding and only decodes again; valid only right after a full run on the same session.
    pub fn skip_encode(&self) -> (r: bool)
        ensures
            r == self@.skip_encode,
    {
        self.skip_encode
    }

    /// Sets whether the run reuses the session's last audio encoding and only decodes again.
    pub fn set_skip_encode(&mut self, skip_encode: bool)
        ensures
            final(self)@ == (FullParamsView { skip_encode, ..old(self)@ }),
    {
        self.skip_encode = skip_encode;
    }

    /// Whether the engine keeps the most likely candidates of each token.
    pub fn capture_top_candidates(&self) -> (r: bool)
        ensures
            r == self@.capture_top_candidates,
    {
        self.capture_top_candidates
    }

    /// Sets whether the engine keeps the most likely candidates of each token.
    pub fn set_capture_top_candidates(&mut self, capture_top_candidates: bool)
        ensures
            final(self)@ == (FullParamsView { capture_top_candidates, ..old(self)@ }),
    {
        self.capture_top_candidates = capture_top_candidates;
    }
}

} // verus!
