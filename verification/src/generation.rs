//! The token bookkeeping of autoregressive generation that every decoder
//! shares: the prompt's tokens, one sampled token per step up to the request's
//! budget, and the stop at the end-of-sequence token. Running the network and
//! choosing a token from its logits happen outside; this module decides what
//! happens with each chosen token.
use vstd::prelude::*;
use crate::common::GenerationConfig;

verus! {

/// The state of one generation request.
pub struct GenerationLoop {
    tokens: Vec<u32>,
    prompt_len: usize,
    budget: usize,
    eos_token_id: u32,
    steps: usize,
    finished: bool,
}

impl GenerationLoop {
    /// All tokens so far: the prompt, then the accepted tokens.
    pub closed spec fn spec_tokens(&self) -> Seq<u32> {
        self.tokens@
    }

    /// The prompt's tokens.
    pub closed spec fn spec_prompt(&self) -> Seq<u32> {
        self.tokens@.subrange(0, self.prompt_len as int)
    }

    /// The tokens accepted after the prompt.
    pub closed spec fn spec_generated(&self) -> Seq<u32> {
        self.tokens@.subrange(self.prompt_len as int, self.tokens@.len() as int)
    }

    /// How many tokens may be sampled in all.
    pub closed spec fn spec_budget(&self) -> nat {
        self.budget as nat
    }

    /// How many tokens have been sampled.
    pub closed spec fn spec_steps(&self) -> nat {
        self.steps as nat
    }

    /// The token that ends generation.
    pub closed spec fn spec_eos(&self) -> u32 {
        self.eos_token_id
    }

    /// The end-of-sequence token has been sampled.
    pub closed spec fn spec_finished(&self) -> bool {
        self.finished
    }

    /// The state is consistent: the prompt comes first; every sampled token
    /// but a final end-of-sequence one was appended; no appended token ends
    /// the sequence; and no more tokens were sampled than the budget allows.
    pub closed spec fn wf(&self) -> bool {
        &&& self.prompt_len <= self.tokens@.len()
        &&& self.steps <= self.budget
        &&& self.spec_generated().len() + (if self.finished { 1int } else { 0int }) == self.steps
        &&& forall|i: int| 0 <= i < self.spec_generated().len() ==> #[trigger] self.spec_generated()[i]
            != self.eos_token_id
    }

    /// Another token is to be sampled: the end of the sequence has not been
    /// reached and the budget is not spent.
    pub open spec fn spec_wants_token(&self) -> bool {
        !self.spec_finished() && self.spec_steps() < self.spec_budget()
    }

    fn with_budget(prompt: Vec<u32>, budget: usize, eos_token_id: u32) -> (r: Self)
        ensures
            r.wf(),
            r.spec_tokens() == prompt@,
            r.spec_prompt() == prompt@,
            r.spec_generated() == Seq::<u32>::empty(),
            r.spec_budget() == budget,
            r.spec_steps() == 0,
            r.spec_eos() == eos_token_id,
            !r.spec_finished(),
    {
        let prompt_len = prompt.len();
        let r = GenerationLoop { tokens: prompt, prompt_len, budget, eos_token_id, steps: 0, finished: false };
        assert(r.spec_prompt() =~= prompt@);
        assert(r.spec_generated() =~= Seq::<u32>::empty());
        r
    }

    /// Starts a request that runs the whole sequence through the model at
    /// every step: at most `max_new_tokens` tokens are sampled.
    pub fn new(prompt: Vec<u32>, config: &GenerationConfig) -> (r: Self)
        ensures
            r.wf(),
            r.spec_tokens() == prompt@,
            r.spec_prompt() == prompt@,
            r.spec_generated() == Seq::<u32>::empty(),
            r.spec_budget() == config.max_new_tokens,
            r.spec_steps() == 0,
            r.spec_eos() == config.eos_token_id,
            !r.spec_finished(),
    {
        Self::with_budget(prompt, config.max_new_tokens, config.eos_token_id)
    }

    /// Starts a request that first runs the prompt once and samples from it,
    /// then feeds one token per step. It samples as many tokens as a request
    /// started with `new`: at most `max_new_tokens`, so a request for none
    /// gives back the prompt and samples nothing from it.
    pub fn with_prefill(prompt: Vec<u32>, config: &GenerationConfig) -> (r: Self)
        ensures
            r.wf(),
            r.spec_tokens() == prompt@,
            r.spec_prompt() == prompt@,
            r.spec_generated() == Seq::<u32>::empty(),
            r.spec_budget() == config.max_new_tokens,
            r.spec_steps() == 0,
            r.spec_eos() == config.eos_token_id,
            !r.spec_finished(),
    {
        Self::with_budget(prompt, config.max_new_tokens, config.eos_token_id)
    }

    /// Whether another token is to be sampled.
    pub fn wants_token(&self) -> (r: bool)
        ensures
            r == self.spec_wants_token(),
    {
        !self.finished && self.steps < self.budget
    }

    /// Takes the token sampled at this step: the end-of-sequence token ends
    /// the request and is not kept; any other token is appended.
    pub fn accept(&mut self, token: u32)
        requires
            old(self).wf(),
            old(self).spec_wants_token(),
        ensures
            final(self).wf(),
            final(self).spec_prompt() == old(self).spec_prompt(),
            final(self).spec_budget() == old(self).spec_budget(),
            final(self).spec_eos() == old(self).spec_eos(),
            final(self).spec_steps() == old(self).spec_steps() + 1,
            token == old(self).spec_eos() ==> {
                &&& final(self).spec_finished()
                &&& final(self).spec_tokens() == old(self).spec_tokens()
                &&& final(self).spec_generated() == old(self).spec_generated()
            },
            token != old(self).spec_eos() ==> {
                &&& !final(self).spec_finished()
                &&& final(self).spec_tokens() == old(self).spec_tokens().push(token)
                &&& final(self).spec_generated() == old(self).spec_generated().push(token)
            },
    {
        let ghost before = *self;
        self.steps = self.steps + 1;
        if token == self.eos_token_id {
            self.finished = true;
            assert(self.spec_generated() =~= before.spec_generated());
            assert(self.spec_prompt() =~= before.spec_prompt());
        } else {
            self.tokens.push(token);
            assert(self.spec_generated() =~= before.spec_generated().push(token));
            assert(self.spec_prompt() =~= before.spec_prompt());
        }
    }

    /// All tokens so far: the prompt, then the accepted tokens.
    pub fn tokens(&self) -> (r: &[u32])
        ensures
            r@ == self.spec_tokens(),
    {
        self.tokens.as_slice()
    }

    /// The tokens of the finished request.
    pub fn into_tokens(self) -> (r: Vec<u32>)
        ensures
            r@ == self.spec_tokens(),
    {
        self.tokens
    }

    /// The token a recurrent model is fed at the next step: the last token so
    /// far, or 0 when there is none.
    pub fn last_token(&self) -> (r: u32)
        ensures
            r == (if self.spec_tokens().len() == 0 { 0 } else { self.spec_tokens().last() }),
    {
        if self.tokens.len() == 0 {
            0
        } else {
            self.tokens[self.tokens.len() - 1]
        }
    }

    /// How many leading tokens a recurrent model runs through to build its
    /// state before the first step: all but the last.
    pub fn warmup_len(&self) -> (r: usize)
        ensures
            r == (if self.spec_tokens().len() == 0 { 0 } else { self.spec_tokens().len() - 1 }),
    {
        if self.tokens.len() == 0 {
            0
        } else {
            self.tokens.len() - 1
        }
    }
}

/// The tokens of a consistent request are its prompt followed by what it
/// generated.
pub proof fn lemma_tokens_are_prompt_then_generated(s: GenerationLoop)
    requires
        s.wf(),
    ensures
        s.spec_tokens() == s.spec_prompt() + s.spec_generated(),
{
    assert(s.spec_tokens() =~= s.spec_prompt() + s.spec_generated());
}

/// A request never holds more than its prompt and its budget of tokens, and
/// no token after the prompt is the end-of-sequence token.
pub proof fn lemma_output_bounded_and_eos_free(s: GenerationLoop)
    requires
        s.wf(),
    ensures
        s.spec_tokens().len() <= s.spec_prompt().len() + s.spec_budget(),
        forall|i: int| 0 <= i < s.spec_generated().len() ==> #[trigger] s.spec_generated()[i] != s.spec_eos(),
{
    lemma_tokens_are_prompt_then_generated(s);
}

/// A request for no new tokens asks for none and gives back exactly its
/// prompt.
pub proof fn lemma_no_budget_gives_prompt(s: GenerationLoop)
    requires
        s.wf(),
        s.spec_budget() == 0,
    ensures
        !s.spec_wants_token(),
        s.spec_tokens() == s.spec_prompt(),
{
    lemma_tokens_are_prompt_then_generated(s);
    assert(s.spec_tokens() =~= s.spec_prompt());
}

/// Once the budget is spent, or the end-of-sequence token was sampled, no
/// further token is asked for.
pub proof fn lemma_stops(s: GenerationLoop)
    requires
        s.wf(),
        s.spec_finished() || s.spec_steps() == s.spec_budget(),
    ensures
        !s.spec_wants_token(),
{
}

/// Where the next token's logits lie in the flattened logits of a sequence
/// of `num_tokens` tokens over a vocabulary of `vocab_size`: the last row,
/// from `(num_tokens - 1) * vocab_size` for `vocab_size` entries.
pub fn last_logits_range(num_tokens: usize, vocab_size: usize) -> (r: (usize, usize))
    requires
        num_tokens >= 1,
        num_tokens * vocab_size <= usize::MAX,
    ensures
        r.0 == (num_tokens - 1) * vocab_size,
        r.1 == num_tokens * vocab_size,
        r.1 - r.0 == vocab_size,
{
    proof {
        assert((num_tokens - 1) * vocab_size + vocab_size == num_tokens * vocab_size) by (nonlinear_arith);
        assert(0 <= (num_tokens - 1) * vocab_size) by (nonlinear_arith)
            requires num_tokens >= 1;
    }
    let start = (num_tokens - 1) * vocab_size;
    (start, start + vocab_size)
}

/// The position of the last token in logits of shape `[batch, seq, vocab]`
/// or `[seq, vocab]`: the sequence length less one.
pub fn last_position(dims: &[usize]) -> (r: usize)
    requires
        dims@.len() >= 1,
        dims@.len() == 3 ==> dims@[1] >= 1,
        dims@.len() != 3 ==> dims@[0] >= 1,
    ensures
        r == (if dims@.len() == 3 { dims@[1] - 1 } else { dims@[0] - 1 }),
{
    if dims.len() == 3 {
        dims[1] - 1
    } else {
        dims[0] - 1
    }
}

} // verus!
