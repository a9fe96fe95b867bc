//! The generation loop as a state machine.
//!
//! A generation asks its caller for one piece of work at a time: a forward
//! call on some tokens, the sampling of one token, or the end. The caller
//! does the work and reports back; the machine decides what comes next. It
//! counts the tokens it hands to forward calls, so that the cost of a whole
//! generation can be read off its state.

use vstd::prelude::*;
use crate::error::{InputError, RuntimeError};

verus! {

/// What a generation is waiting for.
#[derive(Debug, Clone, Copy, PartialEq, Eq, Structural)]
pub enum Phase {
    /// The forward call on the whole prompt is under way.
    Prefill,
    /// Decoding: a token is to be sampled from the last logits.
    Sampling,
    /// Decoding: the forward call on the token just generated is under way.
    Forwarding,
    /// Nothing more: the generated tokens are complete.
    Done,
}

/// What the caller reports back.
#[derive(Debug, Clone, Copy, PartialEq, Eq, Structural)]
pub enum Reply {
    /// The forward call that was asked for has returned its logits.
    Logits,
    /// The token that was sampled from the last logits.
    Token(u32),
}

/// What the caller is asked to do next.
#[derive(Debug, Clone, PartialEq, Eq)]
pub enum Action {
    /// Run the model on `tokens`, the first of which stands at
    /// `position_offset`.
    Forward { tokens: Vec<u32>, position_offset: usize },
    /// Sample one token from the logits of the last position.
    Sample,
    /// Stop, and turn the generated tokens into text.
    Finish,
}

/// The state of a generation, as the contracts see it.
pub struct GenerationView {
    pub phase: Phase,
    /// Number of tokens in the prompt.
    pub prompt_len: nat,
    /// Largest number of tokens that may be generated.
    pub budget: nat,
    /// The token that ends the generation.
    pub eos: u32,
    /// The tokens generated so far.
    pub generated: Seq<u32>,
    /// Number of tokens whose forward call has returned: the length of the
    /// key/value cache.
    pub position_offset: nat,
    /// Number of tokens handed to forward calls so far.
    pub forwarded: nat,
}

/// A generation of at most `max_new_tokens` on a prompt of `prompt_len`
/// tokens can spend this many tokens: no position lies beyond `usize::MAX`.
pub open spec fn budget_for(prompt_len: nat, max_new_tokens: nat) -> nat {
    if prompt_len + max_new_tokens <= usize::MAX {
        max_new_tokens
    } else {
        (usize::MAX - prompt_len) as nat
    }
}

impl GenerationView {
    /// The state right after the start.
    pub open spec fn started(prompt_len: nat, max_new_tokens: nat, eos: u32) -> GenerationView {
        GenerationView {
            phase: Phase::Prefill,
            prompt_len,
            budget: budget_for(prompt_len, max_new_tokens),
            eos,
            generated: Seq::empty(),
            position_offset: 0,
            forwarded: prompt_len,
        }
    }

    /// The counters fit the phase: the cache holds every token whose forward
    /// call has returned, at most one forward call is under way, and the end
    /// token is never among the generated ones.
    pub open spec fn consistent(self) -> bool {
        &&& self.prompt_len + self.budget <= usize::MAX
        &&& self.generated.len() <= self.budget
        &&& forall|i: int| 0 <= i < self.generated.len() ==> self.generated[i] != self.eos
        &&& match self.phase {
            Phase::Prefill => {
                &&& self.generated.len() == 0
                &&& self.position_offset == 0
                &&& self.forwarded == self.prompt_len
            },
            Phase::Sampling => {
                &&& self.generated.len() < self.budget
                &&& self.position_offset == self.prompt_len + self.generated.len()
                &&& self.forwarded == self.position_offset
            },
            Phase::Forwarding => {
                &&& self.generated.len() > 0
                &&& self.position_offset + 1 == self.prompt_len + self.generated.len()
                &&& self.forwarded == self.position_offset + 1
            },
            Phase::Done => {
                &&& self.position_offset == self.prompt_len + self.generated.len()
                &&& self.forwarded == self.position_offset
            },
        }
    }

    /// The reply is the one that the state is waiting for.
    pub open spec fn accepts(self, reply: Reply) -> bool {
        match (self.phase, reply) {
            (Phase::Prefill, Reply::Logits) => true,
            (Phase::Forwarding, Reply::Logits) => true,
            (Phase::Sampling, Reply::Token(_)) => true,
            _ => false,
        }
    }

    /// The state that follows on a reply that is accepted.
    pub open spec fn after(self, reply: Reply) -> GenerationView {
        match reply {
            Reply::Logits => {
                let position_offset = self.forwarded;
                if self.generated.len() < self.budget {
                    GenerationView { phase: Phase::Sampling, position_offset, ..self }
                } else {
                    GenerationView { phase: Phase::Done, position_offset, ..self }
                }
            },
            Reply::Token(token) => {
                if token == self.eos {
                    GenerationView { phase: Phase::Done, ..self }
                } else {
                    GenerationView {
                        phase: Phase::Forwarding,
                        generated: self.generated.push(token),
                        forwarded: self.forwarded + 1,
                        ..self
                    }
                }
            },
        }
    }

    /// `action` is what a generation asks for on entering this state from a
    /// reply.
    pub open spec fn asks(self, action: Action) -> bool {
        match self.phase {
            Phase::Prefill => false,
            Phase::Sampling => action == Action::Sample,
            Phase::Forwarding => action matches Action::Forward { tokens, position_offset }
                && tokens@ == seq![self.generated.last()] && position_offset
                == self.position_offset,
            Phase::Done => action == Action::Finish,
        }
    }

    /// An upper bound on the number of replies that the generation still
    /// accepts.
    pub open spec fn steps_left(self) -> nat {
        match self.phase {
            Phase::Prefill => 2 * self.budget + 1,
            Phase::Sampling => (2 * (self.budget - self.generated.len())) as nat,
            Phase::Forwarding => (2 * (self.budget - self.generated.len()) + 1) as nat,
            Phase::Done => 0,
        }
    }
}

/// One generation request, from its start to its end.
pub struct Generation {
    phase: Phase,
    prompt_len: usize,
    budget: usize,
    eos: u32,
    generated: Vec<u32>,
    position_offset: usize,
    forwarded: usize,
}

impl View for Generation {
    type V = GenerationView;

    closed spec fn view(&self) -> GenerationView {
        GenerationView {
            phase: self.phase,
            prompt_len: self.prompt_len as nat,
            budget: self.budget as nat,
            eos: self.eos,
            generated: self.generated@,
            position_offset: self.position_offset as nat,
            forwarded: self.forwarded as nat,
        }
    }
}

impl Generation {
    #[verifier::type_invariant]
    spec fn well_formed(&self) -> bool {
        self@.consistent()
    }

    /// Starts a generation on a prompt. A prompt of more than `max_seq_len`
    /// tokens is refused; any other starts with the forward call on the whole
    /// prompt, at position 0.
    pub fn start(prompt: Vec<u32>, max_new_tokens: usize, max_seq_len: usize, eos: u32) -> (r:
        Result<(Generation, Action), InputError>)
        ensures
            prompt.len() > max_seq_len ==> r == Err::<(Generation, Action), InputError>(
                InputError::PromptTooLong { len: prompt.len(), max: max_seq_len },
            ),
            prompt.len() <= max_seq_len ==> r is Ok && r.unwrap().0@ == GenerationView::started(
                prompt.len() as nat,
                max_new_tokens as nat,
                eos,
            ) && r.unwrap().1 == (Action::Forward { tokens: prompt, position_offset: 0 }),
            r is Ok ==> r.unwrap().0@.consistent(),
    {
        let prompt_len = prompt.len();
        if prompt_len > max_seq_len {
            return Err(InputError::PromptTooLong { len: prompt_len, max: max_seq_len });
        }
        let room = usize::MAX - prompt_len;
        let budget = if max_new_tokens <= room {
            max_new_tokens
        } else {
            room
        };
        let generation = Generation {
            phase: Phase::Prefill,
            prompt_len,
            budget,
            eos,
            generated: Vec::new(),
            position_offset: 0,
            forwarded: prompt_len,
        };
        Ok((generation, Action::Forward { tokens: prompt, position_offset: 0 }))
    }

    /// Takes the caller's reply and says what to do next: the generation in
    /// its next state, and the work it asks for. A reply that the generation
    /// is not waiting for is refused and leaves the state as it was.
    pub fn step(self, reply: Reply) -> (r: (Generation, Result<Action, RuntimeError>))
        ensures
            !self@.accepts(reply) ==> r.1 == Err::<Action, RuntimeError>(RuntimeError::OutOfTurn)
                && r.0@ == self@,
            self@.accepts(reply) ==> r.1 is Ok && r.0@ == self@.after(reply) && r.0@.asks(
                r.1.unwrap(),
            ),
            self@.consistent(),
            r.0@.consistent(),
    {
        proof {
            use_type_invariant(&self);
        }
        let Generation { phase, prompt_len, budget, eos, generated, position_offset, forwarded } =
            self;
        match (phase, reply) {
            (Phase::Prefill, Reply::Logits) | (Phase::Forwarding, Reply::Logits) => {
                let (phase, action) = if generated.len() < budget {
                    (Phase::Sampling, Action::Sample)
                } else {
                    (Phase::Done, Action::Finish)
                };
                let next = Generation {
                    phase,
                    prompt_len,
                    budget,
                    eos,
                    generated,
                    position_offset: forwarded,
                    forwarded,
                };
                (next, Ok(action))
            },
            (Phase::Sampling, Reply::Token(token)) => {
                if token == eos {
                    let next = Generation {
                        phase: Phase::Done,
                        prompt_len,
                        budget,
                        eos,
                        generated,
                        position_offset,
                        forwarded,
                    };
                    (next, Ok(Action::Finish))
                } else {
                    let mut generated = generated;
                    generated.push(token);
                    let mut tokens: Vec<u32> = Vec::new();
                    tokens.push(token);
                    let next = Generation {
                        phase: Phase::Forwarding,
                        prompt_len,
                        budget,
                        eos,
                        generated,
                        position_offset,
                        forwarded: forwarded + 1,
                    };
                    (next, Ok(Action::Forward { tokens, position_offset }))
                }
            },
            _ => {
                let same = Generation {
                    phase,
                    prompt_len,
                    budget,
                    eos,
                    generated,
                    position_offset,
                    forwarded,
                };
                (same, Err(RuntimeError::OutOfTurn))
            },
        }
    }

    pub fn phase(&self) -> (r: Phase)
        ensures
            r == self@.phase,
    {
        self.phase
    }

    /// The tokens generated so far, without the prompt.
    pub fn generated(&self) -> (r: &Vec<u32>)
        ensures
            r@ == self@.generated,
    {
        &self.generated
    }

    /// Number of tokens whose forward call has returned.
    pub fn position_offset(&self) -> (r: usize)
        ensures
            r == self@.position_offset,
    {
        self.position_offset
    }

    /// Number of tokens handed to forward calls so far.
    pub fn forwarded(&self) -> (r: usize)
        ensures
            r == self@.forwarded,
    {
        self.forwarded
    }

    /// Ends the generation and hands out the generated tokens.
    pub fn into_tokens(self) -> (r: Vec<u32>)
        ensures
            r@ == self@.generated,
    {
        self.generated
    }
}

/// The action is a forward call on at least one token.
pub open spec fn starts_prefill(action: Action) -> bool {
    action matches Action::Forward { tokens, .. } && tokens.len() > 0
}

/// Every reply that is accepted keeps the state consistent and brings the
/// end nearer by at least one step.
pub proof fn lemma_step_makes_progress(state: GenerationView, reply: Reply)
    requires
        state.consistent(),
        state.accepts(reply),
    ensures
        state.after(reply).consistent(),
        state.after(reply).steps_left() < state.steps_left(),
{
}

/// The count of forwarded tokens is the sum over the forward calls that
/// were asked for: it starts as the length of the prompt, which the first
/// call is handed, and a reply adds to it exactly the tokens of the forward
/// call that it leads to, if it leads to one.
pub proof fn lemma_forwarded_counts_tokens(state: GenerationView, reply: Reply, action: Action)
    requires
        state.consistent(),
        state.accepts(reply),
        state.after(reply).asks(action),
    ensures
        action matches Action::Forward { tokens, .. } ==> state.after(reply).forwarded
            == state.forwarded + tokens.len(),
        !(action is Forward) ==> state.after(reply).forwarded == state.forwarded,
        GenerationView::started(state.prompt_len, state.budget, state.eos).forwarded
            == state.prompt_len,
{
}

/// The cost of a generation is linear: when it is done, the forward calls
/// have been handed as many tokens as the prompt and the generated tokens
/// together, each token once, and the cache holds them all.
pub proof fn lemma_forward_cost_is_linear(state: GenerationView)
    requires
        state.consistent(),
        state.phase == Phase::Done,
    ensures
        state.forwarded == state.prompt_len + state.generated.len(),
        state.position_offset == state.forwarded,
        state.generated.len() <= state.budget,
{
}

/// A forward call extends the cache by exactly the tokens it was handed:
/// the whole prompt in the prefill, one token in every later call.
pub proof fn lemma_cache_grows_by_forwarded(state: GenerationView)
    requires
        state.consistent(),
        state.accepts(Reply::Logits),
    ensures
        state.phase == Phase::Prefill ==> state.after(Reply::Logits).position_offset
            == state.position_offset + state.prompt_len,
        state.phase == Phase::Forwarding ==> state.after(Reply::Logits).position_offset
            == state.position_offset + 1,
        state.after(Reply::Logits).forwarded == state.forwarded,
{
}

/// With no token to generate, the prefill is the only forward call: its
/// reply ends the generation with nothing generated.
pub proof fn lemma_empty_budget_ends_after_prefill(prompt_len: nat, eos: u32)
    requires
        prompt_len <= usize::MAX,
    ensures
        GenerationView::started(prompt_len, 0, eos).after(Reply::Logits).phase == Phase::Done,
        GenerationView::started(prompt_len, 0, eos).after(Reply::Logits).generated.len() == 0,
        GenerationView::started(prompt_len, 0, eos).after(Reply::Logits).forwarded == prompt_len,
{
}

/// The first token that was found, in the order in which the names were
/// tried.
pub open spec fn first_found(found: Seq<Option<u32>>) -> Option<u32>
    decreases found.len(),
{
    if found.len() == 0 {
        None
    } else if found[0] is Some {
        found[0]
    } else {
        first_found(found.drop_first())
    }
}

/// The token that stands for "never stop early": the size of the
/// vocabulary, which no token of the vocabulary equals.
pub open spec fn sentinel(vocab_size: nat) -> u32 {
    if vocab_size <= u32::MAX {
        vocab_size as u32
    } else {
        u32::MAX
    }
}

/// The end token: the first of the known end tokens that the vocabulary
/// holds, or the sentinel where it holds none. `found` lists what the lookup
/// of each name gave, in order of priority.
pub fn resolve_eos(found: &Vec<Option<u32>>, vocab_size: usize) -> (eos: u32)
    ensures
        eos == match first_found(found@) {
            Some(token) => token,
            None => sentinel(vocab_size as nat),
        },
{
    let mut i: usize = 0;
    assert(found@.skip(0) =~= found@);
    while i < found.len()
        invariant
            i <= found.len(),
            first_found(found@) == first_found(found@.skip(i as int)),
        decreases found.len() - i,
    {
        assert(found@.skip(i as int).drop_first() =~= found@.skip(i + 1));
        if let Some(token) = found[i] {
            return token;
        }
        i = i + 1;
    }
    if vocab_size <= u32::MAX as usize {
        vocab_size as u32
    } else {
        u32::MAX
    }
}

} // verus!
