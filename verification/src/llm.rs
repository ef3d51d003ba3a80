//! The integer side of the language-model front end: argument checks, the
//! token-id range check of a model step, and the rounds of speculative
//! decoding. The forward passes and the greedy picks themselves are floating
//! point; they hand this module token ids.

use vstd::prelude::*;
use crate::error::Error;
use crate::fmt::{append_decimal, decimal};
use crate::text::str_eq;

verus! {

/// How many draft tokens speculative decoding proposed over one generation,
/// and how many of them the target model accepted.
#[derive(Debug, Clone, Copy, Default, PartialEq, Eq)]
pub struct SpeculativeStats {
    /// Draft tokens that were checked against the target model.
    pub proposed: usize,
    /// Of those, the ones equal to the target model's greedy choice.
    pub accepted: usize,
}

/// The row of the embedding table that a token id selects, if the id is in
/// the vocabulary.
pub fn check_token_id(token_id: u32, vocab_size: usize) -> (r: Result<usize, Error>)
    ensures
        token_id < vocab_size ==> r == Ok::<usize, Error>(token_id as usize),
        token_id >= vocab_size ==> r == Err::<usize, Error>(
            Error::TokenOutOfRange { token: token_id, vocab: vocab_size },
        ),
{
    let tok = token_id as usize;
    if tok < vocab_size {
        Ok(tok)
    } else {
        Err(Error::TokenOutOfRange { token: token_id, vocab: vocab_size })
    }
}

/// The argument contract of speculative decoding, checked in this order: a
/// non-empty prompt, at least one draft token per round, one vocabulary for
/// both models, and no model with compressed (MLA) key/value caches.
pub open spec fn speculative_args(
    prompt_len: usize,
    draft_k: usize,
    target_vocab: usize,
    draft_vocab: usize,
    any_mla: bool,
) -> Result<(), Error> {
    if prompt_len == 0 {
        Err(Error::Speculative("prompt_ids must not be empty"))
    } else if draft_k < 1 {
        Err(Error::Speculative("draft_k must be >= 1"))
    } else if target_vocab != draft_vocab {
        Err(Error::VocabMismatch { target: target_vocab, draft: draft_vocab })
    } else if any_mla {
        Err(
            Error::Speculative(
                "MLA-compressed models are not supported yet (KvCacheHead::truncate only handles full-precision caches)",
            ),
        )
    } else {
        Ok(())
    }
}

/// Check the arguments of speculative decoding (see `speculative_args`).
pub fn check_speculative_args(
    prompt_len: usize,
    draft_k: usize,
    target_vocab: usize,
    draft_vocab: usize,
    any_mla: bool,
) -> (r: Result<(), Error>)
    ensures
        r == speculative_args(prompt_len, draft_k, target_vocab, draft_vocab, any_mla),
        r is Ok <==> (prompt_len > 0 && draft_k >= 1 && target_vocab == draft_vocab && !any_mla),
{
    if prompt_len == 0 {
        return Err(Error::Speculative("prompt_ids must not be empty"));
    }
    if draft_k < 1 {
        return Err(Error::Speculative("draft_k must be >= 1"));
    }
    if target_vocab != draft_vocab {
        return Err(Error::VocabMismatch { target: target_vocab, draft: draft_vocab });
    }
    if any_mla {
        return Err(
            Error::Speculative(
                "MLA-compressed models are not supported yet (KvCacheHead::truncate only handles full-precision caches)",
            ),
        );
    }
    Ok(())
}

/// The number of draft tokens of one round: at most `draft_k`, at most the
/// tokens still wanted, and at most the positions left before `max_seq_len`;
/// at least one.
pub open spec fn spec_round_size(draft_k: usize, remaining: usize, max_seq_len: usize, pos: usize) -> nat {
    let room: int = if pos >= max_seq_len { 0 } else { max_seq_len - pos };
    let a: int = if draft_k <= remaining { draft_k as int } else { remaining as int };
    let least: int = if a <= room { a } else { room };
    if least == 0 { 1 } else { least as nat }
}

/// The size of the next round (see `spec_round_size`).
pub fn round_size(draft_k: usize, remaining: usize, max_seq_len: usize, pos: usize) -> (k: usize)
    ensures
        k == spec_round_size(draft_k, remaining, max_seq_len, pos),
        k >= 1,
{
    let room = max_seq_len.saturating_sub(pos);
    let a = if draft_k <= remaining { draft_k } else { remaining };
    let least = if a <= room { a } else { room };
    if least == 0 { 1 } else { least }
}

/// The number of leading draft tokens that equal the target's picks.
pub open spec fn agreed_prefix(draft: Seq<u32>, target: Seq<u32>) -> nat
    decreases draft.len(),
{
    if draft.len() == 0 || target.len() == 0 || draft[0] != target[0] {
        0
    } else {
        1 + agreed_prefix(draft.drop_first(), target.drop_first())
    }
}

/// `agreed_prefix` is the first position where the draft token differs from
/// the target's pick, or the draft's length when none does.
pub proof fn lemma_agreed_prefix(draft: Seq<u32>, target: Seq<u32>)
    requires
        target.len() > draft.len(),
    ensures
        agreed_prefix(draft, target) <= draft.len(),
        forall|i: int| 0 <= i < agreed_prefix(draft, target) ==> draft[i] == target[i],
        agreed_prefix(draft, target) < draft.len() ==> draft[agreed_prefix(draft, target) as int]
            != target[agreed_prefix(draft, target) as int],
    decreases draft.len(),
{
    if draft.len() > 0 && draft[0] == target[0] {
        lemma_agreed_prefix(draft.drop_first(), target.drop_first());
        let m = agreed_prefix(draft, target);
        assert forall|i: int| 0 <= i < m implies draft[i] == target[i] by {
            if i > 0 {
                assert(draft.drop_first()[i - 1] == target.drop_first()[i - 1]);
            }
        }
    }
}

/// What one round emits: the target's picks at the agreed positions and the
/// one after them, cut at `max_new_tokens` tokens in all.
pub open spec fn round_output(
    output: Seq<u32>,
    draft: Seq<u32>,
    target: Seq<u32>,
    max_new_tokens: usize,
) -> Seq<u32> {
    let full = output + target.take(agreed_prefix(draft, target) + 1int);
    if full.len() <= max_new_tokens {
        full
    } else {
        full.take(max_new_tokens as int)
    }
}

/// One round of speculative decoding. `draft_tokens` are the `k` tokens the
/// draft model proposed; `target_picks[i]` is the target model's greedy pick
/// at the position of `draft_tokens[i]` (and `target_picks[k]` the one after
/// them). The agreed draft tokens and then the target's own pick are
/// appended to `output`, up to `max_new_tokens` tokens; the number agreed is
/// returned and counted in `stats`.
pub fn speculative_round(
    output: &mut Vec<u32>,
    stats: &mut SpeculativeStats,
    draft_tokens: &[u32],
    target_picks: &[u32],
    max_new_tokens: usize,
) -> (m: usize)
    requires
        draft_tokens.len() >= 1,
        target_picks.len() == draft_tokens.len() + 1,
        old(output).len() < max_new_tokens,
        old(stats).proposed + draft_tokens.len() <= usize::MAX,
        old(stats).accepted + agreed_prefix(draft_tokens@, target_picks@) <= usize::MAX,
    ensures
        m == agreed_prefix(draft_tokens@, target_picks@),
        m <= draft_tokens.len(),
        forall|i: int| 0 <= i < m ==> draft_tokens@[i] == target_picks@[i],
        m < draft_tokens.len() ==> draft_tokens@[m as int] != target_picks@[m as int],
        final(stats).proposed == old(stats).proposed + draft_tokens.len(),
        final(stats).accepted == old(stats).accepted + m,
        final(output)@ == round_output(old(output)@, draft_tokens@, target_picks@, max_new_tokens),
{
    proof {
        lemma_agreed_prefix(draft_tokens@, target_picks@);
    }
    let k = draft_tokens.len();
    stats.proposed = stats.proposed + k;
    let mut m: usize = 0;
    while m < k && draft_tokens[m] == target_picks[m]
        invariant
            k == draft_tokens.len(),
            target_picks.len() == k + 1,
            m <= k,
            forall|i: int| 0 <= i < m ==> draft_tokens@[i] == target_picks@[i],
            agreed_prefix(draft_tokens@, target_picks@) <= k,
            forall|i: int|
                0 <= i < agreed_prefix(draft_tokens@, target_picks@) ==> draft_tokens@[i]
                    == target_picks@[i],
            agreed_prefix(draft_tokens@, target_picks@) < k ==> draft_tokens@[agreed_prefix(
                draft_tokens@,
                target_picks@,
            ) as int] != target_picks@[agreed_prefix(draft_tokens@, target_picks@) as int],
            m <= agreed_prefix(draft_tokens@, target_picks@),
        decreases k - m,
    {
        m = m + 1;
    }
    assert(m == agreed_prefix(draft_tokens@, target_picks@));
    stats.accepted = stats.accepted + m;
    let correction = target_picks[m];
    let ghost start = output@;
    let mut i: usize = 0;
    while i < m
        invariant
            m <= k,
            k == draft_tokens.len(),
            target_picks.len() == k + 1,
            i <= m,
            forall|j: int| 0 <= j < m ==> draft_tokens@[j] == target_picks@[j],
            start.len() < max_new_tokens,
            output@ == (start + target_picks@.take(i as int)).take(output@.len() as int),
            output@.len() == if start.len() + i <= max_new_tokens {
                start.len() + i
            } else {
                max_new_tokens as int
            },
        ensures
            i == m || output@.len() >= max_new_tokens,
            i <= m,
            output@ == (start + target_picks@.take(i as int)).take(output@.len() as int),
            output@.len() <= max_new_tokens,
            output@.len() == start.len() + i || output@.len() == max_new_tokens,
        decreases m - i,
    {
        if output.len() >= max_new_tokens {
            break;
        }
        output.push(draft_tokens[i]);
        i = i + 1;
        assert(output@ =~= (start + target_picks@.take(i as int)).take(output@.len() as int));
    }
    let ghost full = start + target_picks@.take(m + 1int);
    if output.len() < max_new_tokens {
        assert(i == m);
        assert(output@ =~= start + target_picks@.take(m as int));
        output.push(correction);
        assert(output@ =~= full);
    } else {
        assert(output@ =~= full.take(max_new_tokens as int));
    }
    assert(output@ =~= round_output(start, draft_tokens@, target_picks@, max_new_tokens));
    m
}

/// The state of one speculative generation between rounds: the tokens
/// emitted so far, the counts, the position of the next token in the
/// sequence (prompt included), and the limits the generation was started
/// with.
pub struct SpeculativeDecode {
    pub output: Vec<u32>,
    pub stats: SpeculativeStats,
    pub pos: usize,
    pub max_new_tokens: usize,
    pub draft_k: usize,
    pub max_seq_len: usize,
}

/// Where the caches stand after a round: the agreed count, the target's
/// pick that followed it (the token both models are fed next), and the
/// lengths the target's and the draft's key/value caches are cut back to
/// before that token is fed.
#[derive(Debug, Clone, Copy, PartialEq, Eq, Structural)]
pub struct RoundCommit {
    pub accepted: usize,
    pub correction: u32,
    pub target_keep: usize,
    pub draft_keep: usize,
}

/// Start a speculative generation: the arguments are checked (see
/// `speculative_args`); on success nothing is emitted or counted yet and the
/// next position is the one after the prompt.
pub fn begin_speculative(
    prompt_len: usize,
    draft_k: usize,
    target_vocab: usize,
    draft_vocab: usize,
    any_mla: bool,
    max_new_tokens: usize,
    max_seq_len: usize,
) -> (r: Result<SpeculativeDecode, Error>)
    ensures
        speculative_args(prompt_len, draft_k, target_vocab, draft_vocab, any_mla) matches Err(e)
            ==> r == Err::<SpeculativeDecode, Error>(e),
        speculative_args(prompt_len, draft_k, target_vocab, draft_vocab, any_mla) is Ok ==> (
        r matches Ok(s) && {
            &&& s.output@ == Seq::<u32>::empty()
            &&& s.stats == (SpeculativeStats { proposed: 0, accepted: 0 })
            &&& s.pos == prompt_len
            &&& s.max_new_tokens == max_new_tokens
            &&& s.draft_k == draft_k
            &&& s.max_seq_len == max_seq_len
        }),
{
    check_speculative_args(prompt_len, draft_k, target_vocab, draft_vocab, any_mla)?;
    Ok(
        SpeculativeDecode {
            output: Vec::new(),
            stats: SpeculativeStats { proposed: 0, accepted: 0 },
            pos: prompt_len,
            max_new_tokens,
            draft_k,
            max_seq_len,
        },
    )
}

/// The tokens a generation hands back: what was emitted, at most
/// `max_new_tokens` of it.
pub open spec fn finished_output(output: Seq<u32>, max_new_tokens: usize) -> Seq<u32> {
    if output.len() <= max_new_tokens {
        output
    } else {
        output.take(max_new_tokens as int)
    }
}

impl SpeculativeDecode {
    /// The number of draft tokens of the next round, or `None` when enough
    /// tokens were emitted and the generation is done.
    pub fn next_round(&self) -> (r: Option<usize>)
        ensures
            self.output@.len() >= self.max_new_tokens ==> r is None,
            self.output@.len() < self.max_new_tokens ==> r == Some(
                spec_round_size(
                    self.draft_k,
                    (self.max_new_tokens - self.output@.len()) as usize,
                    self.max_seq_len,
                    self.pos,
                ) as usize,
            ),
    {
        if self.output.len() >= self.max_new_tokens {
            None
        } else {
            Some(
                round_size(
                    self.draft_k,
                    self.max_new_tokens - self.output.len(),
                    self.max_seq_len,
                    self.pos,
                ),
            )
        }
    }

    /// Commit a round (see `speculative_round`) and advance the position past
    /// the agreed tokens and the target's pick after them.
    pub fn commit_round(&mut self, draft_tokens: &[u32], target_picks: &[u32]) -> (r: RoundCommit)
        requires
            draft_tokens.len() >= 1,
            target_picks.len() == draft_tokens.len() + 1,
            old(self).output@.len() < old(self).max_new_tokens,
            old(self).stats.proposed + draft_tokens.len() <= usize::MAX,
            old(self).stats.accepted + agreed_prefix(draft_tokens@, target_picks@) <= usize::MAX,
            old(self).pos + agreed_prefix(draft_tokens@, target_picks@) + 1 <= usize::MAX,
        ensures
            r.accepted == agreed_prefix(draft_tokens@, target_picks@),
            r.correction == target_picks@[r.accepted as int],
            r.target_keep == old(self).pos + r.accepted,
            r.draft_keep == old(self).pos,
            final(self).pos == old(self).pos + r.accepted + 1,
            final(self).output@ == round_output(
                old(self).output@,
                draft_tokens@,
                target_picks@,
                old(self).max_new_tokens,
            ),
            final(self).stats.proposed == old(self).stats.proposed + draft_tokens.len(),
            final(self).stats.accepted == old(self).stats.accepted + r.accepted,
            final(self).max_new_tokens == old(self).max_new_tokens,
            final(self).draft_k == old(self).draft_k,
            final(self).max_seq_len == old(self).max_seq_len,
    {
        let max = self.max_new_tokens;
        let m = speculative_round(&mut self.output, &mut self.stats, draft_tokens, target_picks, max);
        let commit = RoundCommit {
            accepted: m,
            correction: target_picks[m],
            target_keep: self.pos + m,
            draft_keep: self.pos,
        };
        self.pos = self.pos + m + 1;
        commit
    }

    /// End the generation: the emitted tokens, cut at `max_new_tokens`, and
    /// the counts.
    pub fn finish(self) -> (r: (Vec<u32>, SpeculativeStats))
        ensures
            r.0@ == finished_output(self.output@, self.max_new_tokens),
            r.1 == self.stats,
    {
        let mut out = self.output;
        if out.len() > self.max_new_tokens {
            out.truncate(self.max_new_tokens);
        }
        (out, self.stats)
    }
}

/// A generation asked for no tokens hands back nothing and counts nothing:
/// from the state `begin_speculative` gives, no round runs (`next_round` is
/// `None`) and the finished output is empty.
pub proof fn law_zero_tokens_emit_nothing(output: Seq<u32>, stats: SpeculativeStats, max_new_tokens: usize)
    requires
        output == Seq::<u32>::empty(),
        stats == (SpeculativeStats { proposed: 0, accepted: 0 }),
        max_new_tokens == 0,
    ensures
        output.len() >= max_new_tokens,
        finished_output(output, max_new_tokens) == Seq::<u32>::empty(),
        stats.proposed == 0 && stats.accepted == 0,
{
}

/// Check a compressed key/value rank: `0 < d_c < head_dim`. `context` names
/// the call in the refusal.
pub fn check_mla_rank(d_c: usize, head_dim: usize, context: &'static str) -> (r: Result<(), Error>)
    ensures
        0 < d_c < head_dim ==> r is Ok,
        !(0 < d_c < head_dim) ==> r == Err::<(), Error>(Error::MlaRank { context, d_c, head_dim }),
{
    if d_c > 0 && d_c < head_dim {
        Ok(())
    } else {
        Err(Error::MlaRank { context, d_c, head_dim })
    }
}

/// The integer and text settings of a DeepSeek configuration that decide
/// whether a model can be loaded.
#[derive(Debug, Clone, PartialEq, Eq)]
pub struct DeepseekSettings {
    pub num_heads: usize,
    pub qk_rope_head_dim: usize,
    pub q_lora_rank: Option<usize>,
    pub kv_lora_rank: usize,
    pub num_layers: usize,
    pub first_k_dense_replace: usize,
    pub scoring_func: String,
    pub topk_method: String,
    pub n_routed_experts: usize,
    pub num_experts_per_tok: usize,
    pub moe_intermediate_size: usize,
    pub n_group: usize,
    pub topk_group: usize,
}

/// Why a DeepSeek configuration is refused.
#[derive(Debug, Clone, PartialEq, Eq)]
pub enum ConfigFault {
    NoHeads,
    OddRopeDim(usize),
    ZeroQLoraRank,
    ZeroKvLoraRank,
    ScoringFunc(String),
    TopkMethod(String),
    NoRoutedExperts,
    ExpertsPerTok { per_tok: usize, routed: usize },
    NoMoeIntermediate,
    GroupMultiple { routed: usize, groups: usize },
    TopkGroup { topk_group: usize, groups: usize },
}

/// The text of each refusal.
pub open spec fn config_fault_text(f: ConfigFault) -> Seq<char> {
    match f {
        ConfigFault::NoHeads => "open-cuda-llm: num_attention_heads must be > 0"@,
        ConfigFault::OddRopeDim(d) => "open-cuda-llm: qk_rope_head_dim ("@ + decimal(d as nat)
            + ") must be even (rotate_half RoPE pairs dimensions)"@,
        ConfigFault::ZeroQLoraRank => "open-cuda-llm: q_lora_rank, when present, must be > 0"@,
        ConfigFault::ZeroKvLoraRank => "open-cuda-llm: kv_lora_rank must be > 0"@,
        ConfigFault::ScoringFunc(f) => "open-cuda-llm: DeepseekModel::load: scoring_func '"@ + f@
            + "' is not supported \u{2014} only \"softmax\" and \"sigmoid\" are implemented"@,
        ConfigFault::TopkMethod(m) => "open-cuda-llm: DeepseekModel::load: topk_method '"@ + m@
            + "' is not supported \u{2014} only \"greedy\" (no correction bias) and \"noaux_tc\" (V3 aux-loss-free bias) are implemented"@,
        ConfigFault::NoRoutedExperts => "open-cuda-llm: n_routed_experts must be > 0 when first_k_dense_replace < num_hidden_layers (some layers are MoE)"@,
        ConfigFault::ExpertsPerTok { per_tok, routed } => "open-cuda-llm: num_experts_per_tok ("@
            + decimal(per_tok as nat) + ") must be in 1..=n_routed_experts ("@ + decimal(routed as nat)
            + ")"@,
        ConfigFault::NoMoeIntermediate => "open-cuda-llm: moe_intermediate_size must be > 0 when some layers are MoE"@,
        ConfigFault::GroupMultiple { routed, groups } => "open-cuda-llm: n_routed_experts ("@
            + decimal(routed as nat) + ") must be a positive multiple of n_group ("@ + decimal(
            groups as nat,
        ) + ")"@,
        ConfigFault::TopkGroup { topk_group, groups } => "open-cuda-llm: topk_group ("@ + decimal(
            topk_group as nat,
        ) + ") must be in 1..=n_group ("@ + decimal(groups as nat) + ")"@,
    }
}

/// Append the text of a refusal.
pub fn write_config_fault(s: &mut String, f: &ConfigFault)
    ensures
        final(s)@ == old(s)@ + config_fault_text(*f),
{
    match f {
        ConfigFault::NoHeads => {
            s.append("open-cuda-llm: num_attention_heads must be > 0");
        },
        ConfigFault::OddRopeDim(d) => {
            s.append("open-cuda-llm: qk_rope_head_dim (");
            append_decimal(s, *d as u64);
            s.append(") must be even (rotate_half RoPE pairs dimensions)");
        },
        ConfigFault::ZeroQLoraRank => {
            s.append("open-cuda-llm: q_lora_rank, when present, must be > 0");
        },
        ConfigFault::ZeroKvLoraRank => {
            s.append("open-cuda-llm: kv_lora_rank must be > 0");
        },
        ConfigFault::ScoringFunc(f) => {
            s.append("open-cuda-llm: DeepseekModel::load: scoring_func '");
            s.append(f.as_str());
            s.append("' is not supported \u{2014} only \"softmax\" and \"sigmoid\" are implemented");
        },
        ConfigFault::TopkMethod(m) => {
            s.append("open-cuda-llm: DeepseekModel::load: topk_method '");
            s.append(m.as_str());
            s.append(
                "' is not supported \u{2014} only \"greedy\" (no correction bias) and \"noaux_tc\" (V3 aux-loss-free bias) are implemented",
            );
        },
        ConfigFault::NoRoutedExperts => {
            s.append(
                "open-cuda-llm: n_routed_experts must be > 0 when first_k_dense_replace < num_hidden_layers (some layers are MoE)",
            );
        },
        ConfigFault::ExpertsPerTok { per_tok, routed } => {
            s.append("open-cuda-llm: num_experts_per_tok (");
            append_decimal(s, *per_tok as u64);
            s.append(") must be in 1..=n_routed_experts (");
            append_decimal(s, *routed as u64);
            s.append(")");
        },
        ConfigFault::NoMoeIntermediate => {
            s.append("open-cuda-llm: moe_intermediate_size must be > 0 when some layers are MoE");
        },
        ConfigFault::GroupMultiple { routed, groups } => {
            s.append("open-cuda-llm: n_routed_experts (");
            append_decimal(s, *routed as u64);
            s.append(") must be a positive multiple of n_group (");
            append_decimal(s, *groups as u64);
            s.append(")");
        },
        ConfigFault::TopkGroup { topk_group, groups } => {
            s.append("open-cuda-llm: topk_group (");
            append_decimal(s, *topk_group as u64);
            s.append(") must be in 1..=n_group (");
            append_decimal(s, *groups as u64);
            s.append(")");
        },
    }
    assert(s@ =~= old(s)@ + config_fault_text(*f));
}

/// Whether some layers of the model are mixture-of-experts layers.
pub open spec fn has_moe(c: DeepseekSettings) -> bool {
    c.first_k_dense_replace < c.num_layers
}

/// Whether a configuration passes every check of the loader.
pub open spec fn deepseek_accepts(c: DeepseekSettings) -> bool {
    &&& c.num_heads > 0
    &&& c.qk_rope_head_dim % 2 == 0
    &&& c.q_lora_rank != Some(0usize)
    &&& c.kv_lora_rank > 0
    &&& has_moe(c) ==> {
        &&& c.scoring_func@ == "softmax"@ || c.scoring_func@ == "sigmoid"@
        &&& c.topk_method@ == "greedy"@ || c.topk_method@ == "noaux_tc"@
        &&& c.n_routed_experts > 0
        &&& 0 < c.num_experts_per_tok <= c.n_routed_experts
        &&& c.moe_intermediate_size > 0
        &&& c.n_group > 0 && c.n_routed_experts % c.n_group == 0
        &&& 0 < c.topk_group <= c.n_group
    }
}

/// `f` is the refusal of the first check, in the loader's order, that the
/// configuration fails.
pub open spec fn first_fault(c: DeepseekSettings, f: ConfigFault) -> bool {
    if c.num_heads == 0 {
        f == ConfigFault::NoHeads
    } else if c.qk_rope_head_dim % 2 != 0 {
        f == ConfigFault::OddRopeDim(c.qk_rope_head_dim)
    } else if c.q_lora_rank == Some(0usize) {
        f == ConfigFault::ZeroQLoraRank
    } else if c.kv_lora_rank == 0 {
        f == ConfigFault::ZeroKvLoraRank
    } else if !has_moe(c) {
        false
    } else if !(c.scoring_func@ == "softmax"@ || c.scoring_func@ == "sigmoid"@) {
        f matches ConfigFault::ScoringFunc(s) && s@ == c.scoring_func@
    } else if !(c.topk_method@ == "greedy"@ || c.topk_method@ == "noaux_tc"@) {
        f matches ConfigFault::TopkMethod(m) && m@ == c.topk_method@
    } else if c.n_routed_experts == 0 {
        f == ConfigFault::NoRoutedExperts
    } else if !(0 < c.num_experts_per_tok <= c.n_routed_experts) {
        f == (ConfigFault::ExpertsPerTok { per_tok: c.num_experts_per_tok, routed: c.n_routed_experts })
    } else if c.moe_intermediate_size == 0 {
        f == ConfigFault::NoMoeIntermediate
    } else if !(c.n_group > 0 && c.n_routed_experts % c.n_group == 0) {
        f == (ConfigFault::GroupMultiple { routed: c.n_routed_experts, groups: c.n_group })
    } else if !(0 < c.topk_group <= c.n_group) {
        f == (ConfigFault::TopkGroup { topk_group: c.topk_group, groups: c.n_group })
    } else {
        false
    }
}

/// Check a DeepSeek configuration as the loader does, before any weights are
/// read: it is accepted exactly when every check passes, and otherwise
/// refused with the first failing check.
pub fn validate_deepseek_config(c: &DeepseekSettings) -> (r: Result<(), Error>)
    ensures
        r is Ok <==> deepseek_accepts(*c),
        r matches Err(e) ==> (e matches Error::DeepseekConfig(f) && first_fault(*c, f)),
{
    if c.num_heads == 0 {
        return Err(Error::DeepseekConfig(ConfigFault::NoHeads));
    }
    if c.qk_rope_head_dim % 2 != 0 {
        return Err(Error::DeepseekConfig(ConfigFault::OddRopeDim(c.qk_rope_head_dim)));
    }
    match c.q_lora_rank {
        Some(q) => {
            if q == 0 {
                return Err(Error::DeepseekConfig(ConfigFault::ZeroQLoraRank));
            }
        },
        None => {},
    }
    if c.kv_lora_rank == 0 {
        return Err(Error::DeepseekConfig(ConfigFault::ZeroKvLoraRank));
    }
    if c.first_k_dense_replace < c.num_layers {
        let sf = c.scoring_func.as_str();
        if !(str_eq(sf, "softmax") || str_eq(sf, "sigmoid")) {
            return Err(Error::DeepseekConfig(ConfigFault::ScoringFunc(c.scoring_func.clone())));
        }
        let tm = c.topk_method.as_str();
        if !(str_eq(tm, "greedy") || str_eq(tm, "noaux_tc")) {
            return Err(Error::DeepseekConfig(ConfigFault::TopkMethod(c.topk_method.clone())));
        }
        if c.n_routed_experts == 0 {
            return Err(Error::DeepseekConfig(ConfigFault::NoRoutedExperts));
        }
        if !(c.num_experts_per_tok > 0 && c.num_experts_per_tok <= c.n_routed_experts) {
            return Err(
                Error::DeepseekConfig(
                    ConfigFault::ExpertsPerTok {
                        per_tok: c.num_experts_per_tok,
                        routed: c.n_routed_experts,
                    },
                ),
            );
        }
        if c.moe_intermediate_size == 0 {
            return Err(Error::DeepseekConfig(ConfigFault::NoMoeIntermediate));
        }
        if !(c.n_group > 0 && c.n_routed_experts % c.n_group == 0) {
            return Err(
                Error::DeepseekConfig(
                    ConfigFault::GroupMultiple { routed: c.n_routed_experts, groups: c.n_group },
                ),
            );
        }
        if !(c.topk_group > 0 && c.topk_group <= c.n_group) {
            return Err(
                Error::DeepseekConfig(
                    ConfigFault::TopkGroup { topk_group: c.topk_group, groups: c.n_group },
                ),
            );
        }
    }
    Ok(())
}

/// A configuration is accepted when it has attention heads, an even RoPE
/// dimension, no zero query rank, a positive key/value rank, and, when some
/// layers are mixture-of-experts layers, the `softmax` or `sigmoid` scoring,
/// the `greedy` or `noaux_tc` top-k method, routed experts, between one and
/// all of them per token, a positive expert width, expert groups dividing the
/// experts, and between one and all groups chosen.
pub proof fn law_deepseek_accepted(c: DeepseekSettings)
    requires
        c.num_heads > 0,
        c.qk_rope_head_dim % 2 == 0,
        c.q_lora_rank != Some(0usize),
        c.kv_lora_rank > 0,
        c.first_k_dense_replace < c.num_layers ==> {
            &&& c.scoring_func@ == "softmax"@ || c.scoring_func@ == "sigmoid"@
            &&& c.topk_method@ == "greedy"@ || c.topk_method@ == "noaux_tc"@
            &&& c.n_routed_experts > 0
            &&& 0 < c.num_experts_per_tok <= c.n_routed_experts
            &&& c.moe_intermediate_size > 0
            &&& c.n_group > 0 && c.n_routed_experts % c.n_group == 0
            &&& 0 < c.topk_group <= c.n_group
        },
    ensures
        deepseek_accepts(c),
        forall|f: ConfigFault| !first_fault(c, f),
{
}

/// Every accepted configuration has attention heads, an even RoPE dimension,
/// no zero query rank and a positive key/value rank, and, when some layers
/// are mixture-of-experts layers, a `softmax` or `sigmoid` scoring, a
/// `greedy` or `noaux_tc` top-k method, routed experts, between one and all of
/// them per token, a positive expert width, expert groups dividing the
/// experts, and between one and all groups chosen.
pub proof fn law_deepseek_accepted_only(c: DeepseekSettings)
    requires
        deepseek_accepts(c),
    ensures
        c.num_heads > 0,
        c.qk_rope_head_dim % 2 == 0,
        c.q_lora_rank != Some(0usize),
        c.kv_lora_rank > 0,
        c.first_k_dense_replace < c.num_layers ==> {
            &&& c.scoring_func@ == "softmax"@ || c.scoring_func@ == "sigmoid"@
            &&& c.topk_method@ == "greedy"@ || c.topk_method@ == "noaux_tc"@
            &&& c.n_routed_experts > 0
            &&& 0 < c.num_experts_per_tok <= c.n_routed_experts
            &&& c.moe_intermediate_size > 0
            &&& c.n_group > 0 && c.n_routed_experts % c.n_group == 0
            &&& 0 < c.topk_group <= c.n_group
        },
{
}

/// A configuration whose general settings pass, with mixture-of-experts
/// layers, is refused when its scoring function is neither `softmax` nor
/// `sigmoid` (naming that function), and otherwise when its top-k method is
/// neither `greedy` nor `noaux_tc` (naming that method).
pub proof fn law_deepseek_refuses_unknown_methods(c: DeepseekSettings, f: ConfigFault)
    requires
        c.num_heads > 0,
        c.qk_rope_head_dim % 2 == 0,
        c.q_lora_rank != Some(0usize),
        c.kv_lora_rank > 0,
        c.first_k_dense_replace < c.num_layers,
    ensures
        c.scoring_func@ != "softmax"@ && c.scoring_func@ != "sigmoid"@ ==> !deepseek_accepts(c) && (
        first_fault(c, f) <==> (f matches ConfigFault::ScoringFunc(s) && s@ == c.scoring_func@)),
        (c.scoring_func@ == "softmax"@ || c.scoring_func@ == "sigmoid"@) && c.topk_method@
            != "greedy"@ && c.topk_method@ != "noaux_tc"@ ==> !deepseek_accepts(c) && (first_fault(
            c,
            f,
        ) <==> (f matches ConfigFault::TopkMethod(m) && m@ == c.topk_method@)),
{
}

/// `out` is a greedy continuation of `prompt` under `next`: every token is
/// the pick `next` makes after the prompt and the tokens before it.
pub open spec fn is_greedy(next: spec_fn(Seq<u32>) -> u32, prompt: Seq<u32>, out: Seq<u32>) -> bool {
    forall|j: int| 0 <= j < out.len() ==> #[trigger] out[j] == next(prompt + out.take(j))
}

/// A round loses nothing: if the tokens emitted so far are the target's
/// greedy continuation of the prompt, and each target pick is the target's
/// greedy choice after the emitted tokens and the draft tokens before it,
/// then the tokens after the round are still the greedy continuation, and
/// each token the round emitted is the target's pick at its position.
pub proof fn law_round_is_greedy(
    next: spec_fn(Seq<u32>) -> u32,
    prompt: Seq<u32>,
    output: Seq<u32>,
    draft: Seq<u32>,
    target: Seq<u32>,
    max_new_tokens: usize,
)
    requires
        target.len() == draft.len() + 1,
        is_greedy(next, prompt, output),
        forall|i: int|
            0 <= i < target.len() ==> #[trigger] target[i] == next(prompt + output + draft.take(i)),
    ensures
        is_greedy(next, prompt, round_output(output, draft, target, max_new_tokens)),
        forall|j: int|
            output.len() <= j < round_output(output, draft, target, max_new_tokens).len()
                ==> #[trigger] round_output(output, draft, target, max_new_tokens)[j]
                == target[j - output.len()],
        round_output(output, draft, target, max_new_tokens).len() <= output.len() + draft.len() + 1,
{
    lemma_agreed_prefix(draft, target);
    let m = agreed_prefix(draft, target);
    let full = output + target.take(m + 1int);
    let out = round_output(output, draft, target, max_new_tokens);
    assert(out.len() <= full.len());
    assert forall|j: int| 0 <= j < out.len() implies #[trigger] out[j] == next(prompt + out.take(j)) by {
        assert(out[j] == full[j]);
        assert(out.take(j) =~= full.take(j));
        if j < output.len() {
            assert(full.take(j) =~= output.take(j));
            assert(output[j] == next(prompt + output.take(j)));
        } else {
            let i = j - output.len();
            assert(full.take(j) =~= output + target.take(i));
            assert(target.take(i) =~= draft.take(i));
            assert(prompt + (output + draft.take(i)) =~= prompt + output + draft.take(i));
            assert(target[i] == next(prompt + output + draft.take(i)));
        }
    }
}

/// Two greedy continuations of the same prompt and length are the same: the
/// output of speculative decoding, greedy round by round, is the output of
/// plain greedy decoding, token for token.
pub proof fn law_greedy_unique(
    next: spec_fn(Seq<u32>) -> u32,
    prompt: Seq<u32>,
    a: Seq<u32>,
    b: Seq<u32>,
)
    requires
        a.len() == b.len(),
        is_greedy(next, prompt, a),
        is_greedy(next, prompt, b),
    ensures
        a == b,
    decreases a.len(),
{
    if a.len() > 0 {
        let n = a.len() - 1;
        assert(is_greedy(next, prompt, a.take(n))) by {
            assert forall|j: int| 0 <= j < a.take(n).len() implies #[trigger] a.take(n)[j] == next(
                prompt + a.take(n).take(j),
            ) by {
                assert(a.take(n).take(j) =~= a.take(j));
                assert(a[j] == next(prompt + a.take(j)));
            }
        }
        assert(is_greedy(next, prompt, b.take(n))) by {
            assert forall|j: int| 0 <= j < b.take(n).len() implies #[trigger] b.take(n)[j] == next(
                prompt + b.take(n).take(j),
            ) by {
                assert(b.take(n).take(j) =~= b.take(j));
                assert(b[j] == next(prompt + b.take(j)));
            }
        }
        law_greedy_unique(next, prompt, a.take(n), b.take(n));
        assert(a[n] == next(prompt + a.take(n)));
        assert(b[n] == next(prompt + b.take(n)));
        assert forall|j: int| 0 <= j < a.len() implies a[j] == b[j] by {
            if j < n {
                assert(a[j] == a.take(n)[j]);
                assert(b[j] == b.take(n)[j]);
            }
        }
        assert(a =~= b);
    }
}

/// Accepted draft tokens never outnumber the proposed ones: a round adds at
/// most as many accepted tokens as it proposes.
pub proof fn law_accepted_le_proposed(
    before: SpeculativeStats,
    after: SpeculativeStats,
    draft: Seq<u32>,
    target: Seq<u32>,
)
    requires
        target.len() == draft.len() + 1,
        before.accepted <= before.proposed,
        after.proposed == before.proposed + draft.len(),
        after.accepted == before.accepted + agreed_prefix(draft, target),
    ensures
        after.accepted <= after.proposed,
{
    lemma_agreed_prefix(draft, target);
}

} // verus!
