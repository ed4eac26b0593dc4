//! Generation settings: sampling parameters and the token budget.
use vstd::prelude::*;
use vstd::string::StringExecFns;
use vstd::arithmetic::power2::pow2;
use crate::float_bits::{in_closed_range, lies_within, ONE_BITS, TWO_BITS, ZERO_BITS};
use crate::float_value::{is_finite, lemma_named_values, lemma_range_is_numeric, scaled_value};

verus! {

/// Why a setting was rejected.
#[derive(Clone, Copy, Debug, PartialEq, Eq, Structural)]
pub enum ConfigError {
    /// The temperature is not a number from 0 to 2.
    TemperatureOutOfRange,
    /// The number of candidates to keep is not positive.
    TopKNotPositive,
    /// The probability mass to keep is not a number from 0 to 1.
    TopPOutOfRange,
    /// The token budget is zero.
    MaxTokensZero,
}

impl ConfigError {
    /// The text that describes this error.
    pub open spec fn spec_message(self) -> Seq<char> {
        match self {
            ConfigError::TemperatureOutOfRange => "temperature out of range"@,
            ConfigError::TopKNotPositive => "top k should be higher than 0"@,
            ConfigError::TopPOutOfRange => "top p out of range"@,
            ConfigError::MaxTokensZero => "Max tokens must be greater than 0"@,
        }
    }

    /// Renders the error as text.
    pub fn message(&self) -> (text: String)
        ensures
            text@ == self.spec_message(),
    {
        match self {
            ConfigError::TemperatureOutOfRange => String::from_str("temperature out of range"),
            ConfigError::TopKNotPositive => String::from_str("top k should be higher than 0"),
            ConfigError::TopPOutOfRange => String::from_str("top p out of range"),
            ConfigError::MaxTokensZero => String::from_str("Max tokens must be greater than 0"),
        }
    }
}

/// One stage of a sampling chain. Numbers that are not integers are held as
/// their single-precision encodings.
#[derive(Clone, Copy, Debug, PartialEq, Eq, Structural)]
pub enum SamplerStage {
    /// Divide the logits by the temperature.
    Temperature { bits: u32 },
    /// Keep the `k` most probable candidates.
    TopK { k: i32 },
    /// Keep the most probable candidates up to a cumulative probability, and
    /// never fewer than `min_keep`.
    TopP { bits: u32, min_keep: usize },
    /// Draw one candidate at random from what is left.
    Dist { seed: u32 },
}

/// How the next token is chosen from the logits.
#[derive(Debug)]
pub enum LunnamaSampler {
    /// Take the candidate with the highest logit.
    Greedy,
    /// Run the stages in order; the last one selects.
    Chain { stages: Vec<SamplerStage>, no_perf: bool },
}

/// The mathematical value of a [`LunnamaSampler`].
pub enum SamplerView {
    Greedy,
    Chain { stages: Seq<SamplerStage>, no_perf: bool },
}

impl View for LunnamaSampler {
    type V = SamplerView;

    open spec fn view(&self) -> SamplerView {
        match self {
            LunnamaSampler::Greedy => SamplerView::Greedy,
            LunnamaSampler::Chain { stages, no_perf } => SamplerView::Chain {
                stages: stages@,
                no_perf: *no_perf,
            },
        }
    }
}

/// The fewest candidates that the cumulative-probability stage leaves.
pub const TOP_P_MIN_KEEP: usize = 1;

/// The seed of the final draw.
pub const DIST_SEED: u32 = 0;

/// The temperature before one is set: the encoding of `0.0`.
pub const DEFAULT_TEMPERATURE: u32 = 0;

/// The number of candidates kept before one is set: so many that every
/// candidate is kept.
pub const DEFAULT_TOP_K: i32 = 0x7fff_ffff;

/// The probability mass kept before one is set: the encoding of `0.0`.
pub const DEFAULT_TOP_P: u32 = 0;

/// The token budget before one is set.
pub const DEFAULT_MAX_TOKENS: u32 = 1000;

/// The mathematical value of a [`LunnamaGenConfigBuilder`].
pub struct GenConfig {
    pub temperature: u32,
    pub top_k: i32,
    pub top_p: u32,
    pub is_greedy: bool,
    pub max_tokens: u32,
}

impl GenConfig {
    /// A temperature that the builder accepts: a number from 0 to 2.
    pub open spec fn accepts_temperature(bits: u32) -> bool {
        in_closed_range(bits, ZERO_BITS, TWO_BITS)
    }

    /// A probability mass that the builder accepts: a number from 0 to 1.
    pub open spec fn accepts_top_p(bits: u32) -> bool {
        in_closed_range(bits, ZERO_BITS, ONE_BITS)
    }

    /// The settings before any was set: each lies in the range that its
    /// setter accepts.
    pub open spec fn initial() -> GenConfig {
        GenConfig {
            temperature: DEFAULT_TEMPERATURE,
            top_k: DEFAULT_TOP_K,
            top_p: DEFAULT_TOP_P,
            is_greedy: false,
            max_tokens: DEFAULT_MAX_TOKENS,
        }
    }

    /// What holds of every configuration: the temperature is a number from 0
    /// to 2, the probability mass a number from 0 to 1, and the number of
    /// candidates and the token budget are positive.
    pub open spec fn is_valid(self) -> bool {
        &&& Self::accepts_temperature(self.temperature)
        &&& self.top_k > 0
        &&& Self::accepts_top_p(self.top_p)
        &&& self.max_tokens > 0
    }

    /// The sampler that these settings describe.
    pub open spec fn sampler(self) -> SamplerView {
        if self.is_greedy {
            SamplerView::Greedy
        } else {
            SamplerView::Chain {
                stages: seq![
                    SamplerStage::Temperature { bits: self.temperature },
                    SamplerStage::TopK { k: self.top_k },
                    SamplerStage::TopP { bits: self.top_p, min_keep: TOP_P_MIN_KEEP },
                    SamplerStage::Dist { seed: DIST_SEED },
                ],
                no_perf: false,
            }
        }
    }
}

/// Sampling parameters and token budget of a generation, set one at a time.
/// Each setter checks its argument at once and hands back the updated value.
#[derive(Clone, Copy, Debug)]
pub struct LunnamaGenConfigBuilder {
    temperature: u32,
    top_k: i32,
    top_p: u32,
    is_greedy: bool,
    max_tokens: u32,
}

impl View for LunnamaGenConfigBuilder {
    type V = GenConfig;

    closed spec fn view(&self) -> GenConfig {
        GenConfig {
            temperature: self.temperature,
            top_k: self.top_k,
            top_p: self.top_p,
            is_greedy: self.is_greedy,
            max_tokens: self.max_tokens,
        }
    }
}

impl Default for LunnamaGenConfigBuilder {
    fn default() -> (config: Self)
        ensures
            config@ == GenConfig::initial(),
            config@.is_valid(),
    {
        LunnamaGenConfigBuilder {
            temperature: DEFAULT_TEMPERATURE,
            top_k: DEFAULT_TOP_K,
            top_p: DEFAULT_TOP_P,
            is_greedy: false,
            max_tokens: DEFAULT_MAX_TOKENS,
        }
    }
}

impl LunnamaGenConfigBuilder {
    /// The invariant of the type: every configuration is valid.
    #[verifier::type_invariant]
    pub open spec fn inv(self) -> bool {
        self@.is_valid()
    }

    /// Sets the temperature, given as the encoding of a single-precision
    /// number. Anything but a number from 0 to 2 is rejected.
    pub fn temperature(self, temp: u32) -> (updated: Result<Self, ConfigError>)
        ensures
            GenConfig::accepts_temperature(temp) ==> updated.is_ok() && updated.unwrap()@ == (GenConfig {
                temperature: temp,
                ..self@
            }),
            !GenConfig::accepts_temperature(temp) ==> updated == Err::<Self, ConfigError>(
                ConfigError::TemperatureOutOfRange,
            ),
            updated matches Ok(config) ==> config@.is_valid(),
    {
        proof {
            use_type_invariant(self);
        }
        if !lies_within(temp, ZERO_BITS, TWO_BITS) {
            return Err(ConfigError::TemperatureOutOfRange);
        }
        let mut config = self;
        config.temperature = temp;
        Ok(config)
    }

    /// Sets how many of the most probable candidates are kept. Zero and
    /// negative numbers are rejected.
    pub fn top_k(self, top_k: i32) -> (updated: Result<Self, ConfigError>)
        ensures
            top_k > 0 ==> updated.is_ok() && updated.unwrap()@ == (GenConfig { top_k, ..self@ }),
            top_k <= 0 ==> updated == Err::<Self, ConfigError>(ConfigError::TopKNotPositive),
            updated matches Ok(config) ==> config@.is_valid(),
    {
        proof {
            use_type_invariant(self);
        }
        if top_k <= 0 {
            return Err(ConfigError::TopKNotPositive);
        }
        let mut config = self;
        config.top_k = top_k;
        Ok(config)
    }

    /// Sets the cumulative probability mass that is kept, given as the
    /// encoding of a single-precision number. Anything but a number from 0 to
    /// 1 is rejected.
    pub fn top_p(self, top_p: u32) -> (updated: Result<Self, ConfigError>)
        ensures
            GenConfig::accepts_top_p(top_p) ==> updated.is_ok() && updated.unwrap()@ == (GenConfig {
                top_p,
                ..self@
            }),
            !GenConfig::accepts_top_p(top_p) ==> updated == Err::<Self, ConfigError>(
                ConfigError::TopPOutOfRange,
            ),
            updated matches Ok(config) ==> config@.is_valid(),
    {
        proof {
            use_type_invariant(self);
        }
        if !lies_within(top_p, ZERO_BITS, ONE_BITS) {
            return Err(ConfigError::TopPOutOfRange);
        }
        let mut config = self;
        config.top_p = top_p;
        Ok(config)
    }

    /// Makes the sampler take the highest logit, whatever the other sampling
    /// parameters are.
    pub fn greedy(self) -> (updated: Self)
        ensures
            updated@ == (GenConfig { is_greedy: true, ..self@ }),
            updated@.is_valid(),
    {
        proof {
            use_type_invariant(self);
        }
        let mut config = self;
        config.is_greedy = true;
        config
    }

    /// Sets the token budget. Zero is rejected.
    pub fn max_tokens(self, max_tokens: u32) -> (updated: Result<Self, ConfigError>)
        ensures
            max_tokens > 0 ==> updated.is_ok() && updated.unwrap()@ == (GenConfig {
                max_tokens,
                ..self@
            }),
            max_tokens == 0 ==> updated == Err::<Self, ConfigError>(ConfigError::MaxTokensZero),
            updated matches Ok(config) ==> config@.is_valid(),
    {
        proof {
            use_type_invariant(self);
        }
        if max_tokens == 0 {
            return Err(ConfigError::MaxTokensZero);
        }
        let mut config = self;
        config.max_tokens = max_tokens;
        Ok(config)
    }

    /// The sampler that these settings describe: the single greedy stage, or
    /// the chain of temperature, top-k, top-p and the final draw.
    pub fn get_sampler(&self) -> (sampler: LunnamaSampler)
        ensures
            sampler@ == self@.sampler(),
            self@.is_valid(),
    {
        proof {
            use_type_invariant(self);
        }
        if self.is_greedy {
            LunnamaSampler::Greedy
        } else {
            let mut stages: Vec<SamplerStage> = Vec::new();
            stages.push(SamplerStage::Temperature { bits: self.temperature });
            stages.push(SamplerStage::TopK { k: self.top_k });
            stages.push(SamplerStage::TopP { bits: self.top_p, min_keep: TOP_P_MIN_KEEP });
            stages.push(SamplerStage::Dist { seed: DIST_SEED });
            assert(stages@ =~= self@.sampler()->stages);
            LunnamaSampler::Chain { stages, no_perf: false }
        }
    }

    /// The encoding of the temperature.
    pub fn current_temperature(&self) -> (bits: u32)
        ensures
            bits == self@.temperature,
            GenConfig::accepts_temperature(bits),
    {
        proof {
            use_type_invariant(self);
        }
        self.temperature
    }

    /// The number of candidates kept.
    pub fn current_top_k(&self) -> (k: i32)
        ensures
            k == self@.top_k,
            k > 0,
    {
        proof {
            use_type_invariant(self);
        }
        self.top_k
    }

    /// The encoding of the probability mass kept.
    pub fn current_top_p(&self) -> (bits: u32)
        ensures
            bits == self@.top_p,
            GenConfig::accepts_top_p(bits),
    {
        proof {
            use_type_invariant(self);
        }
        self.top_p
    }

    /// Whether the sampler takes the highest logit.
    pub fn is_greedy(&self) -> (greedy: bool)
        ensures
            greedy == self@.is_greedy,
    {
        self.is_greedy
    }

    /// The token budget.
    pub fn current_max_tokens(&self) -> (budget: u32)
        ensures
            budget == self@.max_tokens,
            budget > 0,
    {
        proof {
            use_type_invariant(self);
        }
        self.max_tokens
    }
}

/// The temperatures that the builder accepts are the encodings of the finite
/// numbers from 0 to 2. Numbers are written here multiplied by two to the
/// power 149.
pub proof fn lemma_accepted_temperatures(bits: u32)
    ensures
        GenConfig::accepts_temperature(bits) <==> is_finite(bits) && 0 <= scaled_value(bits) <= 2
            * pow2(149),
{
    lemma_named_values();
    lemma_range_is_numeric(bits, ZERO_BITS, TWO_BITS);
}

/// The probability masses that the builder accepts are the encodings of the
/// finite numbers from 0 to 1. Numbers are written here multiplied by two to
/// the power 149.
pub proof fn lemma_accepted_probabilities(bits: u32)
    ensures
        GenConfig::accepts_top_p(bits) <==> is_finite(bits) && 0 <= scaled_value(bits) <= pow2(149),
{
    lemma_named_values();
    lemma_range_is_numeric(bits, ZERO_BITS, ONE_BITS);
}

} // verus!
