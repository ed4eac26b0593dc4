//! A model bound to the settings that its generations run with.
use vstd::prelude::*;
use crate::gen_config_builder::{GenConfig, LunnamaGenConfigBuilder};
use crate::model::generation::{GenerationView, LunnamaGeneration};

verus! {

/// A reference to a loaded model of type `M`, together with the current
/// settings. The model is shared and never changed through a session.
#[derive(Debug)]
pub struct LunnamaSession<'a, M> {
    model: &'a M,
    config: LunnamaGenConfigBuilder,
}

impl<'a, M> LunnamaSession<'a, M> {
    /// The model that the session is bound to.
    pub closed spec fn spec_model(&self) -> &'a M {
        self.model
    }

    /// The settings that the session is bound to.
    pub closed spec fn spec_config(&self) -> LunnamaGenConfigBuilder {
        self.config
    }

    /// Binds `model` to the settings in which nothing is set yet. They lie
    /// in the ranges that the setters accept.
    pub fn new(model: &'a M) -> (session: Self)
        ensures
            session.spec_model() == model,
            session.spec_config()@ == GenConfig::initial(),
            session.spec_config()@.is_valid(),
    {
        LunnamaSession { model, config: LunnamaGenConfigBuilder::default() }
    }

    /// Replaces the settings. The model stays.
    pub fn with_config(self, config: LunnamaGenConfigBuilder) -> (session: Self)
        ensures
            session.spec_model() == self.spec_model(),
            session.spec_config() == config,
            session.spec_config()@.is_valid(),
    {
        proof {
            use_type_invariant(config);
        }
        LunnamaSession { model: self.model, config }
    }

    /// Starts a generation that continues `prompt` under the session's
    /// settings.
    pub fn generate(&self, prompt: &str) -> (generation: LunnamaGeneration)
        ensures
            generation.wf(),
            generation@ == GenerationView::initial(prompt@, self.spec_config()@.max_tokens),
    {
        LunnamaGeneration::begin(prompt, &self.config)
    }

    /// The model that the session is bound to.
    pub fn model(&self) -> (model: &'a M)
        ensures
            model == self.spec_model(),
    {
        self.model
    }

    /// The settings that the session is bound to.
    pub fn config(&self) -> (config: &LunnamaGenConfigBuilder)
        ensures
            *config == self.spec_config(),
            config@.is_valid(),
    {
        proof {
            use_type_invariant(&self.config);
        }
        &self.config
    }
}

} // verus!
