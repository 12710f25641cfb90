//! Known xAI model metadata.

use vstd::prelude::*;

use crate::interface::ThinkingLevel;

verus! {

/// xAI Grok 4.5 model id, running with high reasoning effort.
pub const GROK_4_5: &'static str = "grok-4.5";

/// xAI Grok 4.5 variant with low reasoning effort.
pub const GROK_4_5_THINKING_LOW: &'static str = "grok-4.5-thinking-low";

/// xAI Grok 4.5 variant with medium reasoning effort.
pub const GROK_4_5_THINKING_MEDIUM: &'static str = "grok-4.5-thinking-medium";

/// xAI reasoning model id used by default workspace deployments.
pub const GROK_4_20_REASONING: &'static str = "grok-4.20-reasoning";

/// xAI general-purpose model id without the dedicated reasoning track.
pub const GROK_4_20: &'static str = "grok-4.20";

/// xAI low-latency model id for short, cheap turns.
pub const GROK_4_20_MINI: &'static str = "grok-4.20-mini";

/// xAI general-purpose model id with high reasoning effort.
pub const GROK_4_20_THINKING_HIGH: &'static str = "grok-4.20-thinking-high";

/// The provider that serves a model.
#[derive(Clone, Copy, Debug, PartialEq, Eq, Structural)]
pub enum ProviderKind {
    /// xAI.
    Xai,
}

/// Relative intelligence rating.
#[derive(Clone, Copy, Debug, PartialEq, Eq, Structural)]
pub enum IntelligenceScore {
    /// Six.
    Six,
    /// Seven.
    Seven,
    /// Eight.
    Eight,
}

/// Relative latency.
#[derive(Clone, Copy, Debug, PartialEq, Eq, Structural)]
pub enum SpeedTier {
    /// Fast.
    Fast,
    /// Medium.
    Medium,
    /// Slow.
    Slow,
}

/// Relative price.
#[derive(Clone, Copy, Debug, PartialEq, Eq, Structural)]
pub enum CostTier {
    /// Low.
    Low,
    /// Medium.
    Medium,
    /// High.
    High,
}

/// A capability a model advertises.
#[derive(Clone, Copy, Debug, PartialEq, Eq, Structural)]
pub enum ModelFeature {
    /// Tool calling.
    ToolCalling,
    /// Structured output.
    StructuredOutput,
    /// Image input.
    Vision,
    /// Long context.
    LongContext,
    /// Dedicated reasoning.
    Reasoning,
}

/// Metadata of one known model.
#[derive(Clone, Debug)]
pub struct KnownModelSpec {
    /// Serving provider.
    pub provider: ProviderKind,
    /// Catalog id.
    pub id: &'static str,
    /// Id sent to the provider.
    pub provider_model_id: &'static str,
    /// Context window, in tokens.
    pub context_window_tokens: u32,
    /// Intelligence rating.
    pub intelligence_score: IntelligenceScore,
    /// Latency tier.
    pub speed: SpeedTier,
    /// Price tier.
    pub cost: CostTier,
    /// Thinking level the model runs at.
    pub thinking_level: ThinkingLevel,
    /// Advertised capabilities.
    pub features: Vec<ModelFeature>,
}

impl KnownModelSpec {
    /// Returns whether the model advertises `feature`.
    pub fn has_feature(&self, feature: ModelFeature) -> (has: bool)
        ensures
            has == self.features@.contains(feature),
    {
        let mut i: usize = 0;
        while i < self.features.len()
            invariant
                i <= self.features@.len(),
                forall|j: int| 0 <= j < i ==> self.features@[j] != feature,
            decreases self.features@.len() - i,
        {
            if self.features[i] == feature {
                return true;
            }
            i = i + 1;
        }
        false
    }
}

/// Features of the reasoning models.
pub open spec fn reasoning_features() -> Seq<ModelFeature> {
    seq![
        ModelFeature::ToolCalling,
        ModelFeature::StructuredOutput,
        ModelFeature::Vision,
        ModelFeature::LongContext,
        ModelFeature::Reasoning,
    ]
}

/// Features of the general-purpose model.
pub open spec fn general_features() -> Seq<ModelFeature> {
    seq![
        ModelFeature::ToolCalling,
        ModelFeature::StructuredOutput,
        ModelFeature::Vision,
        ModelFeature::LongContext,
    ]
}

/// Features of the low-latency model.
pub open spec fn mini_features() -> Seq<ModelFeature> {
    seq![ModelFeature::ToolCalling, ModelFeature::StructuredOutput]
}

/// Every feature set of the catalog offers tool calling and structured
/// output; the reasoning and general-purpose sets add vision and long
/// context; only the reasoning set offers dedicated reasoning.
pub proof fn lemma_catalog_feature_sets()
    ensures
        forall|features: Seq<ModelFeature>|
            features == reasoning_features() || features == general_features() || features
                == mini_features() ==> features.contains(ModelFeature::ToolCalling)
                && features.contains(ModelFeature::StructuredOutput),
        forall|features: Seq<ModelFeature>|
            features == reasoning_features() || features == general_features() ==> features.contains(
                ModelFeature::Vision,
            ) && features.contains(ModelFeature::LongContext),
        reasoning_features().contains(ModelFeature::Reasoning),
        !general_features().contains(ModelFeature::Reasoning),
        !mini_features().contains(ModelFeature::Reasoning),
{
    assert(reasoning_features()[0] == ModelFeature::ToolCalling);
    assert(reasoning_features()[1] == ModelFeature::StructuredOutput);
    assert(reasoning_features()[2] == ModelFeature::Vision);
    assert(reasoning_features()[3] == ModelFeature::LongContext);
    assert(reasoning_features()[4] == ModelFeature::Reasoning);
    assert(general_features()[0] == ModelFeature::ToolCalling);
    assert(general_features()[1] == ModelFeature::StructuredOutput);
    assert(general_features()[2] == ModelFeature::Vision);
    assert(general_features()[3] == ModelFeature::LongContext);
    assert(mini_features()[0] == ModelFeature::ToolCalling);
    assert(mini_features()[1] == ModelFeature::StructuredOutput);
}

fn reasoning_feature_list() -> (features: Vec<ModelFeature>)
    ensures
        features@ == reasoning_features(),
{
    vec![
        ModelFeature::ToolCalling,
        ModelFeature::StructuredOutput,
        ModelFeature::Vision,
        ModelFeature::LongContext,
        ModelFeature::Reasoning,
    ]
}

fn general_feature_list() -> (features: Vec<ModelFeature>)
    ensures
        features@ == general_features(),
{
    vec![
        ModelFeature::ToolCalling,
        ModelFeature::StructuredOutput,
        ModelFeature::Vision,
        ModelFeature::LongContext,
    ]
}

fn mini_feature_list() -> (features: Vec<ModelFeature>)
    ensures
        features@ == mini_features(),
{
    vec![ModelFeature::ToolCalling, ModelFeature::StructuredOutput]
}

/// `model` is the xAI entry with this metadata.
pub open spec fn is_entry(
    model: KnownModelSpec,
    id: Seq<char>,
    provider_model_id: Seq<char>,
    context_window_tokens: u32,
    intelligence_score: IntelligenceScore,
    speed: SpeedTier,
    cost: CostTier,
    thinking_level: ThinkingLevel,
    features: Seq<ModelFeature>,
) -> bool {
    &&& model.provider == ProviderKind::Xai
    &&& model.id@ == id
    &&& model.provider_model_id@ == provider_model_id
    &&& model.context_window_tokens == context_window_tokens
    &&& model.intelligence_score == intelligence_score
    &&& model.speed == speed
    &&& model.cost == cost
    &&& model.thinking_level == thinking_level
    &&& model.features@ == features
}

fn grok_4_5_entry(id: &'static str, thinking_level: ThinkingLevel) -> (model: KnownModelSpec)
    ensures
        is_entry(
            model,
            id@,
            GROK_4_5@,
            500_000,
            IntelligenceScore::Eight,
            SpeedTier::Medium,
            CostTier::High,
            thinking_level,
            reasoning_features(),
        ),
{
    KnownModelSpec {
        provider: ProviderKind::Xai,
        id,
        provider_model_id: GROK_4_5,
        context_window_tokens: 500_000,
        intelligence_score: IntelligenceScore::Eight,
        speed: SpeedTier::Medium,
        cost: CostTier::High,
        thinking_level,
        features: reasoning_feature_list(),
    }
}

/// Returns the xAI models known to this adapter: Grok 4.5 and its low- and
/// medium-effort variants, then the grok-4.20 reasoning model, the
/// general-purpose model, its high-effort variant and the low-latency
/// model, in that order.
pub fn known_models() -> (models: Vec<KnownModelSpec>)
    ensures
        models@.len() == 7,
        is_entry(
            models@[0],
            GROK_4_5@,
            GROK_4_5@,
            500_000,
            IntelligenceScore::Eight,
            SpeedTier::Medium,
            CostTier::High,
            ThinkingLevel::High,
            reasoning_features(),
        ),
        is_entry(
            models@[1],
            GROK_4_5_THINKING_LOW@,
            GROK_4_5@,
            500_000,
            IntelligenceScore::Eight,
            SpeedTier::Medium,
            CostTier::High,
            ThinkingLevel::Low,
            reasoning_features(),
        ),
        is_entry(
            models@[2],
            GROK_4_5_THINKING_MEDIUM@,
            GROK_4_5@,
            500_000,
            IntelligenceScore::Eight,
            SpeedTier::Medium,
            CostTier::High,
            ThinkingLevel::Medium,
            reasoning_features(),
        ),
        is_entry(
            models@[3],
            GROK_4_20_REASONING@,
            GROK_4_20_REASONING@,
            256_000,
            IntelligenceScore::Eight,
            SpeedTier::Medium,
            CostTier::High,
            ThinkingLevel::High,
            reasoning_features(),
        ),
        is_entry(
            models@[4],
            GROK_4_20@,
            GROK_4_20@,
            256_000,
            IntelligenceScore::Seven,
            SpeedTier::Medium,
            CostTier::Medium,
            ThinkingLevel::Disabled,
            general_features(),
        ),
        is_entry(
            models@[5],
            GROK_4_20_THINKING_HIGH@,
            GROK_4_20@,
            256_000,
            IntelligenceScore::Seven,
            SpeedTier::Slow,
            CostTier::High,
            ThinkingLevel::High,
            reasoning_features(),
        ),
        is_entry(
            models@[6],
            GROK_4_20_MINI@,
            GROK_4_20_MINI@,
            128_000,
            IntelligenceScore::Six,
            SpeedTier::Fast,
            CostTier::Low,
            ThinkingLevel::Disabled,
            mini_features(),
        ),
        forall|i: int|
            0 <= i < models@.len() ==> #[trigger] models@[i].features@.contains(
                ModelFeature::ToolCalling,
            ) && models@[i].features@.contains(ModelFeature::StructuredOutput),
        forall|i: int|
            0 <= i < models@.len() ==> (#[trigger] models@[i].features@.contains(
                ModelFeature::Reasoning,
            ) <==> models@[i].thinking_level != ThinkingLevel::Disabled),
{
    let mut models: Vec<KnownModelSpec> = Vec::new();
    models.push(grok_4_5_entry(GROK_4_5, ThinkingLevel::High));
    models.push(grok_4_5_entry(GROK_4_5_THINKING_LOW, ThinkingLevel::Low));
    models.push(grok_4_5_entry(GROK_4_5_THINKING_MEDIUM, ThinkingLevel::Medium));
    models.push(
        KnownModelSpec {
            provider: ProviderKind::Xai,
            id: GROK_4_20_REASONING,
            provider_model_id: GROK_4_20_REASONING,
            context_window_tokens: 256_000,
            intelligence_score: IntelligenceScore::Eight,
            speed: SpeedTier::Medium,
            cost: CostTier::High,
            thinking_level: ThinkingLevel::High,
            features: reasoning_feature_list(),
        },
    );
    models.push(
        KnownModelSpec {
            provider: ProviderKind::Xai,
            id: GROK_4_20,
            provider_model_id: GROK_4_20,
            context_window_tokens: 256_000,
            intelligence_score: IntelligenceScore::Seven,
            speed: SpeedTier::Medium,
            cost: CostTier::Medium,
            thinking_level: ThinkingLevel::Disabled,
            features: general_feature_list(),
        },
    );
    models.push(
        KnownModelSpec {
            provider: ProviderKind::Xai,
            id: GROK_4_20_THINKING_HIGH,
            provider_model_id: GROK_4_20,
            context_window_tokens: 256_000,
            intelligence_score: IntelligenceScore::Seven,
            speed: SpeedTier::Slow,
            cost: CostTier::High,
            thinking_level: ThinkingLevel::High,
            features: reasoning_feature_list(),
        },
    );
    models.push(
        KnownModelSpec {
            provider: ProviderKind::Xai,
            id: GROK_4_20_MINI,
            provider_model_id: GROK_4_20_MINI,
            context_window_tokens: 128_000,
            intelligence_score: IntelligenceScore::Six,
            speed: SpeedTier::Fast,
            cost: CostTier::Low,
            thinking_level: ThinkingLevel::Disabled,
            features: mini_feature_list(),
        },
    );
    proof {
        lemma_catalog_feature_sets();
    }
    models
}

} // verus!
