use ai_tool_calling::interface::ThinkingLevel;
use ai_tool_calling::xai::models::{
    known_models, CostTier, IntelligenceScore, ModelFeature, ProviderKind, SpeedTier, GROK_4_20,
    GROK_4_20_MINI, GROK_4_20_REASONING, GROK_4_20_THINKING_HIGH, GROK_4_5,
    GROK_4_5_THINKING_LOW, GROK_4_5_THINKING_MEDIUM,
};

#[test]
fn grok_4_5_is_the_first_catalog_model() {
    let models = known_models();

    assert_eq!(models.first().map(|model| model.id), Some(GROK_4_5));
    for legacy_id in [GROK_4_20_REASONING, GROK_4_20, GROK_4_20_THINKING_HIGH, GROK_4_20_MINI] {
        assert!(models.iter().any(|model| model.id == legacy_id));
    }
}

#[test]
fn grok_4_5_variants_have_current_metadata() {
    let models = known_models();

    for (model_id, thinking_level) in [
        (GROK_4_5, ThinkingLevel::High),
        (GROK_4_5_THINKING_LOW, ThinkingLevel::Low),
        (GROK_4_5_THINKING_MEDIUM, ThinkingLevel::Medium),
    ] {
        let model = models.iter().find(|model| model.id == model_id).expect("Grok 4.5 model should exist");
        assert_eq!(model.provider, ProviderKind::Xai);
        assert_eq!(model.provider_model_id, GROK_4_5);
        assert_eq!(model.context_window_tokens, 500_000);
        assert_eq!(model.thinking_level, thinking_level);
        assert!(model.has_feature(ModelFeature::Reasoning));
        assert!(model.has_feature(ModelFeature::Vision));
    }
}

#[test]
fn grok_primary_models_advertise_vision() {
    let models = known_models();
    for model_id in [GROK_4_20_REASONING, GROK_4_20, GROK_4_20_THINKING_HIGH] {
        let model = models.iter().find(|model| model.id == model_id).expect("model should exist");
        assert!(model.has_feature(ModelFeature::Vision));
    }
}

#[test]
fn catalog_lists_grok_4_5_then_the_grok_4_20_variants() {
    let models = known_models();
    let ids: Vec<&str> = models.iter().map(|model| model.id).collect();
    assert_eq!(
        ids,
        vec![
            GROK_4_5,
            GROK_4_5_THINKING_LOW,
            GROK_4_5_THINKING_MEDIUM,
            GROK_4_20_REASONING,
            GROK_4_20,
            GROK_4_20_THINKING_HIGH,
            GROK_4_20_MINI
        ]
    );
    assert!(models.iter().all(|model| model.provider == ProviderKind::Xai));

    let thinking = &models[5];
    assert_eq!(thinking.provider_model_id, GROK_4_20);
    assert_eq!(thinking.thinking_level, ThinkingLevel::High);
    assert_eq!(thinking.speed, SpeedTier::Slow);
    assert_eq!(thinking.cost, CostTier::High);
    assert!(thinking.has_feature(ModelFeature::Reasoning));

    let mini = &models[6];
    assert_eq!(mini.context_window_tokens, 128_000);
    assert_eq!(mini.intelligence_score, IntelligenceScore::Six);
    assert!(mini.has_feature(ModelFeature::ToolCalling));
    assert!(!mini.has_feature(ModelFeature::Vision));
    assert!(!models[4].has_feature(ModelFeature::Reasoning));
    assert_eq!(models[3].context_window_tokens, 256_000);
    assert_eq!(models[3].intelligence_score, IntelligenceScore::Eight);
}
