use audio_engine::routing::{
    route_param, EffectParam, COMPRESSOR, DELAY, EQ_HIGH, EQ_LOW, EQ_MID, REVERB,
};

#[test]
fn equalizer_ids_route_to_their_gain_for_any_param() {
    for p in [0u8, 1, 2, 7, 255] {
        assert_eq!(route_param(EQ_LOW, p), Some(EffectParam::LowShelfGain));
        assert_eq!(route_param(EQ_MID, p), Some(EffectParam::PeakingGain));
        assert_eq!(route_param(EQ_HIGH, p), Some(EffectParam::HighShelfGain));
    }
}

#[test]
fn delay_params_route_by_id() {
    assert_eq!(route_param(DELAY, 0), Some(EffectParam::DelayTime));
    assert_eq!(route_param(DELAY, 1), Some(EffectParam::DelayFeedback));
    assert_eq!(route_param(DELAY, 2), Some(EffectParam::DelayMix));
    assert_eq!(route_param(DELAY, 3), None);
    assert_eq!(route_param(DELAY, 255), None);
}

#[test]
fn unknown_and_reserved_ids_are_ignored() {
    assert_eq!(route_param(COMPRESSOR, 0), None);
    assert_eq!(route_param(REVERB, 0), None);
    assert_eq!(route_param(6, 1), None);
    assert_eq!(route_param(255, 2), None);
}

#[test]
fn effect_ids_have_their_values() {
    assert_eq!([EQ_LOW, EQ_MID, EQ_HIGH, COMPRESSOR, DELAY, REVERB], [0, 1, 2, 3, 4, 5]);
}
