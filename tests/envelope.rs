use audio_engine::envelope::{
    envelope_next_stage, envelope_step, LevelStep, ATTACK_STAGE, DECAY_STAGE, RELEASE_STAGE,
    SUSTAIN_STAGE,
};

#[test]
fn gate_open_steps_by_stage() {
    assert_eq!(envelope_step(ATTACK_STAGE, true), LevelStep::Rise);
    assert_eq!(envelope_step(DECAY_STAGE, true), LevelStep::FallToSustain);
    assert_eq!(envelope_step(SUSTAIN_STAGE, true), LevelStep::HoldSustain);
    assert_eq!(envelope_step(RELEASE_STAGE, true), LevelStep::Rise);
    assert_eq!(envelope_step(9, true), LevelStep::Keep);
}

#[test]
fn closed_gate_releases_from_every_stage() {
    for stage in [ATTACK_STAGE, DECAY_STAGE, SUSTAIN_STAGE, RELEASE_STAGE, 9] {
        assert_eq!(envelope_step(stage, false), LevelStep::FallToZero);
        assert_eq!(envelope_next_stage(stage, false, false), RELEASE_STAGE);
        assert_eq!(envelope_next_stage(stage, false, true), RELEASE_STAGE);
    }
}

#[test]
fn stages_advance_when_bound_is_reached() {
    assert_eq!(envelope_next_stage(ATTACK_STAGE, true, false), ATTACK_STAGE);
    assert_eq!(envelope_next_stage(ATTACK_STAGE, true, true), DECAY_STAGE);
    assert_eq!(envelope_next_stage(DECAY_STAGE, true, false), DECAY_STAGE);
    assert_eq!(envelope_next_stage(DECAY_STAGE, true, true), SUSTAIN_STAGE);
    assert_eq!(envelope_next_stage(SUSTAIN_STAGE, true, true), SUSTAIN_STAGE);
    assert_eq!(envelope_next_stage(9, true, true), 9);
    assert_eq!(envelope_next_stage(9, true, false), 9);
}

#[test]
fn held_gate_retriggers_a_released_envelope() {
    assert_eq!(envelope_next_stage(RELEASE_STAGE, true, false), ATTACK_STAGE);
    assert_eq!(envelope_next_stage(RELEASE_STAGE, true, true), DECAY_STAGE);
    // a release followed by a held gate rises again from the released level
    let mut stage = SUSTAIN_STAGE;
    stage = envelope_next_stage(stage, false, false);
    assert_eq!(stage, RELEASE_STAGE);
    assert_eq!(envelope_step(stage, true), LevelStep::Rise);
    stage = envelope_next_stage(stage, true, false);
    assert_eq!(stage, ATTACK_STAGE);
    assert_eq!(envelope_step(stage, true), LevelStep::Rise);
}

#[test]
fn ten_sample_attack_reaches_full_level_then_decays() {
    // attack 0.1 s at 100 Hz: ten samples of rise
    let (attack, sample_rate) = (0.1f32, 100.0f32);
    let mut level = 0.0f32;
    let mut stage = ATTACK_STAGE;
    let mut reached_at = None;
    for n in 1..=10 {
        assert_eq!(envelope_step(stage, true), LevelStep::Rise);
        level += 1.0 / (attack * sample_rate).max(1.0);
        let reached = level >= 1.0;
        if reached {
            level = 1.0;
            reached_at.get_or_insert(n);
        }
        stage = envelope_next_stage(stage, true, reached);
        if reached {
            break;
        }
    }
    assert!(reached_at.unwrap() <= 10);
    assert_eq!(level, 1.0);
    assert_eq!(stage, DECAY_STAGE);
}
