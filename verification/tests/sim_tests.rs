//! Tests for the simulation engine: configuration validation, the
//! experiment builder, FIFO acknowledgment and the end-to-end session.

use dials_research::audio::AudioManager;
use dials_research::ball::BallVelocity;
use dials_research::config::{
    validate_config, Config, ConfigAlarm, ConfigBall, ConfigDial, ConfigDialRow, ConfigError,
    ConfigTrial, InputMode,
};
use dials_research::dial::Dial;
use dials_research::path::DialSpeed;
use dials_research::range::DialRange;
use dials_research::sim::{
    acknowledge_key, build_experiment, chars_match, config_to_setups, tick, AlarmEvent, DialPlan,
    DialSetup, RunningState,
};

fn one_trial(dial: &str, alarm: &str, key: char, time_ms: i64) -> ConfigTrial {
    ConfigTrial {
        correct_response_key: key,
        feedback_text_correct: None,
        feedback_text_incorrect: None,
        feedback_color_correct: None,
        feedback_color_incorrect: None,
        dial: dial.to_owned(),
        alarm: alarm.to_owned(),
        alarm_time_ms: time_ms,
    }
}

fn small_config() -> Config {
    Config {
        output_data_path: None,
        input_mode: InputMode::Keyboard,
        ball: ConfigBall {
            random_direction_change_time_min_ms: 1000,
            random_direction_change_time_max_ms: 8000,
            ball_velocity: BallVelocity::Slow,
        },
        trials: vec![one_trial("d1", "a1", '1', 4000)],
        dial_rows: vec![ConfigDialRow {
            dials: vec![ConfigDial {
                name: "d1".to_owned(),
                range_start: 100,
                range_end: 300,
            }],
        }],
        alarms: vec![ConfigAlarm {
            name: "a1".to_owned(),
            audio_path: "alarm.wav".to_owned(),
        }],
    }
}

#[test]
fn default_config_validates() {
    let config = Config::default();
    assert!(validate_config(&config).is_ok());
    assert_eq!(config.trials.len(), 6);
    assert_eq!(config.alarms.len(), 6);
    assert_eq!(config.dial_rows.len(), 2);
}

#[test]
fn validation_rejects_missing_alarm() {
    let mut config = small_config();
    config.trials[0].alarm = "a9".to_owned();
    assert_eq!(
        validate_config(&config),
        Err(ConfigError::MissingAlarm("a9".to_owned()))
    );
}

#[test]
fn validation_rejects_missing_dial() {
    let mut config = small_config();
    config.trials[0].dial = "d9".to_owned();
    assert_eq!(
        validate_config(&config),
        Err(ConfigError::MissingDial("d9".to_owned()))
    );
}

#[test]
fn validation_rejects_bad_dial_range() {
    let mut config = small_config();
    config.dial_rows[0].dials[0].range_start = 300;
    config.dial_rows[0].dials[0].range_end = 100;
    assert_eq!(
        validate_config(&config),
        Err(ConfigError::BadDialRange("d1".to_owned()))
    );
}

#[test]
fn validation_rejects_bad_ball_times() {
    let mut config = small_config();
    config.ball.random_direction_change_time_min_ms = 9000;
    assert_eq!(validate_config(&config), Err(ConfigError::BadBallTimes));
}

#[test]
fn validation_rejects_bad_trial_time() {
    let mut config = small_config();
    config.trials[0].alarm_time_ms = -1;
    assert_eq!(
        validate_config(&config),
        Err(ConfigError::BadTrialTime("d1".to_owned()))
    );
}

#[test]
fn setups_resolve_trials_to_dials() {
    let config = small_config();
    let setups = config_to_setups(&config).unwrap();
    assert_eq!(setups.len(), 1);
    assert_eq!(setups[0].name, "d1");
    assert_eq!(setups[0].range_start, 100);
    assert_eq!(setups[0].range_end, 300);
    assert_eq!(setups[0].required_key, '1');
    assert_eq!(setups[0].audio_path, "alarm.wav");
    assert_eq!(setups[0].drift_out_after_ms, Some(4000));
}

#[test]
fn key_matching_is_case_insensitive() {
    assert!(chars_match('a', 'A'));
    assert!(chars_match('Z', 'z'));
    assert!(chars_match('1', '1'));
    assert!(!chars_match('a', 'b'));
    assert!(!chars_match('1', '2'));
}

#[test]
fn keypress_with_no_pending_alarm_is_a_no_op() {
    let setups = vec![DialSetup {
        name: "d1".to_owned(),
        range_start: 100,
        range_end: 300,
        speed: DialSpeed::Medium,
        required_key: '1',
        audio_path: "alarm.wav".to_owned(),
        drift_out_after_ms: None,
    }];
    let mut state = build_experiment(
        &setups,
        0,
        0,
        BallVelocity::Slow,
        InputMode::Keyboard,
        "out.csv".to_owned(),
    );
    let mut audio = AudioManager::new();
    state.pressed_key = Some('1');
    let completed = tick(&mut state, &mut audio, 2, 2);
    assert!(!completed);
    assert!(state.session_output.trial_reactions.is_empty());
    assert!(state.pressed_key.is_none());
}

#[test]
fn fifo_acknowledgment_resolves_oldest_first() {
    // Alarms fired in order d1, d2, d3 with distinct timestamps; three key
    // presses with arbitrary keys resolve them in exactly that order.
    let mut state = RunningState::new();
    for name in ["d1", "d2", "d3"] {
        state
            .dials
            .push(Dial::new(name.to_owned(), DialRange::new(100, 300), DialSpeed::Medium));
        state.plans.push(DialPlan {
            required_key: '1',
            audio_path: "alarm.wav".to_owned(),
            drift_out_after_ms: None,
        });
    }
    state.expected_reactions = 3;
    state.clock_ms = 300;
    for (i, name) in ["d1", "d2", "d3"].iter().enumerate() {
        state.pending_alarms.push_back(AlarmEvent {
            dial_index: i,
            dial_name: (*name).to_owned(),
            fired_at_ms: 100 * (i as u64 + 1),
            required_key: '1',
        });
    }

    let mut audio = AudioManager::new();
    acknowledge_key(&mut state, &mut audio, 'x', 1000);
    acknowledge_key(&mut state, &mut audio, '1', 1100);
    acknowledge_key(&mut state, &mut audio, 'q', 1200);

    let records = &state.session_output.trial_reactions;
    assert_eq!(records.len(), 3);
    assert_eq!(records[0].dial, "d1");
    assert_eq!(records[1].dial, "d2");
    assert_eq!(records[2].dial, "d3");
    assert_eq!(records[0].trial_num, 1);
    assert_eq!(records[1].trial_num, 2);
    assert_eq!(records[2].trial_num, 3);
    assert_eq!(records[0].millis, 900);
    assert_eq!(records[1].millis, 900);
    assert_eq!(records[2].millis, 900);
    assert!(!records[0].correct_key);
    assert!(records[1].correct_key);
    assert!(!records[2].correct_key);
    assert!(state.session_complete);
}

#[test]
fn end_to_end_session() {
    // One dial with range [100, 300] and a five-second drift deadline.
    let setups = vec![DialSetup {
        name: "d1".to_owned(),
        range_start: 100,
        range_end: 300,
        speed: DialSpeed::Medium,
        required_key: '1',
        audio_path: "alarm.wav".to_owned(),
        drift_out_after_ms: Some(5000),
    }];
    let mut state = build_experiment(
        &setups,
        1000,
        8000,
        BallVelocity::Slow,
        InputMode::Keyboard,
        "out.csv".to_owned(),
    );
    let mut audio = AudioManager::new();
    assert_eq!(state.expected_reactions, 1);

    // Advance simulated time in two-millisecond ticks past the deadline,
    // with no key press. Consuming each finished path segment costs one
    // tick, so allow a few ticks of slack past five seconds.
    let mut now: u64 = 0;
    for _ in 0..2600 {
        now += 2;
        let completed = tick(&mut state, &mut audio, 2, now);
        assert!(!completed);
    }

    // The alarm has been queued and the needle is outside the band.
    assert_eq!(state.pending_alarms.len(), 1);
    let value = state.dials[0].value();
    assert!(value < 100 || value > 300);
    assert!(state.dials[0].alarm_fired());
    assert!(!state.session_complete);

    // A play command for the dial's alarm was dispatched.
    match audio.pop_command() {
        Some(dials_research::audio::AudioCommand::Play(name, _)) => assert_eq!(name, "d1"),
        other => panic!("expected a play command for d1, got {:?}", other),
    }

    // Press the correct key: exactly one reaction record, marked correct,
    // and the dial is reset.
    state.pressed_key = Some('1');
    now += 2;
    let completed = tick(&mut state, &mut audio, 2, now);
    assert!(completed);
    assert!(state.session_complete);
    assert_eq!(state.session_output.trial_reactions.len(), 1);
    let record = &state.session_output.trial_reactions[0];
    assert!(record.correct_key);
    assert_eq!(record.dial, "d1");
    assert_eq!(record.key, '1');
    assert!(record.millis <= 300);
    assert!(state.pending_alarms.is_empty());
    assert!(state.dials[0].is_wandering());
    assert!(!state.dials[0].alarm_fired());
    assert!(state.dials[0].is_flashing());

    // The stop command for the alarm follows the play command.
    match audio.pop_command() {
        Some(dials_research::audio::AudioCommand::Stop(name)) => assert_eq!(name, "d1"),
        other => panic!("expected a stop command for d1, got {:?}", other),
    }

    // One more tick brings the needle back onto its fresh wander path,
    // inside the band.
    now += 2;
    tick(&mut state, &mut audio, 2, now);
    let value = state.dials[0].value();
    assert!((100..=300).contains(&value));
}

#[test]
fn ball_stays_in_walls_and_reports_squared_error() {
    let setups: Vec<DialSetup> = Vec::new();
    let mut state = build_experiment(
        &setups,
        0,
        0,
        BallVelocity::Fast,
        InputMode::Keyboard,
        "out.csv".to_owned(),
    );
    let mut audio = AudioManager::new();
    // Push hard to the right for a while: the ball moves right but never
    // through the wall.
    state.input_axes = (1000, 0);
    let mut now: u64 = 0;
    for _ in 0..200 {
        now += 50;
        tick(&mut state, &mut audio, 50, now);
    }
    let (x, y) = state.ball.pos();
    assert!(x >= 0);
    assert!(x <= 970 && x >= -970);
    assert!(y <= 970 && y >= -970);
    assert_eq!(state.ball.current_rms_error(), x * x + y * y);
}
