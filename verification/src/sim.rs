//! The simulation loop's per-tick engine and the shared experiment state.
//!
//! A fixed-rate simulation thread owns the tick; a presentation layer
//! writes raw input into the shared state between ticks and reads dial
//! values back to draw. Each tick advances every dial, queues an alarm
//! event for each dial that left its band, advances the tracking ball,
//! and resolves a latched key press against the *oldest* outstanding
//! alarm — strictly first-in, first-out.

use crate::audio::AudioCommandV;
use crate::audio::AudioManager;
use crate::ball::ball_update_rel;
use crate::ball::Ball;
use crate::config::InputMode;
use crate::dial::dial_fires;
use crate::dial::dial_step;
use crate::dial::reset_post;
use crate::dial::Dial;
use crate::dial::DialV;
use crate::dial::DIAL_FLASH_MS;
use crate::dial::MAX_DELTA_MS;
use crate::output::SessionOutput;
use crate::output::TrialReaction;
use crate::path::DialSpeed;
use crate::path::MAX_SEGMENT_MS;
use crate::range::DialRange;
use crate::range::RANGE_BOUND_LIMIT;
use std::collections::VecDeque;
use vstd::prelude::*;

verus! {

/// The upper-case code of an ASCII letter, and any other character's own
/// code: keys are matched case-insensitively.
pub open spec fn upper_code(c: char) -> int {
    if 97 <= c as u32 <= 122 {
        c as u32 - 32
    } else {
        c as u32 as int
    }
}

/// Whether two key characters match, ignoring ASCII case.
pub open spec fn keys_match(a: char, b: char) -> bool {
    upper_code(a) == upper_code(b)
}

/// Compares two key characters, ignoring ASCII case.
pub fn chars_match(a: char, b: char) -> (r: bool)
    ensures
        r == keys_match(a, b),
{
    let x = a as u32;
    let y = b as u32;
    let xu = if 97 <= x && x <= 122 {
        x - 32
    } else {
        x
    };
    let yu = if 97 <= y && y <= 122 {
        y - 32
    } else {
        y
    };
    xu == yu
}

/// An immutable record of one alarm firing: created the instant a dial's
/// value first leaves its range, consumed exactly once from the pending
/// queue.
#[derive(Debug, Clone)]
pub struct AlarmEvent {
    /// The position of the fired dial in the shared state's dial list.
    pub dial_index: usize,
    /// The fired dial's name.
    pub dial_name: String,
    /// When the alarm fired, in the engine's millisecond clock.
    pub fired_at_ms: u64,
    /// The key that counts as the correct acknowledgment.
    pub required_key: char,
}

/// The mathematical shape of an alarm event.
pub struct AlarmEventV {
    /// The position of the fired dial in the dial list.
    pub dial_index: int,
    /// The fired dial's name.
    pub dial_name: Seq<char>,
    /// When the alarm fired, milliseconds.
    pub fired_at_ms: int,
    /// The key that counts as the correct acknowledgment.
    pub required_key: char,
}

impl View for AlarmEvent {
    type V = AlarmEventV;

    closed spec fn view(&self) -> AlarmEventV {
        AlarmEventV {
            dial_index: self.dial_index as int,
            dial_name: self.dial_name@,
            fired_at_ms: self.fired_at_ms as int,
            required_key: self.required_key,
        }
    }
}

/// The per-dial part of the configuration the loader hands the engine:
/// the response key, the alarm sound, and the scheduled drift-out time,
/// if this dial has one.
#[derive(Debug, Clone)]
pub struct DialPlan {
    /// The key that acknowledges this dial's alarm.
    pub required_key: char,
    /// The path of the alarm sound to play when this dial fires.
    pub audio_path: String,
    /// When this dial is scheduled to drift out of range, in milliseconds
    /// from its last reset, or nothing if it only wanders.
    pub drift_out_after_ms: Option<i64>,
}

/// The single shared structure both threads work on: the simulation
/// thread mutates it once per tick under the one lock, the presentation
/// layer reads dial values and writes raw input.
#[derive(Debug)]
pub struct RunningState {
    /// All dials, in panel order.
    pub dials: Vec<Dial>,
    /// The per-dial plans, parallel to `dials`.
    pub plans: Vec<DialPlan>,
    /// The tracking ball.
    pub ball: Ball,
    /// Alarms fired and not yet acknowledged, oldest first.
    pub pending_alarms: VecDeque<AlarmEvent>,
    /// The keyboard input axes, each in -1000 ..= 1000.
    pub input_axes: (i64, i64),
    /// The joystick input axes, each in -1000 ..= 1000.
    pub joystick_axes: (i64, i64),
    /// A key press latched by the presentation layer since the last tick.
    pub pressed_key: Option<char>,
    /// Which input source steers the ball.
    pub input_mode: InputMode,
    /// The reaction records collected so far.
    pub session_output: SessionOutput,
    /// The number of the next trial, counted from 1.
    pub current_trial_number: usize,
    /// How many reactions complete the session.
    pub expected_reactions: usize,
    /// Set once, when the last expected reaction has been recorded.
    pub session_complete: bool,
    /// The engine's clock at the last tick, in milliseconds.
    pub clock_ms: u64,
}

/// The number of the trial that `n` recorded reactions make current: one
/// past the count, held at the largest representable trial number.
pub open spec fn spec_trial_number(n: int) -> int {
    if n + 1 < usize::MAX {
        n + 1
    } else {
        usize::MAX as int
    }
}

/// The pending alarm queue, as alarm-event values.
pub open spec fn pending_view(s: RunningState) -> Seq<AlarmEventV> {
    s.pending_alarms@.map_values(|e: AlarmEvent| e@)
}

/// The dials, as dial values.
pub open spec fn dials_view(s: RunningState) -> Seq<DialV> {
    s.dials@.map_values(|d: Dial| d@)
}

/// A well-formed shared state; established at construction and kept by
/// every tick.
pub open spec fn state_wf(s: RunningState) -> bool {
    &&& s.dials@.len() == s.plans@.len()
    &&& forall|i: int| 0 <= i < s.dials@.len() ==> (#[trigger] s.dials@[i]@).wf()
    &&& forall|i: int|
        0 <= i < pending_view(s).len() ==> {
            &&& 0 <= (#[trigger] pending_view(s)[i]).dial_index < s.dials@.len()
            &&& 0 <= pending_view(s)[i].fired_at_ms <= s.clock_ms
        }
    &&& forall|i: int, j: int|
        #![trigger pending_view(s)[i], pending_view(s)[j]]
        0 <= i < j < pending_view(s).len() ==> pending_view(s)[i].fired_at_ms <= pending_view(
            s,
        )[j].fired_at_ms
    &&& s.ball@.wf()
    &&& -1000 <= s.input_axes.0 <= 1000
    &&& -1000 <= s.input_axes.1 <= 1000
    &&& -1000 <= s.joystick_axes.0 <= 1000
    &&& -1000 <= s.joystick_axes.1 <= 1000
    &&& s.current_trial_number == spec_trial_number(s.session_output.trial_reactions@.len() as int)
}

/// The alarm events fired by the first `n` dials when one tick of `dt`
/// milliseconds is applied to them at time `now`: one event per dial whose
/// needle ends the step out of range with its alarm still unfired, in
/// dial order.
pub open spec fn fired_events(
    dials: Seq<DialV>,
    plans: Seq<DialPlan>,
    dt: int,
    now: int,
    n: int,
) -> Seq<AlarmEventV>
    decreases n,
{
    if n <= 0 {
        Seq::empty()
    } else {
        let rest = fired_events(dials, plans, dt, now, n - 1);
        if dial_fires(dials[n - 1], dt) {
            rest.push(
                AlarmEventV {
                    dial_index: n - 1,
                    dial_name: dials[n - 1].name,
                    fired_at_ms: now,
                    required_key: plans[n - 1].required_key,
                },
            )
        } else {
            rest
        }
    }
}

/// A dial's state right after its alarm was acknowledged: reset to wander
/// — up to the fresh random path — with its needle flashing.
pub open spec fn acked_dial(pre: DialV, post: DialV) -> bool {
    &&& post.flash_remaining == Option::Some(DIAL_FLASH_MS as int)
    &&& reset_post(pre, DialV { flash_remaining: pre.flash_remaining, ..post }, Option::None)
}

/// The dial an acknowledgment resolves: always the front of the pending
/// queue — the oldest outstanding alarm — never one selected by the key
/// that was pressed.
pub open spec fn ack_target(pending: Seq<AlarmEventV>, key: char) -> Option<AlarmEventV> {
    if pending.len() > 0 {
        Option::Some(pending[0])
    } else {
        Option::None
    }
}

/// The reaction time recorded for an alarm fired at `fired` and
/// acknowledged at `now`, saturating at the largest representable value.
pub open spec fn reaction_millis(now: int, fired: int) -> int {
    if now - fired > u32::MAX {
        u32::MAX as int
    } else {
        now - fired
    }
}

/// Whether `r` is exactly the reaction record that acknowledging the
/// alarm `ev` with `key` at time `now` must produce, as trial number
/// `trial_num` with tracking error `rms`.
pub open spec fn is_reaction_for(
    r: TrialReaction,
    ev: AlarmEventV,
    key: char,
    now: int,
    trial_num: int,
    rms: int,
) -> bool {
    &&& r.trial_num == trial_num
    &&& r.millis == reaction_millis(now, ev.fired_at_ms)
    &&& r.correct_key == keys_match(key, ev.required_key)
    &&& r.key == key
    &&& r.dial@ == ev.dial_name
    &&& r.rms_error == rms
}

/// Acknowledgments are strictly first-in, first-out: with alarms pending
/// in the order first, second, third, three successive key presses
/// resolve exactly the first, the second and the third alarm, in that
/// order, regardless of which keys were pressed — the keys decide only
/// whether each reaction counts as correct, never which alarm it
/// resolves.
pub proof fn lemma_fifo_acknowledgment(pending: Seq<AlarmEventV>, k1: char, k2: char, k3: char)
    requires
        pending.len() >= 3,
    ensures
        ack_target(pending, k1) == Option::Some(pending[0]),
        ack_target(pending.drop_first(), k2) == Option::Some(pending[1]),
        ack_target(pending.drop_first().drop_first(), k3) == Option::Some(pending[2]),
{
    assert(pending.drop_first()[0] == pending[1]);
    assert(pending.drop_first().drop_first()[0] == pending[2]);
}

impl RunningState {
    /// Creates an empty shared state: no dials, no pending alarms, a
    /// default slow ball, keyboard input, and no output recorded.
    pub fn new() -> (s: RunningState)
        ensures
            state_wf(s),
            s.dials@.len() == 0,
            pending_view(s).len() == 0,
            s.session_output.trial_reactions@.len() == 0,
            !s.session_complete,
            s.clock_ms == 0,
    {
        let s = RunningState {
            dials: Vec::new(),
            plans: Vec::new(),
            ball: Ball::new(0, 0, crate::ball::BallVelocity::Slow),
            pending_alarms: VecDeque::new(),
            input_axes: (0, 0),
            joystick_axes: (0, 0),
            pressed_key: Option::None,
            input_mode: InputMode::Keyboard,
            session_output: SessionOutput::new(String::new()),
            current_trial_number: 1,
            expected_reactions: 0,
            session_complete: false,
            clock_ms: 0,
        };
        proof {
            assert(pending_view(s) =~= Seq::<AlarmEventV>::empty());
            assert(dials_view(s) =~= Seq::<DialV>::empty());
        }
        s
    }
}

/// Everything the configuration loader hands the engine for one dial:
/// identity, band, speed, response key, alarm sound, and the scheduled
/// drift-out time if the dial has one.
#[derive(Debug, Clone)]
pub struct DialSetup {
    /// The dial's name, its identity.
    pub name: String,
    /// The start of the dial's in-range band.
    pub range_start: i64,
    /// The end of the dial's in-range band.
    pub range_end: i64,
    /// How quickly the dial's needle moves.
    pub speed: DialSpeed,
    /// The key that acknowledges this dial's alarm.
    pub required_key: char,
    /// The path of the alarm sound played when this dial fires.
    pub audio_path: String,
    /// When the dial drifts out of range, in milliseconds from the start,
    /// or nothing if it only wanders.
    pub drift_out_after_ms: Option<i64>,
}

impl DialSetup {
    /// A setup the engine can accept: a well-formed band and a
    /// representable drift-out time.
    pub open spec fn wf(self) -> bool {
        &&& -RANGE_BOUND_LIMIT <= self.range_start
        &&& self.range_start < self.range_end
        &&& self.range_end <= RANGE_BOUND_LIMIT
        &&& self.range_end - self.range_start >= 2
        &&& match self.drift_out_after_ms {
            Option::Some(t) => 0 <= t <= MAX_SEGMENT_MS,
            Option::None => true,
        }
    }
}

/// How many of the first `n` setups schedule a drift-out: the number of
/// reactions the session expects.
pub open spec fn scheduled_count(setups: Seq<DialSetup>, n: int) -> int
    decreases n,
{
    if n <= 0 {
        0
    } else {
        scheduled_count(setups, n - 1) + if setups[n - 1].drift_out_after_ms is Some {
            1int
        } else {
            0int
        }
    }
}

/// Builds the shared state for an experiment: one dial per setup, in
/// order, each wandering from the middle of its band or already scheduled
/// to drift out at its configured time; no alarms pending, nothing
/// recorded, the clock at zero.
pub fn build_experiment(
    setups: &Vec<DialSetup>,
    ball_change_min_ms: i64,
    ball_change_max_ms: i64,
    ball_velocity: crate::ball::BallVelocity,
    input_mode: InputMode,
    output_path: String,
) -> (s: RunningState)
    requires
        forall|i: int| 0 <= i < setups@.len() ==> (#[trigger] setups@[i]).wf(),
        0 <= ball_change_min_ms <= ball_change_max_ms <= MAX_SEGMENT_MS,
    ensures
        state_wf(s),
        s.dials@.len() == setups@.len(),
        s.plans@.len() == setups@.len(),
        forall|i: int|
            0 <= i < setups@.len() ==> {
                let d = (#[trigger] s.dials@[i])@;
                &&& d.name == setups@[i].name@
                &&& d.in_range == (DialRange {
                    start: setups@[i].range_start,
                    end: setups@[i].range_end,
                })
                &&& d.speed == setups@[i].speed
                &&& !d.alarm_fired
                &&& d.is_wandering == (setups@[i].drift_out_after_ms is None)
                &&& d.segment_time == 0
                &&& match setups@[i].drift_out_after_ms {
                    Option::Some(t) => crate::path::drift_path_ok(d.in_range, d.path, d.speed, t as int),
                    Option::None => crate::path::wander_path_ok(d.in_range, d.path, d.speed),
                }
            },
        forall|i: int|
            0 <= i < setups@.len() ==> {
                let p = #[trigger] s.plans@[i];
                &&& p.required_key == setups@[i].required_key
                &&& p.audio_path@ == setups@[i].audio_path@
                &&& p.drift_out_after_ms == setups@[i].drift_out_after_ms
            },
        s.expected_reactions == scheduled_count(setups@, setups@.len() as int),
        pending_view(s).len() == 0,
        s.session_output.trial_reactions@.len() == 0,
        s.session_output.output_path@ == output_path@,
        !s.session_complete,
        s.clock_ms == 0,
        s.pressed_key is None,
        s.input_mode == input_mode,
{
    let mut dials: Vec<Dial> = Vec::new();
    let mut plans: Vec<DialPlan> = Vec::new();
    let mut expected: usize = 0;
    let mut i: usize = 0;
    while i < setups.len()
        invariant
            forall|k: int| 0 <= k < setups@.len() ==> (#[trigger] setups@[k]).wf(),
            i <= setups@.len(),
            dials@.len() == i,
            plans@.len() == i,
            expected == scheduled_count(setups@, i as int),
            expected <= i,
            forall|k: int|
                0 <= k < i ==> {
                    let d = (#[trigger] dials@[k])@;
                    &&& d.wf()
                    &&& d.name == setups@[k].name@
                    &&& d.in_range == (DialRange {
                        start: setups@[k].range_start,
                        end: setups@[k].range_end,
                    })
                    &&& d.speed == setups@[k].speed
                    &&& !d.alarm_fired
                    &&& d.is_wandering == (setups@[k].drift_out_after_ms is None)
                    &&& d.segment_time == 0
                    &&& match setups@[k].drift_out_after_ms {
                        Option::Some(t) => crate::path::drift_path_ok(
                            d.in_range,
                            d.path,
                            d.speed,
                            t as int,
                        ),
                        Option::None => crate::path::wander_path_ok(d.in_range, d.path, d.speed),
                    }
                },
            forall|k: int|
                0 <= k < i ==> {
                    let p = #[trigger] plans@[k];
                    &&& p.required_key == setups@[k].required_key
                    &&& p.audio_path@ == setups@[k].audio_path@
                    &&& p.drift_out_after_ms == setups@[k].drift_out_after_ms
                },
        decreases setups@.len() - i,
    {
        let setup = &setups[i];
        let range = DialRange::new(setup.range_start, setup.range_end);
        let mut dial = Dial::new(setup.name.clone(), range, setup.speed);
        match setup.drift_out_after_ms {
            Option::Some(t) => {
                dial.reset(Option::Some(t));
                expected = expected + 1;
            },
            Option::None => {},
        }
        dials.push(dial);
        plans.push(
            DialPlan {
                required_key: setup.required_key,
                audio_path: setup.audio_path.clone(),
                drift_out_after_ms: setup.drift_out_after_ms,
            },
        );
        i = i + 1;
    }

    let s = RunningState {
        dials,
        plans,
        ball: Ball::new(ball_change_min_ms, ball_change_max_ms, ball_velocity),
        pending_alarms: VecDeque::new(),
        input_axes: (0, 0),
        joystick_axes: (0, 0),
        pressed_key: Option::None,
        input_mode,
        session_output: SessionOutput::new(output_path),
        current_trial_number: 1,
        expected_reactions: expected,
        session_complete: false,
        clock_ms: 0,
    };
    proof {
        assert(pending_view(s) =~= Seq::<AlarmEventV>::empty());
    }
    s
}

/// The number of dials configured in the first `n` rows.
pub open spec fn flat_dial_count(rows: Seq<crate::config::ConfigDialRow>, n: int) -> int
    decreases n,
{
    if n <= 0 {
        0
    } else {
        flat_dial_count(rows, n - 1) + rows[n - 1].dials@.len()
    }
}

/// Whether `s` is a faithful setup for one of the configured dials: it
/// carries some configured dial's name and band; it is scheduled to drift
/// out exactly when some trial drives that dial, with that trial's key and
/// its alarm's sound; and it wanders forever exactly when no trial does.
pub open spec fn setup_from_config(c: crate::config::Config, s: DialSetup) -> bool {
    &&& exists|i: int, j: int|
        0 <= i < c.dial_rows@.len() && 0 <= j < c.dial_rows@[i].dials@.len() && ({
            let d = #[trigger] c.dial_rows@[i].dials@[j];
            d.name@ == s.name@ && d.range_start == s.range_start && d.range_end == s.range_end
        })
    &&& (s.drift_out_after_ms is Some <==> exists|t: int|
        0 <= t < c.trials@.len() && (#[trigger] c.trials@[t]).dial@ == s.name@)
    &&& (s.drift_out_after_ms is Some ==> exists|t: int|
        0 <= t < c.trials@.len() && (#[trigger] c.trials@[t]).dial@ == s.name@
            && s.drift_out_after_ms == Option::Some(c.trials@[t].alarm_time_ms)
            && s.required_key == c.trials@[t].correct_response_key && exists|a: int|
            0 <= a < c.alarms@.len() && (#[trigger] c.alarms@[a]).name@ == c.trials@[t].alarm@
                && s.audio_path@ == c.alarms@[a].audio_path@)
}

/// The position of the first trial that drives the named dial, if any.
fn find_trial(config: &crate::config::Config, name: &String) -> (r: Option<usize>)
    ensures
        match r {
            Option::Some(t) => 0 <= t < config.trials@.len() && config.trials@[t as int].dial@
                == name@,
            Option::None => forall|t: int|
                0 <= t < config.trials@.len() ==> (#[trigger] config.trials@[t]).dial@ != name@,
        },
{
    let mut t: usize = 0;
    while t < config.trials.len()
        invariant
            t <= config.trials@.len(),
            forall|k: int| 0 <= k < t ==> (#[trigger] config.trials@[k]).dial@ != name@,
        decreases config.trials@.len() - t,
    {
        if config.trials[t].dial == *name {
            return Option::Some(t);
        }
        t = t + 1;
    }
    Option::None
}

/// The audio file of the named alarm, if the alarm is configured.
fn alarm_audio(config: &crate::config::Config, name: &String) -> (r: Option<String>)
    ensures
        match r {
            Option::Some(p) => exists|a: int|
                0 <= a < config.alarms@.len() && (#[trigger] config.alarms@[a]).name@ == name@
                    && p@ == config.alarms@[a].audio_path@,
            Option::None => !crate::config::alarm_listed(*config, name@),
        },
{
    let mut a: usize = 0;
    while a < config.alarms.len()
        invariant
            a <= config.alarms@.len(),
            forall|k: int| 0 <= k < a ==> (#[trigger] config.alarms@[k]).name@ != name@,
        decreases config.alarms@.len() - a,
    {
        if config.alarms[a].name == *name {
            return Option::Some(config.alarms[a].audio_path.clone());
        }
        a = a + 1;
    }
    Option::None
}

/// Turns a configuration into the per-dial setups the engine runs on, one
/// per configured dial in panel order, after validating it: a dial driven
/// by a trial is scheduled to drift out at the trial's time, acknowledged
/// by the trial's key and sounding the trial's alarm; every other dial
/// wanders forever. Dials move at medium speed: the configuration file
/// carries no per-dial speed. Fails exactly when validation does.
pub fn config_to_setups(config: &crate::config::Config) -> (r: Result<
    Vec<DialSetup>,
    crate::config::ConfigError,
>)
    ensures
        r is Ok <==> crate::config::config_ok(*config),
        match r {
            Result::Ok(setups) => {
                &&& setups@.len() == flat_dial_count(
                    config.dial_rows@,
                    config.dial_rows@.len() as int,
                )
                &&& forall|k: int| 0 <= k < setups@.len() ==> (#[trigger] setups@[k]).wf()
                &&& forall|k: int|
                    0 <= k < setups@.len() ==> setup_from_config(*config, #[trigger] setups@[k])
                &&& forall|k: int|
                    0 <= k < setups@.len() ==> (#[trigger] setups@[k]).speed == DialSpeed::Medium
            },
            Result::Err(_) => !crate::config::config_ok(*config),
        },
{
    match crate::config::validate_config(config) {
        Result::Err(e) => {
            return Result::Err(e);
        },
        Result::Ok(_) => {},
    }

    let mut setups: Vec<DialSetup> = Vec::new();
    let mut i: usize = 0;
    while i < config.dial_rows.len()
        invariant
            crate::config::config_ok(*config),
            i <= config.dial_rows@.len(),
            setups@.len() == flat_dial_count(config.dial_rows@, i as int),
            forall|k: int| 0 <= k < setups@.len() ==> (#[trigger] setups@[k]).wf(),
            forall|k: int|
                0 <= k < setups@.len() ==> setup_from_config(*config, #[trigger] setups@[k]),
            forall|k: int|
                0 <= k < setups@.len() ==> (#[trigger] setups@[k]).speed == DialSpeed::Medium,
        decreases config.dial_rows@.len() - i,
    {
        let row = &config.dial_rows[i];
        let mut j: usize = 0;
        while j < row.dials.len()
            invariant
                crate::config::config_ok(*config),
                i < config.dial_rows@.len(),
                row == &config.dial_rows@[i as int],
                j <= row.dials@.len(),
                setups@.len() == flat_dial_count(config.dial_rows@, i as int) + j,
                forall|k: int| 0 <= k < setups@.len() ==> (#[trigger] setups@[k]).wf(),
                forall|k: int|
                    0 <= k < setups@.len() ==> setup_from_config(*config, #[trigger] setups@[k]),
                forall|k: int|
                    0 <= k < setups@.len() ==> (#[trigger] setups@[k]).speed == DialSpeed::Medium,
            decreases row.dials@.len() - j,
        {
            let d = &row.dials[j];
            proof {
                assert(crate::config::dial_range_ok(config.dial_rows@[i as int].dials@[j as int]));
            }
            let setup = match find_trial(config, &d.name) {
                Option::Some(t) => {
                    let trial = &config.trials[t];
                    proof {
                        assert(crate::config::trial_ok(*config, config.trials@[t as int]));
                    }
                    match alarm_audio(config, &trial.alarm) {
                        Option::Some(path) => DialSetup {
                            name: d.name.clone(),
                            range_start: d.range_start,
                            range_end: d.range_end,
                            speed: DialSpeed::Medium,
                            required_key: trial.correct_response_key,
                            audio_path: path,
                            drift_out_after_ms: Option::Some(trial.alarm_time_ms),
                        },
                        Option::None => {
                            proof {
                                assert(false);
                            }
                            vstd::pervasive::unreached()
                        },
                    }
                },
                Option::None => DialSetup {
                    name: d.name.clone(),
                    range_start: d.range_start,
                    range_end: d.range_end,
                    speed: DialSpeed::Medium,
                    required_key: '0',
                    audio_path: String::new(),
                    drift_out_after_ms: Option::None,
                },
            };
            setups.push(setup);
            j = j + 1;
        }
        i = i + 1;
    }
    Result::Ok(setups)
}

/// The whole application state: the experiment is running, or it has
/// finished and the end screen is shown.
pub enum AppState {
    /// The experiment is running.
    Running(RunningState),
    /// All trials are done.
    Done,
}

impl Default for AppState {
    /// The application starts out running, with an empty experiment.
    fn default() -> (s: AppState)
        ensures
            s matches AppState::Running(r) && state_wf(r),
    {
        AppState::Running(RunningState::new())
    }
}

/// Every event fired by one tick concerns a dial of the panel and carries
/// the tick's own clock as its firing time.
pub proof fn lemma_fired_events_bounds(
    dials: Seq<DialV>,
    plans: Seq<DialPlan>,
    dt: int,
    now: int,
    n: int,
)
    ensures
        forall|k: int|
            0 <= k < fired_events(dials, plans, dt, now, n).len() ==> {
                &&& 0 <= (#[trigger] fired_events(dials, plans, dt, now, n)[k]).dial_index < n
                &&& fired_events(dials, plans, dt, now, n)[k].fired_at_ms == now
            },
    decreases n,
{
    if n > 0 {
        lemma_fired_events_bounds(dials, plans, dt, now, n - 1);
        let rest = fired_events(dials, plans, dt, now, n - 1);
        let cur = fired_events(dials, plans, dt, now, n);
        assert forall|k: int| 0 <= k < cur.len() implies {
            &&& 0 <= (#[trigger] cur[k]).dial_index < n
            &&& cur[k].fired_at_ms == now
        } by {
            if k < rest.len() {
                assert(cur[k] == rest[k]);
                assert(0 <= rest[k].dial_index < n - 1);
            }
        }
    }
}

/// The input axes the configured input mode selects for the ball.
pub open spec fn selected_axes(s: RunningState) -> (int, int) {
    match s.input_mode {
        InputMode::Joystick => (s.joystick_axes.0 as int, s.joystick_axes.1 as int),
        InputMode::Keyboard => (s.input_axes.0 as int, s.input_axes.1 as int),
    }
}

/// The alarm one tick acknowledges, if any: the oldest alarm outstanding
/// after this tick's own firings were queued, and only when a key press
/// was latched.
pub open spec fn tick_ack(
    old_pending: Seq<AlarmEventV>,
    fired: Seq<AlarmEventV>,
    key: Option<char>,
) -> Option<AlarmEventV> {
    let mid = old_pending + fired;
    if key is Some && mid.len() > 0 {
        Option::Some(mid[0])
    } else {
        Option::None
    }
}

/// One tick of the simulation loop, under the shared-state lock: advances
/// every dial by the elapsed time and queues an alarm event for each dial
/// that left its band — in dial order, after all dials moved — with a play
/// command for each; advances the tracking ball by the selected input
/// axes; and resolves a latched key press against the oldest outstanding
/// alarm as `acknowledge_key` does. Returns whether this tick completed
/// the session.
pub fn tick(
    state: &mut RunningState,
    audio: &mut AudioManager,
    delta_ms: i64,
    now_ms: u64,
) -> (completed_now: bool)
    requires
        state_wf(*old(state)),
        old(audio).wf(),
        0 <= delta_ms <= MAX_DELTA_MS,
        now_ms >= old(state).clock_ms,
    ensures
        state_wf(*final(state)),
        final(audio).wf(),
        final(state).clock_ms == now_ms,
        final(state).pressed_key is None,
        final(state).plans == old(state).plans,
        final(state).input_axes == old(state).input_axes,
        final(state).joystick_axes == old(state).joystick_axes,
        final(state).input_mode == old(state).input_mode,
        final(state).expected_reactions == old(state).expected_reactions,
        final(state).dials@.len() == old(state).dials@.len(),
        ball_update_rel(
            old(state).ball@,
            final(state).ball@,
            selected_axes(*old(state)).0,
            selected_axes(*old(state)).1,
            delta_ms as int,
        ),
        ({
            let dt = delta_ms as int;
            let now = now_ms as int;
            let n = old(state).dials@.len() as int;
            let fired = fired_events(dials_view(*old(state)), old(state).plans@, dt, now, n);
            let mid_pending = pending_view(*old(state)) + fired;
            let oldq = old(audio).queue_view();
            &&& forall|p: int| 0 <= p < oldq.len() ==> final(audio).queue_view()[p] == oldq[p]
            &&& forall|k: int|
                0 <= k < fired.len() ==> ((#[trigger] final(audio).queue_view()[oldq.len() + k])
                    matches AudioCommandV::Play { name, sample } && name == fired[k].dial_name)
            &&& match tick_ack(pending_view(*old(state)), fired, old(state).pressed_key) {
                Option::Some(ev) => {
                    &&& pending_view(*final(state)) == mid_pending.drop_first()
                    &&& forall|i: int|
                        0 <= i < n && i != ev.dial_index ==> dials_view(*final(state))[i]
                            == dial_step(#[trigger] dials_view(*old(state))[i], dt)
                    &&& acked_dial(
                        dial_step(dials_view(*old(state))[ev.dial_index], dt),
                        dials_view(*final(state))[ev.dial_index],
                    )
                    &&& final(state).session_output.trial_reactions@.len() == old(
                        state,
                    ).session_output.trial_reactions@.len() + 1
                    &&& final(state).session_output.trial_reactions@.drop_last() == old(
                        state,
                    ).session_output.trial_reactions@
                    &&& is_reaction_for(
                        final(state).session_output.trial_reactions@.last(),
                        ev,
                        old(state).pressed_key.unwrap(),
                        now,
                        old(state).current_trial_number as int,
                        ({
                            let b = final(state).ball@;
                            b.pos_x * b.pos_x + b.pos_y * b.pos_y
                        }),
                    )
                    &&& final(audio).queue_view().len() == oldq.len() + fired.len() + 1
                    &&& final(audio).queue_view().last() == (AudioCommandV::Stop {
                        name: ev.dial_name,
                    })
                    &&& ({
                        let done = final(state).session_output.trial_reactions@.len() == old(
                            state,
                        ).expected_reactions;
                        &&& final(state).session_complete == (old(state).session_complete || done)
                        &&& completed_now == (!old(state).session_complete && done)
                    })
                },
                Option::None => {
                    &&& pending_view(*final(state)) == mid_pending
                    &&& forall|i: int|
                        0 <= i < n ==> dials_view(*final(state))[i] == dial_step(
                            #[trigger] dials_view(*old(state))[i],
                            dt,
                        )
                    &&& final(state).session_output == old(state).session_output
                    &&& final(audio).queue_view().len() == oldq.len() + fired.len()
                    &&& final(state).session_complete == old(state).session_complete
                    &&& !completed_now
                },
            }
        }),
{
    let ghost dt = delta_ms as int;
    let ghost now = now_ms as int;
    let ghost entry = *state;

    state.clock_ms = now_ms;
    let key_opt = state.pressed_key;
    state.pressed_key = Option::None;

    let n = state.dials.len();
    let mut events: Vec<AlarmEvent> = Vec::new();
    let mut i: usize = 0;
    proof {
        assert(events@.map_values(|e: AlarmEvent| e@) =~= fired_events(
            dials_view(entry),
            entry.plans@,
            dt,
            now,
            0,
        ));
    }
    while i < n
        invariant
            state_wf(entry),
            n == state.dials@.len(),
            n == entry.dials@.len(),
            entry.plans@.len() == n,
            0 <= delta_ms <= MAX_DELTA_MS,
            dt == delta_ms as int,
            now == now_ms as int,
            i <= n,
            forall|j: int| i <= j < n ==> state.dials@[j] == entry.dials@[j],
            forall|j: int|
                0 <= j < i ==> (#[trigger] state.dials@[j])@ == dial_step(entry.dials@[j]@, dt)
                    && state.dials@[j]@.wf(),
            events@.map_values(|e: AlarmEvent| e@) == fired_events(
                dials_view(entry),
                entry.plans@,
                dt,
                now,
                i as int,
            ),
            state.plans == entry.plans,
            state.ball == entry.ball,
            state.pending_alarms == entry.pending_alarms,
            state.session_output == entry.session_output,
            state.input_axes == entry.input_axes,
            state.joystick_axes == entry.joystick_axes,
            state.input_mode == entry.input_mode,
            state.expected_reactions == entry.expected_reactions,
            state.session_complete == entry.session_complete,
            state.current_trial_number == entry.current_trial_number,
            state.pressed_key is None,
            state.clock_ms == now_ms,
        decreases n - i,
    {
        let ghost events_before = events@.map_values(|e: AlarmEvent| e@);
        proof {
            assert(dials_view(entry)[i as int] == entry.dials@[i as int]@);
        }
        let fired = {
            let dial = &mut state.dials[i];
            dial.update(delta_ms)
        };
        if fired {
            let name = state.dials[i].name().clone();
            let ev = AlarmEvent {
                dial_index: i,
                dial_name: name,
                fired_at_ms: now_ms,
                required_key: state.plans[i].required_key,
            };
            proof {
                assert(dial_step(entry.dials@[i as int]@, dt).name == entry.dials@[i as int]@.name);
                assert(ev@ == AlarmEventV {
                    dial_index: i as int,
                    dial_name: dials_view(entry)[i as int].name,
                    fired_at_ms: now,
                    required_key: entry.plans@[i as int].required_key,
                });
            }
            events.push(ev);
            proof {
                assert(events@.map_values(|e: AlarmEvent| e@) =~= events_before.push(ev@));
            }
        }
        proof {
            assert(events@.map_values(|e: AlarmEvent| e@) =~= fired_events(
                dials_view(entry),
                entry.plans@,
                dt,
                now,
                i + 1,
            ));
        }
        i = i + 1;
    }

    let ghost fired = fired_events(dials_view(entry), entry.plans@, dt, now, n as int);
    let ghost oldq = old(audio).queue_view();
    proof {
        lemma_fired_events_bounds(dials_view(entry), entry.plans@, dt, now, n as int);
    }

    let m = events.len();
    let mut k: usize = 0;
    while k < m
        invariant
            m == events@.len(),
            k <= m,
            events@.map_values(|e: AlarmEvent| e@) == fired,
            forall|p: int|
                0 <= p < fired.len() ==> {
                    &&& 0 <= (#[trigger] fired[p]).dial_index < n
                    &&& fired[p].fired_at_ms == now
                },
            n == state.dials@.len(),
            n == entry.plans@.len(),
            state.pending_alarms@ == entry.pending_alarms@ + events@.subrange(0, k as int),
            audio.wf(),
            oldq == old(audio).queue_view(),
            audio.queue_view().len() == oldq.len() + k,
            forall|p: int| 0 <= p < oldq.len() ==> audio.queue_view()[p] == oldq[p],
            forall|p: int|
                0 <= p < k ==> ((#[trigger] audio.queue_view()[oldq.len() + p])
                    matches AudioCommandV::Play { name, sample } && name == fired[p].dial_name),
            forall|j: int|
                0 <= j < n ==> (#[trigger] state.dials@[j])@ == dial_step(entry.dials@[j]@, dt)
                    && state.dials@[j]@.wf(),
            state_wf(entry),
            state.plans == entry.plans,
            state.ball == entry.ball,
            state.session_output == entry.session_output,
            state.input_axes == entry.input_axes,
            state.joystick_axes == entry.joystick_axes,
            state.input_mode == entry.input_mode,
            state.expected_reactions == entry.expected_reactions,
            state.session_complete == entry.session_complete,
            state.current_trial_number == entry.current_trial_number,
            state.pressed_key is None,
            state.clock_ms == now_ms,
            now == now_ms as int,
            now_ms >= entry.clock_ms,
        decreases m - k,
    {
        let ghost pending_before = state.pending_alarms@;
        let copy = AlarmEvent {
            dial_index: events[k].dial_index,
            dial_name: events[k].dial_name.clone(),
            fired_at_ms: events[k].fired_at_ms,
            required_key: events[k].required_key,
        };
        proof {
            assert(copy@ == events@[k as int]@);
            assert(events@.map_values(|e: AlarmEvent| e@)[k as int] == events@[k as int]@);
        }
        state.pending_alarms.push_back(copy);
        let idx = events[k].dial_index;
        audio.play(&events[k].dial_name, &state.plans[idx].audio_path);
        proof {
            assert(state.pending_alarms@ =~= entry.pending_alarms@ + events@.subrange(
                0,
                k as int + 1,
            ));
        }
        k = k + 1;
    }
    proof {
        assert(events@.subrange(0, m as int) =~= events@);
    }

    let axes = match state.input_mode {
        InputMode::Joystick => state.joystick_axes,
        InputMode::Keyboard => state.input_axes,
    };
    state.ball.update(axes, delta_ms);

    let ghost mid = *state;
    proof {
        assert(pending_view(mid) =~= pending_view(entry) + fired);
        assert forall|p: int| 0 <= p < pending_view(mid).len() implies {
            &&& 0 <= (#[trigger] pending_view(mid)[p]).dial_index < mid.dials@.len()
            &&& 0 <= pending_view(mid)[p].fired_at_ms <= mid.clock_ms
        } by {
            if p < pending_view(entry).len() {
                assert(pending_view(entry)[p].fired_at_ms <= entry.clock_ms);
            }
        }
        assert forall|p: int, q: int|
            0 <= p < q < pending_view(mid).len() implies (#[trigger] pending_view(
            mid,
        )[p]).fired_at_ms <= (#[trigger] pending_view(mid)[q]).fired_at_ms by {
            let ol = pending_view(entry).len() as int;
            if q < ol {
                assert(pending_view(entry)[p].fired_at_ms <= pending_view(entry)[q].fired_at_ms);
            } else if p < ol {
                assert(pending_view(entry)[p].fired_at_ms <= entry.clock_ms);
                assert(pending_view(mid)[q] == fired[q - ol]);
            } else {
                assert(pending_view(mid)[p] == fired[p - ol]);
                assert(pending_view(mid)[q] == fired[q - ol]);
            }
        }
        assert(state_wf(mid));
    }

    let completed_now = match key_opt {
        Option::Some(pressed) => acknowledge_key(state, audio, pressed, now_ms),
        Option::None => false,
    };

    proof {
        let mid_pending = pending_view(entry) + fired;
        if key_opt is Some && mid_pending.len() > 0 {
            assert(ack_target(pending_view(mid), key_opt.unwrap()) == Option::Some(mid_pending[0]));
            let ev = mid_pending[0];
            assert(dials_view(mid)[ev.dial_index] == dial_step(
                dials_view(entry)[ev.dial_index],
                dt,
            ));
            assert forall|ii: int| 0 <= ii < n && ii != ev.dial_index implies dials_view(
                *state,
            )[ii] == dial_step(#[trigger] dials_view(entry)[ii], dt) by {
                assert(mid.dials@[ii] == state.dials@[ii]);
                assert(dials_view(*state)[ii] == state.dials@[ii]@);
            }
        } else {
            assert(pending_view(*state) =~= mid_pending);
            assert forall|ii: int| 0 <= ii < n implies dials_view(*state)[ii] == dial_step(
                #[trigger] dials_view(entry)[ii],
                dt,
            ) by {
                assert(dials_view(*state)[ii] == state.dials@[ii]@);
            }
        }
    }
    completed_now
}

/// Resolves a latched key press against the oldest outstanding alarm. If
/// no alarm is pending the press is a no-op. Otherwise exactly one
/// reaction record is appended for the popped alarm, the alarm's sound is
/// told to stop, and its dial is reset to wander and set flashing. At most
/// one reaction is produced per acknowledged alarm, and the session is
/// marked complete — exactly once — when the expected number of reactions
/// has been recorded. Returns whether this call completed the session.
pub fn acknowledge_key(
    state: &mut RunningState,
    audio: &mut AudioManager,
    key: char,
    now_ms: u64,
) -> (completed_now: bool)
    requires
        state_wf(*old(state)),
        old(audio).wf(),
        now_ms >= old(state).clock_ms,
    ensures
        state_wf(*final(state)),
        final(audio).wf(),
        final(audio).paths_view() == old(audio).paths_view(),
        final(state).plans == old(state).plans,
        final(state).ball == old(state).ball,
        final(state).input_axes == old(state).input_axes,
        final(state).joystick_axes == old(state).joystick_axes,
        final(state).pressed_key == old(state).pressed_key,
        final(state).input_mode == old(state).input_mode,
        final(state).expected_reactions == old(state).expected_reactions,
        final(state).clock_ms == old(state).clock_ms,
        final(state).session_output.output_path == old(state).session_output.output_path,
        match ack_target(pending_view(*old(state)), key) {
            Option::Some(ev) => {
                &&& final(state).pending_alarms@ == old(state).pending_alarms@.drop_first()
                &&& final(state).session_output.trial_reactions@.len() == old(
                    state,
                ).session_output.trial_reactions@.len() + 1
                &&& final(state).session_output.trial_reactions@.drop_last() == old(
                    state,
                ).session_output.trial_reactions@
                &&& is_reaction_for(
                    final(state).session_output.trial_reactions@.last(),
                    ev,
                    key,
                    now_ms as int,
                    old(state).current_trial_number as int,
                    old(state).ball@.pos_x * old(state).ball@.pos_x + old(state).ball@.pos_y * old(
                        state,
                    ).ball@.pos_y,
                )
                &&& final(audio).queue_view() == old(audio).queue_view().push(
                    AudioCommandV::Stop { name: ev.dial_name },
                )
                &&& forall|i: int|
                    0 <= i < old(state).dials@.len() && i != ev.dial_index
                        ==> old(state).dials@[i] == #[trigger] final(state).dials@[i]
                &&& acked_dial(
                    dials_view(*old(state))[ev.dial_index],
                    dials_view(*final(state))[ev.dial_index],
                )
                &&& ({
                    let done = final(state).session_output.trial_reactions@.len() == old(
                        state,
                    ).expected_reactions;
                    &&& final(state).session_complete == (old(state).session_complete || done)
                    &&& completed_now == (!old(state).session_complete && done)
                })
            },
            Option::None => {
                &&& final(state).pending_alarms@ == old(state).pending_alarms@
                &&& final(state).dials == old(state).dials
                &&& final(state).session_output == old(state).session_output
                &&& final(state).current_trial_number == old(state).current_trial_number
                &&& final(state).session_complete == old(state).session_complete
                &&& final(audio).queue_view() == old(audio).queue_view()
                &&& !completed_now
            },
        },
{
    let popped = state.pending_alarms.pop_front();
    match popped {
        Option::Some(ev) => {
            proof {
                assert(pending_view(*old(state))[0] == old(state).pending_alarms@[0]@);
                assert(ev@ == pending_view(*old(state))[0]);
            }
            let elapsed = now_ms - ev.fired_at_ms;
            let millis: u32 = if elapsed > u32::MAX as u64 {
                u32::MAX
            } else {
                elapsed as u32
            };
            let correct = chars_match(key, ev.required_key);
            let rms = state.ball.current_rms_error();
            let reaction = TrialReaction {
                trial_num: state.current_trial_number,
                millis,
                correct_key: correct,
                key,
                dial: ev.dial_name.clone(),
                rms_error: rms,
            };
            audio.stop(&ev.dial_name);
            let dial = &mut state.dials[ev.dial_index];
            dial.reset(Option::None);
            dial.flash();
            state.current_trial_number = if state.current_trial_number < usize::MAX {
                state.current_trial_number + 1
            } else {
                state.current_trial_number
            };
            state.session_output.add_reaction(reaction);
            let completed_now = !state.session_complete
                && state.session_output.trial_reactions.len() == state.expected_reactions;
            if completed_now {
                state.session_complete = true;
            }
            proof {
                assert(state.pending_alarms@ =~= old(state).pending_alarms@.drop_first());
                assert(state.session_output.trial_reactions@.drop_last() =~= old(
                    state,
                ).session_output.trial_reactions@);
                let idx = ev@.dial_index;
                assert(dials_view(*old(state))[idx] == old(state).dials@[idx]@);
                assert(dials_view(*state)[idx] == state.dials@[idx]@);
                assert(acked_dial(old(state).dials@[idx]@, state.dials@[idx]@));
                assert forall|i: int| 0 <= i < pending_view(*state).len() implies {
                    &&& 0 <= (#[trigger] pending_view(*state)[i]).dial_index < state.dials@.len()
                    &&& 0 <= pending_view(*state)[i].fired_at_ms <= state.clock_ms
                } by {
                    assert(pending_view(*state)[i] == state.pending_alarms@[i]@);
                    assert(state.pending_alarms@[i] == old(state).pending_alarms@[i + 1]);
                    assert(pending_view(*old(state))[i + 1] == old(state).pending_alarms@[i + 1]@);
                }
                assert forall|i: int, j: int|
                    0 <= i < j < pending_view(*state).len() implies (#[trigger] pending_view(
                    *state,
                )[i]).fired_at_ms <= (#[trigger] pending_view(*state)[j]).fired_at_ms by {
                    assert(pending_view(*state)[i] == pending_view(*old(state))[i + 1]);
                    assert(pending_view(*state)[j] == pending_view(*old(state))[j + 1]);
                }
            }
            completed_now
        },
        Option::None => false,
    }
}

} // verus!
