//! The experiment's configuration as the core consumes it, and its
//! validation. Reading and parsing the configuration file is an excluded
//! collaborator's concern; the core checks its own invariants here.
//!
//! Times are in milliseconds and dial values in whole dial units.

use crate::ball::BallVelocity;
use crate::path::MAX_SEGMENT_MS;
use crate::range::RANGE_BOUND_LIMIT;
use vstd::prelude::*;

verus! {

/// One experiment trial: which dial drifts out, when, and which key
/// acknowledges it.
#[derive(Debug, Clone)]
pub struct ConfigTrial {
    /// The key to respond to this trial with; matched case-insensitively.
    pub correct_response_key: char,
    /// Text to display after a correct key press.
    pub feedback_text_correct: Option<String>,
    /// Text to display after an incorrect key press.
    pub feedback_text_incorrect: Option<String>,
    /// Color of the tracking box after a correct key press.
    pub feedback_color_correct: Option<BoxColor>,
    /// Color of the tracking box after an incorrect key press.
    pub feedback_color_incorrect: Option<BoxColor>,
    /// The name of the dial this trial drives out of range.
    pub dial: String,
    /// The name of the alarm sounded for this trial.
    pub alarm: String,
    /// When the dial should drift out of range, in milliseconds from the
    /// moment the trial starts.
    pub alarm_time_ms: i64,
}

/// One dial as configured: its name and its in-range band.
#[derive(Debug, Clone)]
pub struct ConfigDial {
    /// The name identifying this dial, referenced by trials.
    pub name: String,
    /// The start of the dial's in-range band.
    pub range_start: i64,
    /// The end of the dial's in-range band.
    pub range_end: i64,
}

/// One alarm sound as configured.
#[derive(Debug, Clone)]
pub struct ConfigAlarm {
    /// The name of this alarm, referenced by trials.
    pub name: String,
    /// The path to the audio file for this alarm.
    pub audio_path: String,
}

/// The ball's configuration.
#[derive(Debug, Clone)]
pub struct ConfigBall {
    /// The minimum of the random redirection interval, milliseconds.
    pub random_direction_change_time_min_ms: i64,
    /// The maximum of the random redirection interval, milliseconds.
    pub random_direction_change_time_max_ms: i64,
    /// The ball's speed setting.
    pub ball_velocity: BallVelocity,
}

/// A row of dials on the panel.
#[derive(Debug, Clone)]
pub struct ConfigDialRow {
    /// The dials of this row, left to right.
    pub dials: Vec<ConfigDial>,
}

/// The input mode for steering the ball.
#[derive(Debug, Clone, Copy, PartialEq, Eq, Structural)]
pub enum InputMode {
    /// Joystick axes.
    Joystick,
    /// Keyboard arrow keys.
    Keyboard,
}

impl Default for InputMode {
    /// Keyboard input is the default.
    fn default() -> (r: InputMode)
        ensures
            r == InputMode::Keyboard,
    {
        InputMode::Keyboard
    }
}

/// The colors the tracking box can flash as key-press feedback.
#[derive(Debug, Clone, Copy, PartialEq, Eq, Structural)]
pub enum BoxColor {
    /// Green feedback, usually for a correct key.
    Green,
    /// Red feedback, usually for an incorrect key.
    Red,
    /// Blue feedback.
    Blue,
}

/// The whole experiment configuration.
#[derive(Debug)]
pub struct Config {
    /// Where the session's output data is written when the experiment is
    /// done; the caller supplies a default when absent.
    pub output_data_path: Option<String>,
    /// How the participant steers the ball.
    pub input_mode: InputMode,
    /// The ball's settings.
    pub ball: ConfigBall,
    /// The trials the experiment runs, in order.
    pub trials: Vec<ConfigTrial>,
    /// The rows of dials on the panel.
    pub dial_rows: Vec<ConfigDialRow>,
    /// The alarm sounds available to trials.
    pub alarms: Vec<ConfigAlarm>,
}

/// Why a configuration was rejected.
#[derive(Debug, Clone, PartialEq, Eq)]
pub enum ConfigError {
    /// A trial references this alarm name, but no alarm has it.
    MissingAlarm(String),
    /// A trial references this dial name, but no dial has it.
    MissingDial(String),
    /// The named dial's band is malformed: it must be non-degenerate and
    /// within the representable limits.
    BadDialRange(String),
    /// The ball's redirection interval is malformed: the bounds must be
    /// ordered, non-negative and within the representable limits.
    BadBallTimes,
    /// The named trial time is negative or beyond the representable limit.
    BadTrialTime(String),
}

/// Whether some configured alarm carries the name `n`.
pub open spec fn alarm_listed(c: Config, n: Seq<char>) -> bool {
    exists|i: int| 0 <= i < c.alarms@.len() && c.alarms@[i].name@ == n
}

/// Whether some configured dial carries the name `n`.
pub open spec fn dial_listed(c: Config, n: Seq<char>) -> bool {
    exists|i: int, j: int|
        0 <= i < c.dial_rows@.len() && 0 <= j < c.dial_rows@[i].dials@.len()
            && c.dial_rows@[i].dials@[j].name@ == n
}

/// Whether a configured dial's band is well-formed.
pub open spec fn dial_range_ok(d: ConfigDial) -> bool {
    &&& -RANGE_BOUND_LIMIT <= d.range_start
    &&& d.range_start < d.range_end
    &&& d.range_end <= RANGE_BOUND_LIMIT
    &&& d.range_end - d.range_start >= 2
}

/// Whether a trial is consistent with the rest of the configuration: it
/// names an existing alarm and an existing dial, and its time is
/// representable.
pub open spec fn trial_ok(c: Config, t: ConfigTrial) -> bool {
    &&& alarm_listed(c, t.alarm@)
    &&& dial_listed(c, t.dial@)
    &&& 0 <= t.alarm_time_ms <= MAX_SEGMENT_MS
}

/// Whether the ball's redirection interval is well-formed.
pub open spec fn ball_times_ok(b: ConfigBall) -> bool {
    0 <= b.random_direction_change_time_min_ms <= b.random_direction_change_time_max_ms
        <= MAX_SEGMENT_MS
}

/// A configuration the experiment can run: every trial resolves, every
/// dial band is well-formed, and the ball's interval is well-formed.
pub open spec fn config_ok(c: Config) -> bool {
    &&& forall|i: int| 0 <= i < c.trials@.len() ==> trial_ok(c, #[trigger] c.trials@[i])
    &&& forall|i: int, j: int|
        0 <= i < c.dial_rows@.len() && 0 <= j < c.dial_rows@[i].dials@.len() ==> dial_range_ok(
            #[trigger] c.dial_rows@[i].dials@[j],
        )
    &&& ball_times_ok(c.ball)
}

impl Default for Config {
    /// The configuration written out when none exists yet: six trials on
    /// six dials in two rows of three, each dial's band 4000 units wide,
    /// each trial acknowledged by the dial's digit and drifting out four
    /// seconds in, all sounding the same alarm file; a slow ball that
    /// redirects every one to eight seconds, steered by keyboard.
    fn default() -> (c: Config)
        ensures
            config_ok(c),
            c.trials@.len() == 6,
            c.alarms@.len() == 6,
            c.dial_rows@.len() == 2,
            c.input_mode == InputMode::Keyboard,
            c.output_data_path is None,
            forall|i: int| 0 <= i < 6 ==> (#[trigger] c.trials@[i]).alarm_time_ms == 4000,
    {
        let mut trials: Vec<ConfigTrial> = Vec::new();
        trials.push(default_trial('1', "d1", "a1"));
        trials.push(default_trial('2', "d2", "a2"));
        trials.push(default_trial('3', "d3", "a3"));
        trials.push(default_trial('4', "d4", "a4"));
        trials.push(default_trial('5', "d5", "a5"));
        trials.push(default_trial('6', "d6", "a6"));

        let mut row1: Vec<ConfigDial> = Vec::new();
        row1.push(default_dial("d1", 200));
        row1.push(default_dial("d2", 400));
        row1.push(default_dial("d3", 600));
        let mut row2: Vec<ConfigDial> = Vec::new();
        row2.push(default_dial("d4", 800));
        row2.push(default_dial("d5", 1000));
        row2.push(default_dial("d6", 1200));
        let mut dial_rows: Vec<ConfigDialRow> = Vec::new();
        dial_rows.push(ConfigDialRow { dials: row1 });
        dial_rows.push(ConfigDialRow { dials: row2 });

        let mut alarms: Vec<ConfigAlarm> = Vec::new();
        alarms.push(default_alarm("a1"));
        alarms.push(default_alarm("a2"));
        alarms.push(default_alarm("a3"));
        alarms.push(default_alarm("a4"));
        alarms.push(default_alarm("a5"));
        alarms.push(default_alarm("a6"));

        let c = Config {
            output_data_path: Option::None,
            input_mode: InputMode::Keyboard,
            ball: ConfigBall {
                random_direction_change_time_min_ms: 1000,
                random_direction_change_time_max_ms: 8000,
                ball_velocity: BallVelocity::Slow,
            },
            trials,
            dial_rows,
            alarms,
        };

        proof {
            assert forall|i: int| 0 <= i < c.trials@.len() implies trial_ok(
                c,
                #[trigger] c.trials@[i],
            ) by {
                assert(c.alarms@[i].name@ == c.trials@[i].alarm@);
                let row: int = if i < 3 {
                    0
                } else {
                    1
                };
                let col: int = if i < 3 {
                    i
                } else {
                    i - 3
                };
                assert(c.dial_rows@[row].dials@[col].name@ == c.trials@[i].dial@);
            }
            assert forall|i: int, j: int|
                0 <= i < c.dial_rows@.len() && 0 <= j < c.dial_rows@[i].dials@.len()
                    implies dial_range_ok(#[trigger] c.dial_rows@[i].dials@[j]) by {
            }
        }
        c
    }
}

/// One default trial: the digit key, standard feedback, four seconds in.
fn default_trial(key: char, dial: &str, alarm: &str) -> (t: ConfigTrial)
    ensures
        t.correct_response_key == key,
        t.dial@ == dial@,
        t.alarm@ == alarm@,
        t.alarm_time_ms == 4000,
{
    ConfigTrial {
        correct_response_key: key,
        feedback_text_correct: Option::Some("CORRECT".to_owned()),
        feedback_text_incorrect: Option::Some("INCORRECT".to_owned()),
        feedback_color_correct: Option::Some(BoxColor::Green),
        feedback_color_incorrect: Option::Some(BoxColor::Red),
        dial: dial.to_owned(),
        alarm: alarm.to_owned(),
        alarm_time_ms: 4000,
    }
}

/// One default dial: a band 4000 units wide starting at `start`.
fn default_dial(name: &str, start: i64) -> (d: ConfigDial)
    requires
        0 <= start <= 2000,
    ensures
        d.name@ == name@,
        d.range_start == start,
        d.range_end == start + 4000,
        dial_range_ok(d),
{
    ConfigDial { name: name.to_owned(), range_start: start, range_end: start + 4000 }
}

/// One default alarm: the standard alarm file under the given name.
fn default_alarm(name: &str) -> (a: ConfigAlarm)
    ensures
        a.name@ == name@,
{
    ConfigAlarm { name: name.to_owned(), audio_path: "alarm.wav".to_owned() }
}

/// Whether any configured alarm carries this name.
fn alarm_name_exists(c: &Config, name: &String) -> (r: bool)
    ensures
        r == alarm_listed(*c, name@),
{
    let mut i: usize = 0;
    while i < c.alarms.len()
        invariant
            i <= c.alarms@.len(),
            forall|k: int| 0 <= k < i ==> c.alarms@[k].name@ != name@,
        decreases c.alarms@.len() - i,
    {
        if c.alarms[i].name == *name {
            return true;
        }
        i = i + 1;
    }
    false
}

/// Whether any configured dial carries this name.
fn dial_name_exists(c: &Config, name: &String) -> (r: bool)
    ensures
        r == dial_listed(*c, name@),
{
    let mut i: usize = 0;
    while i < c.dial_rows.len()
        invariant
            i <= c.dial_rows@.len(),
            forall|k: int, j: int|
                0 <= k < i && 0 <= j < c.dial_rows@[k].dials@.len() ==> c.dial_rows@[k].dials@[
                    j
                ].name@ != name@,
        decreases c.dial_rows@.len() - i,
    {
        let row = &c.dial_rows[i];
        let mut j: usize = 0;
        while j < row.dials.len()
            invariant
                i < c.dial_rows@.len(),
                row == &c.dial_rows@[i as int],
                j <= row.dials@.len(),
                forall|l: int| 0 <= l < j ==> row.dials@[l].name@ != name@,
            decreases row.dials@.len() - j,
        {
            if row.dials[j].name == *name {
                return true;
            }
            j = j + 1;
        }
        i = i + 1;
    }
    false
}

/// Validates a configuration: every trial must name an existing alarm and
/// an existing dial and carry a representable time, every dial band and
/// the ball's interval must be well-formed. Returns the first problem
/// found, or nothing exactly when the configuration is sound.
pub fn validate_config(config: &Config) -> (r: Result<(), ConfigError>)
    ensures
        r is Ok <==> config_ok(*config),
        match r {
            Result::Ok(_) => true,
            Result::Err(e) => match e {
                ConfigError::MissingAlarm(n) => !alarm_listed(*config, n@),
                ConfigError::MissingDial(n) => !dial_listed(*config, n@),
                ConfigError::BadDialRange(n) => exists|i: int, j: int|
                    0 <= i < config.dial_rows@.len() && 0 <= j < config.dial_rows@[i].dials@.len()
                        && !dial_range_ok(#[trigger] config.dial_rows@[i].dials@[j])
                        && config.dial_rows@[i].dials@[j].name@ == n@,
                ConfigError::BadBallTimes => !ball_times_ok(config.ball),
                ConfigError::BadTrialTime(n) => exists|i: int|
                    0 <= i < config.trials@.len() && !(0 <= (#[trigger] config.trials@[i]).alarm_time_ms
                        <= MAX_SEGMENT_MS) && config.trials@[i].dial@ == n@,
            },
        },
{
    if !(config.ball.random_direction_change_time_min_ms >= 0
        && config.ball.random_direction_change_time_min_ms
        <= config.ball.random_direction_change_time_max_ms
        && config.ball.random_direction_change_time_max_ms <= MAX_SEGMENT_MS) {
        return Result::Err(ConfigError::BadBallTimes);
    }

    let mut i: usize = 0;
    while i < config.dial_rows.len()
        invariant
            i <= config.dial_rows@.len(),
            forall|k: int, j: int|
                0 <= k < i && 0 <= j < config.dial_rows@[k].dials@.len() ==> dial_range_ok(
                    #[trigger] config.dial_rows@[k].dials@[j],
                ),
        decreases config.dial_rows@.len() - i,
    {
        let row = &config.dial_rows[i];
        let mut j: usize = 0;
        while j < row.dials.len()
            invariant
                i < config.dial_rows@.len(),
                row == &config.dial_rows@[i as int],
                j <= row.dials@.len(),
                forall|l: int| 0 <= l < j ==> dial_range_ok(#[trigger] row.dials@[l]),
            decreases row.dials@.len() - j,
        {
            let d = &row.dials[j];
            if !(d.range_start >= -RANGE_BOUND_LIMIT && d.range_start < d.range_end && d.range_end
                <= RANGE_BOUND_LIMIT && d.range_end - d.range_start >= 2) {
                return Result::Err(ConfigError::BadDialRange(d.name.clone()));
            }
            j = j + 1;
        }
        i = i + 1;
    }

    let mut t: usize = 0;
    while t < config.trials.len()
        invariant
            t <= config.trials@.len(),
            forall|k: int| 0 <= k < t ==> trial_ok(*config, #[trigger] config.trials@[k]),
            forall|k: int, j: int|
                0 <= k < config.dial_rows@.len() && 0 <= j < config.dial_rows@[k].dials@.len()
                    ==> dial_range_ok(#[trigger] config.dial_rows@[k].dials@[j]),
            ball_times_ok(config.ball),
        decreases config.trials@.len() - t,
    {
        let trial = &config.trials[t];
        if !alarm_name_exists(config, &trial.alarm) {
            return Result::Err(ConfigError::MissingAlarm(trial.alarm.clone()));
        }
        if !dial_name_exists(config, &trial.dial) {
            return Result::Err(ConfigError::MissingDial(trial.dial.clone()));
        }
        if !(trial.alarm_time_ms >= 0 && trial.alarm_time_ms <= MAX_SEGMENT_MS) {
            return Result::Err(ConfigError::BadTrialTime(trial.dial.clone()));
        }
        t = t + 1;
    }

    Result::Ok(())
}

} // verus!
