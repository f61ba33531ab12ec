//! The session's data sink: reaction records collected in chronological
//! order for an excluded CSV writer to serialize.

use vstd::prelude::*;

verus! {

/// Information about the participant's response to one alarm firing:
/// one experiment trial.
#[derive(Debug, Clone)]
pub struct TrialReaction {
    /// The number of the trial, counted from 1.
    pub trial_num: usize,
    /// The reaction time to the alarm, in milliseconds.
    pub millis: u32,
    /// Whether the correct key was pressed to acknowledge the alarm.
    pub correct_key: bool,
    /// The key that was pressed.
    pub key: char,
    /// The name of the dial whose alarm this reaction acknowledged.
    pub dial: String,
    /// The ball's squared distance from the crosshair at the key press,
    /// in millionths of the squared half-screen.
    pub rms_error: i64,
}

impl TrialReaction {
    /// Bundles one trial's outcome into a record.
    pub fn new(
        trial_num: usize,
        millis: u32,
        correct_key: bool,
        key: char,
        dial: String,
        rms_error: i64,
    ) -> (r: TrialReaction)
        ensures
            r == (TrialReaction { trial_num, millis, correct_key, key, dial, rms_error }),
    {
        TrialReaction { trial_num, millis, correct_key, key, dial, rms_error }
    }
}

/// Collects the session's reaction records, in chronological order, and
/// remembers where they are to be written. Serialization to CSV is the
/// excluded writer's concern.
#[derive(Debug)]
pub struct SessionOutput {
    /// The trial reactions recorded so far, oldest first; records are only
    /// ever appended, never changed.
    pub trial_reactions: Vec<TrialReaction>,
    /// The path the session's CSV output is to be written to.
    pub output_path: String,
}

impl SessionOutput {
    /// Creates a session output that records nothing yet and is to be
    /// written to the provided path.
    pub fn new(output_path: String) -> (r: SessionOutput)
        ensures
            r.trial_reactions@ == Seq::<TrialReaction>::empty(),
            r.output_path@ == output_path@,
    {
        let r = SessionOutput { trial_reactions: Vec::new(), output_path };
        proof {
            assert(r.trial_reactions@ =~= Seq::<TrialReaction>::empty());
        }
        r
    }

    /// Appends one reaction record; everything recorded before stays as
    /// it was.
    pub fn add_reaction(&mut self, reaction: TrialReaction)
        ensures
            final(self).trial_reactions@ == old(self).trial_reactions@.push(reaction),
            final(self).output_path == old(self).output_path,
    {
        self.trial_reactions.push(reaction);
    }
}

} // verus!
