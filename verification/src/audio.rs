//! The audio subsystem's decision core: a sample cache keyed by file path,
//! a FIFO command queue feeding the playback thread, and the playback
//! thread's sink table, one live sink per alarm identity.
//!
//! Decoding audio files and rendering frames to the output device are I/O
//! and live outside this model; what is modelled and verified here is the
//! part the experiment's correctness depends on: cache-once semantics,
//! submission-order command delivery, and replace-on-play / drop-on-stop
//! sink bookkeeping.

use std::collections::VecDeque;
use vstd::prelude::*;

verus! {

/// A command that can be sent to the audio playback thread.
#[derive(Debug, Clone)]
pub enum AudioCommand {
    /// Begin playing the cached sample with the given id, keyed by the
    /// alarm identity in the `String`.
    Play(String, usize),
    /// Stop playing the sample keyed by the alarm identity.
    Stop(String),
}

/// The mathematical shape of an audio command.
pub enum AudioCommandV {
    /// Play the identified sample for the named alarm.
    Play { name: Seq<char>, sample: int },
    /// Stop the named alarm.
    Stop { name: Seq<char> },
}

impl View for AudioCommand {
    type V = AudioCommandV;

    closed spec fn view(&self) -> AudioCommandV {
        match self {
            AudioCommand::Play(name, sample) => AudioCommandV::Play {
                name: name@,
                sample: *sample as int,
            },
            AudioCommand::Stop(name) => AudioCommandV::Stop { name: name@ },
        }
    }
}

/// Whether the path `p` is one of the cached paths `s`.
pub open spec fn cache_contains(s: Seq<Seq<char>>, p: Seq<char>) -> bool {
    exists|i: int| 0 <= i < s.len() && s[i] == p
}

/// What resolving a path against the sample cache promises: the returned
/// id names the path, and the cache gained the path exactly when it was
/// not already cached — decode once, cache forever.
pub open spec fn cache_post(s: Seq<Seq<char>>, s2: Seq<Seq<char>>, p: Seq<char>, id: int) -> bool {
    &&& 0 <= id < s2.len()
    &&& s2[id] == p
    &&& if cache_contains(s, p) {
        s2 == s
    } else {
        s2 == s.push(p)
    }
}

/// The command-queue side of the audio service: resolves samples through
/// a decode-once cache and enqueues play and stop commands in submission
/// order for the playback thread.
#[derive(Debug)]
pub struct AudioManager {
    /// The file paths of the decoded samples, in decode order; a sample's
    /// id is its position here.
    sample_paths: Vec<String>,
    /// Commands not yet consumed by the playback thread, oldest first.
    queue: VecDeque<AudioCommand>,
}

impl AudioManager {
    /// The cached sample paths, in decode order.
    pub closed spec fn paths_view(self) -> Seq<Seq<char>> {
        self.sample_paths@.map_values(|s: String| s@)
    }

    /// The pending commands, oldest first.
    pub closed spec fn queue_view(self) -> Seq<AudioCommandV> {
        self.queue@.map_values(|c: AudioCommand| c@)
    }

    /// Each path is cached at most once.
    pub closed spec fn wf(self) -> bool {
        forall|i: int, j: int|
            0 <= i < j < self.paths_view().len() ==> self.paths_view()[i] != self.paths_view()[j]
    }

    /// Creates an audio manager with an empty cache and an empty queue.
    pub fn new() -> (r: AudioManager)
        ensures
            r.wf(),
            r.paths_view() == Seq::<Seq<char>>::empty(),
            r.queue_view() == Seq::<AudioCommandV>::empty(),
    {
        let r = AudioManager { sample_paths: Vec::new(), queue: VecDeque::new() };
        proof {
            assert(r.paths_view() =~= Seq::<Seq<char>>::empty());
            assert(r.queue_view() =~= Seq::<AudioCommandV>::empty());
        }
        r
    }

    /// Finds the cache id of a path, if the path has been cached.
    fn find_path(&self, path: &String) -> (r: Option<usize>)
        ensures
            match r {
                Option::Some(i) => 0 <= i < self.paths_view().len() && self.paths_view()[i as int]
                    == path@,
                Option::None => !cache_contains(self.paths_view(), path@),
            },
    {
        let mut j: usize = 0;
        while j < self.sample_paths.len()
            invariant
                j <= self.sample_paths.len(),
                self.paths_view().len() == self.sample_paths@.len(),
                forall|k: int| 0 <= k < j ==> self.paths_view()[k] != path@,
            decreases self.sample_paths.len() - j,
        {
            if self.sample_paths[j] == *path {
                return Option::Some(j);
            }
            j = j + 1;
        }
        Option::None
    }

    /// Registers a sample file in the cache if it is not there already and
    /// returns its id. A path already cached keeps its id and nothing is
    /// added: the decoded buffer is shared from then on.
    pub fn preload_file(&mut self, path: &String) -> (id: usize)
        requires
            old(self).wf(),
        ensures
            final(self).wf(),
            cache_post(old(self).paths_view(), final(self).paths_view(), path@, id as int),
            final(self).queue_view() == old(self).queue_view(),
    {
        match self.find_path(path) {
            Option::Some(i) => {
                proof {
                    assert(final(self).paths_view() =~= old(self).paths_view());
                }
                i
            },
            Option::None => {
                let id = self.sample_paths.len();
                self.sample_paths.push(path.clone());
                proof {
                    assert(final(self).paths_view() =~= old(self).paths_view().push(path@));
                }
                id
            },
        }
    }

    /// Resolves the sample for `path` through the cache and enqueues a
    /// play command for the alarm named `name`. Commands are delivered to
    /// the playback thread in exactly this submission order.
    pub fn play(&mut self, name: &String, path: &String)
        requires
            old(self).wf(),
        ensures
            final(self).wf(),
            exists|id: int|
                #![auto]
                cache_post(old(self).paths_view(), final(self).paths_view(), path@, id)
                    && final(self).queue_view() == old(self).queue_view().push(
                    AudioCommandV::Play { name: name@, sample: id },
                ),
    {
        let id = self.preload_file(path);
        let ghost mid_paths = self.paths_view();
        self.queue.push_back(AudioCommand::Play(name.clone(), id));
        proof {
            assert(final(self).paths_view() =~= mid_paths);
            assert(final(self).queue_view() =~= old(self).queue_view().push(
                AudioCommandV::Play { name: name@, sample: id as int },
            ));
        }
    }

    /// Enqueues a stop command for the alarm named `name`, behind every
    /// command submitted before it.
    pub fn stop(&mut self, name: &String)
        requires
            old(self).wf(),
        ensures
            final(self).wf(),
            final(self).paths_view() == old(self).paths_view(),
            final(self).queue_view() == old(self).queue_view().push(
                AudioCommandV::Stop { name: name@ },
            ),
    {
        self.queue.push_back(AudioCommand::Stop(name.clone()));
        proof {
            assert(final(self).paths_view() =~= old(self).paths_view());
            assert(final(self).queue_view() =~= old(self).queue_view().push(
                AudioCommandV::Stop { name: name@ },
            ));
        }
    }

    /// Hands out the oldest pending command, for the playback thread to
    /// apply: first submitted, first delivered.
    pub fn pop_command(&mut self) -> (c: Option<AudioCommand>)
        requires
            old(self).wf(),
        ensures
            final(self).wf(),
            final(self).paths_view() == old(self).paths_view(),
            match c {
                Option::Some(cmd) => old(self).queue_view().len() > 0 && cmd@ == old(
                    self,
                ).queue_view()[0] && final(self).queue_view() == old(
                    self,
                ).queue_view().drop_first(),
                Option::None => old(self).queue_view().len() == 0 && final(self).queue_view()
                    == old(self).queue_view(),
            },
    {
        let r = self.queue.pop_front();
        proof {
            assert(final(self).paths_view() =~= old(self).paths_view());
            if r is Some {
                assert(final(self).queue_view() =~= old(self).queue_view().drop_first());
            }
        }
        r
    }
}

/// What playing an alarm does to the sink table: a sink for that name
/// replaces any existing one — re-triggering restarts the alarm cleanly,
/// the sounds are never layered — and every other name's sink is kept.
pub open spec fn play_post(
    s: Seq<(Seq<char>, int)>,
    s2: Seq<(Seq<char>, int)>,
    name: Seq<char>,
    id: int,
) -> bool {
    if exists|i: int| 0 <= i < s.len() && s[i].0 == name {
        exists|i: int|
            0 <= i < s.len() && s[i].0 == name && s2 == s.update(i, (name, id))
    } else {
        s2 == s.push((name, id))
    }
}

/// What stopping an alarm does to the sink table: the sink for that name,
/// if any, is removed — which halts its playback — and every other name's
/// sink is kept.
pub open spec fn stop_post(
    s: Seq<(Seq<char>, int)>,
    s2: Seq<(Seq<char>, int)>,
    name: Seq<char>,
) -> bool {
    if exists|i: int| 0 <= i < s.len() && s[i].0 == name {
        exists|i: int| 0 <= i < s.len() && s[i].0 == name && s2 == s.remove(i)
    } else {
        s2 == s
    }
}

/// The playback thread's bookkeeping: which alarm identities currently
/// have a live sink, and which sample each one is rendering.
#[derive(Debug)]
pub struct SinkTable {
    /// One entry per live sink: the alarm identity and the id of the
    /// sample it is rendering.
    sinks: Vec<(String, usize)>,
}

impl SinkTable {
    /// The live sinks: alarm identity and sample id, in creation order.
    pub closed spec fn sinks_view(self) -> Seq<(Seq<char>, int)> {
        self.sinks@.map_values(|p: (String, usize)| (p.0@, p.1 as int))
    }

    /// At most one live sink per alarm identity.
    pub closed spec fn wf(self) -> bool {
        forall|i: int, j: int|
            0 <= i < j < self.sinks_view().len() ==> self.sinks_view()[i].0
                != self.sinks_view()[j].0
    }

    /// Creates an empty sink table: nothing is playing.
    pub fn new() -> (r: SinkTable)
        ensures
            r.wf(),
            r.sinks_view() == Seq::<(Seq<char>, int)>::empty(),
    {
        let r = SinkTable { sinks: Vec::new() };
        proof {
            assert(r.sinks_view() =~= Seq::<(Seq<char>, int)>::empty());
        }
        r
    }

    /// Finds the position of the sink for `name`, if one is live.
    fn find_sink(&self, name: &String) -> (r: Option<usize>)
        ensures
            match r {
                Option::Some(i) => 0 <= i < self.sinks_view().len() && self.sinks_view()[
                    i as int
                ].0 == name@,
                Option::None => forall|i: int|
                    0 <= i < self.sinks_view().len() ==> self.sinks_view()[i].0 != name@,
            },
    {
        let mut j: usize = 0;
        while j < self.sinks.len()
            invariant
                j <= self.sinks.len(),
                self.sinks_view().len() == self.sinks@.len(),
                forall|k: int| 0 <= k < j ==> self.sinks_view()[k].0 != name@,
            decreases self.sinks.len() - j,
        {
            if self.sinks[j].0 == *name {
                return Option::Some(j);
            }
            j = j + 1;
        }
        Option::None
    }

    /// The sample id the named alarm is currently rendering, if a sink
    /// for it is live.
    pub fn active_sample(&self, name: &String) -> (r: Option<usize>)
        requires
            self.wf(),
        ensures
            match r {
                Option::Some(id) => exists|i: int|
                    0 <= i < self.sinks_view().len() && self.sinks_view()[i] == (name@, id as int),
                Option::None => forall|i: int|
                    0 <= i < self.sinks_view().len() ==> self.sinks_view()[i].0 != name@,
            },
    {
        match self.find_sink(name) {
            Option::Some(i) => {
                let id = self.sinks[i].1;
                proof {
                    assert(self.sinks_view()[i as int] == (name@, id as int));
                }
                Option::Some(id)
            },
            Option::None => Option::None,
        }
    }

    /// How many sinks are live.
    pub fn len(&self) -> (r: usize)
        ensures
            r == self.sinks_view().len(),
    {
        self.sinks.len()
    }

    /// Applies one command from the queue, in the order the queue hands
    /// them out: `Play` creates or replaces the sink for its identity and
    /// starts rendering the sample; `Stop` removes the sink, halting
    /// playback for that identity alone.
    pub fn apply_command(&mut self, cmd: &AudioCommand)
        requires
            old(self).wf(),
        ensures
            final(self).wf(),
            match cmd@ {
                AudioCommandV::Play { name, sample } => play_post(
                    old(self).sinks_view(),
                    final(self).sinks_view(),
                    name,
                    sample,
                ),
                AudioCommandV::Stop { name } => stop_post(
                    old(self).sinks_view(),
                    final(self).sinks_view(),
                    name,
                ),
            },
    {
        match cmd {
            AudioCommand::Play(name, sample) => {
                match self.find_sink(name) {
                    Option::Some(i) => {
                        self.sinks.set(i, (name.clone(), *sample));
                        proof {
                            assert(final(self).sinks_view() =~= old(self).sinks_view().update(
                                i as int,
                                (name@, *sample as int),
                            ));
                        }
                    },
                    Option::None => {
                        self.sinks.push((name.clone(), *sample));
                        proof {
                            assert(final(self).sinks_view() =~= old(self).sinks_view().push(
                                (name@, *sample as int),
                            ));
                        }
                    },
                }
            },
            AudioCommand::Stop(name) => {
                match self.find_sink(name) {
                    Option::Some(i) => {
                        self.sinks.remove(i);
                        proof {
                            assert(final(self).sinks_view() =~= old(self).sinks_view().remove(
                                i as int,
                            ));
                        }
                    },
                    Option::None => {},
                }
            },
        }
    }
}

} // verus!
