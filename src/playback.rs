use vstd::prelude::*;

use crate::library::Song;
use std::collections::VecDeque;

verus! {

/// Notifications that the audio engine and the ticker post to the coordinator.
#[derive(Clone, Copy, Debug, PartialEq, Eq, Structural)]
pub enum GenMsg {
    /// The track that was playing has run out.
    MediaEnded,
    /// After a soft pause the engine has drained its buffer, so the loop that
    /// feeds it can now be stopped.
    FinishPause,
    /// Sent by the ticker to refresh the elapsed time.
    Timetick,
}

/// The three states of the playback lifecycle.
#[derive(Clone, Copy, Debug, PartialEq, Eq, Structural)]
pub enum GenState {
    /// Nothing is loaded: the initial state, and the one after the queue ran out.
    Stopped,
    /// A track is loaded but output is halted.
    Paused,
    /// A track is loaded and sounding.
    Playing,
}

/// Position within the current track and its length, both in milliseconds.
#[derive(Clone, Copy, Debug, PartialEq, Eq, Structural)]
pub struct Timestamp {
    pub current: u64,
    pub total: u64,
}

/// What the audio engine reports through its completion callback, reduced to what
/// the coordinator tells apart.
#[derive(Clone, Copy, Debug, PartialEq, Eq, Structural)]
pub enum EngineEvent {
    /// The loaded source played to its end.
    SourceEnded,
    /// A soft pause has drained the buffer.
    PauseEnded,
    /// Anything else the engine reports.
    Other,
}

/// The notification an engine event becomes; events the coordinator does not act on
/// become none, so they cannot bring the callback thread down.
pub fn classify(e: EngineEvent) -> (r: Option<GenMsg>)
    ensures
        r == match e {
            EngineEvent::SourceEnded => Some(GenMsg::MediaEnded),
            EngineEvent::PauseEnded => Some(GenMsg::FinishPause),
            EngineEvent::Other => None::<GenMsg>,
        },
{
    match e {
        EngineEvent::SourceEnded => Some(GenMsg::MediaEnded),
        EngineEvent::PauseEnded => Some(GenMsg::FinishPause),
        EngineEvent::Other => None,
    }
}

/// A duration in milliseconds as whole minutes and the seconds past them, the way a
/// progress readout shows it (`m:ss`).
pub fn clock(ms: u64) -> (r: (u64, u64))
    ensures
        r.0 == ms / 1000 / 60,
        r.1 == ms / 1000 % 60,
        r.1 < 60,
{
    let secs: u64 = ms / 1000;
    (secs / 60, secs % 60)
}

/// The track that is loaded, with the last position the engine reported.
#[derive(Debug)]
pub struct Current {
    pub song: Song,
    pub timestamp: Timestamp,
}

impl Current {
    /// A current track at its start, with no known length.
    pub fn new(song: Song) -> (r: Current)
        ensures
            r.song == song,
            r.timestamp == (Timestamp { current: 0, total: 0 }),
    {
        Current { song, timestamp: Timestamp { current: 0, total: 0 } }
    }

    /// A current track at its start, lasting `duration` milliseconds.
    pub fn new_with_duration(song: Song, duration: u64) -> (r: Current)
        ensures
            r.song == song,
            r.timestamp == (Timestamp { current: 0, total: duration }),
    {
        Current { song, timestamp: Timestamp { current: 0, total: duration } }
    }
}

/// Why a control operation did nothing.
#[derive(Clone, Copy, Debug, PartialEq, Eq, Structural)]
pub enum PlayError {
    /// The track's file could not be opened.
    Io,
    /// The file could not be decoded.
    Decode,
    /// The audio engine refused a call.
    Engine,
    /// Resume was asked for while already playing.
    AlreadyPlaying,
}

/// A request to the audio engine or to the ticker, in the order it is to be carried out.
#[derive(Clone, Copy, Debug, PartialEq, Eq, Structural)]
pub enum Command {
    /// Start or resume output of the loaded track.
    Play,
    /// Soft pause: stop taking new audio and let the buffer drain.
    Pause,
    /// Hard pause: stop the feeding loop once the buffer has drained.
    FinishPause,
    /// Set the output volume, in percent.
    SetVolume(u8),
    /// Start the ticker (a no-op when it already runs).
    StartTimer,
    /// Stop and join the ticker.
    StopTimer,
}

/// The coordinator's state seen as plain values.
pub struct CoordinatorView {
    pub queue: Seq<Song>,
    pub current: Option<Current>,
    pub state: GenState,
    pub volume: u8,
    /// A soft pause was sent and its drain notice has not been acted on yet.
    pub drain_pending: bool,
}

/// What holds of every reachable state: a track is current exactly when playback is
/// not stopped, and the volume is a percentage.
pub open spec fn consistent(v: CoordinatorView) -> bool {
    &&& v.current.is_some() == (v.state != GenState::Stopped)
    &&& v.volume <= 100
}

/// Commands as a sequence, errors as they are.
pub open spec fn commands_of(r: Result<Vec<Command>, PlayError>) -> Result<Seq<Command>, PlayError> {
    match r {
        Ok(c) => Ok(c@),
        Err(e) => Err(e),
    }
}

/// Advancing to the head of the queue and playing it. `loaded` is what loading the
/// head gave, or `None` when the queue is empty: then playback stops.
/// A failed load changes nothing.
pub open spec fn play_head(v: CoordinatorView, loaded: Option<Result<Timestamp, PlayError>>) -> (
    CoordinatorView,
    Result<Seq<Command>, PlayError>,
) {
    match loaded {
        None => (
            CoordinatorView {
                current: None,
                state: GenState::Stopped,
                drain_pending: true,
                ..v
            },
            Ok(seq![Command::Pause, Command::StopTimer]),
        ),
        Some(Ok(ts)) => (
            CoordinatorView {
                queue: v.queue.drop_first(),
                current: Some(Current { song: v.queue[0], timestamp: ts }),
                state: GenState::Playing,
                ..v
            },
            Ok(seq![Command::Play, Command::StartTimer]),
        ),
        Some(Err(e)) => (v, Err(e)),
    }
}

/// Replacing the queue with `tracks` and playing its head.
pub open spec fn enqueue_step(
    v: CoordinatorView,
    tracks: Seq<Song>,
    loaded: Option<Result<Timestamp, PlayError>>,
) -> (CoordinatorView, Result<Seq<Command>, PlayError>) {
    play_head(CoordinatorView { queue: tracks, ..v }, loaded)
}

/// Pausing: only from `Playing`, otherwise nothing happens.
pub open spec fn pause_step(v: CoordinatorView) -> (CoordinatorView, Seq<Command>) {
    if v.state == GenState::Playing {
        (
            CoordinatorView { state: GenState::Paused, drain_pending: true, ..v },
            seq![Command::Pause, Command::StopTimer],
        )
    } else {
        (v, Seq::empty())
    }
}

/// Resuming: from `Paused` output restarts; from `Stopped` the queue head is played,
/// if there is one; from `Playing` the call is refused.
pub open spec fn resume_step(v: CoordinatorView, loaded: Option<Result<Timestamp, PlayError>>) -> (
    CoordinatorView,
    Result<Seq<Command>, PlayError>,
) {
    match v.state {
        GenState::Playing => (v, Err(PlayError::AlreadyPlaying)),
        GenState::Paused => (
            CoordinatorView { state: GenState::Playing, ..v },
            Ok(seq![Command::Play, Command::StartTimer]),
        ),
        GenState::Stopped => if v.queue.len() == 0 {
            (v, Ok(Seq::empty()))
        } else {
            play_head(v, loaded)
        },
    }
}

/// The volume a requested percentage comes to.
pub open spec fn clamp_volume(percent: u8) -> u8 {
    if percent > 100 {
        100
    } else {
        percent
    }
}

/// Setting the volume, clamped to 100.
pub open spec fn volume_step(v: CoordinatorView, percent: u8) -> (CoordinatorView, Seq<Command>) {
    (
        CoordinatorView { volume: clamp_volume(percent), ..v },
        seq![Command::SetVolume(clamp_volume(percent))],
    )
}

/// Reacting to one notification. `loaded` matters for `MediaEnded` only, `stamp`
/// (the engine's reported position) for `Timetick` only.
pub open spec fn event_step(
    v: CoordinatorView,
    msg: GenMsg,
    loaded: Option<Result<Timestamp, PlayError>>,
    stamp: Option<Timestamp>,
) -> (CoordinatorView, Result<Seq<Command>, PlayError>) {
    match msg {
        GenMsg::MediaEnded => play_head(v, loaded),
        GenMsg::FinishPause => if v.drain_pending {
            (CoordinatorView { drain_pending: false, ..v }, Ok(seq![Command::FinishPause]))
        } else {
            (v, Ok(Seq::empty()))
        },
        GenMsg::Timetick => match (v.current, stamp) {
            (Some(c), Some(ts)) => (
                CoordinatorView { current: Some(Current { song: c.song, timestamp: ts }), ..v },
                Ok(Seq::empty()),
            ),
            _ => (v, Ok(Seq::empty())),
        },
    }
}

fn no_commands() -> (r: Vec<Command>)
    ensures
        r@ == Seq::<Command>::empty(),
{
    let r: Vec<Command> = Vec::new();
    assert(r@ =~= Seq::<Command>::empty());
    r
}

/// Every operation keeps the state consistent, starting from the initial state, so
/// every reachable state is: a track is current exactly when playback is not stopped.
pub proof fn law_consistency_is_kept(
    v: CoordinatorView,
    tracks: Seq<Song>,
    loaded: Option<Result<Timestamp, PlayError>>,
    msg: GenMsg,
    stamp: Option<Timestamp>,
    percent: u8,
)
    requires
        consistent(v),
    ensures
        consistent(
            CoordinatorView {
                queue: Seq::empty(),
                current: None,
                state: GenState::Stopped,
                volume: 100,
                drain_pending: false,
            },
        ),
        (loaded is Some <==> tracks.len() > 0) ==> consistent(enqueue_step(v, tracks, loaded).0),
        consistent(pause_step(v).0),
        (v.state == GenState::Stopped && v.queue.len() > 0 ==> loaded is Some) ==> consistent(
            resume_step(v, loaded).0,
        ),
        consistent(volume_step(v, percent).0),
        (msg is MediaEnded ==> (loaded is Some <==> v.queue.len() > 0)) ==> consistent(
            event_step(v, msg, loaded, stamp).0,
        ),
{
}

/// The state after a run of track-ended notices, each answered by a successful load
/// that reported the next of `stamps`.
pub open spec fn after_track_ends(v: CoordinatorView, stamps: Seq<Timestamp>) -> CoordinatorView
    decreases stamps.len(),
{
    if stamps.len() == 0 {
        v
    } else {
        event_step(
            after_track_ends(v, stamps.drop_last()),
            GenMsg::MediaEnded,
            Some(Ok(stamps.last())),
            None,
        ).0
    }
}

/// The queue is played in order: after `enqueue_and_play(tracks)` and then one
/// track-ended notice per entry of `stamps`, each with a successful load, the track
/// at position `stamps.len()` is current and exactly the tracks behind it are queued.
pub proof fn law_queue_is_fifo(
    v: CoordinatorView,
    tracks: Seq<Song>,
    first: Timestamp,
    stamps: Seq<Timestamp>,
)
    requires
        consistent(v),
        stamps.len() < tracks.len(),
    ensures
        ({
            let w = after_track_ends(enqueue_step(v, tracks, Some(Ok(first))).0, stamps);
            &&& w.current == Some(
                Current {
                    song: tracks[stamps.len() as int],
                    timestamp: if stamps.len() == 0 {
                        first
                    } else {
                        stamps.last()
                    },
                },
            )
            &&& w.queue == tracks.skip(stamps.len() + 1int)
            &&& w.state == GenState::Playing
        }),
    decreases stamps.len(),
{
    if stamps.len() == 0 {
        assert(tracks.drop_first() =~= tracks.skip(1));
    } else {
        let n = stamps.len() - 1;
        law_queue_is_fifo(v, tracks, first, stamps.drop_last());
        let w = after_track_ends(enqueue_step(v, tracks, Some(Ok(first))).0, stamps.drop_last());
        assert(w.queue[0] == tracks[n + 1]);
        assert(w.queue.drop_first() =~= tracks.skip(n + 2));
    }
}

/// The hard pause follows a pause exactly once, and only in answer to the drain
/// notice: neither the pause itself nor a tick sends it, the first drain notice does,
/// a second one does not.
pub proof fn law_two_phase_pause(v: CoordinatorView, stamp: Option<Timestamp>)
    requires
        consistent(v),
        v.state == GenState::Playing,
    ensures
        ({
            let (paused, sent) = pause_step(v);
            let (ticked, tick_sent) = event_step(paused, GenMsg::Timetick, None, stamp);
            let (drained, drain_sent) = event_step(ticked, GenMsg::FinishPause, None, None);
            let (again, again_sent) = event_step(drained, GenMsg::FinishPause, None, None);
            &&& paused.state == GenState::Paused
            &&& sent.contains(Command::Pause)
            &&& !sent.contains(Command::FinishPause)
            &&& tick_sent == Ok::<Seq<Command>, PlayError>(Seq::empty())
            &&& drain_sent == Ok::<Seq<Command>, PlayError>(seq![Command::FinishPause])
            &&& again_sent == Ok::<Seq<Command>, PlayError>(Seq::empty())
            &&& again.state == GenState::Paused
        }),
{
    let sent = pause_step(v).1;
    assert(sent[0] == Command::Pause);
    assert(!sent.contains(Command::FinishPause)) by {
        assert(forall|i: int| 0 <= i < sent.len() ==> sent[i] != Command::FinishPause);
    }
}

/// Owns the queue, the current track and the playback state. It never talks to the
/// engine itself: each operation returns the commands to carry out, and whatever the
/// engine had to say (a load's outcome, a position) comes in as an argument.
pub struct Coordinator {
    queue: VecDeque<Song>,
    current: Option<Current>,
    state: GenState,
    volume: u8,
    drain_pending: bool,
}

impl View for Coordinator {
    type V = CoordinatorView;

    closed spec fn view(&self) -> CoordinatorView {
        CoordinatorView {
            queue: self.queue@,
            current: self.current,
            state: self.state,
            volume: self.volume,
            drain_pending: self.drain_pending,
        }
    }
}

impl Coordinator {
    /// The coordinator's state is consistent; every operation keeps it so.
    pub open spec fn wf(&self) -> bool {
        consistent(self@)
    }

    /// Stopped, nothing queued, full volume.
    pub fn new() -> (r: Coordinator)
        ensures
            r@ == (CoordinatorView {
                queue: Seq::empty(),
                current: None,
                state: GenState::Stopped,
                volume: 100,
                drain_pending: false,
            }),
            r.wf(),
    {
        let r = Coordinator {
            queue: VecDeque::new(),
            current: None,
            state: GenState::Stopped,
            volume: 100,
            drain_pending: false,
        };
        assert(r@.queue =~= Seq::empty());
        r
    }

    pub fn state(&self) -> (r: GenState)
        ensures
            r == self@.state,
    {
        self.state
    }

    pub fn is_playing(&self) -> (r: bool)
        ensures
            r == (self@.state == GenState::Playing),
    {
        self.state == GenState::Playing
    }

    pub fn volume(&self) -> (r: u8)
        ensures
            r == self@.volume,
    {
        self.volume
    }

    pub fn current(&self) -> (r: Option<&Current>)
        ensures
            match r {
                Some(c) => self@.current == Some(*c),
                None => self@.current is None,
            },
    {
        self.current.as_ref()
    }

    /// The track that playing the queue head would load.
    pub fn next_track(&self) -> (r: Option<&Song>)
        ensures
            match r {
                Some(s) => self@.queue.len() > 0 && *s == self@.queue[0],
                None => self@.queue.len() == 0,
            },
    {
        if self.queue.len() == 0 {
            None
        } else {
            Some(&self.queue[0])
        }
    }

    pub fn queue_len(&self) -> (r: usize)
        ensures
            r == self@.queue.len(),
    {
        self.queue.len()
    }

    fn play_head(&mut self, loaded: Option<Result<Timestamp, PlayError>>) -> (r: Result<
        Vec<Command>,
        PlayError,
    >)
        requires
            old(self).wf(),
            loaded is Some <==> old(self)@.queue.len() > 0,
        ensures
            (final(self)@, commands_of(r)) == play_head(old(self)@, loaded),
            final(self).wf(),
    {
        match loaded {
            None => {
                self.current = None;
                self.state = GenState::Stopped;
                self.drain_pending = true;
                Ok(vec![Command::Pause, Command::StopTimer])
            },
            Some(Ok(ts)) => {
                let song = self.queue.pop_front().unwrap();
                self.current = Some(Current { song, timestamp: ts });
                self.state = GenState::Playing;
                Ok(vec![Command::Play, Command::StartTimer])
            },
            Some(Err(e)) => Err(e),
        }
    }

    /// Empties the queue and fills it with `songs[from..]`, in order.
    fn refill(&mut self, songs: &[Song], from: usize)
        requires
            from <= songs@.len(),
        ensures
            final(self)@ == (CoordinatorView { queue: songs@.subrange(from as int, songs@.len() as int), ..old(self)@ }),
    {
        self.queue.clear();
        assert(self@.queue =~= songs@.subrange(from as int, from as int));
        let mut k: usize = from;
        while k < songs.len()
            invariant
                from <= k <= songs@.len(),
                self@ == (CoordinatorView { queue: songs@.subrange(from as int, k as int), ..old(self)@ }),
            decreases songs@.len() - k,
        {
            self.queue.push_back(songs[k].clone());
            k = k + 1;
            assert(self@.queue =~= songs@.subrange(from as int, k as int));
        }
    }

    /// Replaces the queue with `tracks` and plays its first one. `loaded` is what
    /// loading `tracks[0]` gave; with no tracks there is nothing to load and playback
    /// stops.
    pub fn enqueue_and_play(
        &mut self,
        tracks: &[Song],
        loaded: Option<Result<Timestamp, PlayError>>,
    ) -> (r: Result<Vec<Command>, PlayError>)
        requires
            old(self).wf(),
            loaded is Some <==> tracks@.len() > 0,
        ensures
            (final(self)@, commands_of(r)) == enqueue_step(old(self)@, tracks@, loaded),
            final(self).wf(),
    {
        self.refill(tracks, 0);
        assert(tracks@.subrange(0, tracks@.len() as int) =~= tracks@);
        self.play_head(loaded)
    }

    /// Plays the library from `songs[index]` on: the queue becomes `songs[index..]`.
    pub fn select(
        &mut self,
        songs: &[Song],
        index: usize,
        loaded: Option<Result<Timestamp, PlayError>>,
    ) -> (r: Result<Vec<Command>, PlayError>)
        requires
            old(self).wf(),
            index <= songs@.len(),
            loaded is Some <==> index < songs@.len(),
        ensures
            (final(self)@, commands_of(r)) == enqueue_step(
                old(self)@,
                songs@.subrange(index as int, songs@.len() as int),
                loaded,
            ),
            final(self).wf(),
    {
        self.refill(songs, index);
        self.play_head(loaded)
    }

    /// Soft-pauses and stops the ticker when playing; does nothing otherwise.
    pub fn pause(&mut self) -> (r: Vec<Command>)
        requires
            old(self).wf(),
        ensures
            (final(self)@, r@) == pause_step(old(self)@),
            final(self).wf(),
    {
        if self.state == GenState::Playing {
            self.state = GenState::Paused;
            self.drain_pending = true;
            vec![Command::Pause, Command::StopTimer]
        } else {
            no_commands()
        }
    }

    /// Resumes from `Paused`, or plays the queue head from `Stopped`; refused while
    /// playing. `loaded` is what loading the queue head gave; it is needed only when
    /// stopped with a non-empty queue, and ignored otherwise.
    pub fn resume(&mut self, loaded: Option<Result<Timestamp, PlayError>>) -> (r: Result<
        Vec<Command>,
        PlayError,
    >)
        requires
            old(self).wf(),
            old(self)@.state == GenState::Stopped && old(self)@.queue.len() > 0 ==> loaded is Some,
        ensures
            (final(self)@, commands_of(r)) == resume_step(old(self)@, loaded),
            final(self).wf(),
    {
        match self.state {
            GenState::Playing => Err(PlayError::AlreadyPlaying),
            GenState::Paused => {
                self.state = GenState::Playing;
                Ok(vec![Command::Play, Command::StartTimer])
            },
            GenState::Stopped => {
                if self.queue.len() == 0 {
                    Ok(no_commands())
                } else {
                    self.play_head(loaded)
                }
            },
        }
    }

    /// Pauses when playing, resumes otherwise.
    pub fn toggle_play(&mut self, loaded: Option<Result<Timestamp, PlayError>>) -> (r: Result<
        Vec<Command>,
        PlayError,
    >)
        requires
            old(self).wf(),
            old(self)@.state == GenState::Stopped && old(self)@.queue.len() > 0 ==> loaded is Some,
        ensures
            old(self)@.state == GenState::Playing ==> (final(self)@, commands_of(r)) == (
                pause_step(old(self)@).0,
                Ok::<Seq<Command>, PlayError>(pause_step(old(self)@).1),
            ),
            old(self)@.state != GenState::Playing ==> (final(self)@, commands_of(r)) == resume_step(
                old(self)@,
                loaded,
            ),
            final(self).wf(),
    {
        if self.state == GenState::Playing {
            Ok(self.pause())
        } else {
            self.resume(loaded)
        }
    }

    /// Sets the volume, clamped to 100.
    pub fn set_volume(&mut self, percent: u8) -> (r: Vec<Command>)
        requires
            old(self).wf(),
        ensures
            (final(self)@, r@) == volume_step(old(self)@, percent),
            final(self).wf(),
    {
        let v: u8 = if percent > 100 {
            100
        } else {
            percent
        };
        self.volume = v;
        vec![Command::SetVolume(v)]
    }

    /// Reacts to one notification. For `MediaEnded`, `loaded` is what loading the
    /// queue head gave (`None` when the queue is empty); for `Timetick`, `stamp` is
    /// the position the engine reports, if it reports one.
    pub fn handle_event(
        &mut self,
        msg: GenMsg,
        loaded: Option<Result<Timestamp, PlayError>>,
        stamp: Option<Timestamp>,
    ) -> (r: Result<Vec<Command>, PlayError>)
        requires
            old(self).wf(),
            msg is MediaEnded ==> (loaded is Some <==> old(self)@.queue.len() > 0),
        ensures
            (final(self)@, commands_of(r)) == event_step(old(self)@, msg, loaded, stamp),
            final(self).wf(),
    {
        match msg {
            GenMsg::MediaEnded => self.play_head(loaded),
            GenMsg::FinishPause => {
                if self.drain_pending {
                    self.drain_pending = false;
                    let c = vec![Command::FinishPause];
                    assert(c@ =~= seq![Command::FinishPause]);
                    Ok(c)
                } else {
                    Ok(no_commands())
                }
            },
            GenMsg::Timetick => {
                if let Some(ts) = stamp {
                    if let Some(c) = self.current.take() {
                        self.current = Some(Current { song: c.song, timestamp: ts });
                    }
                }
                Ok(no_commands())
            },
        }
    }
}

} // verus!
