//! Animation clip scheduling.
//!
//! The scheduler owns an ordered, non-empty playlist of clip identifiers and
//! cycles through it: when the playing clip's elapsed time reaches its
//! duration, the scheduler advances to the next index, wrapping at the end.
//! An externally requested clip preempts the cycle without disturbing the
//! cycle index: a play-once request rejoins the cycle at the next index when
//! it completes, and a repeat-forever request holds the scheduler until the
//! next external request replaces it.
//!
//! Completion is detected by comparing times each tick, never by a pushed
//! event, so a clip whose duration is reported late is simply not complete
//! until the report arrives. Timestamps and durations are in milliseconds.

use vstd::prelude::*;

verus! {

/// How a requested clip is to be played.
#[derive(Clone, Copy, PartialEq, Eq, Structural, Debug)]
pub enum RepeatMode {
    /// Play the clip to completion once, then resume the playlist cycle.
    PlayOnce,
    /// Loop the clip until another external request replaces it.
    Forever,
}

/// A request, emitted by the gesture recognizer or another caller, to play
/// one clip.
#[derive(Clone, Debug)]
pub struct PlayAnimationEvent {
    /// Identifier of the clip to play.
    pub animation_name: String,
    /// Whether the clip loops or plays once.
    pub repeat: RepeatMode,
}

/// A configuration fault detected at startup.
#[derive(Clone, Copy, PartialEq, Eq, Structural, Debug)]
pub enum ConfigError {
    /// Clip discovery produced no clips: the scheduler would have nothing to
    /// cycle through.
    EmptyPlaylist,
}

/// The ordered, non-empty list of clips the scheduler cycles through.
/// Immutable after construction; discovery supplies the identifiers already
/// sorted.
pub struct AnimationPlaylist {
    pub clips: Vec<String>,
}

impl AnimationPlaylist {
    /// Well-formedness: there is at least one clip.
    pub open spec fn wf(self) -> bool {
        self.clips@.len() > 0
    }

    /// Builds the playlist from the discovered clip identifiers. An empty
    /// list is a startup configuration error, not a playlist.
    pub fn new(clips: Vec<String>) -> (r: Result<AnimationPlaylist, ConfigError>)
        ensures
            clips@.len() == 0 <==> r is Err,
            r matches Ok(p) ==> p.clips@ == clips@ && p.wf(),
            r matches Err(e) ==> e == ConfigError::EmptyPlaylist,
    {
        if clips.len() == 0 {
            Err(ConfigError::EmptyPlaylist)
        } else {
            Ok(AnimationPlaylist { clips })
        }
    }

    /// How many clips the playlist holds.
    pub fn len(&self) -> (r: usize)
        ensures
            r == self.clips@.len(),
    {
        self.clips.len()
    }
}

/// What the scheduler is currently playing.
#[derive(Clone, Debug)]
pub enum ActiveClip {
    /// The playlist clip at the current index.
    Cycle,
    /// An externally requested clip, played over the cycle.
    External { clip: String, repeat: RepeatMode },
}

/// Playback bookkeeping for the active clip. `start_time` and `duration`
/// are `None` while no clip is actively tracked — for instance right after a
/// preempting request was issued but before its clip finished loading.
#[derive(Clone, Copy, PartialEq, Eq, Structural, Debug)]
pub struct PlaybackState {
    /// Index into the playlist of the cycle's current clip.
    pub current_index: usize,
    /// When the active clip started, if it is being tracked.
    pub start_time: Option<u64>,
    /// The active clip's reported duration, once its load resolved.
    pub duration: Option<u64>,
}

/// The scheduler's mathematical state: clip identifiers as character
/// sequences, the cycle index, the tracked times, and what is playing.
pub struct SchedulerView {
    pub clips: Seq<Seq<char>>,
    pub index: int,
    pub start_time: Option<u64>,
    pub duration: Option<u64>,
    pub active: ActiveView,
}

/// The mathematical counterpart of [`ActiveClip`].
pub enum ActiveView {
    Cycle,
    External { clip: Seq<char>, repeat: RepeatMode },
}

impl SchedulerView {
    /// Well-formedness: a non-empty playlist and an index inside it.
    pub open spec fn wf(self) -> bool {
        self.clips.len() > 0 && 0 <= self.index < self.clips.len()
    }

    /// A repeat-forever external clip is pinned: it never completes into the
    /// cycle and only another external request replaces it.
    pub open spec fn is_pinned(self) -> bool {
        self.active matches ActiveView::External { repeat: RepeatMode::Forever, .. }
    }

    /// The identifier of the clip being played: the external clip when one
    /// is active, else the playlist clip at the current index.
    pub open spec fn active_clip(self) -> Seq<char> {
        match self.active {
            ActiveView::Cycle => self.clips[self.index],
            ActiveView::External { clip, .. } => clip,
        }
    }
}

/// The cycle index that follows `i` in a playlist of length `n`: one step
/// forward, wrapping at the end.
pub open spec fn next_index(i: int, n: int) -> int {
    (i + 1) % n
}

/// The active clip has been tracked long enough to be complete at `now`:
/// both its start and duration are known and `start + duration <= now`.
pub open spec fn completed_spec(v: SchedulerView, now: u64) -> bool {
    &&& v.start_time matches Some(s)
    &&& v.duration matches Some(d)
    &&& s + d <= now
}

/// Advancing out of a completed clip at `now`: the cycle moves to the next
/// index (wrapping), that clip starts now, its duration is unknown until its
/// load resolves, and the cycle is what plays.
pub open spec fn advance_spec(v: SchedulerView, now: u64) -> SchedulerView {
    SchedulerView {
        index: next_index(v.index, v.clips.len() as int),
        start_time: Some(now),
        duration: None,
        active: ActiveView::Cycle,
        ..v
    }
}

/// An external request for `clip`: it preempts whatever plays, leaving the
/// cycle index untouched; nothing is tracked until the clip's load resolves.
pub open spec fn external_spec(v: SchedulerView, clip: Seq<char>, repeat: RepeatMode) -> SchedulerView {
    SchedulerView {
        start_time: None,
        duration: None,
        active: ActiveView::External { clip, repeat },
        ..v
    }
}

/// The active clip's load resolved at `now` with `duration`: tracking starts.
pub open spec fn loaded_spec(v: SchedulerView, now: u64, duration: u64) -> SchedulerView {
    SchedulerView { start_time: Some(now), duration: Some(duration), ..v }
}

/// Owns the playlist and the playback state, advances the cycle on
/// completion, and honors external requests by preempting the cycle.
///
/// Loading and unloading the clips themselves is the host engine's work: the
/// scheduler hands back the identifier of each clip to load.
pub struct AnimationScheduler {
    pub playlist: AnimationPlaylist,
    pub playback: PlaybackState,
    pub active: ActiveClip,
}

impl View for AnimationScheduler {
    type V = SchedulerView;

    open spec fn view(&self) -> SchedulerView {
        SchedulerView {
            clips: self.playlist.clips.deep_view(),
            index: self.playback.current_index as int,
            start_time: self.playback.start_time,
            duration: self.playback.duration,
            active: match self.active {
                ActiveClip::Cycle => ActiveView::Cycle,
                ActiveClip::External { clip, repeat } => ActiveView::External {
                    clip: clip@,
                    repeat,
                },
            },
        }
    }
}

impl AnimationScheduler {
    /// Well-formedness of the mathematical state.
    pub open spec fn wf(self) -> bool {
        self@.wf()
    }

    /// A scheduler at the start of the cycle: index zero, nothing tracked
    /// until the first clip's load resolves.
    pub fn new(playlist: AnimationPlaylist) -> (r: AnimationScheduler)
        requires
            playlist.wf(),
        ensures
            r@.clips == playlist.clips.deep_view(),
            r@.index == 0,
            r@.start_time is None,
            r@.duration is None,
            r@.active is Cycle,
            r.wf(),
    {
        AnimationScheduler {
            playlist,
            playback: PlaybackState { current_index: 0, start_time: None, duration: None },
            active: ActiveClip::Cycle,
        }
    }

    /// The cycle's current index.
    pub fn current_index(&self) -> (r: usize)
        ensures
            r == self@.index,
    {
        self.playback.current_index
    }

    /// The identifier of the clip being played: the external clip when one
    /// is active, else the playlist clip at the current index.
    pub fn active_clip(&self) -> (r: &String)
        requires
            self.wf(),
        ensures
            r@ == self@.active_clip(),
    {
        match &self.active {
            ActiveClip::Cycle => &self.playlist.clips[self.playback.current_index],
            ActiveClip::External { clip, .. } => clip,
        }
    }

    /// Whether the active clip is complete at `now`: its start and duration
    /// are both known and the elapsed time has reached the duration. A clip
    /// whose duration has not been reported yet is never complete, so a late
    /// report cannot cause a spurious completion.
    pub fn is_completed(&self, now: u64) -> (r: bool)
        ensures
            r == completed_spec(self@, now),
    {
        match (self.playback.start_time, self.playback.duration) {
            (Some(start), Some(duration)) => now >= start && now - start >= duration,
            _ => false,
        }
    }

    /// Leaves the completed clip behind and advances the cycle: the index
    /// moves to the next playlist entry, wrapping at the end; that clip
    /// starts at `now` with its duration unknown until its load resolves.
    /// Returns the identifier of the clip to load.
    pub fn on_clip_completed(&mut self, now: u64) -> (r: String)
        requires
            old(self).wf(),
        ensures
            final(self)@ == advance_spec(old(self)@, now),
            final(self).wf(),
            r@ == old(self)@.clips[next_index(old(self)@.index, old(self)@.clips.len() as int)],
    {
        let n = self.playlist.clips.len();
        let idx = (self.playback.current_index + 1) % n;
        self.playback.current_index = idx;
        self.playback.start_time = Some(now);
        self.playback.duration = None;
        self.active = ActiveClip::Cycle;
        self.playlist.clips[idx].clone()
    }

    /// Preempts whatever is playing with `clip_id`, regardless of elapsed
    /// time, leaving the cycle index untouched. Play-once requests rejoin
    /// the cycle on completion; repeat-forever requests hold until another
    /// external request. Nothing is tracked until the clip's load resolves.
    pub fn on_external_request(&mut self, clip_id: String, repeat: RepeatMode)
        requires
            old(self).wf(),
        ensures
            final(self)@ == external_spec(old(self)@, clip_id@, repeat),
            final(self).wf(),
    {
        self.playback.start_time = None;
        self.playback.duration = None;
        self.active = ActiveClip::External { clip: clip_id, repeat };
    }

    /// The active clip's load resolved: it reports `duration` and counts as
    /// started at `now`.
    pub fn on_clip_loaded(&mut self, now: u64, duration: u64)
        requires
            old(self).wf(),
        ensures
            final(self)@ == loaded_spec(old(self)@, now, duration),
            final(self).wf(),
    {
        self.playback.start_time = Some(now);
        self.playback.duration = Some(duration);
    }

    /// One scheduling tick at `now`: if the active clip is complete and not
    /// a repeat-forever external clip, advances the cycle and returns the
    /// next clip to load; otherwise changes nothing.
    pub fn tick(&mut self, now: u64) -> (r: Option<String>)
        requires
            old(self).wf(),
        ensures
            final(self).wf(),
            completed_spec(old(self)@, now) && !old(self)@.is_pinned() ==> {
                &&& final(self)@ == advance_spec(old(self)@, now)
                &&& r matches Some(c) && c@ == old(self)@.clips[next_index(
                    old(self)@.index,
                    old(self)@.clips.len() as int,
                )]
            },
            !(completed_spec(old(self)@, now) && !old(self)@.is_pinned()) ==> {
                &&& *final(self) == *old(self)
                &&& r is None
            },
    {
        let pinned = match &self.active {
            ActiveClip::External { repeat: RepeatMode::Forever, .. } => true,
            _ => false,
        };
        if !pinned && self.is_completed(now) {
            Some(self.on_clip_completed(now))
        } else {
            None
        }
    }
}

/// The state after a run of consecutive completions, one per timestamp in
/// `nows`, each advancing the cycle as [`advance_spec`] says.
pub open spec fn run_completions(v: SchedulerView, nows: Seq<u64>) -> SchedulerView
    decreases nows.len(),
{
    if nows.len() == 0 {
        v
    } else {
        run_completions(advance_spec(v, nows[0]), nows.drop_first())
    }
}

/// A run of completions never touches the playlist, keeps the state
/// well-formed, and moves the index forward by one step per completion,
/// modulo the playlist length.
pub proof fn lemma_run_completions_index(v: SchedulerView, nows: Seq<u64>)
    requires
        v.wf(),
    ensures
        run_completions(v, nows).clips == v.clips,
        run_completions(v, nows).wf(),
        run_completions(v, nows).index == (v.index + nows.len()) % (v.clips.len() as int),
    decreases nows.len(),
{
    let n = v.clips.len() as int;
    if nows.len() == 0 {
        vstd::arithmetic::div_mod::lemma_small_mod(v.index as nat, v.clips.len());
    } else {
        let stepped = advance_spec(v, nows[0]);
        vstd::arithmetic::div_mod::lemma_mod_bound(v.index + 1, n);
        lemma_run_completions_index(stepped, nows.drop_first());
        let k = nows.len() - 1;
        vstd::arithmetic::div_mod::lemma_add_mod_noop_right(k, v.index + 1, n);
        assert(run_completions(v, nows).index == (k + (v.index + 1) % n) % n);
    }
}

/// Cycle wrap law: for a playlist of length `n`, `n` consecutive completions
/// bring the cycle index back to where it started, whatever the timestamps.
pub proof fn lemma_cycle_wraps(v: SchedulerView, nows: Seq<u64>)
    requires
        v.wf(),
        nows.len() == v.clips.len(),
    ensures
        run_completions(v, nows).index == v.index,
        run_completions(v, nows).clips == v.clips,
{
    let n = v.clips.len() as int;
    lemma_run_completions_index(v, nows);
    vstd::arithmetic::div_mod::lemma_mod_add_multiples_vanish(v.index, n);
    vstd::arithmetic::div_mod::lemma_small_mod(v.index as nat, v.clips.len());
}

/// One-shot resume law: an external play-once request leaves the cycle index
/// untouched, and the completion that follows it advances the cycle to the
/// index right after the pre-interruption one — exactly where an
/// uninterrupted completion would have gone.
pub proof fn lemma_one_shot_resume(v: SchedulerView, clip: Seq<char>, now: u64)
    requires
        v.wf(),
    ensures
        external_spec(v, clip, RepeatMode::PlayOnce).index == v.index,
        advance_spec(external_spec(v, clip, RepeatMode::PlayOnce), now).index == next_index(
            v.index,
            v.clips.len() as int,
        ),
        advance_spec(external_spec(v, clip, RepeatMode::PlayOnce), now).index == advance_spec(
            v,
            now,
        ).index,
{
}

} // verus!
