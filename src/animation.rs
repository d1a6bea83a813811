use vstd::prelude::*;
use crate::actor::{ActorKind, ActorState};

verus! {

/// The clips of the shared animation graph.
#[derive(Clone, Copy, Debug, PartialEq, Eq, Structural)]
pub enum Clip {
    Idle,
    Run,
    Jump,
    Punch,
}

/// What to play for a state: the clip, whether it loops, and its playback
/// speed in tenths (10 is normal speed).
#[derive(Clone, Copy, Debug, PartialEq, Eq, Structural)]
pub struct ClipChoice {
    pub clip: Clip,
    pub looping: bool,
    pub speed_tenths: u32,
}

/// What the bound animation player reports: which clips are active, and
/// whether every active clip has reached its end.
#[derive(Clone, Copy, Debug, PartialEq, Eq, Structural)]
pub struct AnimationStatus {
    pub playing_idle: bool,
    pub playing_run: bool,
    pub playing_jump: bool,
    pub playing_punch: bool,
    pub all_finished: bool,
}

/// The table from actor state to clip: idle and run loop, jump and punch play
/// once, run is played at one and a half times normal speed; the enemy has no
/// jump clip and idles instead.
pub open spec fn choice_of(kind: ActorKind, state: ActorState) -> ClipChoice {
    match state {
        ActorState::Idle => ClipChoice { clip: Clip::Idle, looping: true, speed_tenths: 10 },
        ActorState::Running => ClipChoice { clip: Clip::Run, looping: true, speed_tenths: 15 },
        ActorState::Jumping => match kind {
            ActorKind::Player => ClipChoice { clip: Clip::Jump, looping: false, speed_tenths: 10 },
            ActorKind::Enemy => ClipChoice { clip: Clip::Idle, looping: true, speed_tenths: 10 },
        },
        ActorState::Punching => ClipChoice { clip: Clip::Punch, looping: false, speed_tenths: 10 },
    }
}

impl AnimationStatus {
    pub open spec fn playing(self, clip: Clip) -> bool {
        match clip {
            Clip::Idle => self.playing_idle,
            Clip::Run => self.playing_run,
            Clip::Jump => self.playing_jump,
            Clip::Punch => self.playing_punch,
        }
    }

    /// The status right after a play request for `choice`: its clip is active
    /// and has just started, so not everything has finished.
    pub open spec fn after_play(self, choice: ClipChoice) -> AnimationStatus {
        AnimationStatus {
            playing_idle: self.playing_idle || choice.clip == Clip::Idle,
            playing_run: self.playing_run || choice.clip == Clip::Run,
            playing_jump: self.playing_jump || choice.clip == Clip::Jump,
            playing_punch: self.playing_punch || choice.clip == Clip::Punch,
            all_finished: false,
        }
    }

    /// A player with no active clip.
    pub fn stopped() -> (r: AnimationStatus)
        ensures
            forall|c: Clip| !r.playing(c),
            !r.all_finished,
    {
        AnimationStatus {
            playing_idle: false,
            playing_run: false,
            playing_jump: false,
            playing_punch: false,
            all_finished: false,
        }
    }

    pub fn is_playing(&self, clip: Clip) -> (r: bool)
        ensures
            r == self.playing(clip),
    {
        match clip {
            Clip::Idle => self.playing_idle,
            Clip::Run => self.playing_run,
            Clip::Jump => self.playing_jump,
            Clip::Punch => self.playing_punch,
        }
    }

    /// Records a play request, as the animation player does when it starts a clip.
    pub fn record_play(&mut self, choice: ClipChoice)
        ensures
            *final(self) == old(self).after_play(choice),
    {
        match choice.clip {
            Clip::Idle => self.playing_idle = true,
            Clip::Run => self.playing_run = true,
            Clip::Jump => self.playing_jump = true,
            Clip::Punch => self.playing_punch = true,
        }
        self.all_finished = false;
    }
}

/// The play request issued for an actor in `state`: none when its clip is
/// already active, so that an unchanged state never restarts its clip.
pub open spec fn request_of(kind: ActorKind, state: ActorState, status: AnimationStatus) -> Option<ClipChoice> {
    let c = choice_of(kind, state);
    if status.playing(c.clip) {
        None
    } else {
        Some(c)
    }
}

/// Whether `clip` has finished playing: it is active and every active clip
/// has reached its end.
pub open spec fn finished(status: AnimationStatus, clip: Clip) -> bool {
    status.playing(clip) && status.all_finished
}

pub fn select_clip(kind: ActorKind, state: ActorState) -> (r: ClipChoice)
    ensures
        r == choice_of(kind, state),
{
    match state {
        ActorState::Idle => ClipChoice { clip: Clip::Idle, looping: true, speed_tenths: 10 },
        ActorState::Running => ClipChoice { clip: Clip::Run, looping: true, speed_tenths: 15 },
        ActorState::Jumping => match kind {
            ActorKind::Player => ClipChoice { clip: Clip::Jump, looping: false, speed_tenths: 10 },
            ActorKind::Enemy => ClipChoice { clip: Clip::Idle, looping: true, speed_tenths: 10 },
        },
        ActorState::Punching => ClipChoice { clip: Clip::Punch, looping: false, speed_tenths: 10 },
    }
}

pub fn drive_animation(kind: ActorKind, state: ActorState, status: &AnimationStatus) -> (r: Option<ClipChoice>)
    ensures
        r == request_of(kind, state, *status),
{
    let c = select_clip(kind, state);
    if status.is_playing(c.clip) {
        None
    } else {
        Some(c)
    }
}

pub fn clip_finished(status: &AnimationStatus, clip: Clip) -> (r: bool)
    ensures
        r == finished(*status, clip),
{
    status.is_playing(clip) && status.all_finished
}

/// The number of play requests issued over `n` ticks in which the actor stays
/// in `state`, starting from `status`; each request takes effect on the player.
pub open spec fn requests_over(kind: ActorKind, state: ActorState, status: AnimationStatus, n: nat) -> nat
    decreases n,
{
    if n == 0 {
        0
    } else {
        match request_of(kind, state, status) {
            Some(c) => 1 + requests_over(kind, state, status.after_play(c), (n - 1) as nat),
            None => requests_over(kind, state, status, (n - 1) as nat),
        }
    }
}

proof fn lemma_quiet_while_playing(kind: ActorKind, state: ActorState, status: AnimationStatus, n: nat)
    requires
        status.playing(choice_of(kind, state).clip),
    ensures
        requests_over(kind, state, status, n) == 0,
    decreases n,
{
    if n > 0 {
        lemma_quiet_while_playing(kind, state, status, (n - 1) as nat);
    }
}

/// While an actor stays in one state, at most one play request is issued for
/// that state's clip, however many ticks pass: once requested, the clip is
/// active and is never restarted.
pub proof fn lemma_no_duplicate_restart(kind: ActorKind, state: ActorState, status: AnimationStatus, n: nat)
    ensures
        requests_over(kind, state, status, n) <= 1,
{
    let c = choice_of(kind, state);
    if n > 0 {
        if status.playing(c.clip) {
            lemma_quiet_while_playing(kind, state, status, n);
        } else {
            lemma_quiet_while_playing(kind, state, status.after_play(c), (n - 1) as nat);
        }
    }
}

} // verus!
