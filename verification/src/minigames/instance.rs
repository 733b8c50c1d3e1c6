//! A breach challenge in play, whichever kind it is, and the frame-by-frame
//! running of the one the window has open.

use vstd::prelude::*;

use crate::difficulty::MAX_DECK_COUNT;
use crate::input::KeyInput;
use crate::level::room_index;
use crate::minigame_keys::{MinigameKeys, RoomKeys};
use crate::minigames::broken_wire::{BrokenWire, BrokenWirePhase, SequenceWireVisualState, START_SEPARATION};
use crate::minigames::clean_engine::{clean_status_text, CleanEngine, STROKES_TO_CLEAN};
use crate::minigames::coolant_valve::{
    valve_status_text, valve_step, CoolantGaugeVisualState, CoolantValve, ValvePhase, MAX_STEP_MICROS,
};
use crate::minigames::pipe_flow::{can_be_made_up, dealt_board, 
    flows, pipe_status_text, trace_of, PipeFlow, PipeRunVisualState, PipeTileVisual, RunPhase,
    PIPE_TILES,
};
use crate::minigames::{
    CompletedMinigame, MinigameAudioCue, MinigameId, MinigameOutcome, PendingMinigame,
};

verus! {

/// One challenge in play.
pub enum Minigame {
    BrokenWire(BrokenWire),
    CoolantValve(CoolantValve),
    CleanEngine(CleanEngine),
    PipeFlow(PipeFlow),
}

/// What the challenge window draws besides its text.
pub enum MinigameVisualState {
    /// Nothing but the status line.
    Text(String),
    BrokenWires(SequenceWireVisualState),
    CoolantGauge(CoolantGaugeVisualState),
    PipeRun(PipeRunVisualState),
}

/// The challenge the window has open.
pub struct ActiveMinigame {
    pub id: MinigameId,
    pub game: Minigame,
}

/// What one frame of the open challenge comes to.
pub enum MinigameFrame {
    /// No challenge is open: play goes back to running.
    NothingOpen,
    /// The challenge finished this frame: the window closes and play goes
    /// back to running with this result.
    Finished(CompletedMinigame),
    /// The challenge is still going: the sounds to play, what to draw, and the
    /// status line.
    Running { cues: Vec<MinigameAudioCue>, visual: MinigameVisualState, status: String },
}

/// The heading each kind of challenge is shown under.
pub open spec fn minigame_title(id: MinigameId) -> Seq<char> {
    match id {
        MinigameId::BrokenWire => "Damaged Signal Relay"@,
        MinigameId::CoolantValve => "Coolant Pressure Regulator"@,
        MinigameId::CleanEngine => "Fouled Engine Bell"@,
        MinigameId::PipeFlow => "Feed Line Coupling"@,
    }
}

/// What each kind of challenge's window tells the player to do.
pub open spec fn minigame_instructions(id: MinigameId) -> Seq<char> {
    match id {
        MinigameId::CleanEngine => "Alternate A and D to scrub the engine clean."@,
        _ => "Consult the repair manual."@,
    }
}

/// The relay's status line for its phase.
pub open spec fn wire_status_text(phase: BrokenWirePhase) -> Seq<char> {
    match phase {
        BrokenWirePhase::Pulling => "Signal unstable."@,
        BrokenWirePhase::JointedArmingZap { .. } => "Signal stabilizing."@,
        BrokenWirePhase::Jointed { .. } => "Signal stabilized."@,
    }
}

impl Minigame {
    /// Which kind of challenge this is.
    pub open spec fn kind(&self) -> MinigameId {
        match self {
            Minigame::BrokenWire(_) => MinigameId::BrokenWire,
            Minigame::CoolantValve(_) => MinigameId::CoolantValve,
            Minigame::CleanEngine(_) => MinigameId::CleanEngine,
            Minigame::PipeFlow(_) => MinigameId::PipeFlow,
        }
    }

    /// What each kind needs to hold to be played on.
    pub open spec fn well_formed(&self) -> bool {
        match self {
            Minigame::BrokenWire(_) => true,
            Minigame::CoolantValve(g) => g.well_formed(),
            Minigame::CleanEngine(g) => 0 <= g.remaining() <= STROKES_TO_CLEAN,
            Minigame::PipeFlow(g) => g.well_formed(),
        }
    }

    /// Whether this is a challenge just opened with `keys`.
    pub open spec fn fresh(&self, keys: MinigameKeys) -> bool {
        match self {
            Minigame::BrokenWire(g) => {
                &&& g.gap() == START_SEPARATION
                &&& g.wire_phase() == BrokenWirePhase::Pulling
            },
            Minigame::CoolantValve(g) => {
                &&& g.line_pressure() == 0
                &&& g.line_rate() == 0
                &&& g.valve_phase() == ValvePhase::Regulating
                &&& g.cue() is None
                &&& g.feed() == keys.action
            },
            Minigame::CleanEngine(g) => {
                &&& g.remaining() == STROKES_TO_CLEAN
                &&& g.last_wipe() is None
            },
            Minigame::PipeFlow(g) => {
                &&& exists|seed: u64| g.board() == dealt_board(seed)
                &&& can_be_made_up(g.board())
                &&& !flows(g.board())
                &&& g.wrench() == 0
                &&& g.run_phase() == RunPhase::Turning
                &&& g.cue() is None
                &&& g.controls() == (keys.primary, keys.secondary, keys.action)
            },
        }
    }

    /// The status line under the challenge.
    pub open spec fn status_text(&self) -> Seq<char> {
        match self {
            Minigame::BrokenWire(g) => wire_status_text(g.wire_phase()),
            Minigame::CoolantValve(g) => valve_status_text(g.line_pressure(), g.valve_phase()),
            Minigame::CleanEngine(g) => clean_status_text(g.remaining()),
            Minigame::PipeFlow(g) => pipe_status_text(g.board()),
        }
    }

    /// Whether `v` is how this challenge is drawn.
    pub open spec fn drawn_as(&self, v: MinigameVisualState) -> bool {
        match self {
            Minigame::BrokenWire(g) => v matches MinigameVisualState::BrokenWires(w) && w.separation
                == g.gap() && w.jointed == !(g.wire_phase() is Pulling),
            Minigame::CoolantValve(g) => v matches MinigameVisualState::CoolantGauge(c) && c.fill
                == g.line_pressure() / 100_000 && c.sealed == (g.valve_phase() is Sealed),
            Minigame::CleanEngine(g) => v matches MinigameVisualState::Text(t) && t@
                == clean_status_text(g.remaining()),
            Minigame::PipeFlow(g) => v matches MinigameVisualState::PipeRun(r) && r.tiles@.len()
                == PIPE_TILES && r.cursor == g.wrench() && r.drained == trace_of(g.board()).1 && forall|
                i: int,
            |
                0 <= i < PIPE_TILES ==> #[trigger] r.tiles@[i] == (PipeTileVisual {
                    piece: g.board()[i].piece,
                    quarters: g.board()[i].quarters,
                    flowing: trace_of(g.board()).0[i],
                }),
        }
    }

    /// What one frame does to a challenge, from `before` to `after`.
    pub open spec fn stepped(
        before: Self,
        after: Self,
        keys: KeyInput,
        delta_micros: u64,
        outcome: Option<MinigameOutcome>,
    ) -> bool {
        match (before, after) {
            (Minigame::BrokenWire(a), Minigame::BrokenWire(b)) => BrokenWire::ticked(
                a,
                b,
                keys,
                delta_micros,
                outcome,
            ),
            (Minigame::CoolantValve(a), Minigame::CoolantValve(b)) => CoolantValve::ticked(
                a,
                b,
                keys,
                delta_micros,
                outcome,
            ),
            (Minigame::CleanEngine(a), Minigame::CleanEngine(b)) => CleanEngine::ticked(
                a,
                b,
                keys,
                delta_micros,
                outcome,
            ),
            (Minigame::PipeFlow(a), Minigame::PipeFlow(b)) => PipeFlow::ticked(
                a,
                b,
                keys,
                delta_micros,
                outcome,
            ),
            _ => false,
        }
    }

    /// What handing over a challenge's sounds does, from `before` to `after`.
    pub open spec fn drained_cues(before: Self, after: Self, cues: Seq<MinigameAudioCue>) -> bool {
        match (before, after) {
            (Minigame::BrokenWire(a), Minigame::BrokenWire(b)) => BrokenWire::cues_taken(a, b, cues),
            (Minigame::CoolantValve(a), Minigame::CoolantValve(b)) => CoolantValve::cues_taken(
                a,
                b,
                cues,
            ),
            (Minigame::CleanEngine(a), Minigame::CleanEngine(b)) => {
                &&& a == b
                &&& cues == Seq::<MinigameAudioCue>::empty()
            },
            (Minigame::PipeFlow(a), Minigame::PipeFlow(b)) => PipeFlow::cues_taken(a, b, cues),
            _ => false,
        }
    }

    /// The sound the challenge is holding for the window to play, if any.
    pub open spec fn raised_cue(&self) -> Option<MinigameAudioCue> {
        match self {
            Minigame::BrokenWire(g) => if g.wire_phase() is JointedArmingZap {
                Some(MinigameAudioCue::SequenceZap)
            } else {
                None
            },
            Minigame::CoolantValve(g) => g.cue(),
            Minigame::CleanEngine(_) => None,
            Minigame::PipeFlow(g) => g.cue(),
        }
    }

    /// Which kind of challenge this is.
    pub fn id(&self) -> (id: MinigameId)
        ensures
            id == self.kind(),
    {
        match self {
            Minigame::BrokenWire(_) => MinigameId::BrokenWire,
            Minigame::CoolantValve(_) => MinigameId::CoolantValve,
            Minigame::CleanEngine(_) => MinigameId::CleanEngine,
            Minigame::PipeFlow(_) => MinigameId::PipeFlow,
        }
    }

    pub fn title(&self) -> (s: &'static str)
        ensures
            s@ == minigame_title(self.kind()),
    {
        match self {
            Minigame::BrokenWire(g) => g.title(),
            Minigame::CoolantValve(g) => g.title(),
            Minigame::CleanEngine(g) => g.title(),
            Minigame::PipeFlow(g) => g.title(),
        }
    }

    pub fn instructions(&self) -> (s: &'static str)
        ensures
            s@ == minigame_instructions(self.kind()),
    {
        match self {
            Minigame::BrokenWire(g) => g.instructions(),
            Minigame::CoolantValve(g) => g.instructions(),
            Minigame::CleanEngine(g) => g.instructions(),
            Minigame::PipeFlow(g) => g.instructions(),
        }
    }

    pub fn status(&self) -> (s: String)
        requires
            self.well_formed(),
        ensures
            s@ == self.status_text(),
    {
        match self {
            Minigame::BrokenWire(g) => String::from_str(g.status()),
            Minigame::CoolantValve(g) => g.status(),
            Minigame::CleanEngine(g) => g.status(),
            Minigame::PipeFlow(g) => g.status(),
        }
    }

    /// What the window draws; a challenge with no art of its own is drawn as
    /// its status line.
    pub fn visual_state(&self) -> (v: MinigameVisualState)
        requires
            self.well_formed(),
        ensures
            self.drawn_as(v),
    {
        match self {
            Minigame::BrokenWire(g) => MinigameVisualState::BrokenWires(g.visual_state()),
            Minigame::CoolantValve(g) => MinigameVisualState::CoolantGauge(g.visual_state()),
            Minigame::CleanEngine(g) => MinigameVisualState::Text(g.status()),
            Minigame::PipeFlow(g) => MinigameVisualState::PipeRun(g.visual_state()),
        }
    }

    /// Hands over the sounds the challenge has raised, and forgets them.
    pub fn take_audio_cues(&mut self) -> (cues: Vec<MinigameAudioCue>)
        ensures
            final(self).kind() == old(self).kind(),
            old(self).well_formed() ==> final(self).well_formed(),
            Self::drained_cues(*old(self), *final(self), cues@),
    {
        match self {
            Minigame::BrokenWire(g) => g.take_audio_cues(),
            Minigame::CoolantValve(g) => g.take_audio_cues(),
            Minigame::CleanEngine(_) => Vec::new(),
            Minigame::PipeFlow(g) => g.take_audio_cues(),
        }
    }

    /// One frame of the challenge: see each kind's own `tick`.
    pub fn tick(&mut self, keys: &KeyInput, delta_micros: u64) -> (outcome: Option<MinigameOutcome>)
        requires
            old(self).well_formed(),
            delta_micros <= MAX_STEP_MICROS,
        ensures
            final(self).kind() == old(self).kind(),
            final(self).well_formed(),
            Self::stepped(*old(self), *final(self), *keys, delta_micros, outcome),
    {
        match self {
            Minigame::BrokenWire(g) => g.tick(keys, delta_micros),
            Minigame::CoolantValve(g) => g.tick(keys, delta_micros),
            Minigame::CleanEngine(g) => g.tick(keys, delta_micros),
            Minigame::PipeFlow(g) => g.tick(keys, delta_micros),
        }
    }
}

/// The window drops a challenge the frame it finishes, without asking it
/// for its sounds: so the frame that raises a sound never finishes the
/// challenge, and the sound is always played.
pub proof fn law_a_raised_sound_is_always_played(
    before: Minigame,
    after: Minigame,
    keys: KeyInput,
    delta_micros: u64,
    outcome: Option<MinigameOutcome>,
)
    requires
        Minigame::stepped(before, after, keys, delta_micros, outcome),
        before.raised_cue() is None,
        after.raised_cue() is Some,
    ensures
        outcome is None,
{
    match (before, after) {
        (Minigame::CoolantValve(a), Minigame::CoolantValve(b)) => {
            let step = valve_step(
                a.line_pressure(),
                a.line_rate(),
                a.valve_phase(),
                keys.held@.contains(a.feed()),
                delta_micros as int,
            );
            assert(step.3 is Some);
        },
        _ => {},
    }
}

/// Opens a challenge of kind `id`, worked with `keys`.
pub fn new_minigame(id: MinigameId, keys: MinigameKeys) -> (game: Minigame)
    ensures
        game.kind() == id,
        game.well_formed(),
        game.fresh(keys),
{
    match id {
        MinigameId::BrokenWire => Minigame::BrokenWire(BrokenWire::new()),
        MinigameId::CoolantValve => Minigame::CoolantValve(CoolantValve::new(keys)),
        MinigameId::CleanEngine => Minigame::CleanEngine(CleanEngine::new()),
        MinigameId::PipeFlow => Minigame::PipeFlow(PipeFlow::new(keys)),
    }
}

/// The challenge the window opens on: a queued one is opened fresh with its
/// room's keys and replaces whatever was open; otherwise the one already
/// open stays; with neither, there is nothing to show and play goes back to
/// running.
pub fn open_minigame(
    pending: Option<PendingMinigame>,
    active: Option<ActiveMinigame>,
    room_keys: &RoomKeys,
) -> (shown: Option<ActiveMinigame>)
    requires
        pending matches Some(p) ==> p.0.room.deck < MAX_DECK_COUNT && room_index(p.0.room)
            < room_keys.dealt()@.len(),
    ensures
        match pending {
            Some(p) => shown matches Some(a) && a.id == p.0.id && a.game.kind() == p.0.id
                && a.game.well_formed() && a.game.fresh(room_keys.dealt()@[room_index(p.0.room)]),
            None => shown == active,
        },
{
    match pending {
        Some(p) => {
            let config = p.0;
            let game = new_minigame(config.id, room_keys.of(config.room));
            Some(ActiveMinigame { id: config.id, game })
        },
        None => active,
    }
}

/// One frame of the open challenge. With none open, play goes back to
/// running. Otherwise the challenge is ticked; if it finishes, it is closed
/// and its result handed on; if not, its sounds are collected and it is drawn.
pub fn run_active_minigame(
    active: &mut Option<ActiveMinigame>,
    keys: &KeyInput,
    delta_micros: u64,
) -> (frame: MinigameFrame)
    requires
        *old(active) matches Some(a) ==> a.game.well_formed(),
        delta_micros <= MAX_STEP_MICROS,
    ensures
        *old(active) is None ==> frame is NothingOpen && *final(active) is None,
        *old(active) is Some ==> !(frame is NothingOpen),
        frame matches MinigameFrame::Finished(done) ==> {
            &&& *final(active) is None
            &&& done.id == old(active)->0.id
            &&& exists|g: Minigame|
                Minigame::stepped(old(active)->0.game, g, *keys, delta_micros, Some(done.outcome))
        },
        frame is Running ==> *final(active) is Some,
        frame is Running ==> final(active)->0.id == old(active)->0.id,
        frame is Running ==> final(active)->0.game.well_formed(),
        frame is Running ==> final(active)->0.game.drawn_as(frame->visual),
        frame is Running ==> frame->status@ == final(active)->0.game.status_text(),
        frame is Running ==> exists|g: Minigame|
            Minigame::stepped(old(active)->0.game, g, *keys, delta_micros, None)
                && #[trigger] Minigame::drained_cues(g, final(active)->0.game, frame->cues@),
{
    let current = active.take();
    match current {
        None => {
            *active = None;
            MinigameFrame::NothingOpen
        },
        Some(open) => {
            let mut game = open.game;
            let id = open.id;
            let ghost before = game;
            match game.tick(keys, delta_micros) {
                Some(outcome) => {
                    proof {
                        assert(Minigame::stepped(before, game, *keys, delta_micros, Some(outcome)));
                    }
                    *active = None;
                    MinigameFrame::Finished(CompletedMinigame { id, outcome })
                },
                None => {
                    let ghost ticked = game;
                    assert(Minigame::stepped(before, ticked, *keys, delta_micros, None));
                    let cues = game.take_audio_cues();
                    let visual = game.visual_state();
                    let status = game.status();
                    let ghost kept = game;
                    *active = Some(ActiveMinigame { id, game });
                    let frame = MinigameFrame::Running { cues, visual, status };
                    assert(Minigame::stepped(before, ticked, *keys, delta_micros, None)
                        && Minigame::drained_cues(ticked, kept, frame->cues@));
                    frame
                },
            }
        },
    }
}

} // verus!
