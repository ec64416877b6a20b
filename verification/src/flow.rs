//! The flow of a round: aiming by dragging the stone, flight, resting on the
//! ground, and the result screen that waits for a restart.
//!
//! The engine around the game measures what it sees each frame (whether the
//! pointer is held, how far it was dragged, whether a timer ran out) and hands
//! it over as a [`FrameInput`]. [`Session::step`] decides the next state and
//! tells the engine what to do; the engine performs it.

use vstd::prelude::*;

verus! {

/// The phase a round is in.
#[derive(Clone, Copy, Debug, PartialEq, Eq, Structural)]
pub enum GameState {
    /// The stone rests at the spawn point and can be dragged back.
    Aiming,
    /// The stone has been launched and is in the air or on the water.
    Flying,
    /// The stone has hit the ground; the result comes after a delay.
    Grounded,
    /// The result is shown; only a restart starts a new round.
    GameOver,
}

/// What the engine measured during one frame.
#[derive(Clone, Copy, Debug, PartialEq, Eq, Structural)]
pub struct FrameInput {
    /// The primary pointer button is held down.
    pub button_down: bool,
    /// The pointer is within grabbing distance of the stone.
    pub pointer_on_ball: bool,
    /// The pointer is farther from the aim centre than the aim radius.
    pub beyond_aim_radius: bool,
    /// The pointer is closer to the aim centre than the launch threshold.
    pub below_launch_threshold: bool,
    /// The stone has travelled far enough since the last accelerator.
    pub accelerator_due: bool,
    /// The time on the ground, counting this frame, has reached the delay
    /// after which the result is shown.
    pub result_delay_reached: bool,
}

/// Something that happened to the game.
#[derive(Clone, Copy, Debug, PartialEq, Eq, Structural)]
pub enum Event {
    /// A frame passed, with what the engine measured in it.
    Frame(FrameInput),
    /// The stone touched the ground.
    BallHitGround,
    /// The player pressed the restart button.
    RestartPressed,
}

/// What aiming does with the stone in a frame.
#[derive(Clone, Copy, Debug, PartialEq, Eq, Structural)]
pub enum AimAction {
    /// Nothing is being dragged.
    Idle,
    /// The stone follows the pointer and the aim line is shown; with `clamp`
    /// the stone is held on the aim circle in the pointer's direction.
    Drag { clamp: bool },
    /// The pointer was released: the aim line is hidden and the stone is
    /// launched (with `launch`) or put back at the spawn point.
    Release { launch: bool },
}

/// The state-specific work of a frame.
#[derive(Clone, Copy, Debug, PartialEq, Eq, Structural)]
pub enum FrameTask {
    /// Aiming: handle the pointer.
    Aim(AimAction),
    /// Flying: with `spawn_accelerator`, restart the stone's accelerator
    /// counter and place a new accelerator ahead of it.
    Fly { spawn_accelerator: bool },
    /// On the ground: add the frame's time to the ground timer; with
    /// `show_result`, record the best distance and show the result panel.
    Settle { show_result: bool },
    /// The result is shown: nothing to do.
    Wait,
}

/// What the engine must do after an event.
#[derive(Clone, Copy, Debug, PartialEq, Eq, Structural)]
pub enum Action {
    /// Work of a frame: first, with `track_camera`, move the camera so the
    /// stone stays inside the tracking box; then the task.
    Frame { track_camera: bool, task: FrameTask },
    /// Start the ground timer from zero.
    StartGroundTimer,
    /// Start a new round: remove accelerators, put the stone back, hide the
    /// aim line and the result panel, re-centre the camera, clear the ground
    /// timer and refresh the distance display.
    Restart,
}

/// The abstract state of a session.
#[derive(Clone, Copy, Debug, PartialEq, Eq, Structural)]
pub struct SessionView {
    pub state: GameState,
    pub dragging: bool,
}

/// The decision state of a game: its phase and whether the stone is being
/// dragged.
pub struct Session {
    state: GameState,
    dragging: bool,
}

impl View for Session {
    type V = SessionView;

    closed spec fn view(&self) -> SessionView {
        SessionView { state: self.state, dragging: self.dragging }
    }
}

/// The state in which every round begins.
pub open spec fn start_view() -> SessionView {
    SessionView { state: GameState::Aiming, dragging: false }
}

/// Whether the stone is held this frame: it was already being dragged, or the
/// button went down on it.
pub open spec fn grabbing(dragging: bool, i: FrameInput) -> bool {
    dragging || (i.button_down && i.pointer_on_ball)
}

/// Aiming in a frame: the action taken and whether the stone is still being
/// dragged afterwards.
pub open spec fn aim_transition(dragging: bool, i: FrameInput) -> (AimAction, bool) {
    if !grabbing(dragging, i) {
        (AimAction::Idle, false)
    } else if i.button_down {
        (AimAction::Drag { clamp: i.beyond_aim_radius }, true)
    } else {
        (AimAction::Release { launch: !i.below_launch_threshold }, false)
    }
}

/// One frame of the round.
pub open spec fn frame_transition(s: SessionView, i: FrameInput) -> (SessionView, Action) {
    let track = s.state != GameState::Aiming;
    match s.state {
        GameState::Aiming => {
            let (a, d) = aim_transition(s.dragging, i);
            let next = if a == (AimAction::Release { launch: true }) {
                GameState::Flying
            } else {
                GameState::Aiming
            };
            (
                SessionView { state: next, dragging: d },
                Action::Frame { track_camera: track, task: FrameTask::Aim(a) },
            )
        },
        GameState::Flying => (
            s,
            Action::Frame {
                track_camera: track,
                task: FrameTask::Fly { spawn_accelerator: i.accelerator_due },
            },
        ),
        GameState::Grounded => (
            SessionView {
                state: if i.result_delay_reached {
                    GameState::GameOver
                } else {
                    GameState::Grounded
                },
                dragging: s.dragging,
            },
            Action::Frame {
                track_camera: track,
                task: FrameTask::Settle { show_result: i.result_delay_reached },
            },
        ),
        GameState::GameOver => (s, Action::Frame { track_camera: track, task: FrameTask::Wait }),
    }
}

/// The transition taken on any event.
pub open spec fn transition(s: SessionView, e: Event) -> (SessionView, Action) {
    match e {
        Event::Frame(i) => frame_transition(s, i),
        Event::BallHitGround => (
            SessionView { state: GameState::Grounded, dragging: s.dragging },
            Action::StartGroundTimer,
        ),
        Event::RestartPressed => (start_view(), Action::Restart),
    }
}

/// The order of the phases within a round.
pub open spec fn stage(st: GameState) -> nat {
    match st {
        GameState::Aiming => 0,
        GameState::Flying => 1,
        GameState::Grounded => 2,
        GameState::GameOver => 3,
    }
}

/// The state after a sequence of frames.
pub open spec fn run_frames(s: SessionView, inputs: Seq<FrameInput>) -> SessionView
    decreases inputs.len(),
{
    if inputs.len() == 0 {
        s
    } else {
        run_frames(frame_transition(s, inputs[0]).0, inputs.drop_first())
    }
}

/// A frame never takes a round back: it keeps the phase or moves it on by
/// exactly one.
pub proof fn lemma_frame_moves_forward(s: SessionView, i: FrameInput)
    ensures
        stage(frame_transition(s, i).0.state) == stage(s.state) || stage(
            frame_transition(s, i).0.state,
        ) == stage(s.state) + 1,
{
}

/// Over any number of frames the phase never goes back, and it moves on by
/// at most one phase per frame.
pub proof fn lemma_frames_move_forward(s: SessionView, inputs: Seq<FrameInput>)
    ensures
        stage(s.state) <= stage(run_frames(s, inputs).state) <= stage(s.state) + inputs.len(),
    decreases inputs.len(),
{
    if inputs.len() > 0 {
        lemma_frame_moves_forward(s, inputs[0]);
        lemma_frames_move_forward(frame_transition(s, inputs[0]).0, inputs.drop_first());
    }
}

/// Once launched, the stone stays in flight through any number of frames:
/// only touching the ground (or a restart) ends the flight.
pub proof fn lemma_flight_lasts_until_ground(s: SessionView, inputs: Seq<FrameInput>)
    requires
        s.state == GameState::Flying,
    ensures
        run_frames(s, inputs) == s,
    decreases inputs.len(),
{
    if inputs.len() > 0 {
        lemma_flight_lasts_until_ground(frame_transition(s, inputs[0]).0, inputs.drop_first());
    }
}

/// The result is shown once per round: after the frame that shows it, every
/// later frame waits on the result screen until a restart.
pub proof fn lemma_result_shown_once(s: SessionView, i: FrameInput, later: Seq<FrameInput>)
    requires
        frame_transition(s, i).1 == (Action::Frame {
            track_camera: true,
            task: FrameTask::Settle { show_result: true },
        }),
    ensures
        run_frames(frame_transition(s, i).0, later) == frame_transition(s, i).0,
        frame_transition(s, i).0.state == GameState::GameOver,
        forall|k: int|
            0 <= k < later.len() ==> #[trigger] frame_transition(
                run_frames(frame_transition(s, i).0, later.take(k)),
                later[k],
            ).1 == (Action::Frame { track_camera: true, task: FrameTask::Wait }),
{
    let over = frame_transition(s, i).0;
    lemma_game_over_waits(over, later);
    assert forall|k: int| 0 <= k < later.len() implies #[trigger] frame_transition(
        run_frames(over, later.take(k)),
        later[k],
    ).1 == (Action::Frame { track_camera: true, task: FrameTask::Wait }) by {
        lemma_game_over_waits(over, later.take(k));
    }
}

/// Frames leave a finished round exactly as it is.
pub proof fn lemma_game_over_waits(s: SessionView, inputs: Seq<FrameInput>)
    requires
        s.state == GameState::GameOver,
    ensures
        run_frames(s, inputs) == s,
    decreases inputs.len(),
{
    if inputs.len() > 0 {
        lemma_game_over_waits(frame_transition(s, inputs[0]).0, inputs.drop_first());
    }
}

/// Aiming, stone held with the button down (a drag in progress, or the button
/// pressed on the stone): the stone is dragged, held on the aim circle exactly
/// when the pointer is beyond the aim radius, and the round stays in aiming.
pub proof fn lemma_held_stone_is_dragged(s: SessionView, i: FrameInput)
    requires
        s.state == GameState::Aiming,
        s.dragging || i.pointer_on_ball,
        i.button_down,
    ensures
        transition(s, Event::Frame(i)) == (
            SessionView { state: GameState::Aiming, dragging: true },
            Action::Frame {
                track_camera: false,
                task: FrameTask::Aim(AimAction::Drag { clamp: i.beyond_aim_radius }),
            },
        ),
{
}

/// Aiming, drag released: the stone is launched into flight exactly when the
/// pointer is not below the launch threshold, and put back otherwise; the
/// drag ends either way.
pub proof fn lemma_release_launches_past_threshold(s: SessionView, i: FrameInput)
    requires
        s.state == GameState::Aiming,
        s.dragging,
        !i.button_down,
    ensures
        transition(s, Event::Frame(i)) == (
            SessionView {
                state: if i.below_launch_threshold {
                    GameState::Aiming
                } else {
                    GameState::Flying
                },
                dragging: false,
            },
            Action::Frame {
                track_camera: false,
                task: FrameTask::Aim(AimAction::Release { launch: !i.below_launch_threshold }),
            },
        ),
{
}

/// Aiming with nothing held and no press on the stone: nothing happens.
pub proof fn lemma_no_grab_no_change(s: SessionView, i: FrameInput)
    requires
        s.state == GameState::Aiming,
        !s.dragging,
        !(i.button_down && i.pointer_on_ball),
    ensures
        transition(s, Event::Frame(i)) == (
            s,
            Action::Frame { track_camera: false, task: FrameTask::Aim(AimAction::Idle) },
        ),
{
}

/// Flying: the round stays in flight and an accelerator is spawned exactly
/// when one is due, whatever the pointer does.
pub proof fn lemma_flight_spawns_when_due(s: SessionView, i: FrameInput)
    requires
        s.state == GameState::Flying,
    ensures
        transition(s, Event::Frame(i)) == (
            s,
            Action::Frame {
                track_camera: true,
                task: FrameTask::Fly { spawn_accelerator: i.accelerator_due },
            },
        ),
{
}

/// On the ground: the result is shown, and the round ends, exactly when the
/// result delay has been reached, whatever the pointer does.
pub proof fn lemma_result_after_delay(s: SessionView, i: FrameInput)
    requires
        s.state == GameState::Grounded,
    ensures
        transition(s, Event::Frame(i)) == (
            SessionView {
                state: if i.result_delay_reached {
                    GameState::GameOver
                } else {
                    GameState::Grounded
                },
                dragging: s.dragging,
            },
            Action::Frame {
                track_camera: true,
                task: FrameTask::Settle { show_result: i.result_delay_reached },
            },
        ),
{
}

impl Session {
    /// A session at the start of its first round.
    pub fn new() -> (s: Session)
        ensures
            s@ == start_view(),
    {
        Session { state: GameState::Aiming, dragging: false }
    }

    /// The phase of the round.
    pub fn state(&self) -> (st: GameState)
        ensures
            st == self@.state,
    {
        self.state
    }

    /// Whether the stone is being dragged.
    pub fn is_dragging(&self) -> (d: bool)
        ensures
            d == self@.dragging,
    {
        self.dragging
    }

    fn aim(&mut self, i: FrameInput) -> (a: AimAction)
        requires
            old(self).state == GameState::Aiming,
        ensures
            (a, final(self).dragging) == aim_transition(old(self).dragging, i),
            final(self).state == if a == (AimAction::Release { launch: true }) {
                GameState::Flying
            } else {
                GameState::Aiming
            },
    {
        if i.button_down && !self.dragging && i.pointer_on_ball {
            self.dragging = true;
        }
        if !self.dragging {
            return AimAction::Idle;
        }
        if i.button_down {
            AimAction::Drag { clamp: i.beyond_aim_radius }
        } else {
            self.dragging = false;
            if i.below_launch_threshold {
                AimAction::Release { launch: false }
            } else {
                self.state = GameState::Flying;
                AimAction::Release { launch: true }
            }
        }
    }

    fn frame(&mut self, i: FrameInput) -> (a: Action)
        ensures
            (final(self)@, a) == frame_transition(old(self)@, i),
    {
        let track_camera = self.state != GameState::Aiming;
        let task = match self.state {
            GameState::Aiming => FrameTask::Aim(self.aim(i)),
            GameState::Flying => FrameTask::Fly { spawn_accelerator: i.accelerator_due },
            GameState::Grounded => {
                if i.result_delay_reached {
                    self.state = GameState::GameOver;
                }
                FrameTask::Settle { show_result: i.result_delay_reached }
            },
            GameState::GameOver => FrameTask::Wait,
        };
        Action::Frame { track_camera, task }
    }

    /// Takes an event, moves to the next state and says what the engine must
    /// do.
    pub fn step(&mut self, e: Event) -> (a: Action)
        ensures
            (final(self)@, a) == transition(old(self)@, e),
            // A restart always begins a fresh round.
            e == Event::RestartPressed ==> final(self)@ == start_view() && a == Action::Restart,
            // Touching the ground always grounds the round.
            e == Event::BallHitGround ==> final(self)@.state == GameState::Grounded,
            // The camera follows the stone in every phase but aiming.
            e is Frame ==> (a matches Action::Frame { track_camera, .. } && track_camera == (
            old(self)@.state != GameState::Aiming)),
            // Frames leave the result screen alone: only a restart (or the
            // stone touching the ground) ends it.
            e is Frame && old(self)@.state == GameState::GameOver ==> final(self)@ == old(self)@
                && a == (Action::Frame { track_camera: true, task: FrameTask::Wait }),
            // A release happens only to a stone that was being dragged.
            a matches Action::Frame { task: FrameTask::Aim(AimAction::Release { .. }), .. }
                ==> old(self)@.dragging && !final(self)@.dragging,
            // A drag starts only with the button going down on the stone.
            e matches Event::Frame(i) ==> (!old(self)@.dragging && final(self)@.dragging
                ==> i.button_down && i.pointer_on_ball),
            // Aiming with the stone held and the button down: a drag, clamped
            // exactly when the pointer is beyond the aim radius.
            e matches Event::Frame(i) ==> (old(self)@.state == GameState::Aiming && (old(
            self)@.dragging || i.pointer_on_ball) && i.button_down ==> final(self)@
                == (SessionView { state: GameState::Aiming, dragging: true }) && a == (
            Action::Frame {
                track_camera: false,
                task: FrameTask::Aim(AimAction::Drag { clamp: i.beyond_aim_radius }),
            })),
            // Aiming, drag released: launch exactly when not below the threshold.
            e matches Event::Frame(i) ==> (old(self)@.state == GameState::Aiming && old(
            self)@.dragging && !i.button_down ==> !final(self)@.dragging && (final(
            self)@.state == GameState::Flying <==> !i.below_launch_threshold) && a == (
            Action::Frame {
                track_camera: false,
                task: FrameTask::Aim(AimAction::Release { launch: !i.below_launch_threshold }),
            })),
            // Flying: spawn exactly when an accelerator is due.
            e matches Event::Frame(i) ==> (old(self)@.state == GameState::Flying ==> final(
            self)@ == old(self)@ && a == (Action::Frame {
                track_camera: true,
                task: FrameTask::Fly { spawn_accelerator: i.accelerator_due },
            })),
            // On the ground: show the result exactly when the delay is reached.
            e matches Event::Frame(i) ==> (old(self)@.state == GameState::Grounded ==> final(
            self)@.dragging == old(self)@.dragging && (final(self)@.state
                == GameState::GameOver <==> i.result_delay_reached) && (final(self)@.state
                == GameState::Grounded <==> !i.result_delay_reached) && a == (Action::Frame {
                track_camera: true,
                task: FrameTask::Settle { show_result: i.result_delay_reached },
            })),
            // A launch puts the round in flight.
            a == (Action::Frame {
                track_camera: false,
                task: FrameTask::Aim(AimAction::Release { launch: true }),
            }) ==> final(self)@.state == GameState::Flying,
    {
        match e {
            Event::Frame(i) => self.frame(i),
            Event::BallHitGround => {
                self.state = GameState::Grounded;
                Action::StartGroundTimer
            },
            Event::RestartPressed => {
                self.state = GameState::Aiming;
                self.dragging = false;
                Action::Restart
            },
        }
    }
}

} // verus!
