use skip_stone::flow::{Action, AimAction, Event, FrameInput, FrameTask, GameState, Session};

fn quiet() -> FrameInput {
    FrameInput {
        button_down: false,
        pointer_on_ball: false,
        beyond_aim_radius: false,
        below_launch_threshold: false,
        accelerator_due: false,
        result_delay_reached: false,
    }
}

fn press_on_ball() -> FrameInput {
    FrameInput { button_down: true, pointer_on_ball: true, ..quiet() }
}

fn aim(a: AimAction) -> Action {
    Action::Frame { track_camera: false, task: FrameTask::Aim(a) }
}

fn launched() -> Session {
    let mut s = Session::new();
    s.step(Event::Frame(press_on_ball()));
    s.step(Event::Frame(quiet()));
    s
}

#[test]
fn new_session_is_aiming() {
    let s = Session::new();
    assert_eq!(s.state(), GameState::Aiming);
    assert!(!s.is_dragging());
}

#[test]
fn idle_frame_while_aiming_does_nothing() {
    let mut s = Session::new();
    assert_eq!(s.step(Event::Frame(quiet())), aim(AimAction::Idle));
    assert_eq!(s.state(), GameState::Aiming);
    assert!(!s.is_dragging());
}

#[test]
fn press_away_from_ball_does_not_grab() {
    let mut s = Session::new();
    let i = FrameInput { button_down: true, ..quiet() };
    assert_eq!(s.step(Event::Frame(i)), aim(AimAction::Idle));
    assert!(!s.is_dragging());
}

#[test]
fn press_on_ball_starts_drag() {
    let mut s = Session::new();
    assert_eq!(s.step(Event::Frame(press_on_ball())), aim(AimAction::Drag { clamp: false }));
    assert!(s.is_dragging());
    assert_eq!(s.state(), GameState::Aiming);
}

#[test]
fn drag_beyond_radius_is_clamped_even_off_ball() {
    let mut s = Session::new();
    s.step(Event::Frame(press_on_ball()));
    let i = FrameInput { button_down: true, beyond_aim_radius: true, ..quiet() };
    assert_eq!(s.step(Event::Frame(i)), aim(AimAction::Drag { clamp: true }));
    assert!(s.is_dragging());
}

#[test]
fn short_release_puts_stone_back() {
    let mut s = Session::new();
    s.step(Event::Frame(press_on_ball()));
    let i = FrameInput { below_launch_threshold: true, ..quiet() };
    assert_eq!(s.step(Event::Frame(i)), aim(AimAction::Release { launch: false }));
    assert_eq!(s.state(), GameState::Aiming);
    assert!(!s.is_dragging());
}

#[test]
fn long_release_launches() {
    let mut s = Session::new();
    s.step(Event::Frame(press_on_ball()));
    assert_eq!(s.step(Event::Frame(quiet())), aim(AimAction::Release { launch: true }));
    assert_eq!(s.state(), GameState::Flying);
    assert!(!s.is_dragging());
}

#[test]
fn flying_tracks_camera_and_spawns_when_due() {
    let mut s = launched();
    assert_eq!(
        s.step(Event::Frame(quiet())),
        Action::Frame { track_camera: true, task: FrameTask::Fly { spawn_accelerator: false } }
    );
    let i = FrameInput { accelerator_due: true, ..quiet() };
    assert_eq!(
        s.step(Event::Frame(i)),
        Action::Frame { track_camera: true, task: FrameTask::Fly { spawn_accelerator: true } }
    );
    assert_eq!(s.state(), GameState::Flying);
}

#[test]
fn pointer_is_ignored_in_flight() {
    let mut s = launched();
    let a = s.step(Event::Frame(press_on_ball()));
    assert_eq!(a, Action::Frame { track_camera: true, task: FrameTask::Fly { spawn_accelerator: false } });
    assert!(!s.is_dragging());
}

#[test]
fn ground_hit_starts_timer() {
    let mut s = launched();
    assert_eq!(s.step(Event::BallHitGround), Action::StartGroundTimer);
    assert_eq!(s.state(), GameState::Grounded);
}

#[test]
fn result_after_delay_then_waits() {
    let mut s = launched();
    s.step(Event::BallHitGround);
    assert_eq!(
        s.step(Event::Frame(quiet())),
        Action::Frame { track_camera: true, task: FrameTask::Settle { show_result: false } }
    );
    assert_eq!(s.state(), GameState::Grounded);
    let due = FrameInput { result_delay_reached: true, ..quiet() };
    assert_eq!(
        s.step(Event::Frame(due)),
        Action::Frame { track_camera: true, task: FrameTask::Settle { show_result: true } }
    );
    assert_eq!(s.state(), GameState::GameOver);
    for _ in 0..3 {
        assert_eq!(
            s.step(Event::Frame(due)),
            Action::Frame { track_camera: true, task: FrameTask::Wait }
        );
        assert_eq!(s.state(), GameState::GameOver);
    }
}

#[test]
fn restart_from_game_over_begins_new_round() {
    let mut s = launched();
    s.step(Event::BallHitGround);
    s.step(Event::Frame(FrameInput { result_delay_reached: true, ..quiet() }));
    assert_eq!(s.step(Event::RestartPressed), Action::Restart);
    assert_eq!(s.state(), GameState::Aiming);
    assert!(!s.is_dragging());
}

#[test]
fn restart_while_dragging_drops_the_stone() {
    let mut s = Session::new();
    s.step(Event::Frame(press_on_ball()));
    assert!(s.is_dragging());
    assert_eq!(s.step(Event::RestartPressed), Action::Restart);
    assert!(!s.is_dragging());
    assert_eq!(s.state(), GameState::Aiming);
}

#[test]
fn ground_hit_keeps_drag_flag() {
    let mut s = Session::new();
    s.step(Event::Frame(press_on_ball()));
    assert_eq!(s.step(Event::BallHitGround), Action::StartGroundTimer);
    assert_eq!(s.state(), GameState::Grounded);
    assert!(s.is_dragging());
}
