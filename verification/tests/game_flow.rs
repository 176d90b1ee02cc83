use slingshot::constants::{BUTTON_1, BUTTON_2, MOUSE_LEFT};
use slingshot::projectile_status::{ProjectileStatus, ProjectileTransition};
use slingshot::frame::Frame;
use slingshot::game::{GameMode, GameState, LevelStatus, PlayingData};
use slingshot::game_pad_tracker::GamePadTracker;
use slingshot::level_object::{
    Avatar, LevelData, LevelObject, LevelObjectKind, Physics, PlayerStatus, PlayerTransition,
};
use slingshot::position::Position;
use slingshot::rational::Q;
use slingshot::vector::Vector;

fn q(num: i64, den: i64) -> Q {
    Q::new(num, den).unwrap()
}

fn v(x: i64, y: i64) -> Vector {
    Vector::new(Q::from_int(x), Q::from_int(y))
}

fn p(x: i64, y: i64) -> Position {
    Position::new(Q::from_int(x), Q::from_int(y))
}

fn still_physics() -> Physics {
    Physics {
        gravity: v(0, 0),
        bounce_damping_factor: q(7, 20),
        friction_damping_factor: q(1, 20),
        collision_damping_factor: q(1, 20),
    }
}

#[test]
fn player_transition_round_trip() {
    let pristine = p(1, 1);
    let mut status = PlayerStatus::Held(p(5, 5));
    status.apply_transition(PlayerTransition::Released(p(2, 4)), pristine);
    // release velocity points from the release point back to the hold
    assert_eq!(status, PlayerStatus::Ballistic(v(3, 1)));
    status.apply_transition(PlayerTransition::Reset, pristine);
    assert_eq!(status, PlayerStatus::Reset(pristine));
}

#[test]
fn mismatched_transitions_are_ignored() {
    let pristine = p(0, 0);
    let mut status = PlayerStatus::Reset(pristine);
    status.apply_transition(PlayerTransition::Released(p(2, 4)), pristine);
    assert_eq!(status, PlayerStatus::Reset(pristine));
    status.apply_transition(PlayerTransition::Reset, pristine);
    assert_eq!(status, PlayerStatus::Reset(pristine));
    let mut held = PlayerStatus::Held(p(5, 5));
    held.apply_transition(PlayerTransition::Grabbed(p(2, 4)), pristine);
    assert_eq!(held, PlayerStatus::Held(p(5, 5)));
}

#[test]
fn projectile_status_round_trip() {
    let mut status = ProjectileStatus::Reset;
    status.apply_transition(ProjectileTransition::Grabbed(p(5, 5)));
    assert_eq!(status, ProjectileStatus::Held(p(5, 5)));
    status.apply_transition(ProjectileTransition::Released(p(2, 4)));
    assert_eq!(status, ProjectileStatus::Ballistic(v(3, 1)));
    status.apply_transition(ProjectileTransition::Reset);
    assert_eq!(status, ProjectileStatus::Reset);
}

#[test]
fn collision_pass_runs_in_index_order() {
    // three boxes in a row; momentum flows through the middle one within a
    // single pass because later pairs see earlier writes
    let objects = vec![
        LevelObject::new(LevelObjectKind::Box, p(0, 20), v(3, 0)),
        LevelObject::new(LevelObjectKind::Box, p(7, 20), v(0, 0)),
        LevelObject::new(LevelObjectKind::Box, p(14, 20), v(0, 0)),
    ];
    let mut pd = PlayingData {
        levels: vec![],
        current_level: 0,
        active_data: LevelData::new(0, objects, still_physics()),
        player_status: PlayerStatus::Reset(p(0, 0)),
    };
    let status = pd.update_collisions();
    assert_eq!(status, LevelStatus::InProgress);
    let objs = &pd.active_data.objects;
    assert_eq!(objs[0].velocity, v(0, 0));
    assert_eq!(objs[1].velocity, v(0, 0));
    // 3 * (13/20) from the first pair, then * (13/20) again into the third
    assert_eq!(objs[2].velocity.x, q(507, 400));
}

#[test]
fn ballistic_status_writes_player_velocity() {
    let objects = vec![
        LevelObject::new(LevelObjectKind::Box, p(40, 20), v(0, 0)),
        LevelObject::new(LevelObjectKind::Player(Avatar::Normal), p(10, 30), v(0, 0)),
    ];
    let pristine = LevelData::new(0, objects.clone(), still_physics());
    let mut pd = PlayingData {
        levels: vec![pristine],
        current_level: 0,
        active_data: LevelData::new(0, objects, still_physics()),
        player_status: PlayerStatus::Ballistic(v(5, 9)),
    };
    pd.update_after_transition();
    assert_eq!(pd.active_data.objects[1].velocity, v(5, 9));
    assert_eq!(pd.active_data.objects[0].velocity, v(0, 0));

    // a reset restores the pristine player object
    pd.active_data.objects[1] = LevelObject::new(
        LevelObjectKind::Player(Avatar::Normal),
        p(99, 99),
        v(5, 9),
    );
    pd.player_status = PlayerStatus::Reset(p(10, 30));
    pd.update_after_transition();
    assert_eq!(pd.active_data.objects[1].position, p(10, 30));
    assert_eq!(pd.active_data.objects[1].velocity, v(0, 0));
}

#[test]
fn title_screen_starts_the_game_on_the_primary_button() {
    let roster = vec![vec![
        LevelObject::new(LevelObjectKind::Player(Avatar::Normal), p(10, 30), v(0, 0)),
        LevelObject::new(LevelObjectKind::Box, p(40, 20), v(0, 0)),
    ]];
    let mut state = GameState {
        gpt: GamePadTracker::new(),
        frame: Frame::new(p(-80, -80)),
        mode: GameMode::TitleScreen,
    };
    // no press: still on the title screen
    state.update(0, 0, 0, 0, &roster);
    assert!(matches!(state.mode, GameMode::TitleScreen));
    // a fresh primary press enters play at level 0 with the player at rest
    state.update(BUTTON_1, 0, 0, 0, &roster);
    match &state.mode {
        GameMode::Playing(pd) => {
            assert_eq!(pd.current_level, 0);
            assert_eq!(pd.levels.len(), 1);
            assert_eq!(pd.player_status, PlayerStatus::Reset(p(10, 30)));
            assert_eq!(pd.active_data.objects.len(), 2);
        },
        _ => panic!("expected play to begin"),
    }
}

#[test]
fn end_game_returns_to_the_title_screen() {
    let roster = vec![vec![LevelObject::new(
        LevelObjectKind::Player(Avatar::Normal),
        p(10, 30),
        v(0, 0),
    )]];
    let mut state = GameState {
        gpt: GamePadTracker::new(),
        frame: Frame::new(p(0, 0)),
        mode: GameMode::EndGame,
    };
    state.update(0, 0, 0, 0, &roster);
    assert!(matches!(state.mode, GameMode::EndGame));
    state.update(BUTTON_1, 0, 0, 0, &roster);
    assert!(matches!(state.mode, GameMode::TitleScreen));
}

#[test]
fn playing_tick_applies_gravity_to_every_body() {
    let roster = vec![vec![
        LevelObject::new(LevelObjectKind::Player(Avatar::Normal), p(10, 30), v(0, 0)),
        LevelObject::new(LevelObjectKind::Box, p(40, 20), v(0, 0)),
    ]];
    let mut state = GameState {
        gpt: GamePadTracker::new(),
        frame: Frame::new(p(-80, -80)),
        mode: GameMode::TitleScreen,
    };
    state.update(BUTTON_1, 0, 0, 0, &roster);
    // one quiet tick: stock gravity pulls every body down by 50/60
    state.update(0, 0, 0, 0, &roster);
    match &state.mode {
        GameMode::Playing(pd) => {
            let vy = pd.active_data.objects[0].velocity.y;
            assert_eq!(vy, q(-5, 6));
            assert_eq!(pd.active_data.objects[1].velocity.y, q(-5, 6));
        },
        _ => panic!("expected play to continue"),
    }
}

#[test]
fn grab_and_release_imparts_the_pullback_velocity() {
    let roster = vec![vec![LevelObject::new(
        LevelObjectKind::Player(Avatar::Normal),
        p(100, 100),
        v(0, 0),
    )]];
    let mut state = GameState {
        gpt: GamePadTracker::new(),
        frame: Frame::new(p(0, 0)),
        mode: GameMode::TitleScreen,
    };
    let physics_off = still_physics();
    state.update(BUTTON_1, 0, 0, 0, &roster);
    // switch gravity off so only the slingshot velocity shows up
    if let GameMode::Playing(pd) = &mut state.mode {
        pd.active_data.physics = physics_off;
        pd.levels[0].physics = physics_off;
    }
    // grab at pixel (40, 100) -> world (40, 60)
    state.update(0, MOUSE_LEFT, 40, 100, &roster);
    match &state.mode {
        GameMode::Playing(pd) => assert_eq!(pd.player_status, PlayerStatus::Held(p(40, 60))),
        _ => panic!("expected a hold"),
    }
    // release at pixel (50, 120) -> world (50, 40): velocity is the pull
    // back from the release point to the hold, (-10, 20)
    state.update(0, 0, 50, 120, &roster);
    match &state.mode {
        GameMode::Playing(pd) => {
            assert_eq!(pd.player_status, PlayerStatus::Ballistic(v(-10, 20)));
            assert_eq!(pd.active_data.objects[0].velocity, v(-10, 20));
        },
        _ => panic!("expected ballistic flight"),
    }
    // the secondary button resets the player onto its pristine spot
    state.update(BUTTON_2, 0, 0, 0, &roster);
    match &state.mode {
        GameMode::Playing(pd) => {
            assert_eq!(pd.player_status, PlayerStatus::Reset(p(100, 100)));
            assert_eq!(pd.active_data.objects[0].position, p(100, 100));
            assert_eq!(pd.active_data.objects[0].velocity, v(0, 0));
        },
        _ => panic!("expected a reset"),
    }
}

#[test]
fn restart_level_recopies_the_pristine_level() {
    let objects = vec![LevelObject::new(
        LevelObjectKind::Player(Avatar::Normal),
        p(10, 30),
        v(0, 0),
    )];
    let pristine = LevelData::new(3, objects.clone(), still_physics());
    let mut pd = PlayingData {
        levels: vec![pristine],
        current_level: 0,
        active_data: LevelData::new(3, objects, still_physics()),
        player_status: PlayerStatus::Reset(p(10, 30)),
    };
    pd.active_data.objects[0] = LevelObject::new(
        LevelObjectKind::Player(Avatar::Normal),
        p(50, 1),
        v(2, 2),
    );
    pd.restart_level();
    assert_eq!(pd.active_data.objects[0].position, p(10, 30));
    assert_eq!(pd.active_data.objects[0].velocity, v(0, 0));
    assert_eq!(pd.active_data.number, 3);
}
