//! The level and game-mode controller: the play session's state, the
//! per-tick pipeline (transition, collision pass, physics step), and the
//! outer title/playing/end state machine.

use vstd::prelude::*;

use crate::collision::{simulate_q, Collision, CollisionKind};
use crate::constants::{origin_q, BUTTON_1, BUTTON_2, MOUSE_LEFT, SCREEN_SIZE};
use crate::frame::{px_to_units_spec, Frame};
use crate::game_pad_tracker::GamePadTracker;
use crate::level_object::{
    apply_transition_spec, kind_hitbox, kind_mass, lemma_player_index_props, player_index_spec,
    stepped_object, transition_wf, try_intersects, LevelData, LevelObject, PlayerStatus,
    PlayerTransition,
};
use crate::position::Position;
use crate::rational::Q;

verus! {

/// Result of one collision/condition pass over the live level.
#[derive(Clone, Copy, Debug, PartialEq, Eq, Structural)]
pub enum LevelStatus {
    InProgress,
    Complete,
    Lost,
}

/// An in-progress play session: the pristine level roster, the index of the
/// level in play, the live mutable copy, and the player's interaction state.
#[derive(Clone, Debug)]
pub struct PlayingData {
    pub levels: Vec<LevelData>,
    pub current_level: usize,
    pub active_data: LevelData,
    pub player_status: PlayerStatus,
}

/// Position the player object returns to on a reset: the pristine player
/// position of the level in play, or the origin where none exists.
pub open spec fn pristine_position(levels: Seq<LevelData>, cl: int) -> Position {
    if 0 <= cl < levels.len() {
        match player_index_spec(levels[cl].objects@) {
            Some(j) => levels[cl].objects@[j].position,
            None => origin_q(),
        }
    } else {
        origin_q()
    }
}

/// The pointer position in world units, when the pointer is on the screen
/// and the coordinates can be stored.
pub open spec fn mouse_world(gpt: GamePadTracker, frame: Frame) -> Option<Position> {
    if 0 <= gpt.mouse_x && 0 <= gpt.mouse_y && gpt.mouse_y <= SCREEN_SIZE as i16 {
        px_to_units_spec(frame.anchor_point, gpt.mouse_x as u32, gpt.mouse_y as u32)
    } else {
        None
    }
}

/// The at-most-one transition this tick's input produces: a grab from rest
/// on a fresh left click, a release from a hold on the left button's
/// release, a reset from flight on a fresh secondary-button press.
pub open spec fn player_transition_spec(
    status: PlayerStatus,
    gpt: GamePadTracker,
    frame: Frame,
) -> Option<PlayerTransition> {
    match status {
        PlayerStatus::Reset(_) => if gpt.new_clicks & MOUSE_LEFT != 0 {
            match mouse_world(gpt, frame) {
                Some(p) => Some(PlayerTransition::Grabbed(p)),
                None => None,
            }
        } else {
            None
        },
        PlayerStatus::Held(_) => if gpt.new_releases & MOUSE_LEFT != 0 {
            match mouse_world(gpt, frame) {
                Some(p) => Some(PlayerTransition::Released(p)),
                None => None,
            }
        } else {
            None
        },
        PlayerStatus::Ballistic(_) => if gpt.new_presses & BUTTON_2 != 0 {
            Some(PlayerTransition::Reset)
        } else {
            None
        },
    }
}

/// The live bodies after the player object is overwritten with its pristine
/// copy from the roster; unchanged where either side has no player or the
/// level index is out of range.
pub open spec fn reset_player_objects(
    levels: Seq<LevelData>,
    cl: int,
    active: Seq<LevelObject>,
) -> Seq<LevelObject> {
    if 0 <= cl < levels.len() {
        match (player_index_spec(active), player_index_spec(levels[cl].objects@)) {
            (Some(i), Some(j)) => active.update(i, levels[cl].objects@[j]),
            _ => active,
        }
    } else {
        active
    }
}

/// The live bodies after the interaction state is pushed onto the player
/// object: a ballistic state writes its release velocity, a rest state
/// restores the pristine object.
pub open spec fn after_transition_objects(
    status: PlayerStatus,
    levels: Seq<LevelData>,
    cl: int,
    active: Seq<LevelObject>,
) -> Seq<LevelObject> {
    match player_index_spec(active) {
        Some(i) => match status {
            PlayerStatus::Ballistic(v) => active.update(
                i,
                LevelObject { velocity: v, ..active[i] },
            ),
            PlayerStatus::Reset(_) => reset_player_objects(levels, cl, active),
            _ => active,
        },
        None => active,
    }
}

/// One ordered pair's collision resolution: on strict overlap both
/// velocities are rewritten by a damped collision; a pair whose overlap test
/// or resolution cannot be stored is skipped.
pub open spec fn pair_step(objs: Seq<LevelObject>, i: int, j: int, bdf: Q) -> Seq<LevelObject> {
    let o1 = objs[i];
    let o2 = objs[j];
    match try_intersects(kind_hitbox(o1.kind), o1.position, kind_hitbox(o2.kind), o2.position) {
        Some(true) => match simulate_q(
            Collision {
                obj1: (kind_mass(o1.kind), o1.velocity),
                obj2: (kind_mass(o2.kind), o2.velocity),
                kind: CollisionKind::Damping(bdf),
            },
        ) {
            Some(p) => objs.update(i, LevelObject { velocity: p.0, ..o1 }).update(
                j,
                LevelObject { velocity: p.1, ..o2 },
            ),
            None => objs,
        },
        _ => objs,
    }
}

/// The inner sweep: pairs `(i, j)`, `(i, j+1)`, ... in index order, each
/// seeing the writes of the pairs before it.
pub open spec fn pass_from(objs: Seq<LevelObject>, n: int, i: int, j: int, bdf: Q) -> Seq<
    LevelObject,
>
    decreases n - j,
{
    if j < n {
        pass_from(pair_step(objs, i, j, bdf), n, i, j + 1, bdf)
    } else {
        objs
    }
}

/// The outer sweep: every unordered pair once, in index order `i < j`.
pub open spec fn pass_outer(objs: Seq<LevelObject>, n: int, i: int, bdf: Q) -> Seq<LevelObject>
    decreases n - i,
{
    if i < n {
        pass_outer(pass_from(objs, n, i, i + 1, bdf), n, i + 1, bdf)
    } else {
        objs
    }
}

/// The whole all-pairs pass, write-as-you-go in index order.
pub open spec fn collisions_pass(objs: Seq<LevelObject>, bdf: Q) -> Seq<LevelObject> {
    pass_outer(objs, objs.len() as int, 0, bdf)
}

impl PlayingData {
    pub open spec fn wf(&self) -> bool {
        &&& forall|i: int| 0 <= i < self.levels@.len() ==> (#[trigger] self.levels@[i]).wf()
        &&& self.active_data.wf()
        &&& self.player_status.wf()
        &&& self.current_level <= self.levels@.len()
    }

    /// The transition this tick's input produces, if any.
    pub fn get_player_transition(&self, gpt: GamePadTracker, frame: Frame) -> (r: Option<
        PlayerTransition,
    >)
        requires
            frame.wf(),
        ensures
            r == player_transition_spec(self.player_status, gpt, frame),
            r matches Some(t) ==> transition_wf(t),
    {
        let on_screen = 0 <= gpt.mouse_x && 0 <= gpt.mouse_y && gpt.mouse_y <= SCREEN_SIZE as i16;
        match self.player_status {
            PlayerStatus::Reset(_) => {
                if gpt.newly_clicked(MOUSE_LEFT) {
                    if on_screen {
                        match frame.from_px_to_units(gpt.mouse_x as u32, gpt.mouse_y as u32) {
                            Some(p) => Some(PlayerTransition::Grabbed(p)),
                            None => None,
                        }
                    } else {
                        None
                    }
                } else {
                    None
                }
            },
            PlayerStatus::Held(_) => {
                if gpt.newly_released(MOUSE_LEFT) {
                    if on_screen {
                        match frame.from_px_to_units(gpt.mouse_x as u32, gpt.mouse_y as u32) {
                            Some(p) => Some(PlayerTransition::Released(p)),
                            None => None,
                        }
                    } else {
                        None
                    }
                } else {
                    None
                }
            },
            PlayerStatus::Ballistic(_) => {
                if gpt.newly_pressed(BUTTON_2) {
                    Some(PlayerTransition::Reset)
                } else {
                    None
                }
            },
        }
    }

    /// Push the interaction state onto the live player object.
    pub fn update_after_transition(&mut self)
        requires
            old(self).wf(),
        ensures
            final(self).active_data.objects@ == after_transition_objects(
                old(self).player_status,
                old(self).levels@,
                old(self).current_level as int,
                old(self).active_data.objects@,
            ),
            final(self).levels == old(self).levels,
            final(self).current_level == old(self).current_level,
            final(self).player_status == old(self).player_status,
            final(self).active_data.number == old(self).active_data.number,
            final(self).active_data.physics == old(self).active_data.physics,
            final(self).wf(),
    {
        proof {
            lemma_player_index_props(self.active_data.objects@);
        }
        match self.active_data.player_index() {
            Some(i) => {
                match self.player_status {
                    PlayerStatus::Ballistic(release_velocity) => {
                        let mut obj = self.active_data.objects[i];
                        obj.velocity = release_velocity;
                        self.active_data.objects[i] = obj;
                    },
                    PlayerStatus::Reset(_) => {
                        self.reset_player();
                    },
                    _ => {},
                }
            },
            None => {},
        }
    }

    /// Overwrite the live player object with its pristine copy from the
    /// roster.
    pub fn reset_player(&mut self)
        requires
            old(self).wf(),
        ensures
            final(self).active_data.objects@ == reset_player_objects(
                old(self).levels@,
                old(self).current_level as int,
                old(self).active_data.objects@,
            ),
            final(self).levels == old(self).levels,
            final(self).current_level == old(self).current_level,
            final(self).player_status == old(self).player_status,
            final(self).active_data.number == old(self).active_data.number,
            final(self).active_data.physics == old(self).active_data.physics,
            final(self).wf(),
    {
        proof {
            lemma_player_index_props(self.active_data.objects@);
            if self.current_level < self.levels@.len() {
                lemma_player_index_props(self.levels@[self.current_level as int].objects@);
            }
        }
        if self.current_level < self.levels.len() {
            let active_idx = match self.active_data.player_index() {
                Some(i) => i,
                None => {
                    return ;
                },
            };
            let pristine_idx = match self.levels[self.current_level].player_index() {
                Some(j) => j,
                None => {
                    return ;
                },
            };
            let pristine = self.levels[self.current_level].objects[pristine_idx];
            self.active_data.objects[active_idx] = pristine;
        }
    }

    /// Re-copy the level in play from the roster into the live data.
    pub fn restart_level(&mut self)
        requires
            old(self).wf(),
        ensures
            old(self).current_level < old(self).levels@.len() ==> {
                let lvl = old(self).levels@[old(self).current_level as int];
                &&& final(self).active_data.number == lvl.number
                &&& final(self).active_data.physics == lvl.physics
                &&& final(self).active_data.objects@ == lvl.objects@
            },
            old(self).current_level >= old(self).levels@.len() ==> final(self).active_data == old(
                self,
            ).active_data,
            final(self).levels == old(self).levels,
            final(self).current_level == old(self).current_level,
            final(self).player_status == old(self).player_status,
            final(self).wf(),
    {
        if self.current_level < self.levels.len() {
            self.active_data = self.levels[self.current_level].duplicate();
        }
    }

    /// Apply one input event to the interaction state; the pristine player
    /// position of the level in play is where a reset lands.
    pub fn apply_transition(&mut self, transition: PlayerTransition)
        requires
            old(self).wf(),
            transition_wf(transition),
        ensures
            final(self).player_status == apply_transition_spec(
                old(self).player_status,
                transition,
                pristine_position(old(self).levels@, old(self).current_level as int),
            ),
            final(self).levels == old(self).levels,
            final(self).current_level == old(self).current_level,
            final(self).active_data == old(self).active_data,
            final(self).wf(),
    {
        proof {
            if self.current_level < self.levels@.len() {
                lemma_player_index_props(self.levels@[self.current_level as int].objects@);
            }
        }
        let pristine: Position = if self.current_level < self.levels.len() {
            match self.levels[self.current_level].get_player_object() {
                Some(o) => o.position,
                None => crate::constants::origin(),
            }
        } else {
            crate::constants::origin()
        };
        self.player_status.apply_transition(transition, pristine);
    }

    /// Step to the next level index and re-copy it from the roster; at the
    /// end of the roster the index is already the out-of-range signal and
    /// stays put.
    pub fn next_level(&mut self)
        requires
            old(self).wf(),
        ensures
            old(self).current_level < old(self).levels@.len() ==> final(self).current_level == old(
                self,
            ).current_level + 1,
            old(self).current_level >= old(self).levels@.len() ==> final(self).current_level == old(
                self,
            ).current_level,
            final(self).levels == old(self).levels,
            final(self).player_status == old(self).player_status,
            final(self).current_level < final(self).levels@.len() ==> {
                let lvl = final(self).levels@[final(self).current_level as int];
                &&& final(self).active_data.number == lvl.number
                &&& final(self).active_data.physics == lvl.physics
                &&& final(self).active_data.objects@ == lvl.objects@
            },
            final(self).wf(),
    {
        if self.current_level < self.levels.len() {
            self.current_level = self.current_level + 1;
        }
        self.restart_level();
    }

    /// The all-pairs collision pass over the live bodies, in index order,
    /// each pair seeing the writes of the pairs before it. Win/loss
    /// detection is a policy hook: the pass always reports `InProgress`.
    pub fn update_collisions(&mut self) -> (r: LevelStatus)
        requires
            old(self).wf(),
        ensures
            r == LevelStatus::InProgress,
            final(self).active_data.objects@ == collisions_pass(
                old(self).active_data.objects@,
                old(self).active_data.physics.bounce_damping_factor,
            ),
            final(self).levels == old(self).levels,
            final(self).current_level == old(self).current_level,
            final(self).player_status == old(self).player_status,
            final(self).active_data.number == old(self).active_data.number,
            final(self).active_data.physics == old(self).active_data.physics,
            final(self).wf(),
    {
        let bdf = self.active_data.physics.bounce_damping_factor;
        let n = self.active_data.objects.len();
        let ghost result = collisions_pass(old(self).active_data.objects@, bdf);
        let ghost n_int = n as int;
        let mut i: usize = 0;
        while i < n
            invariant
                i <= n,
                n == self.active_data.objects@.len(),
                n_int == n as int,
                bdf == old(self).active_data.physics.bounce_damping_factor,
                bdf.wf(),
                forall|k: int|
                    0 <= k < n ==> (#[trigger] self.active_data.objects@[k]).wf(),
                pass_outer(self.active_data.objects@, n_int, i as int, bdf) == result,
                self.levels == old(self).levels,
                self.current_level == old(self).current_level,
                self.player_status == old(self).player_status,
                self.active_data.number == old(self).active_data.number,
                self.active_data.physics == old(self).active_data.physics,
                old(self).wf(),
            decreases n - i,
        {
            let mut j: usize = i + 1;
            while j < n
                invariant
                    i < n,
                    i + 1 <= j <= n,
                    n == self.active_data.objects@.len(),
                    n_int == n as int,
                    bdf == old(self).active_data.physics.bounce_damping_factor,
                    bdf.wf(),
                    forall|k: int|
                        0 <= k < n ==> (#[trigger] self.active_data.objects@[k]).wf(),
                    pass_outer(
                        pass_from(self.active_data.objects@, n_int, i as int, j as int, bdf),
                        n_int,
                        i as int + 1,
                        bdf,
                    ) == result,
                    self.levels == old(self).levels,
                    self.current_level == old(self).current_level,
                    self.player_status == old(self).player_status,
                    self.active_data.number == old(self).active_data.number,
                    self.active_data.physics == old(self).active_data.physics,
                    old(self).wf(),
                decreases n - j,
            {
                let ghost before = self.active_data.objects@;
                let o1 = self.active_data.objects[i];
                let o2 = self.active_data.objects[j];
                let hit = match o1.collides_with(&o2) {
                    Some(b) => b,
                    None => false,
                };
                if hit {
                    proof {
                        lemma_kind_mass_wf(o1.kind);
                        lemma_kind_mass_wf(o2.kind);
                    }
                    let collision = Collision {
                        obj1: (o1.kind.get_mass(), o1.velocity),
                        obj2: (o2.kind.get_mass(), o2.velocity),
                        kind: CollisionKind::Damping(bdf),
                    };
                    match collision.simulate() {
                        Some((v1_f, v2_f)) => {
                            let mut t1 = o1;
                            t1.velocity = v1_f;
                            self.active_data.objects[i] = t1;
                            let mut t2 = o2;
                            t2.velocity = v2_f;
                            self.active_data.objects[j] = t2;
                            proof {
                                assert(self.active_data.objects@ =~= pair_step(
                                    before,
                                    i as int,
                                    j as int,
                                    bdf,
                                ));
                            }
                        },
                        None => {
                            proof {
                                assert(self.active_data.objects@ =~= pair_step(
                                    before,
                                    i as int,
                                    j as int,
                                    bdf,
                                ));
                            }
                        },
                    }
                } else {
                    proof {
                        assert(self.active_data.objects@ =~= pair_step(
                            before,
                            i as int,
                            j as int,
                            bdf,
                        ));
                    }
                }
                j += 1;
            }
            i += 1;
        }
        LevelStatus::InProgress
    }

    /// Advance every live body by one fixed tick.
    pub fn step_physics(&mut self)
        requires
            old(self).wf(),
        ensures
            final(self).active_data.objects@ == old(self).active_data.objects@.map_values(
                |o: LevelObject| stepped_object(o, old(self).active_data.physics),
            ),
            final(self).levels == old(self).levels,
            final(self).current_level == old(self).current_level,
            final(self).player_status == old(self).player_status,
            final(self).active_data.number == old(self).active_data.number,
            final(self).active_data.physics == old(self).active_data.physics,
            final(self).wf(),
    {
        self.active_data.step_physics();
    }
}

/// Stored masses of well-formed kinds are well-formed.
proof fn lemma_kind_mass_wf(k: crate::level_object::LevelObjectKind)
    requires
        crate::level_object::kind_wf(k),
    ensures
        kind_mass(k).wf(),
{
}

/// Top-level state: title screen, in-progress play, or the end screen.
#[derive(Clone, Debug)]
pub enum GameMode {
    TitleScreen,
    Playing(PlayingData),
    EndGame,
}

pub open spec fn mode_wf(m: GameMode) -> bool {
    match m {
        GameMode::Playing(pd) => pd.wf(),
        _ => true,
    }
}

/// Every body of every raw level list is well-formed.
pub open spec fn roster_wf(level_objects: Seq<Vec<LevelObject>>) -> bool {
    forall|i: int, j: int|
        0 <= i < level_objects.len() && 0 <= j < level_objects[i]@.len() ==> (
        #[trigger] level_objects[i]@[j]).wf()
}

/// The roster a fresh game builds from raw object lists: level `i` is
/// numbered `i` (wrapped into a byte) and carries the stock physics.
pub open spec fn built_roster(level_objects: Seq<Vec<LevelObject>>, levels: Seq<LevelData>) -> bool {
    &&& levels.len() == level_objects.len()
    &&& forall|i: int|
        0 <= i < levels.len() ==> {
            &&& (#[trigger] levels[i]).number == i as u8
            &&& levels[i].objects@ == level_objects[i]@
            &&& levels[i].physics == crate::level_object::default_physics()
        }
}

/// What entering play establishes: the roster built from the raw lists,
/// level 0 selected and copied into the live data, and the player at rest at
/// its pristine position.
pub open spec fn started_game(level_objects: Seq<Vec<LevelObject>>, m2: GameMode) -> bool {
    &&& m2 is Playing
    &&& {
        let pd = m2->Playing_0;
        &&& built_roster(level_objects, pd.levels@)
        &&& pd.current_level == 0
        &&& pd.active_data.number == 0u8
        &&& pd.active_data.objects@ == level_objects[0]@
        &&& pd.active_data.physics == crate::level_object::default_physics()
        &&& pd.player_status == PlayerStatus::Reset(pristine_position(pd.levels@, 0))
        &&& pd.wf()
    }
}

/// One tick of play: at most one input transition is computed and applied,
/// the all-pairs collision pass runs, and — the pass reporting the level in
/// progress — every body is stepped by one tick.
pub open spec fn playing_tick(
    pd: PlayingData,
    gpt: GamePadTracker,
    frame: Frame,
    pd2: PlayingData,
) -> bool {
    let tr = player_transition_spec(pd.player_status, gpt, frame);
    let status1 = match tr {
        Some(t) => apply_transition_spec(
            pd.player_status,
            t,
            pristine_position(pd.levels@, pd.current_level as int),
        ),
        None => pd.player_status,
    };
    let objs1 = match tr {
        Some(_) => after_transition_objects(
            status1,
            pd.levels@,
            pd.current_level as int,
            pd.active_data.objects@,
        ),
        None => pd.active_data.objects@,
    };
    let objs2 = collisions_pass(objs1, pd.active_data.physics.bounce_damping_factor);
    let objs3 = objs2.map_values(|o: LevelObject| stepped_object(o, pd.active_data.physics));
    &&& pd2.levels@ == pd.levels@
    &&& pd2.current_level == pd.current_level
    &&& pd2.player_status == status1
    &&& pd2.active_data.number == pd.active_data.number
    &&& pd2.active_data.physics == pd.active_data.physics
    &&& pd2.active_data.objects@ == objs3
    &&& pd2.wf()
}

/// How one tick moves the outer state machine.
pub open spec fn mode_update_rel(
    m: GameMode,
    gpt: GamePadTracker,
    frame: Frame,
    level_objects: Seq<Vec<LevelObject>>,
    m2: GameMode,
) -> bool {
    match m {
        GameMode::TitleScreen => if gpt.new_presses & BUTTON_1 != 0 {
            started_game(level_objects, m2)
        } else {
            m2 is TitleScreen
        },
        GameMode::Playing(pd) => m2 is Playing && playing_tick(pd, gpt, frame, m2->Playing_0),
        GameMode::EndGame => if gpt.new_presses & BUTTON_1 != 0 {
            m2 is TitleScreen
        } else {
            m2 is EndGame
        },
    }
}

impl GameMode {
    /// One tick: a fresh primary press leaves the title screen into play or
    /// the end screen back to the title; in play the per-tick pipeline runs.
    pub fn update(&mut self, gpt: GamePadTracker, frame: Frame, level_objects: &Vec<
        Vec<LevelObject>,
    >)
        requires
            mode_wf(*old(self)),
            frame.wf(),
            roster_wf(level_objects@),
            level_objects@.len() >= 1,
        ensures
            mode_update_rel(*old(self), gpt, frame, level_objects@, *final(self)),
            mode_wf(*final(self)),
    {
        let which: u8 = match self {
            GameMode::TitleScreen => 0,
            GameMode::Playing(_) => 1,
            GameMode::EndGame => 2,
        };
        if which == 0 {
            self.update_title(gpt, level_objects);
        } else if which == 1 {
            self.update_playing(gpt, frame);
        } else {
            self.update_end_game(gpt);
        }
    }

    fn update_title(&mut self, gpt: GamePadTracker, level_objects: &Vec<Vec<LevelObject>>)
        requires
            *old(self) is TitleScreen,
            roster_wf(level_objects@),
            level_objects@.len() >= 1,
        ensures
            gpt.new_presses & BUTTON_1 != 0 ==> started_game(level_objects@, *final(self)),
            gpt.new_presses & BUTTON_1 == 0 ==> *final(self) is TitleScreen,
            mode_wf(*final(self)),
    {
        if gpt.newly_pressed(BUTTON_1) {
            self.start_game(level_objects);
        }
    }

    fn update_end_game(&mut self, gpt: GamePadTracker)
        requires
            *old(self) is EndGame,
        ensures
            gpt.new_presses & BUTTON_1 != 0 ==> *final(self) is TitleScreen,
            gpt.new_presses & BUTTON_1 == 0 ==> *final(self) is EndGame,
            mode_wf(*final(self)),
    {
        if gpt.newly_pressed(BUTTON_1) {
            *self = Self::TitleScreen;
        }
    }

    fn update_playing(&mut self, gpt: GamePadTracker, frame: Frame)
        requires
            *old(self) is Playing,
            mode_wf(*old(self)),
            frame.wf(),
        ensures
            *final(self) is Playing,
            playing_tick((*old(self))->Playing_0, gpt, frame, (*final(self))->Playing_0),
            mode_wf(*final(self)),
    {
        let mut to_end_game = false;
        match self {
            GameMode::Playing(playing_data) => {
                match playing_data.get_player_transition(gpt, frame) {
                    Some(transition) => {
                        playing_data.apply_transition(transition);
                        playing_data.update_after_transition();
                    },
                    None => {},
                }
                let level_status = playing_data.update_collisions();
                match level_status {
                    LevelStatus::Complete => {
                        playing_data.next_level();
                        if playing_data.current_level >= playing_data.levels.len() {
                            to_end_game = true;
                        }
                    },
                    LevelStatus::Lost => {
                        playing_data.restart_level();
                    },
                    LevelStatus::InProgress => {
                        playing_data.step_physics();
                    },
                }
            },
            _ => {},
        }
        if to_end_game {
            *self = Self::EndGame;
        }
    }

    /// Enter play: build the roster from the raw lists with the stock
    /// physics, select level 0, copy it into the live data, and put the
    /// player at rest at its pristine position.
    fn start_game(&mut self, level_objects: &Vec<Vec<LevelObject>>)
        requires
            roster_wf(level_objects@),
            level_objects@.len() >= 1,
        ensures
            started_game(level_objects@, *final(self)),
            mode_wf(*final(self)),
    {
        let physics: crate::level_object::Physics = Default::default();
        let n = level_objects.len();
        let mut levels: Vec<LevelData> = Vec::new();
        let mut i: usize = 0;
        while i < n
            invariant
                i <= n,
                n == level_objects@.len(),
                levels@.len() == i,
                physics == crate::level_object::default_physics(),
                roster_wf(level_objects@),
                forall|k: int|
                    0 <= k < i ==> {
                        &&& (#[trigger] levels@[k]).number == k as u8
                        &&& levels@[k].objects@ == level_objects@[k]@
                        &&& levels@[k].physics == crate::level_object::default_physics()
                    },
            decreases n - i,
        {
            let number = #[verifier::truncate] (i as u8);
            let objs = crate::level_object::copy_objects(&level_objects[i]);
            levels.push(LevelData::new(number, objs, physics));
            i += 1;
        }
        proof {
            lemma_player_index_props(levels@[0].objects@);
            assert(forall|k: int|
                0 <= k < levels@.len() ==> (#[trigger] levels@[k]).wf());
        }
        let active_data = levels[0].duplicate();
        let pristine: Position = match levels[0].get_player_object() {
            Some(o) => o.position,
            None => crate::constants::origin(),
        };
        *self = GameMode::Playing(
            PlayingData {
                active_data,
                levels,
                current_level: 0,
                player_status: PlayerStatus::Reset(pristine),
            },
        );
    }
}

/// The whole game: the input tracker, the viewport, and the mode.
#[derive(Clone, Debug)]
pub struct GameState {
    pub gpt: GamePadTracker,
    pub frame: Frame,
    pub mode: GameMode,
}

impl GameState {
    pub open spec fn wf(&self) -> bool {
        self.frame.wf() && mode_wf(self.mode)
    }

    /// One frame: take the raw input snapshot, then run the mode's tick.
    pub fn update(
        &mut self,
        gamepad: u8,
        mouse_buttons: u8,
        mouse_x: i16,
        mouse_y: i16,
        level_objects: &Vec<Vec<LevelObject>>,
    )
        requires
            old(self).wf(),
            roster_wf(level_objects@),
            level_objects@.len() >= 1,
        ensures
            final(self).gpt == crate::game_pad_tracker::tracker_updated(
                old(self).gpt,
                gamepad,
                mouse_buttons,
                mouse_x,
                mouse_y,
            ),
            final(self).frame == old(self).frame,
            mode_update_rel(
                old(self).mode,
                final(self).gpt,
                old(self).frame,
                level_objects@,
                final(self).mode,
            ),
            final(self).wf(),
    {
        self.gpt.update(gamepad, mouse_buttons, mouse_x, mouse_y);
        let gpt = self.gpt;
        let frame = self.frame;
        self.mode.update(gpt, frame, level_objects);
    }
}

} // verus!
