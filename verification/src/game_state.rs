use vstd::prelude::*;
use crate::brick::{Brick, BrickKind};
use crate::collision::{CollisionSide, WallCollision};
use crate::input::InputSnapshot;
use crate::level::{create_level, level_layout_holds, lemma_level_brick_at, LEVEL_COLUMNS, MAX_LEVEL};

verus! {

/// The set of possible game states.
#[derive(Debug, Clone, Copy, PartialEq, Eq, Structural)]
pub enum GameStatus {
    /// Ball is on the paddle, waiting for the player to launch it.
    WaitingToLaunch,
    /// Active gameplay.
    Playing,
    /// Game is paused by the player.
    Paused,
    /// All destroyable bricks cleared — advance to next level.
    LevelComplete,
    /// Player ran out of lives (or quit).
    GameOver,
    /// All levels completed — final victory screen.
    Victory,
}

/// What the caller does with the paddle and the ball in this frame, after
/// `GameState::begin_frame` has applied the player's commands.
#[derive(Debug, Clone, Copy, PartialEq, Eq, Structural)]
pub enum FramePlan {
    /// Nothing moves this frame.
    Hold,
    /// The paddle moves as the input asks and the ball stays on the paddle;
    /// if `launch`, the ball is given its launch velocity.
    Aim { launch: bool },
    /// The paddle moves as the input asks, the ball advances, and the
    /// collisions are resolved.
    Simulate,
}

/// What happens to the ball's velocity after a collision is resolved.
#[derive(Debug, Clone, Copy, PartialEq, Eq, Structural)]
pub enum BallResponse {
    /// Velocity unchanged.
    Keep,
    /// Horizontal component negated.
    ReflectHorizontal,
    /// Vertical component negated.
    ReflectVertical,
    /// Ball stopped (it goes back onto the paddle).
    Stop,
}

/// What `GameState::handle_screen_keys` did between frames.
#[derive(Debug, Clone, Copy, PartialEq, Eq, Structural)]
pub enum ScreenCommand {
    /// A new game was started at level 1.
    Restarted,
    /// The next level was set up, keeping lives and score.
    NextLevel,
    /// The last level was cleared: the game is won.
    Won,
    /// The game is in progress: run a frame update.
    RunFrame,
    /// Nothing to do this frame.
    Idle,
}

/// Aggregates the rule-relevant state of a game in one level.
#[derive(Debug, Clone)]
pub struct GameState {
    pub bricks: Vec<Brick>,
    pub score: u32,
    pub lives: u8,
    pub status: GameStatus,
    pub level: u32,
    pub combo: u32,
}

/// The mathematical view of a `GameState`.
#[verifier::ext_equal]
pub struct GameView {
    pub bricks: Seq<Brick>,
    pub score: u32,
    pub lives: u8,
    pub status: GameStatus,
    pub level: u32,
    pub combo: u32,
}

impl View for GameState {
    type V = GameView;

    open spec fn view(&self) -> GameView {
        GameView {
            bricks: self.bricks@,
            score: self.score,
            lives: self.lives,
            status: self.status,
            level: self.level,
            combo: self.combo,
        }
    }
}

/// Every brick has been destroyed or is indestructible.
pub open spec fn all_cleared(bricks: Seq<Brick>) -> bool {
    forall|i: int|
        0 <= i < bricks.len() ==> #[trigger] bricks[i].spec_is_destroyed() || bricks[i].kind
            == BrickKind::Indestructible
}

/// The bricks still on the field.
pub open spec fn live_bricks(bricks: Seq<Brick>) -> Seq<Brick> {
    bricks.filter(|b: Brick| !b.spec_is_destroyed())
}

impl GameView {
    /// The state with its status replaced.
    pub open spec fn with_status(self, status: GameStatus) -> GameView {
        GameView { status, ..self }
    }

    /// The state and plan after the player's commands at the start of a frame.
    pub open spec fn begin_frame(self, input: InputSnapshot) -> (GameView, FramePlan) {
        match self.status {
            GameStatus::WaitingToLaunch => {
                let launched = if input.launch { self.with_status(GameStatus::Playing) } else { self };
                let next = if input.quit { launched.with_status(GameStatus::GameOver) } else { launched };
                (next, FramePlan::Aim { launch: input.launch })
            },
            GameStatus::Playing => {
                if input.pause {
                    (self.with_status(GameStatus::Paused), FramePlan::Hold)
                } else if input.quit {
                    (self.with_status(GameStatus::GameOver), FramePlan::Hold)
                } else {
                    (self, FramePlan::Simulate)
                }
            },
            GameStatus::Paused => {
                if input.pause {
                    (self.with_status(GameStatus::Playing), FramePlan::Hold)
                } else if input.quit {
                    (self.with_status(GameStatus::GameOver), FramePlan::Hold)
                } else {
                    (self, FramePlan::Hold)
                }
            },
            _ => (self, FramePlan::Hold),
        }
    }

    /// The state and ball response after the ball touched `wall`.
    pub open spec fn resolve_wall(self, wall: WallCollision) -> (GameView, BallResponse) {
        match wall {
            WallCollision::Left | WallCollision::Right => (
                GameView { combo: 0, ..self },
                BallResponse::ReflectHorizontal,
            ),
            WallCollision::Top => (GameView { combo: 0, ..self }, BallResponse::ReflectVertical),
            WallCollision::Bottom => {
                let lives: u8 = if self.lives == 0 { 0 } else { (self.lives - 1) as u8 };
                if lives == 0 {
                    (GameView { lives, combo: 0, status: GameStatus::GameOver, ..self }, BallResponse::Keep)
                } else {
                    (
                        GameView { lives, combo: 0, status: GameStatus::WaitingToLaunch, ..self },
                        BallResponse::Stop,
                    )
                }
            },
            WallCollision::Clear => (self, BallResponse::Keep),
        }
    }

    /// The state after the paddle check, and whether the ball bounces off the paddle.
    pub open spec fn resolve_paddle(self, hit: bool) -> (GameView, bool) {
        if self.status == GameStatus::Playing && hit {
            (GameView { combo: 0, ..self }, true)
        } else {
            (self, false)
        }
    }

    /// The state and ball response after the brick at `index` was hit from
    /// `side`; `points` is what destroying it is worth.
    pub open spec fn hit_brick(self, index: int, side: CollisionSide, points: u32) -> (GameView, BallResponse) {
        let hit = self.bricks[index].spec_hit();
        let bricks = self.bricks.update(index, hit);
        let next = if hit.spec_is_destroyed() {
            GameView {
                bricks,
                score: (self.score + points) as u32,
                combo: (self.combo + 1) as u32,
                ..self
            }
        } else {
            GameView { bricks, ..self }
        };
        let response = match side {
            CollisionSide::Top | CollisionSide::Bottom => BallResponse::ReflectVertical,
            CollisionSide::Left | CollisionSide::Right => BallResponse::ReflectHorizontal,
        };
        (next, response)
    }

    /// Hitting the brick at `index` cannot overflow the score or the combo.
    pub open spec fn can_hit_brick(self, index: int, points: u32) -> bool {
        &&& 0 <= index < self.bricks.len()
        &&& self.bricks[index].spec_hit().spec_is_destroyed() ==> {
            &&& self.score + points <= u32::MAX
            &&& self.combo < u32::MAX
        }
    }

    /// The state after the win check that ends a frame of play.
    pub open spec fn check_win(self) -> GameView {
        if self.status == GameStatus::Playing && all_cleared(self.bricks) {
            self.with_status(GameStatus::LevelComplete)
        } else {
            self
        }
    }

    /// `next` keeps the bricks' count and the level, has no more lives and no
    /// less score than `self`.
    pub open spec fn settles_into(self, next: GameView) -> bool {
        &&& next.bricks.len() == self.bricks.len()
        &&& next.level == self.level
        &&& next.lives <= self.lives
        &&& next.score >= self.score
    }
}

impl GameState {
    /// A fresh game state with `bricks`: score 0, 3 lives, level 1, no combo,
    /// waiting for the launch.
    pub fn new(bricks: Vec<Brick>) -> (s: GameState)
        ensures
            s@ == (GameView {
                bricks: bricks@,
                score: 0,
                lives: 3,
                status: GameStatus::WaitingToLaunch,
                level: 1,
                combo: 0,
            }),
    {
        GameState { bricks, score: 0, lives: 3, status: GameStatus::WaitingToLaunch, level: 1, combo: 0 }
    }

    /// The state at the start of level `level`, carrying over `lives` and `score`.
    pub fn start_level(level: u32, lives: u8, score: u32) -> (s: GameState)
        requires
            level <= u32::MAX - 2,
        ensures
            level_layout_holds(level, s.bricks@),
            s.level == level,
            s.lives == lives,
            s.score == score,
            s.combo == 0,
            s.status == GameStatus::WaitingToLaunch,
    {
        let layout = create_level(level);
        let mut state = GameState::new(layout.bricks);
        state.level = level;
        state.lives = lives;
        state.score = score;
        state
    }

    /// The bricks that have not been destroyed, in order.
    pub fn active_bricks(&self) -> (live: Vec<Brick>)
        ensures
            live@ == live_bricks(self.bricks@),
    {
        let mut live: Vec<Brick> = Vec::new();
        let n = self.bricks.len();
        let mut i: usize = 0;
        while i < n
            invariant
                n == self.bricks@.len(),
                i <= n,
                live@ == live_bricks(self.bricks@.take(i as int)),
            decreases n - i,
        {
            let b = self.bricks[i];
            proof {
                reveal_with_fuel(Seq::filter, 1);
                assert(self.bricks@.take(i + 1).drop_last() =~= self.bricks@.take(i as int));
                assert(self.bricks@.take(i + 1).last() == b);
            }
            if !b.is_destroyed() {
                live.push(b);
            }
            i = i + 1;
        }
        proof {
            assert(self.bricks@.take(n as int) =~= self.bricks@);
        }
        live
    }

    /// Returns `true` when every destroyable brick has been cleared.
    pub fn all_destroyable_bricks_gone(&self) -> (r: bool)
        ensures
            r == all_cleared(self.bricks@),
    {
        let n = self.bricks.len();
        let mut i: usize = 0;
        while i < n
            invariant
                n == self.bricks@.len(),
                i <= n,
                forall|j: int|
                    0 <= j < i ==> #[trigger] self.bricks@[j].spec_is_destroyed() || self.bricks@[j].kind
                        == BrickKind::Indestructible,
            decreases n - i,
        {
            let b = &self.bricks[i];
            if !(b.is_destroyed() || b.kind == BrickKind::Indestructible) {
                return false;
            }
            i = i + 1;
        }
        true
    }

    /// Returns `true` while the game is playing or waiting for the launch.
    pub fn is_active(&self) -> (r: bool)
        ensures
            r == (self.status == GameStatus::Playing || self.status == GameStatus::WaitingToLaunch),
    {
        match self.status {
            GameStatus::Playing | GameStatus::WaitingToLaunch => true,
            _ => false,
        }
    }

    /// Applies the player's commands at the start of a frame and says what
    /// moves in it: while waiting, launching starts play and quitting ends the
    /// game; while playing, pausing or quitting stops the frame; while paused,
    /// the pause key resumes and quitting ends the game; finished games
    /// ignore input.
    pub fn begin_frame(&mut self, input: &InputSnapshot) -> (plan: FramePlan)
        ensures
            (final(self)@, plan) == old(self)@.begin_frame(*input),
    {
        match self.status {
            GameStatus::WaitingToLaunch => {
                if input.launch {
                    self.status = GameStatus::Playing;
                }
                if input.quit {
                    self.status = GameStatus::GameOver;
                }
                FramePlan::Aim { launch: input.launch }
            },
            GameStatus::Playing => {
                if input.pause {
                    self.status = GameStatus::Paused;
                    return FramePlan::Hold;
                }
                if input.quit {
                    self.status = GameStatus::GameOver;
                    return FramePlan::Hold;
                }
                FramePlan::Simulate
            },
            GameStatus::Paused => {
                if input.pause {
                    self.status = GameStatus::Playing;
                } else if input.quit {
                    self.status = GameStatus::GameOver;
                }
                FramePlan::Hold
            },
            _ => FramePlan::Hold,
        }
    }

    /// Resolves a contact of the ball with a world boundary: side walls and
    /// the ceiling reflect the ball and break the combo; the floor costs a
    /// life, ending the game when none is left or putting the ball back on
    /// the paddle otherwise.
    pub fn resolve_wall(&mut self, wall: WallCollision) -> (response: BallResponse)
        ensures
            (final(self)@, response) == old(self)@.resolve_wall(wall),
    {
        match wall {
            WallCollision::Left | WallCollision::Right => {
                self.combo = 0;
                BallResponse::ReflectHorizontal
            },
            WallCollision::Top => {
                self.combo = 0;
                BallResponse::ReflectVertical
            },
            WallCollision::Bottom => {
                self.lives = self.lives.saturating_sub(1);
                self.combo = 0;
                if self.lives == 0 {
                    self.status = GameStatus::GameOver;
                    BallResponse::Keep
                } else {
                    self.status = GameStatus::WaitingToLaunch;
                    BallResponse::Stop
                }
            },
            WallCollision::Clear => BallResponse::Keep,
        }
    }

    /// Resolves the paddle check: while play goes on, a hit breaks the combo
    /// and the ball bounces (returns `true`); otherwise nothing changes.
    pub fn resolve_paddle(&mut self, hit: bool) -> (bounce: bool)
        ensures
            (final(self)@, bounce) == old(self)@.resolve_paddle(hit),
    {
        if self.status == GameStatus::Playing && hit {
            self.combo = 0;
            true
        } else {
            false
        }
    }

    /// The first brick the ball is in contact with, given the contact found
    /// for each brick (`contacts[i]` for `bricks[i]`); none once play has
    /// stopped in this frame.
    pub fn first_brick_contact(&self, contacts: &Vec<Option<CollisionSide>>) -> (first: Option<(usize, CollisionSide)>)
        requires
            contacts@.len() == self.bricks@.len(),
        ensures
            first matches Some((i, side)) ==> {
                &&& self.status == GameStatus::Playing
                &&& i < contacts@.len()
                &&& contacts@[i as int] == Some(side)
                &&& forall|j: int| 0 <= j < i ==> #[trigger] contacts@[j] is None
            },
            first is None ==> self.status != GameStatus::Playing || forall|j: int|
                0 <= j < contacts@.len() ==> #[trigger] contacts@[j] is None,
    {
        if self.status != GameStatus::Playing {
            return None;
        }
        let n = contacts.len();
        let mut i: usize = 0;
        while i < n
            invariant
                self.status == GameStatus::Playing,
                n == contacts@.len(),
                i <= n,
                forall|j: int| 0 <= j < i ==> #[trigger] contacts@[j] is None,
            decreases n - i,
        {
            let contact = contacts[i];
            if let Some(side) = contact {
                return Some((i, side));
            }
            i = i + 1;
        }
        None
    }

    /// Applies a hit to the brick at `index`, entered from `side`: the brick
    /// takes the hit; if that destroys it, `points` are added to the score and
    /// the combo grows. The ball reflects vertically off the top or bottom
    /// face and horizontally off the sides.
    pub fn apply_brick_hit(&mut self, index: usize, side: CollisionSide, points: u32) -> (response: BallResponse)
        requires
            old(self)@.can_hit_brick(index as int, points),
        ensures
            (final(self)@, response) == old(self)@.hit_brick(index as int, side, points),
    {
        let hit = self.bricks[index].hit();
        self.bricks.set(index, hit);
        if hit.is_destroyed() {
            self.score = self.score + points;
            self.combo = self.combo + 1;
        }
        match side {
            CollisionSide::Top | CollisionSide::Bottom => BallResponse::ReflectVertical,
            CollisionSide::Left | CollisionSide::Right => BallResponse::ReflectHorizontal,
        }
    }

    /// Ends a frame of play: when every destroyable brick is gone, the level is complete.
    pub fn check_win_condition(&mut self)
        ensures
            final(self)@ == old(self)@.check_win(),
    {
        if self.status == GameStatus::Playing && self.all_destroyable_bricks_gone() {
            self.status = GameStatus::LevelComplete;
        }
    }

    /// Handles the keys read between frames: after a lost or won game,
    /// `restart` starts over at level 1 with 3 lives and no score; after a
    /// completed level, `advance` sets up the next level with the same lives
    /// and score, or wins the game after the last level; a game in progress
    /// (playing, waiting or paused) asks for a frame update.
    pub fn handle_screen_keys(&mut self, restart: bool, advance: bool) -> (cmd: ScreenCommand)
        ensures
            ({
                let s = old(self);
                let finished = s.status == GameStatus::GameOver || s.status == GameStatus::Victory;
                if finished && restart {
                    &&& cmd == ScreenCommand::Restarted
                    &&& level_layout_holds(1, final(self).bricks@)
                    &&& final(self).level == 1
                    &&& final(self).lives == 3
                    &&& final(self).score == 0
                    &&& final(self).combo == 0
                    &&& final(self).status == GameStatus::WaitingToLaunch
                } else if s.status == GameStatus::LevelComplete && advance && s.level >= MAX_LEVEL {
                    &&& cmd == ScreenCommand::Won
                    &&& final(self)@ == s@.with_status(GameStatus::Victory)
                } else if s.status == GameStatus::LevelComplete && advance {
                    &&& cmd == ScreenCommand::NextLevel
                    &&& level_layout_holds((s.level + 1) as u32, final(self).bricks@)
                    &&& final(self).level == s.level + 1
                    &&& final(self).lives == s.lives
                    &&& final(self).score == s.score
                    &&& final(self).combo == 0
                    &&& final(self).status == GameStatus::WaitingToLaunch
                } else if s.status == GameStatus::Playing || s.status == GameStatus::WaitingToLaunch
                    || s.status == GameStatus::Paused {
                    &&& cmd == ScreenCommand::RunFrame
                    &&& final(self)@ == s@
                } else {
                    &&& cmd == ScreenCommand::Idle
                    &&& final(self)@ == s@
                }
            }),
    {
        let finished = self.status == GameStatus::GameOver || self.status == GameStatus::Victory;
        if finished && restart {
            *self = GameState::start_level(1, 3, 0);
            return ScreenCommand::Restarted;
        }
        if self.status == GameStatus::LevelComplete && advance {
            if self.level >= MAX_LEVEL {
                self.status = GameStatus::Victory;
                return ScreenCommand::Won;
            }
            let next = GameState::start_level(self.level + 1, self.lives, self.score);
            *self = next;
            return ScreenCommand::NextLevel;
        }
        if self.is_active() || self.status == GameStatus::Paused {
            ScreenCommand::RunFrame
        } else {
            ScreenCommand::Idle
        }
    }
}

/// A whole frame, as the phases run in order: the player's commands, then
/// (only when the plan is to simulate) the wall, the paddle, the first brick
/// contact `brick` (its index, side and the points destroying it is worth)
/// and the win check.
pub open spec fn frame_result(
    s: GameView,
    input: InputSnapshot,
    wall: WallCollision,
    paddle_hit: bool,
    brick: Option<(int, CollisionSide, u32)>,
) -> GameView {
    let (started, plan) = s.begin_frame(input);
    if plan != FramePlan::Simulate {
        started
    } else {
        let after_wall = started.resolve_wall(wall).0;
        let after_paddle = after_wall.resolve_paddle(paddle_hit).0;
        let after_bricks = match brick {
            Some((i, side, points)) => if after_paddle.status == GameStatus::Playing {
                after_paddle.hit_brick(i, side, points).0
            } else {
                after_paddle
            },
            None => after_paddle,
        };
        after_bricks.check_win()
    }
}

/// Once a level is complete, or the game lost or won, frame input changes
/// nothing and nothing moves.
pub proof fn lemma_finished_games_ignore_input(s: GameView, input: InputSnapshot)
    requires
        s.status == GameStatus::LevelComplete || s.status == GameStatus::GameOver || s.status
            == GameStatus::Victory,
    ensures
        s.begin_frame(input) == (s, FramePlan::Hold),
{
}

/// Pressing pause during play pauses the game without moving anything, and
/// pressing it again resumes play exactly where it stopped.
pub proof fn lemma_pause_then_resume(s: GameView, input: InputSnapshot)
    requires
        s.status == GameStatus::Playing,
        input.pause,
    ensures
        s.begin_frame(input).0 == s.with_status(GameStatus::Paused),
        s.begin_frame(input).1 == FramePlan::Hold,
        s.begin_frame(input).0.begin_frame(input).0 == s,
        s.begin_frame(input).0.begin_frame(input).1 == FramePlan::Hold,
{
    assert(s.begin_frame(input).0.begin_frame(input).0 =~= s);
}

/// Quitting while waiting, or while playing or paused without the pause key,
/// ends the game; launching while waiting (without quitting) starts play.
pub proof fn lemma_launch_and_quit(s: GameView, input: InputSnapshot)
    ensures
        input.quit && s.status == GameStatus::WaitingToLaunch ==> s.begin_frame(input).0 == s.with_status(
            GameStatus::GameOver,
        ),
        input.quit && (s.status == GameStatus::Paused || s.status == GameStatus::Playing) && !input.pause
            ==> s.begin_frame(input) == (s.with_status(GameStatus::GameOver), FramePlan::Hold),
        s.status == GameStatus::WaitingToLaunch && input.launch && !input.quit ==> s.begin_frame(
            input,
        ) == (s.with_status(GameStatus::Playing), FramePlan::Aim { launch: true }),
{
}

/// Falling through the floor costs exactly one life (none below zero) and
/// breaks the combo; the game is over exactly when no life is left, and
/// otherwise the ball goes back onto the paddle.
pub proof fn lemma_floor_costs_a_life(s: GameView)
    ensures
        s.resolve_wall(WallCollision::Bottom).0.lives == if s.lives == 0 { 0 } else { s.lives - 1 },
        s.resolve_wall(WallCollision::Bottom).0.combo == 0,
        s.resolve_wall(WallCollision::Bottom).0.status == GameStatus::GameOver <==> s.lives <= 1,
        s.lives > 1 ==> s.resolve_wall(WallCollision::Bottom) == (
            GameView { lives: (s.lives - 1) as u8, combo: 0, status: GameStatus::WaitingToLaunch, ..s },
            BallResponse::Stop,
        ),
{
}

/// Touching a side wall, the ceiling or the paddle breaks the combo and
/// changes nothing else.
pub proof fn lemma_bounces_break_the_combo(s: GameView)
    ensures
        s.resolve_wall(WallCollision::Left).0 == (GameView { combo: 0, ..s }),
        s.resolve_wall(WallCollision::Right).0 == (GameView { combo: 0, ..s }),
        s.resolve_wall(WallCollision::Top).0 == (GameView { combo: 0, ..s }),
        s.status == GameStatus::Playing ==> s.resolve_paddle(true).0 == (GameView { combo: 0, ..s }),
{
}

/// A brick hit changes only the brick that was hit; the score grows by the
/// brick's points and the combo by one exactly when the hit destroys it.
pub proof fn lemma_brick_hit_is_local(s: GameView, index: int, side: CollisionSide, points: u32)
    requires
        s.can_hit_brick(index, points),
    ensures
        ({
            let next = s.hit_brick(index, side, points).0;
            &&& next.bricks.len() == s.bricks.len()
            &&& next.bricks[index] == s.bricks[index].spec_hit()
            &&& forall|j: int| 0 <= j < s.bricks.len() && j != index ==> #[trigger] next.bricks[j] == s.bricks[j]
            &&& next.status == s.status
            &&& next.lives == s.lives
            &&& next.level == s.level
            &&& next.score == if next.bricks[index].spec_is_destroyed() { s.score + points } else { s.score as int }
            &&& next.combo == if next.bricks[index].spec_is_destroyed() { s.combo + 1 } else { s.combo as int }
        }),
{
}

/// During play, the level is complete after the win check exactly when every
/// destroyable brick is gone.
pub proof fn lemma_level_complete_iff_cleared(s: GameView)
    requires
        s.status == GameStatus::Playing,
    ensures
        s.check_win().status == GameStatus::LevelComplete <==> all_cleared(s.bricks),
        s.check_win().status == GameStatus::Playing <==> !all_cleared(s.bricks),
{
}

/// `settles_into` chains: what holds phase by phase holds for the whole frame.
pub proof fn lemma_settles_transitive(a: GameView, b: GameView, c: GameView)
    requires
        a.settles_into(b),
        b.settles_into(c),
    ensures
        a.settles_into(c),
{
}

/// No phase of a frame, and so no frame, gives a life, takes score away,
/// changes the level or the number of bricks.
pub proof fn lemma_frame_settles(
    s: GameView,
    input: InputSnapshot,
    wall: WallCollision,
    paddle_hit: bool,
    brick: Option<(int, CollisionSide, u32)>,
)
    requires
        brick matches Some((i, side, points)) ==> s.can_hit_brick(i, points),
    ensures
        s.settles_into(s.begin_frame(input).0),
        s.settles_into(s.resolve_wall(wall).0),
        s.settles_into(s.resolve_paddle(paddle_hit).0),
        s.settles_into(s.check_win()),
        brick matches Some((i, side, points)) ==> s.settles_into(s.hit_brick(i, side, points).0),
        s.settles_into(frame_result(s, input, wall, paddle_hit, brick)),
{
    let (started, plan) = s.begin_frame(input);
    if plan == FramePlan::Simulate {
        let after_wall = started.resolve_wall(wall).0;
        let after_paddle = after_wall.resolve_paddle(paddle_hit).0;
        if let Some((i, side, points)) = brick {
            if after_paddle.status == GameStatus::Playing {
                assert(after_paddle.can_hit_brick(i, points));
            }
        }
    }
}

/// Over a whole frame the status moves only as the state machine allows:
/// finished games stay as they are and Victory is never entered; a waiting
/// game can start play or end by quitting; a paused game can resume or end by
/// quitting; a game in play can pause, complete the level, go back to
/// waiting with exactly one life lost and some left, or end, which happens
/// only on quitting or with no life left.
pub proof fn lemma_frame_status(
    s: GameView,
    input: InputSnapshot,
    wall: WallCollision,
    paddle_hit: bool,
    brick: Option<(int, CollisionSide, u32)>,
)
    ensures
        ({
            let t = frame_result(s, input, wall, paddle_hit, brick);
            &&& (s.status == GameStatus::LevelComplete || s.status == GameStatus::GameOver || s.status
                == GameStatus::Victory) ==> t == s
            &&& t.status == GameStatus::Victory ==> s.status == GameStatus::Victory
            &&& s.status == GameStatus::WaitingToLaunch ==> {
                &&& t.status == GameStatus::WaitingToLaunch || t.status == GameStatus::Playing || t.status
                    == GameStatus::GameOver
                &&& t.status == GameStatus::GameOver ==> input.quit
            }
            &&& s.status == GameStatus::Paused ==> {
                &&& t.status == GameStatus::Paused || t.status == GameStatus::Playing || t.status
                    == GameStatus::GameOver
                &&& t.status == GameStatus::GameOver ==> input.quit
            }
            &&& s.status == GameStatus::Playing ==> {
                &&& t.status != GameStatus::Victory
                &&& t.status == GameStatus::WaitingToLaunch ==> 0 < t.lives && t.lives + 1 == s.lives
                &&& t.status == GameStatus::GameOver ==> input.quit || t.lives == 0
            }
        }),
{
}

/// A frame costs at most one life, and changes at most one brick, the one
/// contacted, and that one by exactly one hit.
pub proof fn lemma_frame_changes_little(
    s: GameView,
    input: InputSnapshot,
    wall: WallCollision,
    paddle_hit: bool,
    brick: Option<(int, CollisionSide, u32)>,
)
    requires
        brick matches Some((i, side, points)) ==> s.can_hit_brick(i, points),
    ensures
        ({
            let t = frame_result(s, input, wall, paddle_hit, brick);
            &&& t.lives == s.lives || t.lives + 1 == s.lives
            &&& t.bricks.len() == s.bricks.len()
            &&& forall|j: int|
                0 <= j < s.bricks.len() ==> #[trigger] t.bricks[j] == s.bricks[j] || (brick matches Some(
                    (i, side, points),
                ) && j == i && t.bricks[j] == s.bricks[j].spec_hit())
        }),
{
    let t = frame_result(s, input, wall, paddle_hit, brick);
    let (started, plan) = s.begin_frame(input);
    if plan == FramePlan::Simulate {
        let after_wall = started.resolve_wall(wall).0;
        let after_paddle = after_wall.resolve_paddle(paddle_hit).0;
        assert(after_paddle.bricks == s.bricks);
        if let Some((i, side, points)) = brick {
            if after_paddle.status == GameStatus::Playing {
                let after_bricks = after_paddle.hit_brick(i, side, points).0;
                assert(after_bricks.bricks == s.bricks.update(i, s.bricks[i].spec_hit()));
                assert(t.bricks == after_bricks.bricks);
            } else {
                assert(t.bricks == s.bricks);
            }
        } else {
            assert(t.bricks == s.bricks);
        }
    } else {
        assert(t.bricks == s.bricks);
    }
}

/// While playing, a frame with neither the pause nor the quit key pressed
/// simulates, whatever the movement and launch keys, and leaves the state as
/// it is.
pub proof fn lemma_play_goes_on_without_commands(s: GameView, input: InputSnapshot)
    requires
        s.status == GameStatus::Playing,
        !input.pause,
        !input.quit,
    ensures
        s.begin_frame(input) == (s, FramePlan::Simulate),
{
}

/// A waiting game always aims (the ball stays on the paddle, launched when
/// the launch key is pressed); a paused game never moves anything and, with
/// neither pause nor quit pressed, stays exactly as it is.
pub proof fn lemma_waiting_and_paused_plans(s: GameView, input: InputSnapshot)
    ensures
        s.status == GameStatus::WaitingToLaunch ==> s.begin_frame(input).1 == (FramePlan::Aim {
            launch: input.launch,
        }),
        s.status == GameStatus::WaitingToLaunch && !input.launch && !input.quit ==> s.begin_frame(input).0
            == s,
        s.status == GameStatus::Paused ==> s.begin_frame(input).1 == FramePlan::Hold,
        s.status == GameStatus::Paused && !input.pause && !input.quit ==> s.begin_frame(input).0 == s,
        s.status == GameStatus::Paused && input.pause ==> s.begin_frame(input).0 == s.with_status(
            GameStatus::Playing,
        ),
{
}

/// Side walls reflect the ball horizontally, the ceiling vertically; with no
/// wall touched nothing changes and the ball keeps its velocity.
pub proof fn lemma_wall_responses(s: GameView)
    ensures
        s.resolve_wall(WallCollision::Left).1 == BallResponse::ReflectHorizontal,
        s.resolve_wall(WallCollision::Right).1 == BallResponse::ReflectHorizontal,
        s.resolve_wall(WallCollision::Top).1 == BallResponse::ReflectVertical,
        s.resolve_wall(WallCollision::Clear) == (s, BallResponse::Keep),
        s.lives <= 1 ==> s.resolve_wall(WallCollision::Bottom).1 == BallResponse::Keep,
        s.lives > 1 ==> s.resolve_wall(WallCollision::Bottom).1 == BallResponse::Stop,
{
}

/// The ball bounces off the paddle exactly when play goes on and the paddle
/// was hit; without a bounce nothing changes.
pub proof fn lemma_paddle_rule(s: GameView, hit: bool)
    ensures
        s.resolve_paddle(hit).1 == (s.status == GameStatus::Playing && hit),
        !(s.status == GameStatus::Playing && hit) ==> s.resolve_paddle(hit).0 == s,
{
}

/// A hit on the top or bottom face of a brick reflects the ball vertically, a
/// hit on the left or right face horizontally, whatever the brick and score.
pub proof fn lemma_brick_hit_reflection(s: GameView, index: int, side: CollisionSide, points: u32)
    ensures
        side == CollisionSide::Top || side == CollisionSide::Bottom ==> s.hit_brick(index, side, points).1
            == BallResponse::ReflectVertical,
        side == CollisionSide::Left || side == CollisionSide::Right ==> s.hit_brick(index, side, points).1
            == BallResponse::ReflectHorizontal,
{
}

/// The bricks are all cleared exactly when every one of them is
/// indestructible or has no hit left: any destroyable brick with a hit
/// remaining (a fresh brick, or a tough brick hit once) keeps the level open.
pub proof fn lemma_cleared_by_fields(bricks: Seq<Brick>, i: int)
    ensures
        all_cleared(bricks) <==> forall|j: int|
            0 <= j < bricks.len() ==> #[trigger] bricks[j].kind == BrickKind::Indestructible
                || bricks[j].hits_remaining == 0,
        0 <= i < bricks.len() && bricks[i].kind != BrickKind::Indestructible && bricks[i].hits_remaining > 0
            ==> !all_cleared(bricks),
        bricks.len() == 0 ==> all_cleared(bricks),
{
    if all_cleared(bricks) {
        assert forall|j: int| 0 <= j < bricks.len() implies #[trigger] bricks[j].kind
            == BrickKind::Indestructible || bricks[j].hits_remaining == 0 by {
            assert(bricks[j].spec_is_destroyed() || bricks[j].kind == BrickKind::Indestructible);
        }
    }
    if 0 <= i < bricks.len() && bricks[i].kind != BrickKind::Indestructible && bricks[i].hits_remaining > 0 {
        assert(!(bricks[i].spec_is_destroyed() || bricks[i].kind == BrickKind::Indestructible));
    }
}

/// The win check changes nothing outside play; in play it only changes the
/// status, to LevelComplete, and only when the bricks are all cleared.
pub proof fn lemma_win_check_rule(s: GameView)
    ensures
        s.status != GameStatus::Playing ==> s.check_win() == s,
        s.check_win() == s || s.check_win() == s.with_status(GameStatus::LevelComplete),
{
}

/// The live bricks are exactly those still on the field: each of them is
/// indestructible or has a hit left, every such brick of the level is among
/// them, and there are never more of them than bricks.
pub proof fn lemma_live_bricks(bricks: Seq<Brick>)
    ensures
        forall|i: int|
            0 <= i < live_bricks(bricks).len() ==> #[trigger] live_bricks(bricks)[i].kind
                == BrickKind::Indestructible || live_bricks(bricks)[i].hits_remaining > 0,
        forall|i: int|
            0 <= i < bricks.len() && (bricks[i].kind == BrickKind::Indestructible || bricks[i].hits_remaining
                > 0) ==> #[trigger] live_bricks(bricks).contains(bricks[i]),
        live_bricks(bricks).len() <= bricks.len(),
{
    broadcast use vstd::seq_lib::group_filter_ensures;

    let pred = |b: Brick| !b.spec_is_destroyed();
    assert forall|i: int| 0 <= i < live_bricks(bricks).len() implies #[trigger] live_bricks(bricks)[i].kind
        == BrickKind::Indestructible || live_bricks(bricks)[i].hits_remaining > 0 by {
        bricks.lemma_filter_pred(pred, i);
    }
    assert forall|i: int|
        0 <= i < bricks.len() && (bricks[i].kind == BrickKind::Indestructible || bricks[i].hits_remaining
            > 0) implies #[trigger] live_bricks(bricks).contains(bricks[i]) by {
        bricks.lemma_filter_contains(pred, i);
    }
    bricks.lemma_filter_len(pred);
}

/// A level that has just been set up is never already complete: it always
/// holds a destroyable brick.
pub proof fn lemma_fresh_level_not_cleared(level: u32, bricks: Seq<Brick>)
    requires
        level_layout_holds(level, bricks),
    ensures
        !all_cleared(bricks),
{
    let i: int = if level == 1 || level == 3 { 0 } else { LEVEL_COLUMNS as int };
    crate::level::lemma_level_rows(level, level);
    assert(0 <= i < bricks.len()) by (nonlinear_arith)
        requires
            bricks.len() == 10 * crate::level::level_rows(level),
            crate::level::level_rows(level) >= 2,
            0 <= i <= 10,
    ;
    lemma_level_brick_at(level, bricks, i);
    assert(!(bricks[i].spec_is_destroyed() || bricks[i].kind == BrickKind::Indestructible));
}

} // verus!
