use vstd::prelude::*;

use crate::obstacle::{gap_size, spec_collides, Obstacle, ObstacleV};
use crate::player::{advanced, flapped, Player, PlayerV};
use crate::render::{
    bottom_bar_rows, cmd_is_centered, cmd_is_print, obstacle_cmds_ok, top_bar_rows, Color,
    RenderCmd,
};
use crate::text::{dec_rep, earned_line, score_line};
use crate::{FRAME_DURATION_MS, SCREEN_HEIGHT, SCREEN_WIDTH};

verus! {

/// World column a run starts the player at.
pub const PLAYER_START_X: i32 = 5;

/// Row a run starts the player at.
pub const PLAYER_START_Y: i32 = 25;

/// The top-level mode: the opening menu, a run in progress, or game over.
#[derive(Clone, Copy, PartialEq, Eq, Structural, Debug)]
pub enum GameMode {
    Menu,
    Playing,
    End,
}

/// The one discrete input the host may capture per tick.
#[derive(Clone, Copy, PartialEq, Eq, Structural, Debug)]
pub enum InputEvent {
    Flap,
    Restart,
    Quit,
}

/// What one tick hands back to the host: the drawing for this frame, and
/// whether the player asked to quit.
pub struct TickOutput {
    pub commands: Vec<RenderCmd>,
    pub quit: bool,
}

/// The whole game: one player, one obstacle, the sub-frame time accumulator
/// in milliseconds, the mode, and the score.
pub struct State {
    pub player: Player,
    pub frame_time: u32,
    pub obstacle: Obstacle,
    pub mode: GameMode,
    pub score: i32,
}

/// Mathematical image of a `State`.
pub ghost struct StateV {
    pub player: PlayerV,
    pub frame_time: int,
    pub obstacle: ObstacleV,
    pub mode: GameMode,
    pub score: int,
}

impl View for State {
    type V = StateV;

    open spec fn view(&self) -> StateV {
        StateV {
            player: self.player@,
            frame_time: self.frame_time as int,
            obstacle: self.obstacle@,
            mode: self.mode,
            score: self.score as int,
        }
    }
}

impl StateV {
    /// Well-formed: both entities are, the score is a count, the accumulator
    /// never holds more than one physics step's worth, and during a run the
    /// player is inside the play area with the obstacle at most one screen
    /// ahead (and never behind).
    pub open spec fn wf(self) -> bool {
        &&& self.player.wf()
        &&& self.obstacle.wf()
        &&& 0 <= self.score
        &&& 0 <= self.frame_time <= 75
        &&& (self.mode == GameMode::Playing ==> {
            &&& self.player.y <= 50
            &&& 0 <= self.obstacle.x - self.player.x <= 80
        })
    }
}

/// The state a fresh run starts from: score 0, the player at the fixed start
/// at rest, the obstacle one play-width ahead with the full gap of 20.
pub open spec fn restarted(s: StateV) -> bool {
    &&& s.mode == GameMode::Playing
    &&& s.score == 0
    &&& s.frame_time == 0
    &&& s.player == (PlayerV { x: 5, y: 25, velocity: 0 })
    &&& s.obstacle.x == 80
    &&& s.obstacle.size == 20
    &&& s.obstacle.wf()
}

/// Input handling shared by the menu and the game-over screen: `Restart`
/// begins a fresh run, `Quit` asks the host to stop, anything else (a flap
/// or no input) changes nothing.
pub open spec fn idle_step_ok(
    pre: StateV,
    post: StateV,
    quit: bool,
    input: Option<InputEvent>,
) -> bool {
    match input {
        Some(InputEvent::Restart) => restarted(post) && !quit,
        Some(InputEvent::Quit) => post == pre && quit,
        _ => post == pre && !quit,
    }
}

/// Elapsed milliseconds are accumulated; past 75 the accumulator resets and
/// exactly one physics step runs.
pub open spec fn time_stepped(s: StateV, elapsed: int) -> StateV {
    let ft = s.frame_time + elapsed;
    if ft > 75 {
        StateV { frame_time: 0, player: advanced(s.player), ..s }
    } else {
        StateV { frame_time: ft, ..s }
    }
}

/// A captured flap takes effect immediately, whatever the accumulator holds.
pub open spec fn flap_applied(s: StateV, flap: bool) -> StateV {
    if flap {
        StateV { player: flapped(s.player), ..s }
    } else {
        s
    }
}

/// The state of a Playing tick after time and input, before the pass check.
pub open spec fn mid_state(pre: StateV, elapsed: int, input: Option<InputEvent>) -> StateV {
    flap_applied(time_stepped(pre, elapsed), input == Some(InputEvent::Flap))
}

/// The player's world position has moved past the obstacle's column.
pub open spec fn passed(s: StateV) -> bool {
    s.player.x > s.obstacle.x
}

/// The run is over: fallen past the bottom boundary, or collided.
pub open spec fn game_over_now(s: StateV) -> bool {
    s.player.y > 50 || spec_collides(s.player, s.obstacle)
}

/// Everything one Playing tick does to the state. On a pass-through the
/// score goes up by exactly 1 and the obstacle is replaced, atomically, by a
/// fresh one a play-width ahead sized by the new score; then the run ends
/// exactly when the boundary is breached or the (possibly new) obstacle is
/// hit.
pub open spec fn play_step_ok(
    pre: StateV,
    post: StateV,
    elapsed: int,
    input: Option<InputEvent>,
) -> bool {
    let mid = mid_state(pre, elapsed, input);
    &&& post.player == mid.player
    &&& post.frame_time == mid.frame_time
    &&& (if passed(mid) {
        &&& post.score == mid.score + 1
        &&& post.obstacle.x == mid.player.x + 80
        &&& post.obstacle.size == gap_size(post.score)
        &&& post.obstacle.wf()
    } else {
        &&& post.score == mid.score
        &&& post.obstacle == mid.obstacle
    })
    &&& post.mode == (if game_over_now(post) {
        GameMode::End
    } else {
        GameMode::Playing
    })
}

/// The drawing of one Playing tick: clear to black, the player glyph at its
/// row after this tick's physics, the two banner lines, then the obstacle's
/// bars (still the obstacle this tick began with, as seen from the player).
pub open spec fn play_cmds_ok(
    cmds: Seq<RenderCmd>,
    pre: StateV,
    elapsed: int,
    input: Option<InputEvent>,
) -> bool {
    let mid = mid_state(pre, elapsed, input);
    &&& cmds.len() == 4 + top_bar_rows(mid.obstacle) + bottom_bar_rows(mid.obstacle)
    &&& cmds[0] == (RenderCmd::ClsBg { bg: Color::Black })
    &&& (cmds[1] matches RenderCmd::Glyph { x, y, fg, bg, glyph } && x == 0 && y as int
        == mid.player.y && fg == Color::Yellow && bg == Color::Black && glyph == '>')
    &&& cmd_is_print(cmds[2], 35, 0, "Press SPACE to fly up."@)
    &&& cmd_is_print(cmds[3], 35, 0, "Score: "@ + dec_rep(mid.score as nat))
    &&& obstacle_cmds_ok(cmds.subrange(4, cmds.len() as int), mid.obstacle, mid.player.x)
}

/// The menu screen's drawing: clear, then the fixed six centered lines.
pub open spec fn menu_cmds_ok(cmds: Seq<RenderCmd>) -> bool {
    &&& cmds.len() == 7
    &&& cmds[0] == RenderCmd::Cls
    &&& cmd_is_centered(cmds[1], 5, "Welcome to Andruil's Rusty Dragon"@)
    &&& cmd_is_centered(cmds[2], 8, "Andruil's new robot dragon is faulty,"@)
    &&& cmd_is_centered(cmds[3], 9, "and it might destroy the splendorous"@)
    &&& cmd_is_centered(cmds[4], 10, "city of Phoenixheim if it falls."@)
    &&& cmd_is_centered(cmds[5], 12, "P for Playing"@)
    &&& cmd_is_centered(cmds[6], 13, "Q for Quitting"@)
}

/// The game-over screen's drawing: clear, the epitaph, the tally of the run
/// that just ended, and the two prompts.
pub open spec fn game_over_cmds_ok(cmds: Seq<RenderCmd>, score: int) -> bool {
    &&& cmds.len() == 6
    &&& cmds[0] == RenderCmd::Cls
    &&& cmd_is_centered(cmds[1], 5, "Andruil did it again..."@)
    &&& cmd_is_centered(cmds[2], 6, "The dragon destroyed the city"@)
    &&& cmd_is_centered(cmds[3], 7, "But you earned "@ + dec_rep(score as nat) + " points"@)
    &&& cmd_is_centered(cmds[4], 9, "(P) Play Again"@)
    &&& cmd_is_centered(cmds[5], 10, "(Q) Quit Game"@)
}

impl State {
    /// The game as the process starts it: the menu, over a fresh run's
    /// player, obstacle and score.
    pub fn new() -> (r: State)
        ensures
            r@.mode == GameMode::Menu,
            r@.score == 0,
            r@.frame_time == 0,
            r@.player == (PlayerV { x: 5, y: 25, velocity: 0 }),
            r@.obstacle.x == 80,
            r@.obstacle.size == 20,
            r@.wf(),
    {
        State {
            player: Player::new(PLAYER_START_X, PLAYER_START_Y),
            frame_time: 0,
            obstacle: Obstacle::generate(SCREEN_WIDTH, 0),
            mode: GameMode::Menu,
            score: 0,
        }
    }

    /// Begin a fresh run: score 0, the player back at the fixed start at
    /// rest, a full-gap obstacle one play-width ahead, mode `Playing`.
    pub fn restart(&mut self)
        ensures
            restarted(final(self)@),
            final(self)@.wf(),
    {
        self.player = Player::new(PLAYER_START_X, PLAYER_START_Y);
        self.frame_time = 0;
        self.obstacle = Obstacle::generate(SCREEN_WIDTH, 0);
        self.mode = GameMode::Playing;
        self.score = 0;
    }

    /// One tick on the menu screen: draw the menu, then obey the input.
    pub fn main_menu(&mut self, input: Option<InputEvent>) -> (r: TickOutput)
        ensures
            idle_step_ok(old(self)@, final(self)@, r.quit, input),
            menu_cmds_ok(r.commands@),
            old(self)@.wf() ==> final(self)@.wf(),
    {
        let mut commands: Vec<RenderCmd> = Vec::new();
        commands.push(RenderCmd::Cls);
        commands.push(RenderCmd::PrintCentered {
            y: 5,
            text: "Welcome to Andruil's Rusty Dragon".to_owned(),
        });
        commands.push(RenderCmd::PrintCentered {
            y: 8,
            text: "Andruil's new robot dragon is faulty,".to_owned(),
        });
        commands.push(RenderCmd::PrintCentered {
            y: 9,
            text: "and it might destroy the splendorous".to_owned(),
        });
        commands.push(RenderCmd::PrintCentered {
            y: 10,
            text: "city of Phoenixheim if it falls.".to_owned(),
        });
        commands.push(RenderCmd::PrintCentered { y: 12, text: "P for Playing".to_owned() });
        commands.push(RenderCmd::PrintCentered { y: 13, text: "Q for Quitting".to_owned() });

        let mut quit = false;
        match input {
            Some(InputEvent::Restart) => self.restart(),
            Some(InputEvent::Quit) => quit = true,
            _ => {},
        }
        TickOutput { commands, quit }
    }

    /// One tick on the game-over screen: draw the tally of the run that just
    /// ended, then obey the input.
    pub fn game_over(&mut self, input: Option<InputEvent>) -> (r: TickOutput)
        requires
            0 <= old(self)@.score,
        ensures
            idle_step_ok(old(self)@, final(self)@, r.quit, input),
            game_over_cmds_ok(r.commands@, old(self)@.score),
            old(self)@.wf() ==> final(self)@.wf(),
    {
        let mut commands: Vec<RenderCmd> = Vec::new();
        commands.push(RenderCmd::Cls);
        commands.push(RenderCmd::PrintCentered { y: 5, text: "Andruil did it again...".to_owned() });
        commands.push(RenderCmd::PrintCentered {
            y: 6,
            text: "The dragon destroyed the city".to_owned(),
        });
        commands.push(RenderCmd::PrintCentered { y: 7, text: earned_line(self.score) });
        commands.push(RenderCmd::PrintCentered { y: 9, text: "(P) Play Again".to_owned() });
        commands.push(RenderCmd::PrintCentered { y: 10, text: "(Q) Quit Game".to_owned() });

        let mut quit = false;
        match input {
            Some(InputEvent::Restart) => self.restart(),
            Some(InputEvent::Quit) => quit = true,
            _ => {},
        }
        TickOutput { commands, quit }
    }

    /// One tick of a run: accumulate time and step physics at the fixed
    /// cadence, apply a flap at once, draw the frame, score and replace the
    /// obstacle on a pass-through, and end the run on a boundary breach or a
    /// collision.
    pub fn play(&mut self, elapsed_ms: u32, input: Option<InputEvent>) -> (r: TickOutput)
        requires
            old(self)@.wf(),
            old(self)@.mode == GameMode::Playing,
            old(self)@.player.x + 81 <= i32::MAX,
            old(self)@.score < i32::MAX,
            elapsed_ms + 75 <= u32::MAX,
        ensures
            play_step_ok(old(self)@, final(self)@, elapsed_ms as int, input),
            play_cmds_ok(r.commands@, old(self)@, elapsed_ms as int, input),
            final(self)@.wf(),
            !r.quit,
    {
        let mut commands: Vec<RenderCmd> = Vec::new();
        commands.push(RenderCmd::ClsBg { bg: Color::Black });

        self.frame_time = self.frame_time + elapsed_ms;
        if self.frame_time > FRAME_DURATION_MS {
            self.frame_time = 0;
            self.player.advance();
        }
        match input {
            Some(InputEvent::Flap) => self.player.flap(),
            _ => {},
        }
        commands.push(self.player.render());
        commands.push(RenderCmd::Print {
            x: 35,
            y: 0,
            text: "Press SPACE to fly up.".to_owned(),
        });
        commands.push(RenderCmd::Print { x: 35, y: 0, text: score_line(self.score) });

        let mut bars = self.obstacle.render(self.player.x);
        commands.append(&mut bars);

        if self.player.x > self.obstacle.x {
            self.score = self.score + 1;
            self.obstacle = Obstacle::generate(self.player.x + SCREEN_WIDTH, self.score);
        }

        if self.player.y > SCREEN_HEIGHT || self.obstacle.collides_with(&self.player) {
            self.mode = GameMode::End;
        }
        TickOutput { commands, quit: false }
    }

    /// The per-frame entry point: dispatch on the mode.
    pub fn tick(&mut self, elapsed_ms: u32, input: Option<InputEvent>) -> (r: TickOutput)
        requires
            old(self)@.wf(),
            old(self)@.player.x + 81 <= i32::MAX,
            old(self)@.score < i32::MAX,
            elapsed_ms + 75 <= u32::MAX,
        ensures
            final(self)@.wf(),
            old(self)@.mode == GameMode::Menu ==> idle_step_ok(
                old(self)@,
                final(self)@,
                r.quit,
                input,
            ) && menu_cmds_ok(r.commands@),
            old(self)@.mode == GameMode::End ==> idle_step_ok(
                old(self)@,
                final(self)@,
                r.quit,
                input,
            ) && game_over_cmds_ok(r.commands@, old(self)@.score),
            old(self)@.mode == GameMode::Playing ==> play_step_ok(
                old(self)@,
                final(self)@,
                elapsed_ms as int,
                input,
            ) && play_cmds_ok(r.commands@, old(self)@, elapsed_ms as int, input) && !r.quit,
    {
        match self.mode {
            GameMode::Menu => self.main_menu(input),
            GameMode::End => self.game_over(input),
            GameMode::Playing => self.play(elapsed_ms, input),
        }
    }
}

} // verus!
