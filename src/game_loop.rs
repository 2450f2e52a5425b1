use vstd::prelude::*;
use crate::config::TICK_INTERVAL;
use crate::game::Game;

verus! {

/// Drives a game from the host's animation frames and clicks: one tick in
/// every `TICK_INTERVAL` frames.
#[derive(Clone, Debug)]
pub struct GameLoop {
    pub game: Game,
    /// Frames seen since the last tick.
    pub frame: u32,
}

impl GameLoop {
    pub open spec fn wf(self) -> bool {
        &&& self.game.wf()
        &&& self.frame < TICK_INTERVAL
    }

    /// A loop over `game`, with no frame seen yet.
    pub fn start(game: Game) -> (r: GameLoop)
        requires
            game.wf(),
        ensures
            r.wf(),
            r.game == game,
            r.frame == 0,
    {
        GameLoop { game, frame: 0 }
    }

    /// One host frame. Every `TICK_INTERVAL`-th frame runs the game's
    /// animation step and returns true: the caller then redraws.
    pub fn on_frame(&mut self) -> (tick: bool)
        requires
            old(self).wf(),
        ensures
            final(self).wf(),
            final(self).frame == (old(self).frame + 1) % (TICK_INTERVAL as int),
            tick == (final(self).frame == 0),
            !tick ==> final(self).game == old(self).game,
            tick && old(self).game.running ==> exists|spawn: crate::target::Target|
                spawn.spawnable() && #[trigger] old(self).game.updates_to(final(self).game, spawn),
            tick && !old(self).game.running ==> final(self).game == old(self).game,
    {
        self.frame = (self.frame + 1) % TICK_INTERVAL;
        if self.frame == 0 {
            self.game.on_animation_frame();
            true
        } else {
            false
        }
    }

    /// A click at screen point `(x, y)` on a canvas whose top left corner is
    /// at `(offset_left, offset_top)`.
    pub fn on_click(&mut self, x: i32, y: i32, offset_left: i32, offset_top: i32)
        requires
            old(self).wf(),
        ensures
            final(self).wf(),
            final(self).frame == old(self).frame,
            final(self).game.click_x == crate::game::to_field(
                x as int,
                offset_left as int,
                crate::config::BASE_WIDTH as int,
                old(self).game.screen_width as int,
            ),
            final(self).game.click_y == crate::game::to_field(
                y as int,
                offset_top as int,
                crate::config::BASE_HEIGHT as int,
                old(self).game.screen_height as int,
            ),
            final(self).game.targets == old(self).game.targets,
            final(self).game.score == old(self).game.score,
            final(self).game.running == old(self).game.running,
            final(self).game.screen_width == old(self).game.screen_width,
            final(self).game.screen_height == old(self).game.screen_height,
    {
        self.game.set_click(x, y, offset_left, offset_top);
    }
}

} // verus!
