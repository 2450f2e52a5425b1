use vstd::prelude::*;
use crate::config::{BASE_HEIGHT, BASE_WIDTH, GOAL, INCREASE_STEP, MAX_NUMBER};
use crate::target::{
    advance, advance_at, clicked_gain, random_target, survivors, Target,
};

verus! {

/// The whole simulation: live targets, screen size, last click and score.
#[derive(Clone, Debug)]
pub struct Game {
    pub targets: Vec<Target>,
    /// Size of the canvas as displayed, used to map clicks onto the field.
    pub screen_width: i32,
    pub screen_height: i32,
    /// Last click, in field coordinates.
    pub click_x: i64,
    pub click_y: i64,
    pub score: i32,
    /// False once the goal has been reached.
    pub running: bool,
}

/// Integer division rounding toward zero.
pub open spec fn div_toward_zero(a: int, b: int) -> int {
    if a >= 0 {
        a / b
    } else {
        -((-a) / b)
    }
}

/// A screen coordinate mapped onto a field of extent `base`, for a canvas at
/// `offset` displayed `size` wide.
pub open spec fn to_field(v: int, offset: int, base: int, size: int) -> int {
    div_toward_zero((v - offset) * base, size)
}

/// The targets after a tick: the survivors, and `spawn` added below the cap.
pub open spec fn next_targets(s: Seq<Target>, px: int, py: int, spawn: Target) -> Seq<Target> {
    let kept = survivors(s, px, py);
    if kept.len() < MAX_NUMBER {
        kept.push(spawn)
    } else {
        kept
    }
}

/// The score after a tick that earned `gain`: past the goal it wraps back by
/// the goal.
pub open spec fn next_score(score: int, gain: int) -> int {
    if score + gain > GOAL {
        score + gain - GOAL
    } else {
        score + gain
    }
}

/// The game stops when the score lands exactly on the goal.
pub open spec fn next_running(running: bool, score: int, gain: int) -> bool {
    running && score + gain != GOAL
}

proof fn lemma_gain_bounds(s: Seq<Target>, px: int, py: int)
    requires
        forall|i: int| 0 <= i < s.len() ==> (#[trigger] s[i]).valid(),
    ensures
        0 <= clicked_gain(s, px, py) <= 9 * s.len(),
    decreases s.len(),
{
    if s.len() > 0 {
        let rest = s.drop_last();
        assert forall|i: int| 0 <= i < rest.len() implies (#[trigger] rest[i]).valid() by {
            assert(rest[i] == s[i]);
        }
        lemma_gain_bounds(rest, px, py);
        assert(s.last() == s[s.len() - 1]);
    }
}

proof fn lemma_scaled_fits(d: int, c: int)
    requires
        -0x1_0000_0000 <= d <= 0x1_0000_0000,
        0 <= c <= 1000,
    ensures
        -0x1_0000_0000 * 1000 <= d * c <= 0x1_0000_0000 * 1000,
{
    assert(-0x1_0000_0000 * 1000 <= d * c <= 0x1_0000_0000 * 1000) by (nonlinear_arith)
        requires
            -0x1_0000_0000 <= d <= 0x1_0000_0000,
            0 <= c <= 1000,
    ;
}

/// Moves every target, drops those off the field or under the click, and
/// adds up the values of the clicked ones.
pub fn advance_targets(targets: &Vec<Target>, px: i64, py: i64) -> (r: (Vec<Target>, i32))
    requires
        targets.len() <= MAX_NUMBER,
        forall|i: int| 0 <= i < targets.len() ==> (#[trigger] targets@[i]).valid(),
    ensures
        r.0@ == survivors(targets@, px as int, py as int),
        r.1 == clicked_gain(targets@, px as int, py as int),
        r.0.len() <= targets.len(),
        forall|i: int| 0 <= i < r.0.len() ==> (#[trigger] r.0@[i]).valid(),
{
    let mut kept: Vec<Target> = Vec::new();
    let mut gain: i32 = 0;
    let mut i: usize = 0;
    while i < targets.len()
        invariant
            i <= targets.len() <= MAX_NUMBER,
            forall|k: int| 0 <= k < targets.len() ==> (#[trigger] targets@[k]).valid(),
            kept@ == survivors(targets@.take(i as int), px as int, py as int),
            gain == clicked_gain(targets@.take(i as int), px as int, py as int),
            0 <= gain <= 9 * i,
            kept.len() <= i,
            forall|k: int| 0 <= k < kept.len() ==> (#[trigger] kept@[k]).valid(),
        decreases targets.len() - i,
    {
        let t = targets[i];
        proof {
            assert(targets@[i as int].valid());
            targets@.lemma_filter_map_take_succ(advance_at(px as int, py as int), i as int);
            assert(targets@.take(i as int + 1).drop_last() =~= targets@.take(i as int));
            assert(targets@.take(i as int + 1).last() == t);
            assert(advance_at(px as int, py as int)(t) == advance(t, px as int, py as int));
        }
        if t.is_off_field() {
        } else if t.covers_point(px, py) {
            gain = gain + t.value;
        } else {
            kept.push(t.step());
        }
        i = i + 1;
    }
    assert(targets@.take(targets.len() as int) =~= targets@);
    (kept, gain)
}

impl Game {
    /// At most `MAX_NUMBER` valid targets, a visible canvas, a score between
    /// zero and the goal, and a stopped game whenever the goal is reached.
    pub open spec fn wf(self) -> bool {
        &&& self.targets.len() <= MAX_NUMBER
        &&& forall|i: int| 0 <= i < self.targets.len() ==> (#[trigger] self.targets@[i]).valid()
        &&& self.screen_width > 0
        &&& self.screen_height > 0
        &&& 0 <= self.score <= GOAL
        &&& self.score == GOAL ==> !self.running
    }

    /// `next` is this game after one update that spawned `spawn` if it had room.
    pub open spec fn updates_to(self, next: Game, spawn: Target) -> bool {
        let gain = clicked_gain(self.targets@, self.click_x as int, self.click_y as int);
        &&& next.targets@ == next_targets(
            self.targets@,
            self.click_x as int,
            self.click_y as int,
            spawn,
        )
        &&& next.score == next_score(self.score as int, gain)
        &&& next.running == next_running(self.running, self.score as int, gain)
        &&& next.click_x == self.click_x
        &&& next.click_y == self.click_y
        &&& next.screen_width == self.screen_width
        &&& next.screen_height == self.screen_height
    }

    /// A new game on a canvas displayed at the given size, with one target.
    pub fn new(screen_width: i32, screen_height: i32) -> (r: Game)
        requires
            screen_width > 0,
            screen_height > 0,
        ensures
            r.wf(),
            r.targets@ == seq![Target { x: 100, y: 100, w: 100, h: 100, value: 1, color: 0, direction: 0 }],
            r.screen_width == screen_width,
            r.screen_height == screen_height,
            r.click_x == 0,
            r.click_y == 0,
            r.score == 0,
            r.running,
    {
        let mut targets: Vec<Target> = Vec::new();
        targets.push(Target { x: 100, y: 100, w: 100, h: 100, value: 1, color: 0, direction: 0 });
        Game {
            targets,
            screen_width,
            screen_height,
            click_x: 0,
            click_y: 0,
            score: 0,
            running: true,
        }
    }

    /// Records a click at screen point `(x, y)` on a canvas whose top left
    /// corner is at `(offset_left, offset_top)`.
    pub fn set_click(&mut self, x: i32, y: i32, offset_left: i32, offset_top: i32)
        requires
            old(self).wf(),
        ensures
            final(self).wf(),
            final(self).click_x == to_field(
                x as int,
                offset_left as int,
                BASE_WIDTH as int,
                old(self).screen_width as int,
            ),
            final(self).click_y == to_field(
                y as int,
                offset_top as int,
                BASE_HEIGHT as int,
                old(self).screen_height as int,
            ),
            final(self).targets == old(self).targets,
            final(self).screen_width == old(self).screen_width,
            final(self).screen_height == old(self).screen_height,
            final(self).score == old(self).score,
            final(self).running == old(self).running,
    {
        let ex: i64 = x as i64 - offset_left as i64;
        let ey: i64 = y as i64 - offset_top as i64;
        proof {
            lemma_scaled_fits(ex as int, BASE_WIDTH as int);
            lemma_scaled_fits(ey as int, BASE_HEIGHT as int);
        }
        let dx = ex * (BASE_WIDTH as i64);
        let dy = ey * (BASE_HEIGHT as i64);
        self.click_x = dx / (self.screen_width as i64);
        self.click_y = dy / (self.screen_height as i64);
    }

    /// One tick, with `spawn` as the target added when there is room.
    pub fn update_with(&mut self, spawn: Target)
        requires
            old(self).wf(),
            spawn.valid(),
        ensures
            final(self).wf(),
            old(self).updates_to(*final(self), spawn),
    {
        let (mut kept, gain) = advance_targets(&self.targets, self.click_x, self.click_y);
        proof {
            lemma_gain_bounds(self.targets@, self.click_x as int, self.click_y as int);
        }
        if kept.len() < MAX_NUMBER {
            kept.push(spawn);
        }
        self.targets = kept;
        let total = self.score + gain;
        if total == GOAL {
            self.running = false;
        }
        if total > GOAL {
            self.score = total - GOAL;
        } else {
            self.score = total;
        }
    }

    /// One tick: targets move or leave, clicked ones score, and a random
    /// target is added when there is room.
    pub fn update(&mut self)
        requires
            old(self).wf(),
        ensures
            final(self).wf(),
            exists|spawn: Target| spawn.spawnable() && #[trigger] old(self).updates_to(*final(self), spawn),
    {
        let spawn = random_target();
        self.update_with(spawn);
    }

    /// The simulation's part of an animation frame: a tick while running,
    /// nothing once the game is over.
    pub fn on_animation_frame(&mut self)
        requires
            old(self).wf(),
        ensures
            final(self).wf(),
            old(self).running ==> exists|spawn: Target| spawn.spawnable() && #[trigger] old(self).updates_to(*final(self), spawn),
            !old(self).running ==> *final(self) == *old(self),
    {
        if self.running {
            self.update();
        }
    }
}

proof fn lemma_survivors_len(s: Seq<Target>, px: int, py: int)
    ensures
        survivors(s, px, py).len() <= s.len(),
    decreases s.len(),
{
    if s.len() > 0 {
        lemma_survivors_len(s.drop_last(), px, py);
    }
}

proof fn lemma_survivors_prefix(s: Seq<Target>, px: int, py: int, k: int)
    requires
        0 <= k <= s.len(),
    ensures
        survivors(s.take(k), px, py).len() <= survivors(s, px, py).len(),
        forall|j: int|
            0 <= j < survivors(s.take(k), px, py).len() ==> survivors(s.take(k), px, py)[j]
                == survivors(s, px, py)[j],
    decreases s.len() - k,
{
    if k == s.len() {
        assert(s.take(k) =~= s);
    } else {
        lemma_survivors_prefix(s, px, py, k + 1);
        s.lemma_filter_map_take_succ(advance_at(px, py), k);
    }
}

/// The survivors of a tick are exactly the targets that are neither off the
/// field (`x > BASE_WIDTH` or `x + w < 0`) nor under the click, each moved one
/// step, in their order.
pub proof fn lemma_removed_iff(s: Seq<Target>, px: int, py: int)
    ensures
        survivors(s, px, py) == s.filter(|t: Target| !t.removed(px, py)).map_values(
            |t: Target| t.moved(),
        ),
    decreases s.len(),
{
    reveal(Seq::filter);
    let keep = |t: Target| !t.removed(px, py);
    let mv = |t: Target| t.moved();
    if s.len() == 0 {
        assert(s.filter(keep).map_values(mv) =~= Seq::<Target>::empty());
    } else {
        lemma_removed_iff(s.drop_last(), px, py);
        let rest = s.drop_last().filter(keep);
        if keep(s.last()) {
            assert(rest.push(s.last()).map_values(mv) =~= rest.map_values(mv).push(s.last().moved()));
        }
        assert(survivors(s, px, py) =~= s.filter(keep).map_values(mv));
    }
}

/// A target that is neither off the field nor under the click survives a
/// tick with only `x` changed, by one step along its direction; it keeps its
/// place after the survivors that came before it.
pub proof fn lemma_untouched_target_only_moves(g: Game, next: Game, spawn: Target, i: int)
    requires
        g.wf(),
        g.updates_to(next, spawn),
        0 <= i < g.targets.len(),
        !g.targets@[i].removed(g.click_x as int, g.click_y as int),
    ensures
        ({
            let t = g.targets@[i];
            let j = survivors(g.targets@.take(i), g.click_x as int, g.click_y as int).len();
            let u = next.targets@[j as int];
            &&& j < next.targets.len()
            &&& u.x == if t.direction == 0 {
                t.x + INCREASE_STEP
            } else {
                t.x - INCREASE_STEP
            }
            &&& u.y == t.y
            &&& u.w == t.w
            &&& u.h == t.h
            &&& u.value == t.value
            &&& u.color == t.color
            &&& u.direction == t.direction
        }),
{
    let s = g.targets@;
    let px = g.click_x as int;
    let py = g.click_y as int;
    lemma_survivors_prefix(s, px, py, i + 1);
    s.lemma_filter_map_take_succ(advance_at(px, py), i);
    assert(s[i].valid());
    let j = survivors(s.take(i), px, py).len();
    assert(survivors(s.take(i + 1), px, py)[j as int] == s[i].moved());
}

/// Short of passing the goal, the score after a tick is the score before plus
/// the values of the targets that the click removed.
pub proof fn lemma_score_gains_clicked(g: Game, next: Game, spawn: Target)
    requires
        g.wf(),
        g.updates_to(next, spawn),
        g.score + clicked_gain(g.targets@, g.click_x as int, g.click_y as int) <= GOAL,
    ensures
        next.score == g.score + clicked_gain(g.targets@, g.click_x as int, g.click_y as int),
{
}

/// After a tick there is one target more than the survivors while they are
/// fewer than `MAX_NUMBER`, and just the survivors otherwise.
pub proof fn lemma_target_count(g: Game, next: Game, spawn: Target)
    requires
        g.wf(),
        g.updates_to(next, spawn),
    ensures
        ({
            let kept = survivors(g.targets@, g.click_x as int, g.click_y as int).len();
            &&& kept < MAX_NUMBER ==> next.targets.len() == kept + 1
            &&& kept >= MAX_NUMBER ==> next.targets.len() == kept
            &&& next.targets.len() <= MAX_NUMBER
        }),
{
    lemma_survivors_len(g.targets@, g.click_x as int, g.click_y as int);
}

/// A tick of a running game stops it exactly when the score lands on the goal.
pub proof fn lemma_stops_exactly_at_goal(g: Game, next: Game, spawn: Target)
    requires
        g.wf(),
        g.running,
        g.updates_to(next, spawn),
    ensures
        !next.running <==> next.score == GOAL,
{
    lemma_gain_bounds(g.targets@, g.click_x as int, g.click_y as int);
}

} // verus!
