use vstd::prelude::*;
use vstd::string::*;
use crate::config::GOAL;
use crate::game::Game;
use crate::target::Target;

verus! {

/// Fill color of the rectangles, by color index.
pub open spec fn color_name(c: int) -> Seq<char> {
    if c == 0 {
        "rgb(0 128 0)"@
    } else if c == 1 {
        "rgb(24 255 0)"@
    } else if c == 2 {
        "rgb(131 245 44)"@
    } else if c == 3 {
        "rgb(255 255 0)"@
    } else {
        "rgba(0 128 0)"@
    }
}

/// Color of all text.
pub const TEXT_COLOR: &'static str = "rgb(0 255 255)";

/// The status line's message while the game runs.
pub open spec fn status_message_of(running: bool) -> Seq<char> {
    if running {
        "Click Circle to reach 99"@
    } else {
        "Congratuation!!"@
    }
}

pub open spec fn digit_char(d: int) -> char {
    seq!['0', '1', '2', '3', '4', '5', '6', '7', '8', '9'][d]
}

/// Decimal digits of `n`, without leading zeros.
pub open spec fn decimal(n: nat) -> Seq<char>
    decreases n,
{
    if n < 10 {
        seq![digit_char(n as int)]
    } else {
        decimal(n / 10) + seq![digit_char((n % 10) as int)]
    }
}

/// The status line: score, goal and message.
pub open spec fn hud_line(score: nat, running: bool) -> Seq<char> {
    decimal(score) + " / "@ + decimal(GOAL as nat) + "  "@ + status_message_of(running)
}

/// One target as drawn: its rectangle and color, and its value as text
/// centered in it.
#[derive(Clone, Debug)]
pub struct Sprite {
    pub x: i32,
    pub y: i32,
    pub w: i32,
    pub h: i32,
    pub color: &'static str,
    pub label: String,
    pub label_x: i64,
    pub label_y: i64,
}

impl Sprite {
    /// This sprite draws target `t`.
    pub open spec fn shows(self, t: Target) -> bool {
        &&& self.x == t.x
        &&& self.y == t.y
        &&& self.w == t.w
        &&& self.h == t.h
        &&& self.color@ == color_name(t.color as int)
        &&& self.label@ == decimal(t.value as nat)
        &&& self.label_x == t.x + t.w / 2
        &&& self.label_y == t.y + t.h / 2
    }
}

/// The fill color for a color index; indices outside the table get the default.
pub fn get_color(c: i32) -> (r: &'static str)
    ensures
        r@ == color_name(c as int),
{
    proof {
        reveal_strlit("rgb(0 128 0)");
        reveal_strlit("rgb(24 255 0)");
        reveal_strlit("rgb(131 245 44)");
        reveal_strlit("rgb(255 255 0)");
        reveal_strlit("rgba(0 128 0)");
    }
    match c {
        0 => "rgb(0 128 0)",
        1 => "rgb(24 255 0)",
        2 => "rgb(131 245 44)",
        3 => "rgb(255 255 0)",
        _ => "rgba(0 128 0)",
    }
}

fn digit_str(d: u32) -> (r: &'static str)
    requires
        d < 10,
    ensures
        r@ == seq![digit_char(d as int)],
{
    proof {
        reveal_strlit("0");
        reveal_strlit("1");
        reveal_strlit("2");
        reveal_strlit("3");
        reveal_strlit("4");
        reveal_strlit("5");
        reveal_strlit("6");
        reveal_strlit("7");
        reveal_strlit("8");
        reveal_strlit("9");
    }
    match d {
        0 => "0",
        1 => "1",
        2 => "2",
        3 => "3",
        4 => "4",
        5 => "5",
        6 => "6",
        7 => "7",
        8 => "8",
        _ => "9",
    }
}

fn push_decimal(out: &mut String, n: u32)
    ensures
        final(out)@ == old(out)@ + decimal(n as nat),
    decreases n,
{
    if n >= 10 {
        push_decimal(out, n / 10);
        out.append(digit_str(n % 10));
        assert(final(out)@ =~= old(out)@ + decimal(n as nat));
    } else {
        out.append(digit_str(n));
    }
}

/// `n` in decimal.
pub fn decimal_text(n: u32) -> (r: String)
    ensures
        r@ == decimal(n as nat),
{
    let mut out = String::new();
    push_decimal(&mut out, n);
    assert(out@ =~= decimal(n as nat));
    out
}

impl Game {
    /// The message shown after the score.
    pub fn status_message(&self) -> (r: &'static str)
        ensures
            r@ == status_message_of(self.running),
    {
        proof {
            reveal_strlit("Click Circle to reach 99");
            reveal_strlit("Congratuation!!");
        }
        if self.running {
            "Click Circle to reach 99"
        } else {
            "Congratuation!!"
        }
    }

    /// The status line drawn at the top left: `"<score> / 99  <message>"`.
    pub fn hud_text(&self) -> (r: String)
        requires
            self.wf(),
        ensures
            r@ == hud_line(self.score as nat, self.running),
    {
        proof {
            reveal_strlit(" / ");
            reveal_strlit("  ");
        }
        let mut out = String::new();
        push_decimal(&mut out, self.score as u32);
        out.append(" / ");
        push_decimal(&mut out, GOAL as u32);
        out.append("  ");
        out.append(self.status_message());
        assert(out@ =~= hud_line(self.score as nat, self.running));
        out
    }

    /// What to draw for each target, in order.
    pub fn sprites(&self) -> (r: Vec<Sprite>)
        requires
            self.wf(),
        ensures
            r.len() == self.targets.len(),
            forall|i: int| 0 <= i < r.len() ==> (#[trigger] r@[i]).shows(self.targets@[i]),
    {
        let mut out: Vec<Sprite> = Vec::new();
        let mut i: usize = 0;
        while i < self.targets.len()
            invariant
                self.wf(),
                i <= self.targets.len(),
                out.len() == i,
                forall|k: int| 0 <= k < i ==> (#[trigger] out@[k]).shows(self.targets@[k]),
            decreases self.targets.len() - i,
        {
            let t = self.targets[i];
            assert(self.targets@[i as int].valid());
            out.push(
                Sprite {
                    x: t.x,
                    y: t.y,
                    w: t.w,
                    h: t.h,
                    color: get_color(t.color),
                    label: decimal_text(t.value as u32),
                    label_x: t.x as i64 + (t.w / 2) as i64,
                    label_y: t.y as i64 + (t.h / 2) as i64,
                },
            );
            i = i + 1;
        }
        out
    }
}

} // verus!
