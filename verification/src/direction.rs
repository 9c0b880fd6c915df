//! The four directions a focus move can take, and the native token each
//! collaborating layer uses for them.

use vstd::prelude::*;

verus! {

/// A directional focus move. Immutable and passed by value throughout; each
/// layer maps it to its own native token.
#[derive(Clone, Copy, PartialEq, Eq, Structural, Debug)]
pub enum Direction {
    Left,
    Right,
    Up,
    Down,
}

impl Direction {
    /// The lower-case command-line name of the direction.
    pub open spec fn spec_name(self) -> Seq<char> {
        match self {
            Direction::Left => "left"@,
            Direction::Right => "right"@,
            Direction::Up => "up"@,
            Direction::Down => "down"@,
        }
    }

    /// The `wincmd` letter the editor expects.
    pub open spec fn spec_vim(self) -> Seq<char> {
        match self {
            Direction::Left => "h"@,
            Direction::Right => "l"@,
            Direction::Up => "k"@,
            Direction::Down => "j"@,
        }
    }

    /// The `select-pane` flag the terminal multiplexer expects.
    pub open spec fn spec_tmux(self) -> Seq<char> {
        match self {
            Direction::Left => "-L"@,
            Direction::Right => "-R"@,
            Direction::Up => "-U"@,
            Direction::Down => "-D"@,
        }
    }

    /// The compass word the terminal emulator's pane query expects.
    pub open spec fn spec_wezterm(self) -> Seq<char> {
        match self {
            Direction::Left => "Left"@,
            Direction::Right => "Right"@,
            Direction::Up => "Up"@,
            Direction::Down => "Down"@,
        }
    }

    /// The key the terminal emulator's pane-move shortcut is bound to.
    pub open spec fn spec_wezterm_shortcut(self) -> Seq<char> {
        match self {
            Direction::Left => "h"@,
            Direction::Right => "l"@,
            Direction::Up => "k"@,
            Direction::Down => "j"@,
        }
    }

    /// The direction word the nested multiplexer session expects.
    pub open spec fn spec_zellij(self) -> Seq<char> {
        match self {
            Direction::Left => "left"@,
            Direction::Right => "right"@,
            Direction::Up => "up"@,
            Direction::Down => "down"@,
        }
    }

    /// The lower-case command-line name of the direction, as the resolver
    /// binary accepts it and as the host window manager's `focus` command
    /// expects it.
    pub fn name(&self) -> (r: &'static str)
        ensures
            r@ == self.spec_name(),
    {
        match self {
            Direction::Left => "left",
            Direction::Right => "right",
            Direction::Up => "up",
            Direction::Down => "down",
        }
    }

    /// Reads a direction back from its lower-case name.
    pub fn from_name(s: &str) -> (r: Option<Direction>)
        ensures
            s@ == "left"@ ==> r == Some(Direction::Left),
            s@ == "right"@ ==> r == Some(Direction::Right),
            s@ == "up"@ ==> r == Some(Direction::Up),
            s@ == "down"@ ==> r == Some(Direction::Down),
            s@ != "left"@ && s@ != "right"@ && s@ != "up"@ && s@ != "down"@ ==> r is None,
            r matches Some(d) ==> s@ == d.spec_name(),
    {
        proof {
            reveal_strlit("left");
            reveal_strlit("right");
            reveal_strlit("up");
            reveal_strlit("down");
            assert("left"@.len() == 4 && "right"@.len() == 5 && "up"@.len() == 2 && "down"@.len()
                == 4);
            assert("left"@[0] == 'l' && "down"@[0] == 'd');
        }
        if crate::strutil::str_eq(s, "left") {
            Some(Direction::Left)
        } else if crate::strutil::str_eq(s, "right") {
            Some(Direction::Right)
        } else if crate::strutil::str_eq(s, "up") {
            Some(Direction::Up)
        } else if crate::strutil::str_eq(s, "down") {
            Some(Direction::Down)
        } else {
            None
        }
    }

    /// The `wincmd` letter the editor expects for this direction.
    pub fn vim(&self) -> (r: &'static str)
        ensures
            r@ == self.spec_vim(),
    {
        match self {
            Direction::Left => "h",
            Direction::Right => "l",
            Direction::Up => "k",
            Direction::Down => "j",
        }
    }

    /// The `select-pane` flag the terminal multiplexer expects for this
    /// direction.
    pub fn tmux(&self) -> (r: &'static str)
        ensures
            r@ == self.spec_tmux(),
    {
        match self {
            Direction::Left => "-L",
            Direction::Right => "-R",
            Direction::Up => "-U",
            Direction::Down => "-D",
        }
    }

    /// The compass word the terminal emulator's pane query expects for this
    /// direction.
    pub fn wezterm(&self) -> (r: &'static str)
        ensures
            r@ == self.spec_wezterm(),
    {
        match self {
            Direction::Left => "Left",
            Direction::Right => "Right",
            Direction::Up => "Up",
            Direction::Down => "Down",
        }
    }

    /// The key the terminal emulator's pane-move shortcut is bound to for
    /// this direction; a synthetic press of it forces a redraw after a pane
    /// switch.
    pub fn wezterm_shortcut(&self) -> (r: &'static str)
        ensures
            r@ == self.spec_wezterm_shortcut(),
    {
        match self {
            Direction::Left => "h",
            Direction::Right => "l",
            Direction::Up => "k",
            Direction::Down => "j",
        }
    }

    /// The direction word the nested multiplexer session's `move-focus`
    /// action expects.
    pub fn zellij(&self) -> (r: &'static str)
        ensures
            r@ == self.spec_zellij(),
    {
        match self {
            Direction::Left => "left",
            Direction::Right => "right",
            Direction::Up => "up",
            Direction::Down => "down",
        }
    }
}

} // verus!
