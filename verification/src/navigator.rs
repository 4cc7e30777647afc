//! Moving through a list: the two lists a session shows, the keys it
//! answers to, and where a move leaves the selection.

use vstd::prelude::*;

verus! {

/// Which list the session shows.
#[derive(Debug, Clone, Copy, PartialEq, Eq, Structural)]
pub enum Mode {
    /// The solution files that were found.
    Solutions,
    /// The projects of the solution that was chosen.
    Projects,
}

/// A key, as far as the session tells keys apart.
#[derive(Debug, Clone, Copy, PartialEq, Eq, Structural)]
pub enum Key {
    Up,
    Down,
    Enter,
    Esc,
    Char(char),
    Other,
}

/// What a key asks for.
#[derive(Debug, Clone, Copy, PartialEq, Eq, Structural)]
pub enum Command {
    /// Move the selection by so many entries; down is positive.
    Move(i32),
    /// Choose the selected entry.
    Confirm,
    /// End the session.
    Quit,
}

/// The command that a key event stands for. Only a key going down counts;
/// `Esc` and `q` both quit; keys without a meaning stand for nothing.
pub open spec fn command_of(key: Key, pressed: bool) -> Option<Command> {
    if !pressed {
        None
    } else {
        match key {
            Key::Up => Some(Command::Move(-1i32)),
            Key::Down => Some(Command::Move(1i32)),
            Key::Enter => Some(Command::Confirm),
            Key::Esc => Some(Command::Quit),
            Key::Char(c) => if c == 'q' {
                Some(Command::Quit)
            } else {
                None
            },
            Key::Other => None,
        }
    }
}

/// Reads a key event as a command.
pub fn command_for(key: Key, pressed: bool) -> (r: Option<Command>)
    ensures
        r == command_of(key, pressed),
{
    if !pressed {
        return None;
    }
    match key {
        Key::Up => Some(Command::Move(-1i32)),
        Key::Down => Some(Command::Move(1i32)),
        Key::Enter => Some(Command::Confirm),
        Key::Esc => Some(Command::Quit),
        Key::Char(c) => if c == 'q' {
            Some(Command::Quit)
        } else {
            None
        },
        Key::Other => None,
    }
}

/// The last position of a list of `len` entries; 0 for the empty list, which
/// has none.
pub open spec fn last_index(len: nat) -> nat {
    if len == 0 {
        0
    } else {
        (len - 1) as nat
    }
}

/// Where the selection stands after a move by `delta` from `current` in a
/// list of `len` entries: `current + delta`, held between the first and the
/// last position. There is no wrapping round.
pub open spec fn moved_index(current: nat, delta: int, len: nat) -> nat {
    if current + delta <= 0 {
        0
    } else if current + delta >= last_index(len) {
        last_index(len)
    } else {
        (current + delta) as nat
    }
}

/// A move never leaves the list, and leaves a selection in an empty list
/// where it was.
pub proof fn lemma_moved_index_in_range(current: nat, delta: int, len: nat)
    ensures
        len > 0 ==> moved_index(current, delta, len) < len,
        len == 0 ==> moved_index(current, delta, len) == 0,
        moved_index(current, delta, len) <= last_index(len),
{
}

/// A move by one entry goes to the neighbour, where there is one, and stays
/// at the end of the list where there is none.
pub proof fn lemma_moved_by_one(current: nat, len: nat)
    requires
        current < len,
    ensures
        moved_index(current, 1, len) == if current + 1 < len {
            current + 1
        } else {
            current
        },
        moved_index(current, -1, len) == if current > 0 {
            (current - 1) as nat
        } else {
            current
        },
{
}

/// Moves the selection by `delta` in a list of `len` entries.
pub fn move_index(current: usize, delta: i32, len: usize) -> (r: usize)
    ensures
        r == moved_index(current as nat, delta as int, len as nat),
{
    let last: usize = if len == 0 {
        0
    } else {
        len - 1
    };
    if delta >= 0 {
        let forth: usize = delta as usize;
        if current >= last || forth >= last - current {
            last
        } else {
            current + forth
        }
    } else {
        let back: u64 = (-(delta as i64)) as u64;
        if back >= current as u64 {
            0
        } else {
            let to: usize = current - back as usize;
            if to >= last {
                last
            } else {
                to
            }
        }
    }
}

} // verus!
