//! The indicator lines that show the device's position and the output lines
//! that stand for its buttons.

use vstd::prelude::*;
use crate::error::RemoteError;
use crate::text::same_text;

verus! {

/// The position of the device as its indicator lines show it.
///
/// `P1` to `P4` each belong to one indicator line. `Ambiguous` means that the
/// device is between positions or that several lines fired; it is a position
/// like the others, not a failure. For cycling the positions form a ring:
/// `P1`, `P2`, `P3`, `P4`, `Ambiguous`, and `P1` again.
#[derive(Clone, Copy, Debug, PartialEq, Eq, Structural, Hash)]
pub enum Input {
    P1,
    P2,
    P3,
    P4,
    Ambiguous,
}

/// The output lines, one for each button of the device.
#[derive(Clone, Copy, Debug, PartialEq, Eq, Structural, Hash)]
pub enum Output {
    Select,
    Down,
    Stop,
    Up,
}

/// The indicator line that sits at a line offset, if one does.
pub open spec fn line_at(offset: int) -> Option<Input> {
    if offset == 21 {
        Some(Input::P1)
    } else if offset == 20 {
        Some(Input::P2)
    } else if offset == 16 {
        Some(Input::P3)
    } else if offset == 12 {
        Some(Input::P4)
    } else {
        None
    }
}

/// The position that a name stands for. Only the four indicator lines can be
/// named; `Ambiguous` belongs to no line.
pub open spec fn line_named(name: Seq<char>) -> Option<Input> {
    if name == seq!['P', '1'] {
        Some(Input::P1)
    } else if name == seq!['P', '2'] {
        Some(Input::P2)
    } else if name == seq!['P', '3'] {
        Some(Input::P3)
    } else if name == seq!['P', '4'] {
        Some(Input::P4)
    } else {
        None
    }
}

/// The output line that a command word stands for.
pub open spec fn output_named(word: Seq<char>) -> Option<Output> {
    if word == seq!['s', 'e', 'l', 'e', 'c', 't'] {
        Some(Output::Select)
    } else if word == seq!['u', 'p'] {
        Some(Output::Up)
    } else if word == seq!['s', 't', 'o', 'p'] {
        Some(Output::Stop)
    } else if word == seq!['d', 'o', 'w', 'n'] {
        Some(Output::Down)
    } else {
        None
    }
}

/// The four indicator lines, in the order of their positions.
pub fn indicator_lines() -> (lines: [Input; 4])
    ensures
        lines@ == seq![Input::P1, Input::P2, Input::P3, Input::P4],
{
    let lines = [Input::P1, Input::P2, Input::P3, Input::P4];
    assert(lines@ =~= seq![Input::P1, Input::P2, Input::P3, Input::P4]);
    lines
}

/// The offsets of the four indicator lines, in the order of their positions:
/// what a sampling pass asks the chip to watch.
pub fn indicator_offsets() -> (offsets: [u32; 4])
    ensures
        offsets@.len() == 4,
        forall|i: int| 0 <= i < 4 ==> Some(#[trigger] offsets@[i] as int) == seq![
            Input::P1,
            Input::P2,
            Input::P3,
            Input::P4,
        ][i].line(),
{
    [21, 20, 16, 12]
}

/// What the four command words hold, as far as the solver has to know it.
pub proof fn command_words()
    ensures
        "select"@ == seq!['s', 'e', 'l', 'e', 'c', 't'],
        "up"@ == seq!['u', 'p'],
        "stop"@ == seq!['s', 't', 'o', 'p'],
        "down"@ == seq!['d', 'o', 'w', 'n'],
{
    reveal_strlit("select");
    reveal_strlit("up");
    reveal_strlit("stop");
    reveal_strlit("down");
    assert("select"@ =~= seq!['s', 'e', 'l', 'e', 'c', 't']);
    assert("up"@ =~= seq!['u', 'p']);
    assert("stop"@ =~= seq!['s', 't', 'o', 'p']);
    assert("down"@ =~= seq!['d', 'o', 'w', 'n']);
}

/// What the five position names hold.
pub proof fn position_names()
    ensures
        "P1"@ == seq!['P', '1'],
        "P2"@ == seq!['P', '2'],
        "P3"@ == seq!['P', '3'],
        "P4"@ == seq!['P', '4'],
        "AMBIGUOUS"@ == seq!['A', 'M', 'B', 'I', 'G', 'U', 'O', 'U', 'S'],
{
    reveal_strlit("P1");
    reveal_strlit("P2");
    reveal_strlit("P3");
    reveal_strlit("P4");
    reveal_strlit("AMBIGUOUS");
    assert("P1"@ =~= seq!['P', '1']);
    assert("P2"@ =~= seq!['P', '2']);
    assert("P3"@ =~= seq!['P', '3']);
    assert("P4"@ =~= seq!['P', '4']);
    assert("AMBIGUOUS"@ =~= seq!['A', 'M', 'B', 'I', 'G', 'U', 'O', 'U', 'S']);
}

impl Input {
    /// The offset of the indicator line of a position; `Ambiguous` has none.
    pub open spec fn line(self) -> Option<int> {
        match self {
            Input::P1 => Some(21int),
            Input::P2 => Some(20int),
            Input::P3 => Some(16int),
            Input::P4 => Some(12int),
            Input::Ambiguous => None,
        }
    }

    /// The position that follows in the ring.
    pub open spec fn successor(self) -> Input {
        match self {
            Input::P1 => Input::P2,
            Input::P2 => Input::P3,
            Input::P3 => Input::P4,
            Input::P4 => Input::Ambiguous,
            Input::Ambiguous => Input::P1,
        }
    }

    /// The place of a position in the ring, counted from `P1`.
    pub open spec fn rank(self) -> int {
        match self {
            Input::P1 => 0,
            Input::P2 => 1,
            Input::P3 => 2,
            Input::P4 => 3,
            Input::Ambiguous => 4,
        }
    }

    /// The name of a position.
    pub open spec fn label(self) -> Seq<char> {
        match self {
            Input::P1 => seq!['P', '1'],
            Input::P2 => seq!['P', '2'],
            Input::P3 => seq!['P', '3'],
            Input::P4 => seq!['P', '4'],
            Input::Ambiguous => seq!['A', 'M', 'B', 'I', 'G', 'U', 'O', 'U', 'S'],
        }
    }

    /// Reads the name of an indicator line.
    pub fn from_str(s: &str) -> (r: Result<Input, RemoteError>)
        ensures
            r == match line_named(s@) {
                Some(p) => Ok::<Input, RemoteError>(p),
                None => Err(RemoteError::InvalidInput),
            },
    {
        proof {
            position_names();
        }
        if same_text(s, "P1") {
            Ok(Input::P1)
        } else if same_text(s, "P2") {
            Ok(Input::P2)
        } else if same_text(s, "P3") {
            Ok(Input::P3)
        } else if same_text(s, "P4") {
            Ok(Input::P4)
        } else {
            Err(RemoteError::InvalidInput)
        }
    }

    /// The position whose indicator line sits at `value`.
    pub fn try_from(value: u32) -> (r: Result<Input, RemoteError>)
        ensures
            r == match line_at(value as int) {
                Some(p) => Ok::<Input, RemoteError>(p),
                None => Err(RemoteError::InvalidInput),
            },
    {
        if value == 21 {
            Ok(Input::P1)
        } else if value == 20 {
            Ok(Input::P2)
        } else if value == 16 {
            Ok(Input::P3)
        } else if value == 12 {
            Ok(Input::P4)
        } else {
            Err(RemoteError::InvalidInput)
        }
    }

    /// The position whose indicator line sits at pin `value`.
    pub fn from_u8(value: u8) -> (r: Option<Input>)
        ensures
            r == line_at(value as int),
    {
        if value == 21 {
            Some(Input::P1)
        } else if value == 20 {
            Some(Input::P2)
        } else if value == 16 {
            Some(Input::P3)
        } else if value == 12 {
            Some(Input::P4)
        } else {
            None
        }
    }

    /// The offset of the indicator line of this position.
    pub fn offset(&self) -> (r: Option<u32>)
        ensures
            match r {
                Some(o) => self.line() == Some(o as int),
                None => self.line().is_none(),
            },
    {
        match self {
            Input::P1 => Some(21),
            Input::P2 => Some(20),
            Input::P3 => Some(16),
            Input::P4 => Some(12),
            Input::Ambiguous => None,
        }
    }

    /// The position that one more cycle of the device leads to.
    pub fn next(&self) -> (r: Input)
        ensures
            r == self.successor(),
    {
        match self {
            Input::P1 => Input::P2,
            Input::P2 => Input::P3,
            Input::P3 => Input::P4,
            Input::P4 => Input::Ambiguous,
            Input::Ambiguous => Input::P1,
        }
    }

    /// The name under which this position is shown and sent.
    pub fn name(&self) -> (s: &'static str)
        ensures
            s@ == self.label(),
    {
        proof {
            position_names();
        }
        match self {
            Input::P1 => "P1",
            Input::P2 => "P2",
            Input::P3 => "P3",
            Input::P4 => "P4",
            Input::Ambiguous => "AMBIGUOUS",
        }
    }

    /// The name of this position as an owned string.
    pub fn to_string(&self) -> (s: String)
        ensures
            s@ == self.label(),
    {
        String::from_str(self.name())
    }
}

/// A position with an indicator line is the one found at that line's offset.
pub proof fn law_line_round_trip(p: Input)
    ensures
        match p.line() {
            Some(offset) => line_at(offset) == Some(p),
            None => p == Input::Ambiguous,
        },
{
}

/// A position that can be named is the one its name is read as; `Ambiguous`
/// has a name to be shown under, which is not read back.
pub proof fn law_name_round_trip(p: Input)
    ensures
        p != Input::Ambiguous ==> line_named(p.label()) == Some(p),
        p == Input::Ambiguous ==> line_named(p.label()).is_none(),
{
}

impl Output {
    /// The offset of the output line.
    pub open spec fn line(self) -> int {
        match self {
            Output::Select => 6,
            Output::Down => 13,
            Output::Stop => 19,
            Output::Up => 26,
        }
    }

    /// Reads a command word as the output line it drives.
    pub fn from_str(value: &str) -> (r: Option<Output>)
        ensures
            r == output_named(value@),
    {
        proof {
            command_words();
        }
        if same_text(value, "select") {
            Some(Output::Select)
        } else if same_text(value, "up") {
            Some(Output::Up)
        } else if same_text(value, "stop") {
            Some(Output::Stop)
        } else if same_text(value, "down") {
            Some(Output::Down)
        } else {
            None
        }
    }

    /// The offset of this output line.
    pub fn offset(&self) -> (r: u32)
        ensures
            r == self.line(),
    {
        match self {
            Output::Select => 6,
            Output::Down => 13,
            Output::Stop => 19,
            Output::Up => 26,
        }
    }
}

} // verus!
