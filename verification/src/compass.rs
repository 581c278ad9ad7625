//! The 16-point compass used for wind directions.

use crate::error::RecordError;
use vstd::prelude::*;

verus! {

/// Compass with 16 directions
#[allow(non_snake_case)]
#[allow(clippy::upper_case_acronyms)]
#[derive(Debug, PartialEq, Eq, Structural, Clone, Copy)]
pub enum Compass16 {
    /// 0 degrees
    N,
    /// 22.5 degrees
    NNE,
    /// 45 degrees
    NE,
    /// 67.5 degrees
    ENE,
    /// 90 degrees
    E,
    /// 112.5 degrees
    ESE,
    /// 135 degrees
    SE,
    /// 157.5 degrees
    SSE,
    /// 180 degrees
    S,
    /// 202.5 degrees
    SSW,
    /// 225 degrees
    SW,
    /// 247.5 degrees
    WSW,
    /// 270 degrees
    W,
    /// 292.5 degrees
    WNW,
    /// 315 degrees
    NW,
    /// 337.5 degrees
    NNW,
}

/// Lower-cases ASCII capital letters and leaves every other character alone.
pub open spec fn ascii_lower(c: char) -> char {
    if 65 <= (c as u32) && (c as u32) <= 90 {
        ((c as u32) + 32) as char
    } else {
        c
    }
}

/// `s` with its ASCII capitals lower-cased.
///
/// On texts that could name a direction this agrees with Unicode lower-casing:
/// no character outside ASCII lower-cases to `n`, `e`, `s` or `w`.
pub open spec fn ascii_fold(s: Seq<char>) -> Seq<char> {
    s.map_values(|c: char| ascii_lower(c))
}

/// `s` names some direction, in any mix of letter cases.
pub open spec fn is_compass_text(s: Seq<char>) -> bool {
    exists|c: Compass16| ascii_fold(s) == #[trigger] c.lower_name()
}

/// The message of the error for an unrecognised direction `value`.
pub open spec fn unrecognized_direction_message(value: Seq<char>) -> Seq<char> {
    "Cannot recognize wind direction from value "@ + value
}

impl Compass16 {
    /// The name of the direction, as displayed (upper case).
    pub open spec fn name(self) -> Seq<char> {
        match self {
            Compass16::N => seq!['N'],
            Compass16::NNE => seq!['N', 'N', 'E'],
            Compass16::NE => seq!['N', 'E'],
            Compass16::ENE => seq!['E', 'N', 'E'],
            Compass16::E => seq!['E'],
            Compass16::ESE => seq!['E', 'S', 'E'],
            Compass16::SE => seq!['S', 'E'],
            Compass16::SSE => seq!['S', 'S', 'E'],
            Compass16::S => seq!['S'],
            Compass16::SSW => seq!['S', 'S', 'W'],
            Compass16::SW => seq!['S', 'W'],
            Compass16::WSW => seq!['W', 'S', 'W'],
            Compass16::W => seq!['W'],
            Compass16::WNW => seq!['W', 'N', 'W'],
            Compass16::NW => seq!['N', 'W'],
            Compass16::NNW => seq!['N', 'N', 'W'],
        }
    }

    /// The name of the direction in lower case.
    pub open spec fn lower_name(self) -> Seq<char> {
        match self {
            Compass16::N => seq!['n'],
            Compass16::NNE => seq!['n', 'n', 'e'],
            Compass16::NE => seq!['n', 'e'],
            Compass16::ENE => seq!['e', 'n', 'e'],
            Compass16::E => seq!['e'],
            Compass16::ESE => seq!['e', 's', 'e'],
            Compass16::SE => seq!['s', 'e'],
            Compass16::SSE => seq!['s', 's', 'e'],
            Compass16::S => seq!['s'],
            Compass16::SSW => seq!['s', 's', 'w'],
            Compass16::SW => seq!['s', 'w'],
            Compass16::WSW => seq!['w', 's', 'w'],
            Compass16::W => seq!['w'],
            Compass16::WNW => seq!['w', 'n', 'w'],
            Compass16::NW => seq!['n', 'w'],
            Compass16::NNW => seq!['n', 'n', 'w'],
        }
    }

    /// Safely converts a string into a value of Compass16, ignoring letter case.
    /// * `value` - String to be converted to Compass16
    pub fn from_string_ref(value: &str) -> (res: Result<Compass16, RecordError>)
        ensures
            res is Ok <==> is_compass_text(value@),
            res matches Ok(c) ==> ascii_fold(value@) == c.lower_name(),
            res matches Err(e) ==> (e matches RecordError::CompassError(m) && m@
                == unrecognized_direction_message(value@)),
    {
        let n = value.unicode_len();
        let found: Option<Compass16> = if n == 1 {
            let a = value.get_char(0);
            if letter_is(a, 'n') {
                Some(Compass16::N)
            } else if letter_is(a, 'e') {
                Some(Compass16::E)
            } else if letter_is(a, 's') {
                Some(Compass16::S)
            } else if letter_is(a, 'w') {
                Some(Compass16::W)
            } else {
                None
            }
        } else if n == 2 {
            let a = value.get_char(0);
            let b = value.get_char(1);
            if letter_is(a, 'n') && letter_is(b, 'e') {
                Some(Compass16::NE)
            } else if letter_is(a, 's') && letter_is(b, 'e') {
                Some(Compass16::SE)
            } else if letter_is(a, 's') && letter_is(b, 'w') {
                Some(Compass16::SW)
            } else if letter_is(a, 'n') && letter_is(b, 'w') {
                Some(Compass16::NW)
            } else {
                None
            }
        } else if n == 3 {
            let a = value.get_char(0);
            let b = value.get_char(1);
            let d = value.get_char(2);
            if letter_is(a, 'n') && letter_is(b, 'n') && letter_is(d, 'e') {
                Some(Compass16::NNE)
            } else if letter_is(a, 'e') && letter_is(b, 'n') && letter_is(d, 'e') {
                Some(Compass16::ENE)
            } else if letter_is(a, 'e') && letter_is(b, 's') && letter_is(d, 'e') {
                Some(Compass16::ESE)
            } else if letter_is(a, 's') && letter_is(b, 's') && letter_is(d, 'e') {
                Some(Compass16::SSE)
            } else if letter_is(a, 's') && letter_is(b, 's') && letter_is(d, 'w') {
                Some(Compass16::SSW)
            } else if letter_is(a, 'w') && letter_is(b, 's') && letter_is(d, 'w') {
                Some(Compass16::WSW)
            } else if letter_is(a, 'w') && letter_is(b, 'n') && letter_is(d, 'w') {
                Some(Compass16::WNW)
            } else if letter_is(a, 'n') && letter_is(b, 'n') && letter_is(d, 'w') {
                Some(Compass16::NNW)
            } else {
                None
            }
        } else {
            None
        };
        match found {
            Some(c) => {
                assert(ascii_fold(value@) =~= c.lower_name());
                Ok(c)
            },
            None => {
                proof {
                    lemma_unmatched(value@);
                }
                let mut msg = String::from_str("Cannot recognize wind direction from value ");
                msg.append(value);
                Err(RecordError::CompassError(msg))
            },
        }
    }

    /// The displayed name of the direction (`"ENE"` for `Compass16::ENE`).
    pub fn to_string(&self) -> (s: String)
        ensures
            s@ == self.name(),
    {
        match self {
            Compass16::N => {
                proof {
                    reveal_strlit("N");
                }
                String::from_str("N")
            },
            Compass16::NNE => {
                proof {
                    reveal_strlit("NNE");
                }
                String::from_str("NNE")
            },
            Compass16::NE => {
                proof {
                    reveal_strlit("NE");
                }
                String::from_str("NE")
            },
            Compass16::ENE => {
                proof {
                    reveal_strlit("ENE");
                }
                String::from_str("ENE")
            },
            Compass16::E => {
                proof {
                    reveal_strlit("E");
                }
                String::from_str("E")
            },
            Compass16::ESE => {
                proof {
                    reveal_strlit("ESE");
                }
                String::from_str("ESE")
            },
            Compass16::SE => {
                proof {
                    reveal_strlit("SE");
                }
                String::from_str("SE")
            },
            Compass16::SSE => {
                proof {
                    reveal_strlit("SSE");
                }
                String::from_str("SSE")
            },
            Compass16::S => {
                proof {
                    reveal_strlit("S");
                }
                String::from_str("S")
            },
            Compass16::SSW => {
                proof {
                    reveal_strlit("SSW");
                }
                String::from_str("SSW")
            },
            Compass16::SW => {
                proof {
                    reveal_strlit("SW");
                }
                String::from_str("SW")
            },
            Compass16::WSW => {
                proof {
                    reveal_strlit("WSW");
                }
                String::from_str("WSW")
            },
            Compass16::W => {
                proof {
                    reveal_strlit("W");
                }
                String::from_str("W")
            },
            Compass16::WNW => {
                proof {
                    reveal_strlit("WNW");
                }
                String::from_str("WNW")
            },
            Compass16::NW => {
                proof {
                    reveal_strlit("NW");
                }
                String::from_str("NW")
            },
            Compass16::NNW => {
                proof {
                    reveal_strlit("NNW");
                }
                String::from_str("NNW")
            },
        }
    }
}

/// `c` lower-cases (in ASCII) to the letter `lower`.
fn letter_is(c: char, lower: char) -> (b: bool)
    requires
        97 <= (lower as u32) <= 122,
    ensures
        b == (ascii_lower(c) == lower),
{
    c == lower || (c as u32) + 32 == (lower as u32)
}

/// The direction whose lower-case name is `s`, found letter by letter.
spec fn direction_of_lower(s: Seq<char>) -> Option<Compass16> {
    if s.len() == 1 && s[0] == 'n' {
        Some(Compass16::N)
    } else if s.len() == 3 && s[0] == 'n' && s[1] == 'n' && s[2] == 'e' {
        Some(Compass16::NNE)
    } else if s.len() == 2 && s[0] == 'n' && s[1] == 'e' {
        Some(Compass16::NE)
    } else if s.len() == 3 && s[0] == 'e' && s[1] == 'n' && s[2] == 'e' {
        Some(Compass16::ENE)
    } else if s.len() == 1 && s[0] == 'e' {
        Some(Compass16::E)
    } else if s.len() == 3 && s[0] == 'e' && s[1] == 's' && s[2] == 'e' {
        Some(Compass16::ESE)
    } else if s.len() == 2 && s[0] == 's' && s[1] == 'e' {
        Some(Compass16::SE)
    } else if s.len() == 3 && s[0] == 's' && s[1] == 's' && s[2] == 'e' {
        Some(Compass16::SSE)
    } else if s.len() == 1 && s[0] == 's' {
        Some(Compass16::S)
    } else if s.len() == 3 && s[0] == 's' && s[1] == 's' && s[2] == 'w' {
        Some(Compass16::SSW)
    } else if s.len() == 2 && s[0] == 's' && s[1] == 'w' {
        Some(Compass16::SW)
    } else if s.len() == 3 && s[0] == 'w' && s[1] == 's' && s[2] == 'w' {
        Some(Compass16::WSW)
    } else if s.len() == 1 && s[0] == 'w' {
        Some(Compass16::W)
    } else if s.len() == 3 && s[0] == 'w' && s[1] == 'n' && s[2] == 'w' {
        Some(Compass16::WNW)
    } else if s.len() == 2 && s[0] == 'n' && s[1] == 'w' {
        Some(Compass16::NW)
    } else if s.len() == 3 && s[0] == 'n' && s[1] == 'n' && s[2] == 'w' {
        Some(Compass16::NNW)
    } else {
        None
    }
}

/// Each lower-case name is recognised letter by letter as its own direction.
proof fn lemma_direction_of_lower(c: Compass16)
    ensures
        direction_of_lower(c.lower_name()) == Some(c),
{
}

/// A text that no letter-by-letter check recognised names no direction.
proof fn lemma_unmatched(s: Seq<char>)
    requires
        direction_of_lower(ascii_fold(s)) is None,
    ensures
        !is_compass_text(s),
{
    if is_compass_text(s) {
        let c = choose|c: Compass16| ascii_fold(s) == #[trigger] c.lower_name();
        lemma_direction_of_lower(c);
    }
}

/// Two directions never share a name, whatever the letter case.
pub proof fn lemma_lower_names_distinct(c: Compass16, d: Compass16)
    ensures
        c.lower_name() == d.lower_name() ==> c == d,
{
    lemma_direction_of_lower(c);
    lemma_direction_of_lower(d);
}

/// Reading back the displayed name of a direction, in any letter case, gives
/// that direction and no other.
pub proof fn lemma_display_parses_back(c: Compass16)
    ensures
        is_compass_text(c.name()),
        ascii_fold(c.name()) == c.lower_name(),
        forall|d: Compass16| ascii_fold(c.name()) == #[trigger] d.lower_name() ==> d == c,
{
    assert(ascii_fold(c.name()) =~= c.lower_name());
    assert forall|d: Compass16| ascii_fold(c.name()) == #[trigger] d.lower_name() implies d == c by {
        lemma_lower_names_distinct(c, d);
    }
}

/// Whether a text names a direction, and which, depends on its letters only,
/// not on their case.
pub proof fn lemma_case_insensitive(s: Seq<char>, t: Seq<char>, c: Compass16)
    requires
        ascii_fold(s) == ascii_fold(t),
    ensures
        is_compass_text(s) == is_compass_text(t),
        ascii_fold(s) == c.lower_name() <==> ascii_fold(t) == c.lower_name(),
{
}

} // verus!
