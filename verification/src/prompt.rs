//! Decision logic for the interactive prompt helpers.
//!
//! The prompt helpers read a line from the user and repeat the question until
//! the answer is recognized. Reading and printing are I/O and stay with the
//! surrounding program; the classification of an answer lives here: trailing
//! carriage returns and line feeds are trimmed, letters are lowercased, and
//! `y`/`yes` means yes while `n`/`no` means no.

use vstd::prelude::*;

verus! {

/// The answer with trailing carriage returns and line feeds removed.
pub open spec fn spec_trim_newlines(s: Seq<u8>) -> Seq<u8>
    decreases s.len(),
{
    if s.len() > 0 && (s.last() == 13 || s.last() == 10) {
        spec_trim_newlines(s.drop_last())
    } else {
        s
    }
}

/// The byte with an upper-case ASCII letter folded to lower case.
pub open spec fn spec_lower_byte(b: u8) -> u8 {
    if 65 <= b <= 90 {
        (b + 32) as u8
    } else {
        b
    }
}

/// The answer with every upper-case ASCII letter folded to lower case.
pub open spec fn spec_lower(s: Seq<u8>) -> Seq<u8> {
    s.map_values(|b: u8| spec_lower_byte(b))
}

/// What an answer means: yes, no, or unrecognized. The comparison trims
/// trailing newline bytes and ignores ASCII case, accepting `y` and `yes`
/// for yes and `n` and `no` for no.
pub open spec fn spec_yesno(answer: Seq<u8>) -> Option<bool> {
    let folded = spec_lower(spec_trim_newlines(answer));
    if folded == seq![121u8] || folded == seq![121u8, 101u8, 115u8] {
        Some(true)
    } else if folded == seq![110u8] || folded == seq![110u8, 111u8] {
        Some(false)
    } else {
        None
    }
}

/// Folds one byte to lower case.
fn lower_byte(b: u8) -> (r: u8)
    ensures
        r == spec_lower_byte(b),
{
    if 65 <= b && b <= 90 {
        b + 32
    } else {
        b
    }
}

/// Classifies an answer line as yes, no, or unrecognized.
pub fn parse_yesno(answer: &[u8]) -> (r: Option<bool>)
    ensures
        r == spec_yesno(answer@),
{
    let mut end: usize = answer.len();
    proof {
        assert(answer@.subrange(0, answer@.len() as int) =~= answer@);
    }
    while end > 0 && (answer[end - 1] == 13 || answer[end - 1] == 10)
        invariant
            end <= answer@.len(),
            spec_trim_newlines(answer@) == spec_trim_newlines(answer@.subrange(0, end as int)),
        decreases end,
    {
        proof {
            assert(answer@.subrange(0, end as int).drop_last() =~= answer@.subrange(
                0,
                end as int - 1,
            ));
        }
        end = end - 1;
    }
    proof {
        assert(spec_trim_newlines(answer@.subrange(0, end as int)) == answer@.subrange(
            0,
            end as int,
        ));
    }
    let ghost trimmed = answer@.subrange(0, end as int);
    let ghost folded = spec_lower(trimmed);
    proof {
        assert(folded.len() == end);
    }
    if end == 1 {
        let b0 = lower_byte(answer[0]);
        proof {
            assert(folded[0] == spec_lower_byte(answer@[0]));
        }
        if b0 == 121 {
            proof {
                assert(folded =~= seq![121u8]);
            }
            Some(true)
        } else if b0 == 110 {
            proof {
                assert(folded =~= seq![110u8]);
            }
            Some(false)
        } else {
            None
        }
    } else if end == 2 {
        let b0 = lower_byte(answer[0]);
        let b1 = lower_byte(answer[1]);
        proof {
            assert(folded[0] == spec_lower_byte(answer@[0]));
            assert(folded[1] == spec_lower_byte(answer@[1]));
        }
        if b0 == 110 && b1 == 111 {
            proof {
                assert(folded =~= seq![110u8, 111u8]);
            }
            Some(false)
        } else {
            None
        }
    } else if end == 3 {
        let b0 = lower_byte(answer[0]);
        let b1 = lower_byte(answer[1]);
        let b2 = lower_byte(answer[2]);
        proof {
            assert(folded[0] == spec_lower_byte(answer@[0]));
            assert(folded[1] == spec_lower_byte(answer@[1]));
            assert(folded[2] == spec_lower_byte(answer@[2]));
        }
        if b0 == 121 && b1 == 101 && b2 == 115 {
            proof {
                assert(folded =~= seq![121u8, 101u8, 115u8]);
            }
            Some(true)
        } else {
            None
        }
    } else {
        None
    }
}

} // verus!
