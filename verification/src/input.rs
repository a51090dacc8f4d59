//! Validation of the player's typed input. Every prompt in the program
//! accepts a line only when it parses as an integer; these functions decide
//! that, and nothing else ever accepts a line.

use vstd::prelude::*;
use vstd::string::*;
use crate::numbers::parse_i32;
use crate::numbers::parse_i32_spec;

verus! {

/// Whether a line typed at the amount prompt is accepted: exactly when it
/// parses as an integer. No upper bound is enforced; the amount is passed
/// on verbatim.
pub fn is_valid_amount(line: &str) -> (r: bool)
    ensures
        r <==> parse_i32_spec(line@) is Some,
{
    parse_i32(line).is_some()
}

/// One line typed at the category prompt, as a tagged variant rather than
/// a string sentinel.
pub enum CategoryInput {
    /// The line parses as an integer and is kept verbatim as the category.
    NumericChoice,
    /// The literal `?`: print the category table and prompt again, without
    /// counting as an invalid attempt.
    ListRequest,
    /// Anything else: rejected, prompt again.
    Invalid,
}

/// Classify one line typed at the category prompt.
pub fn classify_category_input(line: &str) -> (r: CategoryInput)
    ensures
        r is NumericChoice <==> parse_i32_spec(line@) is Some,
        r is ListRequest <==> parse_i32_spec(line@) is None && line@ == "?"@,
        r is Invalid <==> parse_i32_spec(line@) is None && line@ != "?"@,
{
    proof {
        reveal_strlit("?");
    }
    match parse_i32(line) {
        Some(_) => CategoryInput::NumericChoice,
        None => {
            let len = line.unicode_len();
            if len == 1 && line.get_char(0) == '?' {
                proof {
                    assert(line@ =~= "?"@);
                }
                CategoryInput::ListRequest
            } else {
                proof {
                    assert(line@ != "?"@);
                }
                CategoryInput::Invalid
            }
        },
    }
}

/// What a line typed at the answer prompt selects from a list of `n`
/// answers: the zero-based index when the line is an integer between 1 and
/// `n`, and nothing on any other line — a non-numeric or out-of-range line
/// is never taken as a selection.
pub open spec fn answer_choice_spec(line: Seq<char>, n: int) -> Option<int> {
    match parse_i32_spec(line) {
        Some(v) => if 1 <= v && v <= n {
            Some(v - 1)
        } else {
            None
        },
        None => None,
    }
}

/// Read a line typed at the answer prompt as a selection, exactly as
/// `answer_choice_spec` says.
pub fn answer_choice(line: &str, n: usize) -> (r: Option<usize>)
    ensures
        match r {
            Some(i) => answer_choice_spec(line@, n as int) == Some(i as int),
            None => answer_choice_spec(line@, n as int) is None,
        },
{
    match parse_i32(line) {
        Some(v) => {
            if 1 <= v && v as usize <= n {
                Some((v as usize) - 1)
            } else {
                None
            }
        },
        None => None,
    }
}

/// A line that is not an integer literal selects nothing, whatever the
/// length of the answer list.
pub proof fn lemma_non_numeric_rejected(line: Seq<char>, n: int)
    requires
        parse_i32_spec(line) is None,
    ensures
        answer_choice_spec(line, n) is None,
{
}

} // verus!
