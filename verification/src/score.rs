//! The end-of-run score message: a pure function of the pair
//! (total, correct), selected by a fixed descending threshold ladder over
//! the exact ratio correct/total, and handed to the mascot renderer.

use vstd::prelude::*;

verus! {

/// The tiers of the final message, from best to worst.
#[derive(Clone, Copy, PartialEq, Eq, Structural, Debug)]
pub enum ScoreTier {
    Perfect,
    WellDone,
    Okay,
    AboveZero,
    Fallback,
}

/// The threshold ladder, evaluated top-down on the exact ratio
/// correct/total: exactly 1 gives `Perfect`, above 7/10 `WellDone`, above
/// 4/10 `Okay`, above 0 `AboveZero`, and anything else — a zero score, a
/// zero total, or a nonsensical negative total — the fallback. The ratio
/// comparisons are written over the integers, so no rounding intervenes.
pub open spec fn score_tier_spec(total: int, correct: int) -> ScoreTier
    recommends
        correct >= 0,
{
    if total < 0 {
        ScoreTier::Fallback
    } else if total > 0 && correct == total {
        ScoreTier::Perfect
    } else if 10 * correct > 7 * total {
        ScoreTier::WellDone
    } else if 10 * correct > 4 * total {
        ScoreTier::Okay
    } else if correct > 0 {
        ScoreTier::AboveZero
    } else {
        ScoreTier::Fallback
    }
}

/// Select the tier for a run: `total` is the amount that was asked for,
/// `correct` the number of correct guesses.
pub fn score_tier(total: i32, correct: i32) -> (t: ScoreTier)
    requires
        0 <= correct,
    ensures
        t == score_tier_spec(total as int, correct as int),
{
    if total < 0 {
        ScoreTier::Fallback
    } else if total > 0 && correct == total {
        ScoreTier::Perfect
    } else {
        let c10: i64 = (correct as i64) * 10;
        let t7: i64 = (total as i64) * 7;
        let t4: i64 = (total as i64) * 4;
        if c10 > t7 {
            ScoreTier::WellDone
        } else if c10 > t4 {
            ScoreTier::Okay
        } else if correct > 0 {
            ScoreTier::AboveZero
        } else {
            ScoreTier::Fallback
        }
    }
}

/// The message printed for each tier.
pub open spec fn tier_message(t: ScoreTier) -> Seq<char> {
    match t {
        ScoreTier::Perfect => "Congrats! You did perfectly."@,
        ScoreTier::WellDone => "Well done! almost got all."@,
        ScoreTier::Okay => "You did okay."@,
        ScoreTier::AboveZero => "Better than zero."@,
        ScoreTier::Fallback => "Surely you can do better, right?"@,
    }
}

/// The score message for a run: the message of its tier, and of nothing
/// else.
pub fn score_message(total: i32, correct: i32) -> (r: &'static str)
    requires
        0 <= correct,
    ensures
        r@ == tier_message(score_tier_spec(total as int, correct as int)),
{
    match score_tier(total, correct) {
        ScoreTier::Perfect => "Congrats! You did perfectly.",
        ScoreTier::WellDone => "Well done! almost got all.",
        ScoreTier::Okay => "You did okay.",
        ScoreTier::AboveZero => "Better than zero.",
        ScoreTier::Fallback => "Surely you can do better, right?",
    }
}

/// What the mascot renderer writes for a message at a display width.
pub uninterp spec fn mascot_art(message: Seq<char>, width: int) -> Seq<u8>;

/// Relies on `ferris_says::say`: it writes a speech bubble of the message,
/// wrapped to the given width, above a fixed mascot drawing. The output
/// depends on the message and the width alone, and a write to an in-memory
/// buffer cannot fail.
#[verifier::external_body]
fn render_mascot(message: &str, width: usize) -> (r: Vec<u8>)
    ensures
        r@ == mascot_art(message@, width as int),
{
    let mut buffer: Vec<u8> = Vec::new();
    let _ = ferris_says::say(message, width, &mut buffer);
    buffer
}

/// The display width the banner has always used.
pub const BANNER_WIDTH: usize = 24;

/// The end-of-run banner: the mascot saying the run's score message at the
/// fixed display width.
pub fn score_banner(total: i32, correct: i32) -> (r: Vec<u8>)
    requires
        0 <= correct,
    ensures
        r@ == mascot_art(tier_message(score_tier_spec(total as int, correct as int)),
            BANNER_WIDTH as int),
{
    let message = score_message(total, correct);
    render_mascot(message, BANNER_WIDTH)
}

} // verus!
