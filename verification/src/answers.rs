//! The per-question answer list: built by putting the correct answer first
//! and the incorrect ones after it, then randomly permuting; graded by
//! exact, case-sensitive comparison against the correct answer.

use vstd::prelude::*;
use vstd::seq_lib::group_to_multiset_ensures;
use vstd::seq_lib::lemma_multiset_commutative;
use vstd::multiset::Multiset;
use crate::model::Question;
use crate::model::question_valid;

use rand::seq::SliceRandom;

verus! {

/// Relies on rand's `SliceRandom::shuffle`, a Fisher-Yates swap loop: it
/// permutes the vector in place, so whatever permutation the generator
/// picks, the multiset of entries is unchanged.
#[verifier::external_body]
fn shuffle_strings(v: &mut Vec<String>)
    ensures
        final(v).deep_view().to_multiset() == old(v).deep_view().to_multiset(),
{
    v.shuffle(&mut rand::thread_rng());
}

/// The answer list offered for a question: the correct answer and the
/// incorrect ones, in an order the random shuffle picked. Whatever that
/// order, the entries are exactly the question's answer texts, and for a
/// valid question the correct text appears exactly once.
pub fn build_answers(question: &Question) -> (r: Vec<String>)
    ensures
        r.deep_view().to_multiset() == (seq![question.correct_answer@]
            + question.incorrect_answers.deep_view()).to_multiset(),
        r.len() == 1 + question.incorrect_answers.len(),
        question_valid(question) ==> r.deep_view().to_multiset().count(question.correct_answer@)
            == 1,
{
    let ghost correct = question.correct_answer@;
    let ghost incorrect = question.incorrect_answers.deep_view();
    let mut answers: Vec<String> = Vec::new();
    answers.push(question.correct_answer.clone());
    let n = question.incorrect_answers.len();
    let mut j: usize = 0;
    while j < n
        invariant
            n == question.incorrect_answers.len(),
            j <= n,
            incorrect == question.incorrect_answers.deep_view(),
            correct == question.correct_answer@,
            answers@.len() == j + 1,
            answers@[0]@ == correct,
            forall|t: int| 1 <= t <= j ==> #[trigger] answers@[t]@ == incorrect[t - 1],
        decreases n - j,
    {
        answers.push(question.incorrect_answers[j].clone());
        j = j + 1;
    }
    proof {
        assert(answers.deep_view() =~= seq![correct] + incorrect) by {
            assert forall|t: int| 0 <= t < answers@.len() implies answers.deep_view()[t] == (
            seq![correct] + incorrect)[t] by {
                assert(answers.deep_view()[t] == answers@[t]@);
                if t >= 1 {
                    assert(answers@[t]@ == incorrect[t - 1]);
                }
            }
        }
    }
    shuffle_strings(&mut answers);
    proof {
        broadcast use group_to_multiset_ensures;

        lemma_multiset_commutative(seq![correct], incorrect);
        assert(seq![correct] =~= Seq::<Seq<char>>::empty().push(correct));
        assert(Seq::<Seq<char>>::empty().to_multiset() =~= Multiset::<Seq<char>>::empty());
        assert(seq![correct].to_multiset() =~= Multiset::<Seq<char>>::empty().insert(correct));
        assert(seq![correct].to_multiset().count(correct) == 1);
        assert(answers.deep_view().to_multiset().len() == answers.deep_view().len());
        assert((seq![correct] + incorrect).to_multiset().len() == (seq![correct]
            + incorrect).len());
        if question_valid(question) {
            assert(!incorrect.contains(correct));
            assert(incorrect.to_multiset().count(correct) == 0);
        }
    }
    answers
}

/// In an answer list that holds the correct text exactly once, at position
/// `k`, selecting position `i` is judged correct exactly when `i == k`:
/// the verdict is determined by the selection alone.
pub proof fn lemma_choice_verdict(answers: Seq<Seq<char>>, correct: Seq<char>, k: int, i: int)
    requires
        answers.to_multiset().count(correct) == 1,
        0 <= k < answers.len(),
        answers[k] == correct,
        0 <= i < answers.len(),
    ensures
        (answers[i] == correct) <==> (i == k),
{
    broadcast use group_to_multiset_ensures;
    broadcast use vstd::multiset::group_multiset_axioms;

    if i != k && answers[i] == correct {
        let rest = answers.remove(i);
        assert(rest.to_multiset() == answers.to_multiset().remove(correct));
        let kk = if k < i {
            k
        } else {
            k - 1
        };
        assert(rest[kk] == correct);
        assert(rest.contains(correct));
        assert(rest.to_multiset().count(correct) > 0);
        assert(answers.to_multiset().count(correct) >= 2);
    }
    if i == k {
        assert(answers[i] == correct);
    }
}

/// Grade a selection: whether the chosen entry equals the question's
/// correct answer, by exact, case-sensitive string comparison.
pub fn grade_answer(answers: &Vec<String>, choice: usize, correct: &String) -> (r: bool)
    requires
        choice < answers.len(),
    ensures
        r <==> answers.deep_view()[choice as int] == correct@,
{
    let chosen = &answers[choice];
    let r = chosen.eq(correct);
    proof {
        assert(answers.deep_view()[choice as int] == answers@[choice as int]@);
    }
    r
}

/// The feedback line printed after a guess.
pub fn feedback_line(correct: bool) -> (r: &'static str)
    ensures
        correct ==> r@ == "Good one! That was correct!"@,
        !correct ==> r@ == "That's wrong. :("@,
{
    if correct {
        "Good one! That was correct!"
    } else {
        "That's wrong. :("
    }
}

} // verus!
