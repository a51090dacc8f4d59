//! The quiz's data: questions and categories as the trivia service reports
//! them, and the run configuration resolved from the argument list.

use vstd::prelude::*;

verus! {

/// One multiple-choice question. The texts may carry HTML entity
/// references; they are decoded only for display.
pub struct Question {
    pub category: String,
    pub question: String,
    pub difficulty: String,
    pub correct_answer: String,
    pub incorrect_answers: Vec<String>,
}

/// A question is valid when its correct answer does not also appear among
/// its incorrect answers, so an answer list built from it holds the correct
/// text exactly once.
pub open spec fn question_valid(q: &Question) -> bool {
    !q.incorrect_answers.deep_view().contains(q.correct_answer@)
}

/// One quiz category of the trivia service.
pub struct Category {
    pub id: i32,
    pub name: String,
}

/// The run configuration: both values are kept verbatim as typed or passed,
/// and parsed only where they are used.
pub struct Config {
    pub amount: String,
    pub category: String,
}

impl Config {
    /// Build the configuration from already-resolved values.
    pub fn new(amount: String, category: String) -> (c: Config)
        ensures
            c.amount@ == amount@,
            c.category@ == category@,
    {
        Config { amount, category }
    }
}

/// Which values the argument list already supplies.
pub enum ArgPlan {
    /// Two positional arguments: amount, then category.
    Provided { amount: String, category: String },
    /// One positional argument: the amount; the category must be prompted
    /// for.
    AmountProvided { amount: String },
    /// No usable positional arguments: both values must be prompted for.
    NothingProvided,
}

/// Read the configuration out of the process argument list, whose first
/// entry is the program name: exactly two positional arguments supply
/// amount then category, exactly one supplies the amount, and any other
/// count supplies nothing.
pub fn resolve_args(args: &Vec<String>) -> (p: ArgPlan)
    ensures
        args@.len() == 3 ==> (p matches ArgPlan::Provided { amount, category } && amount@
            == args@[1]@ && category@ == args@[2]@),
        args@.len() == 2 ==> (p matches ArgPlan::AmountProvided { amount } && amount@
            == args@[1]@),
        args@.len() != 2 && args@.len() != 3 ==> p is NothingProvided,
{
    if args.len() == 3 {
        ArgPlan::Provided { amount: args[1].clone(), category: args[2].clone() }
    } else if args.len() == 2 {
        ArgPlan::AmountProvided { amount: args[1].clone() }
    } else {
        ArgPlan::NothingProvided
    }
}

} // verus!
