use trivia_quiz::answers::build_answers;
use trivia_quiz::answers::feedback_line;
use trivia_quiz::answers::grade_answer;
use trivia_quiz::input::answer_choice;
use trivia_quiz::input::classify_category_input;
use trivia_quiz::input::is_valid_amount;
use trivia_quiz::input::CategoryInput;
use trivia_quiz::model::resolve_args;
use trivia_quiz::model::ArgPlan;
use trivia_quiz::model::Category;
use trivia_quiz::model::Config;
use trivia_quiz::model::Question;
use trivia_quiz::numbers::i32_to_string;
use trivia_quiz::numbers::parse_i32;
use trivia_quiz::present::answer_menu;
use trivia_quiz::present::categories_table;
use trivia_quiz::present::question_line;
use trivia_quiz::present::reveal_answer_line;
use trivia_quiz::score::score_banner;
use trivia_quiz::score::score_message;
use trivia_quiz::score::score_tier;
use trivia_quiz::score::ScoreTier;
use trivia_quiz::url::categories_url;
use trivia_quiz::url::questions_url;

fn paris_question() -> Question {
    Question {
        category: String::from("Geography"),
        question: String::from("What is the capital of France?"),
        difficulty: String::from("easy"),
        correct_answer: String::from("Paris"),
        incorrect_answers: vec![
            String::from("Rome"),
            String::from("Berlin"),
            String::from("Madrid"),
        ],
    }
}

fn count_of(items: &[String], wanted: &str) -> usize {
    items.iter().filter(|s| s.as_str() == wanted).count()
}

fn bytes_contain(haystack: &[u8], needle: &[u8]) -> bool {
    haystack.windows(needle.len()).any(|w| w == needle)
}

#[test]
fn parse_accepts_plain_integers() {
    assert_eq!(parse_i32("42"), Some(42));
    assert_eq!(parse_i32("0"), Some(0));
    assert_eq!(parse_i32("007"), Some(7));
    assert_eq!(parse_i32("-7"), Some(-7));
    assert_eq!(parse_i32("+13"), Some(13));
    assert_eq!(parse_i32("-0"), Some(0));
}

#[test]
fn parse_rejects_non_integers() {
    assert_eq!(parse_i32("abc"), None);
    assert_eq!(parse_i32(""), None);
    assert_eq!(parse_i32("3.5"), None);
    assert_eq!(parse_i32(" 5"), None);
    assert_eq!(parse_i32("5 "), None);
    assert_eq!(parse_i32("-"), None);
    assert_eq!(parse_i32("+"), None);
    assert_eq!(parse_i32("1e3"), None);
}

#[test]
fn parse_respects_the_i32_range() {
    assert_eq!(parse_i32("2147483647"), Some(2147483647));
    assert_eq!(parse_i32("2147483648"), None);
    assert_eq!(parse_i32("-2147483648"), Some(-2147483648));
    assert_eq!(parse_i32("-2147483649"), None);
    assert_eq!(parse_i32("99999999999999999999"), None);
}

#[test]
fn amount_prompt_rejects_non_integers() {
    assert!(!is_valid_amount("abc"));
    assert!(!is_valid_amount(""));
    assert!(!is_valid_amount("3.5"));
    assert!(is_valid_amount("10"));
    assert!(is_valid_amount("0"));
    assert!(is_valid_amount("10000000"));
}

#[test]
fn category_prompt_classifies_lines() {
    assert!(matches!(classify_category_input("9"), CategoryInput::NumericChoice));
    assert!(matches!(classify_category_input("-1"), CategoryInput::NumericChoice));
    assert!(matches!(classify_category_input("?"), CategoryInput::ListRequest));
    assert!(matches!(classify_category_input("abc"), CategoryInput::Invalid));
    assert!(matches!(classify_category_input(""), CategoryInput::Invalid));
    assert!(matches!(classify_category_input("3.5"), CategoryInput::Invalid));
    assert!(matches!(classify_category_input("??"), CategoryInput::Invalid));
}

#[test]
fn answer_prompt_selects_only_in_range_numbers() {
    assert_eq!(answer_choice("1", 4), Some(0));
    assert_eq!(answer_choice("4", 4), Some(3));
    assert_eq!(answer_choice("5", 4), None);
    assert_eq!(answer_choice("0", 4), None);
    assert_eq!(answer_choice("-1", 4), None);
    assert_eq!(answer_choice("abc", 4), None);
    assert_eq!(answer_choice("", 4), None);
    assert_eq!(answer_choice("3.5", 4), None);
}

#[test]
fn answer_prompt_follows_the_live_length() {
    assert_eq!(answer_choice("6", 6), Some(5));
    assert_eq!(answer_choice("7", 6), None);
    assert_eq!(answer_choice("2", 1), None);
    assert_eq!(answer_choice("1", 1), Some(0));
    assert_eq!(answer_choice("1", 0), None);
}

#[test]
fn integers_are_written_in_decimal() {
    assert_eq!(i32_to_string(0), "0");
    assert_eq!(i32_to_string(7), "7");
    assert_eq!(i32_to_string(120), "120");
    assert_eq!(i32_to_string(-5), "-5");
    assert_eq!(i32_to_string(2147483647), "2147483647");
    assert_eq!(i32_to_string(-2147483648), "-2147483648");
}

#[test]
fn two_arguments_are_used_verbatim() {
    let args = vec![
        String::from("quiz"),
        String::from("10"),
        String::from("9"),
    ];
    match resolve_args(&args) {
        ArgPlan::Provided { amount, category } => {
            assert_eq!(amount, "10");
            assert_eq!(category, "9");
        },
        _ => panic!("two positional arguments must be taken verbatim"),
    }
}

#[test]
fn one_argument_gives_the_amount_only() {
    let args = vec![String::from("quiz"), String::from("10")];
    match resolve_args(&args) {
        ArgPlan::AmountProvided { amount } => assert_eq!(amount, "10"),
        _ => panic!("one positional argument must give the amount"),
    }
}

#[test]
fn other_argument_counts_give_nothing() {
    let none = vec![String::from("quiz")];
    assert!(matches!(resolve_args(&none), ArgPlan::NothingProvided));
    let extra = vec![
        String::from("quiz"),
        String::from("10"),
        String::from("9"),
        String::from("x"),
    ];
    assert!(matches!(resolve_args(&extra), ArgPlan::NothingProvided));
}

#[test]
fn config_keeps_the_resolved_values() {
    let config = Config::new(String::from("10"), String::from("9"));
    assert_eq!(config.amount, "10");
    assert_eq!(config.category, "9");
}

#[test]
fn answer_set_has_the_correct_answer_exactly_once() {
    let question = paris_question();
    for _ in 0..50 {
        let answers = build_answers(&question);
        assert_eq!(answers.len(), 4);
        assert_eq!(count_of(&answers, "Paris"), 1);
        assert_eq!(count_of(&answers, "Rome"), 1);
        assert_eq!(count_of(&answers, "Berlin"), 1);
        assert_eq!(count_of(&answers, "Madrid"), 1);
    }
}

#[test]
fn answer_set_follows_the_answer_count() {
    let mut question = paris_question();
    question.incorrect_answers = Vec::new();
    assert_eq!(build_answers(&question), vec![String::from("Paris")]);
    question.incorrect_answers = (0..5).map(|i| format!("wrong {}", i)).collect();
    assert_eq!(build_answers(&question).len(), 6);
}

#[test]
fn grading_compares_the_chosen_entry_exactly() {
    let answers = vec![
        String::from("Paris"),
        String::from("Rome"),
        String::from("paris"),
    ];
    let correct = String::from("Paris");
    assert!(grade_answer(&answers, 0, &correct));
    assert!(!grade_answer(&answers, 1, &correct));
    assert!(!grade_answer(&answers, 2, &correct));
}

#[test]
fn feedback_lines_match_the_verdict() {
    assert_eq!(feedback_line(true), "Good one! That was correct!");
    assert_eq!(feedback_line(false), "That's wrong. :(");
}

#[test]
fn score_messages_follow_the_threshold_ladder() {
    assert_eq!(score_message(5, 5), "Congrats! You did perfectly.");
    assert_eq!(score_message(5, 4), "Well done! almost got all.");
    assert_eq!(score_message(5, 3), "You did okay.");
    assert_eq!(score_message(5, 1), "Better than zero.");
    assert_eq!(score_message(5, 0), "Surely you can do better, right?");
    assert_eq!(score_message(0, 0), "Surely you can do better, right?");
}

#[test]
fn score_tiers_follow_the_threshold_ladder() {
    assert_eq!(score_tier(5, 5), ScoreTier::Perfect);
    assert_eq!(score_tier(5, 4), ScoreTier::WellDone);
    assert_eq!(score_tier(5, 3), ScoreTier::Okay);
    assert_eq!(score_tier(10, 5), ScoreTier::Okay);
    assert_eq!(score_tier(5, 2), ScoreTier::AboveZero);
    assert_eq!(score_tier(5, 1), ScoreTier::AboveZero);
    assert_eq!(score_tier(5, 0), ScoreTier::Fallback);
    assert_eq!(score_tier(0, 0), ScoreTier::Fallback);
    assert_eq!(score_tier(1, 1), ScoreTier::Perfect);
}

#[test]
fn html_entities_are_decoded_for_display() {
    let mut question = paris_question();
    question.question = String::from("&quot;Hi&quot; &amp; bye");
    assert_eq!(question_line(&question), "\"Hi\" & bye");
}

#[test]
fn plain_text_is_displayed_unchanged() {
    let question = paris_question();
    assert_eq!(question_line(&question), "What is the capital of France?");
}

#[test]
fn the_revealed_answer_is_decoded() {
    let mut question = paris_question();
    question.correct_answer = String::from("Tom &amp; Jerry");
    assert_eq!(reveal_answer_line(&question), "Answer was: Tom & Jerry");
    assert_eq!(reveal_answer_line(&paris_question()), "Answer was: Paris");
}

#[test]
fn the_menu_numbers_answers_from_one() {
    let answers = vec![
        String::from("Paris"),
        String::from("Rome"),
        String::from("Tom &amp; Jerry"),
    ];
    let menu = answer_menu(&answers);
    assert_eq!(
        menu,
        vec![
            String::from("1) Paris"),
            String::from("2) Rome"),
            String::from("3) Tom & Jerry"),
        ]
    );
}

#[test]
fn the_category_table_is_rendered_with_borders() {
    let categories = vec![
        Category { id: 9, name: String::from("General") },
        Category { id: 10, name: String::from("Books") },
    ];
    let expected = "+----+---------+\n\
                    | 9  | General |\n\
                    +----+---------+\n\
                    | 10 | Books   |\n\
                    +----+---------+\n";
    assert_eq!(categories_table(&categories), expected);
}

#[test]
fn the_banner_wraps_the_message_in_a_speech_bubble() {
    let banner = score_banner(5, 5);
    assert!(bytes_contain(&banner, b"Congrats!"));
    assert!(bytes_contain(&banner, b"perfectly."));
    assert!(bytes_contain(&banner, b"_~^~^~_"));
    assert_ne!(banner, b"Congrats! You did perfectly.".to_vec());
}

#[test]
fn the_request_urls_are_fixed() {
    assert_eq!(categories_url(), "https://opentdb.com/api_category.php");
    assert_eq!(
        questions_url("10", "9"),
        "https://opentdb.com/api.php?amount=10&category=9&type=multiple"
    );
    assert_eq!(
        questions_url("5", ""),
        "https://opentdb.com/api.php?amount=5&category=&type=multiple"
    );
}

#[test]
fn a_perfect_single_question_run_end_to_end() {
    let question = paris_question();
    // One shuffle outcome places the correct answer first.
    let answers = vec![
        String::from("Paris"),
        String::from("Rome"),
        String::from("Berlin"),
        String::from("Madrid"),
    ];
    let menu = answer_menu(&answers);
    assert_eq!(menu[0], "1) Paris");
    let choice = answer_choice("1", answers.len()).expect("1 selects the first answer");
    assert_eq!(choice, 0);
    let verdict = grade_answer(&answers, choice, &question.correct_answer);
    assert!(verdict);
    assert_eq!(feedback_line(verdict), "Good one! That was correct!");
    let total = parse_i32("1").expect("the amount parses");
    let correct = 1;
    assert_eq!(
        format!("You got {} correct answers out of {}.", correct, total),
        "You got 1 correct answers out of 1."
    );
    assert_eq!(score_message(total, correct), "Congrats! You did perfectly.");
}
