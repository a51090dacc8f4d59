//! Presentation of a question and of the category table: HTML entity
//! references in the service's texts are decoded for display, answers are
//! numbered from 1, and categories are rendered as a two-column table.

use vstd::prelude::*;
use vstd::string::*;
use crate::model::Category;
use crate::model::Question;
use crate::numbers::i32_to_string;
use crate::numbers::int_string;

verus! {

/// What decoding HTML entity references leaves of a text.
pub uninterp spec fn html_decoded(s: Seq<char>) -> Seq<char>;

/// Relies on `html_escape::decode_html_entities`: the result depends on
/// the input text alone, and a text without `&` holds no entity reference
/// and comes back unchanged.
#[verifier::external_body]
fn decode_entities(s: &str) -> (r: String)
    ensures
        r@ == html_decoded(s@),
        !s@.contains('&') ==> r@ == s@,
{
    html_escape::decode_html_entities(s).into_owned()
}

/// The question text as it is shown: with its HTML entities decoded.
pub fn question_line(question: &Question) -> (r: String)
    ensures
        r@ == html_decoded(question.question@),
{
    decode_entities(question.question.as_str())
}

/// The line that reveals the correct answer after a wrong guess, with its
/// HTML entities decoded.
pub fn reveal_answer_line(question: &Question) -> (r: String)
    ensures
        r@ == "Answer was: "@ + html_decoded(question.correct_answer@),
{
    let mut line = String::from_str("Answer was: ");
    let decoded = decode_entities(question.correct_answer.as_str());
    line.append(decoded.as_str());
    line
}

/// One numbered line of the answer menu: the 1-based number, `) `, then
/// the decoded answer text.
pub open spec fn menu_line(index: int, answer: Seq<char>) -> Seq<char> {
    int_string(index + 1) + ") "@ + html_decoded(answer)
}

/// The answer menu: one numbered line per answer, in the given order.
pub fn answer_menu(answers: &Vec<String>) -> (r: Vec<String>)
    requires
        answers.len() < 0x7fff_ffff,
    ensures
        r.deep_view().len() == answers.len(),
        forall|i: int|
            0 <= i < answers.len() ==> #[trigger] r.deep_view()[i] == menu_line(
                i,
                answers.deep_view()[i],
            ),
{
    let mut lines: Vec<String> = Vec::new();
    let n = answers.len();
    let mut i: usize = 0;
    while i < n
        invariant
            n == answers.len(),
            n < 0x7fff_ffff,
            i <= n,
            lines@.len() == i,
            forall|t: int|
                0 <= t < i ==> #[trigger] lines@[t]@ == menu_line(t, answers.deep_view()[t]),
        decreases n - i,
    {
        let mut line = i32_to_string((i as i32) + 1);
        line.append(") ");
        let decoded = decode_entities(answers[i].as_str());
        line.append(decoded.as_str());
        proof {
            reveal_strlit(") ");
            assert(line@ == menu_line(i as int, answers.deep_view()[i as int]));
        }
        lines.push(line);
        i = i + 1;
    }
    proof {
        assert forall|t: int| 0 <= t < answers.len() implies #[trigger] lines.deep_view()[t]
            == menu_line(t, answers.deep_view()[t]) by {
            assert(lines.deep_view()[t] == lines@[t]@);
        }
    }
    lines
}

/// What the table writer prints for a list of rows of cells.
pub uninterp spec fn rendered_table(rows: Seq<Seq<Seq<char>>>) -> Seq<char>;

/// Relies on `text_tables::render`: the output is a deterministic function
/// of the cell texts, a write to an in-memory buffer cannot fail, and the
/// call panics only when the rows differ in length, which the caller rules
/// out.
#[verifier::external_body]
fn render_table(rows: &Vec<Vec<String>>) -> (r: String)
    requires
        forall|i: int, j: int|
            0 <= i < rows.deep_view().len() && 0 <= j < rows.deep_view().len()
                ==> #[trigger] rows.deep_view()[i].len() == #[trigger] rows.deep_view()[j].len(),
    ensures
        r@ == rendered_table(rows.deep_view()),
{
    let mut buffer: Vec<u8> = Vec::new();
    let _ = text_tables::render(&mut buffer, rows);
    String::from_utf8_lossy(&buffer).into_owned()
}

/// The rows of the category table: one row per category, its id written
/// in decimal, then its name.
pub open spec fn category_rows(categories: Seq<Category>) -> Seq<Seq<Seq<char>>> {
    Seq::new(categories.len(), |i: int| seq![int_string(categories[i].id as int), categories[i].name@])
}

/// The category table as the program prints it.
pub fn categories_table(categories: &Vec<Category>) -> (r: String)
    ensures
        r@ == rendered_table(category_rows(categories@)),
{
    let ghost want = category_rows(categories@);
    let mut rows: Vec<Vec<String>> = Vec::new();
    let n = categories.len();
    let mut i: usize = 0;
    while i < n
        invariant
            n == categories@.len(),
            i <= n,
            want == category_rows(categories@),
            rows@.len() == i,
            forall|t: int| 0 <= t < i ==> #[trigger] rows@[t].deep_view() == want[t],
        decreases n - i,
    {
        let mut row: Vec<String> = Vec::new();
        row.push(i32_to_string(categories[i].id));
        row.push(categories[i].name.clone());
        proof {
            assert(row.deep_view() =~= want[i as int]);
        }
        rows.push(row);
        i = i + 1;
    }
    proof {
        assert(rows.deep_view() =~= want);
        assert forall|a: int, b: int|
            0 <= a < rows.deep_view().len() && 0 <= b < rows.deep_view().len() implies #[trigger] rows.deep_view()[a].len()
            == #[trigger] rows.deep_view()[b].len() by {
            assert(rows.deep_view()[a].len() == 2);
            assert(rows.deep_view()[b].len() == 2);
        }
    }
    render_table(&rows)
}

} // verus!
