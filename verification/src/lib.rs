//! A verified core for a command-line trivia quiz.
//!
//! The library holds the quiz's logic: parsing the player's numeric input,
//! resolving the configuration from the argument list, building and grading
//! the per-question answer list, selecting the final score message, and
//! rendering the textual presentation. Network fetches and terminal I/O
//! live outside the library and hand it plain values.

pub mod answers;
pub mod input;
pub mod model;
pub mod numbers;
pub mod present;
pub mod score;
pub mod url;
