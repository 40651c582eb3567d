//! The counting game: the numbers from one upward, with `Fizz` for the
//! multiples of three, `Buzz` for those of five and `FizzBuzz` for those of
//! both.

use vstd::prelude::*;
use vstd::string::*;
use crate::decimal::{decimal_string, decimal_text, parse_i32, parsed_i32};
use crate::http::Status;

verus! {

/// The line of the number `i`, with its line feed.
pub open spec fn line_text(i: int) -> Seq<char> {
    if i % 3 == 0 && i % 5 == 0 {
        "FizzBuzz\n"@
    } else if i % 3 == 0 {
        "Fizz\n"@
    } else if i % 5 == 0 {
        "Buzz\n"@
    } else {
        decimal_text(i) + "\n"@
    }
}

/// The lines of the numbers from 1 to `n`, in order; empty where `n` is below
/// one.
pub open spec fn lines_text(n: int) -> Seq<char>
    decreases n,
{
    if n <= 0 {
        Seq::<char>::empty()
    } else {
        lines_text(n - 1) + line_text(n)
    }
}

/// How many lines are written where no count is asked for.
pub open spec fn default_count() -> int {
    30
}

/// The answer to a request for the game: status 200 and the lines up to the
/// count, which is 30 where none is given; status 400 where the count is no
/// 32-bit number in decimal notation.
pub open spec fn game_reply(count: Option<Seq<char>>) -> (Status, Seq<char>) {
    match count {
        None => (Status::Success, lines_text(default_count())),
        Some(text) => match parsed_i32(text) {
            Some(n) => (Status::Success, lines_text(n as int)),
            None => (Status::BadRequest, "Bad Request\n"@),
        },
    }
}

/// The value of a count that was given, or of none.
pub open spec fn count_view(count: Option<&str>) -> Option<Seq<char>> {
    match count {
        Some(text) => Some(text@),
        None => None,
    }
}

/// Writes the line of the number `i`.
pub fn line_for(i: i32) -> (text: String)
    ensures
        text@ == line_text(i as int),
{
    if i % 3 == 0 && i % 5 == 0 {
        "FizzBuzz\n".to_owned()
    } else if i % 3 == 0 {
        "Fizz\n".to_owned()
    } else if i % 5 == 0 {
        "Buzz\n".to_owned()
    } else {
        let mut text = decimal_string(i);
        text.append("\n");
        text
    }
}

/// Writes the lines of the numbers from 1 to `n`.
pub fn lines_up_to(n: i32) -> (text: String)
    ensures
        text@ == lines_text(n as int),
{
    let mut text = String::new();
    let mut done: i32 = 0;
    while done < n
        invariant
            0 <= done,
            done <= n || done == 0,
            text@ == lines_text(done as int),
        decreases n - done,
    {
        done = done + 1;
        let next = line_for(done);
        text.append(next.as_str());
    }
    text
}

/// Answers a request for the game. `count` is the count as the request gave
/// it, if it gave one.
pub fn fizzbuzz(count: Option<&str>) -> (reply: (Status, String))
    ensures
        (reply.0, reply.1@) == game_reply(count_view(count)),
{
    let n: i32 = match count {
        None => 30,
        Some(text) => match parse_i32(text) {
            Some(n) => n,
            None => {
                return (Status::BadRequest, "Bad Request\n".to_owned());
            },
        },
    };
    (Status::Success, lines_up_to(n))
}

} // verus!
