//! The greeting: a few lines that repeat what a request said of its sender.

use vstd::prelude::*;
use vstd::string::*;

verus! {

/// The optional settings of a greeting request.
#[derive(Clone, Debug, PartialEq, Eq)]
pub struct QueryParam {
    pub lang: Option<String>,
    pub page: Option<String>,
}

/// A text that was given, or the empty text.
pub open spec fn text_or_empty(given: Option<String>) -> Seq<char> {
    match given {
        Some(text) => text@,
        None => Seq::<char>::empty(),
    }
}

/// The greeting for `username`: three lines, the second with the language and
/// the third with the page, each left blank where it was not given.
pub open spec fn greeting_text(username: Seq<char>, lang: Seq<char>, page: Seq<char>) -> Seq<
    char,
> {
    "Hello, "@ + username + "!\nlanguage: "@ + lang + "\npage: "@ + page + "\n"@
}

/// Writes the greeting for `username` with the settings of `query`.
pub fn hello(username: &str, query: &QueryParam) -> (text: String)
    ensures
        text@ == greeting_text(username@, text_or_empty(query.lang), text_or_empty(query.page)),
{
    let mut text = "Hello, ".to_owned();
    text.append(username);
    text.append("!\nlanguage: ");
    match &query.lang {
        Some(lang) => {
            text.append(lang.as_str());
        },
        None => {
            assert(text@ + Seq::<char>::empty() =~= text@);
        },
    }
    text.append("\npage: ");
    match &query.page {
        Some(page) => {
            text.append(page.as_str());
        },
        None => {
            assert(text@ + Seq::<char>::empty() =~= text@);
        },
    }
    text.append("\n");
    text
}

} // verus!
