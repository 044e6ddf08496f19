//! Text as contracts see it: sequences of characters, and results made of
//! them.

use vstd::prelude::*;

verus! {

/// The mathematical value of a result that is text either way: the payload of
/// a success or the message of a failure.
pub type TextResult = Result<Seq<char>, Seq<char>>;

/// A success that carries `text`.
pub open spec fn success(text: Seq<char>) -> TextResult {
    Ok(text)
}

/// A failure that carries `message`.
pub open spec fn failure(message: Seq<char>) -> TextResult {
    Err(message)
}

/// The mathematical value of `result`.
pub open spec fn text_result(result: Result<String, String>) -> TextResult {
    match result {
        Ok(text) => success(text@),
        Err(message) => failure(message@),
    }
}

/// `needle` stands in `text` from position `start` on.
pub open spec fn occurs_at(text: Seq<char>, needle: Seq<char>, start: int) -> bool {
    &&& 0 <= start
    &&& start + needle.len() <= text.len()
    &&& text.subrange(start, start + needle.len()) == needle
}

/// `needle` stands somewhere in `text`, its characters next to each other.
pub open spec fn contains_text(text: Seq<char>, needle: Seq<char>) -> bool {
    exists|start: int| occurs_at(text, needle, start)
}

} // verus!
