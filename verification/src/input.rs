//! What a line or a message from the client means.

use vstd::prelude::*;
use crate::protocol::{ContentPartView, MessageView, VuhlpContentPart, VuhlpMessage};
use crate::text::{same_text, trimmed};

verus! {

/// The commands that start a new conversation.
pub open spec fn is_reset(line: Seq<char>) -> bool {
    line == "/new"@ || line == "/clear"@
}

/// Whether a trimmed line asks for a new conversation.
pub fn is_reset_command(line: &str) -> (res: bool)
    ensures
        res == is_reset(line@),
{
    same_text(line, "/new") || same_text(line, "/clear")
}

/// What to do with a line that the client sent between turns.
#[derive(Debug, PartialEq)]
pub enum LineKind {
    /// Nothing but white space: skip it.
    Blank,
    /// Start a new conversation.
    Reset,
    /// Read `text` as a message.
    Message { text: String },
}

/// Model of [`LineKind`].
pub enum LineKindView {
    Blank,
    Reset,
    Message { text: Seq<char> },
}

impl View for LineKind {
    type V = LineKindView;

    open spec fn view(&self) -> LineKindView {
        match self {
            LineKind::Blank => LineKindView::Blank,
            LineKind::Reset => LineKindView::Reset,
            LineKind::Message { text } => LineKindView::Message { text: text@ },
        }
    }
}

/// The meaning of a line between turns: white space at its ends is ignored.
pub open spec fn line_kind(line: Seq<char>) -> LineKindView {
    let text = trimmed(line);
    if text.len() == 0 {
        LineKindView::Blank
    } else if is_reset(text) {
        LineKindView::Reset
    } else {
        LineKindView::Message { text }
    }
}

/// Classifies a line that the client sent between turns.
pub fn classify_line(line: &str) -> (res: LineKind)
    ensures
        res@ == line_kind(line@),
{
    let text = line.trim();
    if text.is_empty() {
        LineKind::Blank
    } else if is_reset_command(text) {
        LineKind::Reset
    } else {
        LineKind::Message { text: text.to_owned() }
    }
}

/// The text of a line that is read as an answer to a request for approval, or
/// nothing if the line is blank. Reset commands have no meaning there.
pub open spec fn answer_text(line: Seq<char>) -> Option<Seq<char>> {
    let text = trimmed(line);
    if text.len() == 0 {
        None
    } else {
        Some(text)
    }
}

/// The text to read as an answer to a request for approval; `None` if the line
/// is blank.
pub fn approval_text(line: &str) -> (res: Option<String>)
    ensures
        res.deep_view() == answer_text(line@),
{
    let text = line.trim();
    if text.is_empty() {
        None
    } else {
        Some(text.to_owned())
    }
}

/// The text of a part; other parts have none.
pub open spec fn part_text(part: ContentPartView) -> Seq<char> {
    match part {
        ContentPartView::Text { text } => text,
        ContentPartView::Other => Seq::empty(),
    }
}

/// The texts of the parts, in order, with nothing between them.
pub open spec fn parts_text(parts: Seq<ContentPartView>) -> Seq<char>
    decreases parts.len(),
{
    if parts.len() == 0 {
        Seq::empty()
    } else {
        parts_text(parts.drop_last()) + part_text(parts.last())
    }
}

/// The prompt of a message: its text, unless that is empty.
pub open spec fn prompt_of(message: MessageView) -> Option<Seq<char>> {
    let text = parts_text(message.content);
    if text.len() == 0 {
        None
    } else {
        Some(text)
    }
}

/// Joins the text parts of a message into a prompt. Parts of other types are
/// skipped, and so is the role; a message without text has no prompt.
pub fn extract_prompt(message: &VuhlpMessage) -> (res: Option<String>)
    ensures
        res.deep_view() == prompt_of(message@),
{
    let mut prompt = String::new();
    let ghost parts = message@.content;
    let count = message.content.len();
    for i in 0..count
        invariant
            count == message.content.len(),
            parts == message@.content,
            prompt@ == parts_text(parts.take(i as int)),
    {
        proof {
            assert(parts.take(i + 1).drop_last() =~= parts.take(i as int));
            assert(parts[i as int] == message.content[i as int]@);
        }
        if let VuhlpContentPart::Text { text } = &message.content[i] {
            prompt.append(text.as_str());
        }
    }
    proof {
        assert(parts.take(count as int) =~= parts);
    }
    if prompt.as_str().is_empty() {
        None
    } else {
        Some(prompt)
    }
}

} // verus!
