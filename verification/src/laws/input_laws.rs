//! Laws of lines and prompts.

use vstd::prelude::*;
use crate::input::{
    answer_text, is_reset, line_kind, part_text, parts_text, prompt_of, LineKindView,
};
use crate::protocol::{ContentPartView, MessageView};
use crate::text::{is_white_space, trimmed, trimmed_end, trimmed_start};

verus! {

/// Whether a text is nothing but white space.
pub open spec fn is_blank(s: Seq<char>) -> bool {
    forall|i: int| 0 <= i < s.len() ==> is_white_space(#[trigger] s[i])
}

proof fn lemma_trimmed_start_skips(space: Seq<char>, s: Seq<char>)
    requires
        is_blank(space),
    ensures
        trimmed_start(space + s) == trimmed_start(s),
    decreases space.len(),
{
    if space.len() == 0 {
        assert(space + s =~= s);
    } else {
        assert((space + s).first() == space[0]);
        assert((space + s).drop_first() =~= space.drop_first() + s);
        lemma_trimmed_start_skips(space.drop_first(), s);
    }
}

proof fn lemma_trimmed_end_skips(s: Seq<char>, space: Seq<char>)
    requires
        is_blank(space),
    ensures
        trimmed_end(s + space) == trimmed_end(s),
    decreases space.len(),
{
    if space.len() == 0 {
        assert(s + space =~= s);
    } else {
        assert((s + space).last() == space[space.len() - 1]);
        assert((s + space).drop_last() =~= s + space.drop_last());
        lemma_trimmed_end_skips(s, space.drop_last());
    }
}

proof fn lemma_trimmed_start_of_blank(s: Seq<char>)
    ensures
        is_blank(s) <==> trimmed_start(s).len() == 0,
    decreases s.len(),
{
    if s.len() > 0 {
        if is_white_space(s.first()) {
            lemma_trimmed_start_of_blank(s.drop_first());
            if is_blank(s) {
                assert(is_blank(s.drop_first()));
            }
            if is_blank(s.drop_first()) {
                assert forall|i: int| 0 <= i < s.len() implies is_white_space(#[trigger] s[i]) by {
                    if i > 0 {
                        assert(s[i] == s.drop_first()[i - 1]);
                    }
                }
            }
        } else {
            assert(!is_white_space(s[0]));
        }
    }
}

proof fn lemma_trimmed_start_keeps(s: Seq<char>, t: Seq<char>)
    requires
        !is_blank(s),
    ensures
        trimmed_start(s + t) == trimmed_start(s) + t,
    decreases s.len(),
{
    assert((s + t).first() == s.first());
    if is_white_space(s.first()) {
        assert((s + t).drop_first() =~= s.drop_first() + t);
        if is_blank(s.drop_first()) {
            assert forall|i: int| 0 <= i < s.len() implies is_white_space(#[trigger] s[i]) by {
                if i > 0 {
                    assert(s[i] == s.drop_first()[i - 1]);
                }
            }
        }
        lemma_trimmed_start_keeps(s.drop_first(), t);
    }
}

proof fn lemma_trimmed_start_first(s: Seq<char>)
    ensures
        trimmed_start(s).len() > 0 ==> !is_white_space(trimmed_start(s).first()),
    decreases s.len(),
{
    if s.len() > 0 && is_white_space(s.first()) {
        lemma_trimmed_start_first(s.drop_first());
    }
}

proof fn lemma_trimmed_end_ends(s: Seq<char>)
    ensures
        trimmed_end(s).len() > 0 ==> !is_white_space(trimmed_end(s).last()),
        trimmed_end(s).len() <= s.len(),
        trimmed_end(s) == s.take(trimmed_end(s).len() as int),
        is_blank(s.skip(trimmed_end(s).len() as int)),
    decreases s.len(),
{
    if s.len() > 0 && is_white_space(s.last()) {
        let rest = s.drop_last();
        let n = trimmed_end(rest).len() as int;
        lemma_trimmed_end_ends(rest);
        assert(s.take(n) =~= rest.take(n));
        assert forall|i: int| 0 <= i < s.skip(n).len() implies is_white_space(
            #[trigger] s.skip(n)[i],
        ) by {
            if i < rest.skip(n).len() {
                assert(s.skip(n)[i] == rest.skip(n)[i]);
            }
        }
    } else {
        assert(s.take(s.len() as int) =~= s);
    }
}

/// White space around a text makes no difference once the text is trimmed.
pub proof fn law_trim_ignores_surroundings(before: Seq<char>, s: Seq<char>, after: Seq<char>)
    requires
        is_blank(before),
        is_blank(after),
    ensures
        trimmed(before + s + after) == trimmed(s),
{
    assert(before + s + after =~= before + (s + after));
    lemma_trimmed_start_skips(before, s + after);
    if is_blank(s) {
        lemma_trimmed_start_of_blank(s);
        lemma_trimmed_start_of_blank(s + after);
        assert(is_blank(s + after));
        assert(trimmed_start(s + after) =~= trimmed_start(s));
    } else {
        lemma_trimmed_start_keeps(s, after);
        lemma_trimmed_end_skips(trimmed_start(s), after);
    }
}

/// A trimmed text has no white space at either end, and it is empty exactly if
/// the text was blank.
pub proof fn law_trimmed_ends(s: Seq<char>)
    ensures
        trimmed(s).len() == 0 <==> is_blank(s),
        trimmed(s).len() > 0 ==> !is_white_space(trimmed(s).first()) && !is_white_space(
            trimmed(s).last(),
        ),
{
    let start = trimmed_start(s);
    lemma_trimmed_start_of_blank(s);
    lemma_trimmed_start_first(s);
    lemma_trimmed_end_ends(start);
    if start.len() > 0 && trimmed(s).len() == 0 {
        assert(is_blank(start.skip(0)));
        assert(start.skip(0)[0] == start[0]);
    }
    if trimmed(s).len() > 0 {
        assert(trimmed(s).first() == start.first());
    }
}

/// Trimming twice is trimming once.
pub proof fn law_trim_is_idempotent(s: Seq<char>)
    ensures
        trimmed(trimmed(s)) == trimmed(s),
{
    law_trimmed_ends(s);
}

/// A line means the same with any white space around it, between turns as well
/// as while a request for approval is open.
pub proof fn law_lines_ignore_surroundings(before: Seq<char>, line: Seq<char>, after: Seq<char>)
    requires
        is_blank(before),
        is_blank(after),
    ensures
        line_kind(before + line + after) == line_kind(line),
        answer_text(before + line + after) == answer_text(line),
{
    law_trim_ignores_surroundings(before, line, after);
}

/// Only blank lines are skipped, between turns as well as while a request for
/// approval is open.
pub proof fn law_blank_lines_are_skipped(line: Seq<char>)
    ensures
        line_kind(line) is Blank <==> is_blank(line),
        answer_text(line) is None <==> is_blank(line),
{
    law_trimmed_ends(line);
}

/// White space is these characters and no others.
pub proof fn law_white_space(c: char)
    ensures
        is_white_space(c) <==> {
            ||| c == '\t' || c == '\n' || c == '\u{b}' || c == '\u{c}' || c == '\r' || c == ' '
            ||| c == '\u{85}' || c == '\u{a0}' || c == '\u{1680}'
            ||| c == '\u{2000}' || c == '\u{2001}' || c == '\u{2002}' || c == '\u{2003}'
            ||| c == '\u{2004}' || c == '\u{2005}' || c == '\u{2006}' || c == '\u{2007}'
            ||| c == '\u{2008}' || c == '\u{2009}' || c == '\u{200a}'
            ||| c == '\u{2028}' || c == '\u{2029}' || c == '\u{202f}' || c == '\u{205f}'
            ||| c == '\u{3000}'
        },
{
}

/// The two reset commands, letter by letter; no other text is one.
pub proof fn law_reset_commands(text: Seq<char>)
    ensures
        is_reset(text) <==> text == seq!['/', 'n', 'e', 'w'] || text == seq![
            '/',
            'c',
            'l',
            'e',
            'a',
            'r',
        ],
{
    reveal_strlit("/new");
    reveal_strlit("/clear");
    assert("/new"@ =~= seq!['/', 'n', 'e', 'w']);
    assert("/clear"@ =~= seq!['/', 'c', 'l', 'e', 'a', 'r']);
}

/// Whether a text begins and ends with something that is no white space.
pub open spec fn has_clean_ends(text: Seq<char>) -> bool {
    &&& text.len() > 0
    &&& !is_white_space(text[0])
    &&& !is_white_space(text[text.len() - 1])
}

/// A line is a text with white space around it, and it is read for that text. It
/// is a reset if the text is one of the two commands; any other text is handed on
/// in full as a message. While a request for approval is open every text is handed
/// on in full, the two commands too.
pub proof fn law_lines_are_read_in_full(before: Seq<char>, text: Seq<char>, after: Seq<char>)
    requires
        is_blank(before),
        has_clean_ends(text),
        is_blank(after),
    ensures
        trimmed(before + text + after) == text,
        answer_text(before + text + after) == Some(text),
        line_kind(before + text + after) is Reset <==> text == seq!['/', 'n', 'e', 'w'] || text
            == seq!['/', 'c', 'l', 'e', 'a', 'r'],
        !(line_kind(before + text + after) is Reset) ==> line_kind(before + text + after) == (
        LineKindView::Message { text }),
{
    law_trim_ignores_surroundings(before, text, after);
    law_reset_commands(text);
    assert(trimmed(text) == text);
}

/// A line whose text begins with a brace, as every JSON message does, is handed on
/// in full, whatever its length.
pub proof fn law_json_lines_are_messages(before: Seq<char>, text: Seq<char>, after: Seq<char>)
    requires
        is_blank(before),
        has_clean_ends(text),
        text[0] == '{',
        is_blank(after),
    ensures
        line_kind(before + text + after) == (LineKindView::Message { text }),
{
    law_lines_are_read_in_full(before, text, after);
}

proof fn lemma_trimmed_start_is_the_rest(s: Seq<char>)
    ensures
        trimmed_start(s).len() <= s.len(),
        is_blank(s.take(s.len() - trimmed_start(s).len())),
        trimmed_start(s) == s.skip(s.len() - trimmed_start(s).len()),
    decreases s.len(),
{
    let n = s.len() - trimmed_start(s).len();
    if s.len() > 0 && is_white_space(s.first()) {
        let rest = s.drop_first();
        lemma_trimmed_start_is_the_rest(rest);
        assert(s.skip(n) =~= rest.skip(n - 1));
        assert forall|i: int| 0 <= i < s.take(n).len() implies is_white_space(
            #[trigger] s.take(n)[i],
        ) by {
            if i > 0 {
                assert(s.take(n)[i] == rest.take(n - 1)[i - 1]);
            }
        }
    } else {
        assert(s.skip(0) =~= s);
    }
}

/// Every line that is not blank is a text with white space around it.
pub proof fn law_every_line_holds_a_text(line: Seq<char>)
    requires
        !is_blank(line),
    ensures
        has_clean_ends(trimmed(line)),
        exists|before: Seq<char>, after: Seq<char>|
            is_blank(before) && is_blank(after) && line == #[trigger] (before + trimmed(line)
                + after),
{
    law_trimmed_ends(line);
    lemma_trimmed_start_is_the_rest(line);
    let start = trimmed_start(line);
    lemma_trimmed_end_ends(start);
    let n = line.len() - start.len();
    let before = line.take(n);
    let after = start.skip(trimmed(line).len() as int);
    assert(line =~= before + trimmed(line) + after);
}

/// The text of two runs of parts is the text of the first and then that of the
/// second.
pub proof fn law_parts_concatenate(a: Seq<ContentPartView>, b: Seq<ContentPartView>)
    ensures
        parts_text(a + b) == parts_text(a) + parts_text(b),
    decreases b.len(),
{
    if b.len() == 0 {
        assert(a + b =~= a);
        assert(parts_text(a) + parts_text(b) =~= parts_text(a));
    } else {
        assert((a + b).drop_last() =~= a + b.drop_last());
        assert((a + b).last() == b.last());
        law_parts_concatenate(a, b.drop_last());
        assert(parts_text(a) + parts_text(b.drop_last()) + part_text(b.last()) =~= parts_text(a) + (
        parts_text(b.drop_last()) + part_text(b.last())));
    }
}

/// Parts that are no text, and the role, make no difference to a prompt.
pub proof fn law_prompt_reads_text_only(
    a: MessageView,
    b: MessageView,
    before: Seq<ContentPartView>,
    after: Seq<ContentPartView>,
)
    requires
        a.content == before + seq![ContentPartView::Other] + after,
        b.content == before + after,
    ensures
        prompt_of(a) == prompt_of(b),
{
    let other = seq![ContentPartView::Other];
    law_parts_concatenate(before + other, after);
    law_parts_concatenate(before, other);
    law_parts_concatenate(before, after);
    assert(other.drop_last() =~= Seq::empty());
    assert(parts_text(other) =~= Seq::empty()) by {
        reveal_with_fuel(parts_text, 2);
    }
    assert(parts_text(before) + parts_text(other) =~= parts_text(before));
}

/// A message has no prompt exactly if none of its parts holds any text.
pub proof fn law_no_prompt_without_text(message: MessageView)
    ensures
        prompt_of(message) is None <==> (forall|i: int|
            0 <= i < message.content.len() ==> part_text(#[trigger] message.content[i]).len() == 0),
{
    lemma_empty_text(message.content);
}

proof fn lemma_empty_text(parts: Seq<ContentPartView>)
    ensures
        parts_text(parts).len() == 0 <==> (forall|i: int|
            0 <= i < parts.len() ==> part_text(#[trigger] parts[i]).len() == 0),
    decreases parts.len(),
{
    if parts.len() > 0 {
        let rest = parts.drop_last();
        lemma_empty_text(rest);
        if parts_text(parts).len() == 0 {
            assert forall|i: int| 0 <= i < parts.len() implies part_text(
                #[trigger] parts[i],
            ).len() == 0 by {
                if i < rest.len() {
                    assert(parts[i] == rest[i]);
                }
            }
        } else if forall|i: int|
            0 <= i < parts.len() ==> part_text(#[trigger] parts[i]).len() == 0 {
            assert forall|i: int| 0 <= i < rest.len() implies part_text(
                #[trigger] rest[i],
            ).len() == 0 by {
                assert(rest[i] == parts[i]);
            }
            assert(part_text(parts[parts.len() - 1]).len() == 0);
        }
    }
}

/// The text that the agent is handed for a message; nothing if there is no prompt.
pub open spec fn handed_on(message: MessageView) -> Seq<char> {
    match prompt_of(message) {
        Some(prompt) => prompt,
        None => Seq::empty(),
    }
}

/// A message of one text part has that text as its prompt, in full and whatever
/// its length; an empty text, or a part of another type, makes no prompt.
pub proof fn law_prompt_of_one_part(role: Seq<char>, part: ContentPartView)
    ensures
        ({
            let message = MessageView { role, content: seq![part] };
            prompt_of(message) == match part {
                ContentPartView::Text { text } => if text.len() > 0 {
                    Some(text)
                } else {
                    None
                },
                ContentPartView::Other => None,
            }
        }),
{
    let parts = seq![part];
    assert(parts.drop_last() =~= Seq::empty());
    assert(parts.last() == part);
    reveal_with_fuel(parts_text, 2);
    assert(parts_text(parts) =~= part_text(part));
}

/// The prompt of a message whose parts are those of two others is the prompt of
/// the first and then that of the second, with nothing lost or put in between;
/// and a prompt is never empty. The roles make no difference.
pub proof fn law_prompts_concatenate(
    role: Seq<char>,
    a: MessageView,
    b: MessageView,
)
    ensures
        ({
            let both = MessageView { role, content: a.content + b.content };
            &&& handed_on(both) == handed_on(a) + handed_on(b)
            &&& handed_on(both).len() == handed_on(a).len() + handed_on(b).len()
            &&& prompt_of(both) is Some <==> prompt_of(a) is Some || prompt_of(b) is Some
            &&& prompt_of(both) matches Some(prompt) ==> prompt.len() > 0
        }),
{
    law_parts_concatenate(a.content, b.content);
    assert(handed_on(a) =~= parts_text(a.content));
    assert(handed_on(b) =~= parts_text(b.content));
    let both = MessageView { role, content: a.content + b.content };
    assert(handed_on(both) =~= parts_text(both.content));
}

/// The lengths of the text parts, added up.
pub open spec fn text_length(parts: Seq<ContentPartView>) -> nat
    decreases parts.len(),
{
    if parts.len() == 0 {
        0
    } else {
        text_length(parts.drop_last()) + match parts.last() {
            ContentPartView::Text { text } => text.len(),
            ContentPartView::Other => 0,
        }
    }
}

/// A prompt is as long as the text parts of its message together.
pub proof fn law_prompts_have_full_length(message: MessageView)
    ensures
        handed_on(message).len() == text_length(message.content),
{
    lemma_text_length(message.content);
}

proof fn lemma_text_length(parts: Seq<ContentPartView>)
    ensures
        parts_text(parts).len() == text_length(parts),
    decreases parts.len(),
{
    if parts.len() > 0 {
        lemma_text_length(parts.drop_last());
    }
}

/// The text of the part at `i` stands in the prompt as it is, right behind the
/// texts of the parts before it.
pub proof fn law_every_part_stands_in_the_prompt(message: MessageView, i: int)
    requires
        0 <= i < message.content.len(),
        message.content[i] is Text,
    ensures
        ({
            let text = message.content[i]->text;
            let start = text_length(message.content.take(i));
            &&& start + text.len() <= handed_on(message).len()
            &&& handed_on(message).subrange(start as int, (start + text.len()) as int) == text
        }),
{
    let parts = message.content;
    let upto = parts.take(i + 1);
    lemma_text_length(parts.take(i));
    assert(upto.drop_last() =~= parts.take(i));
    assert(upto.last() == parts[i]);
    assert(upto + parts.skip(i + 1) =~= parts);
    law_parts_concatenate(upto, parts.skip(i + 1));
    let text = parts[i]->text;
    let start = text_length(parts.take(i)) as int;
    assert(handed_on(message) =~= parts_text(parts));
    assert(handed_on(message).subrange(start, start + text.len()) =~= text);
}

} // verus!
