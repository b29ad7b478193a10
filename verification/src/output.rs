//! What is told to the user.

use crate::style::{cyan, green, in_cyan, in_green, in_red, in_yellow, red, yellow};
use crate::text::concat3;
use vstd::prelude::*;

verus! {

/// Where a line goes.
#[derive(Debug, Clone, Copy, PartialEq, Eq, Structural)]
pub enum Stream {
    /// To the standard output.
    Output,
    /// To the standard error.
    Errors,
}

/// A line for the user.
#[derive(Debug, PartialEq, Eq)]
pub struct Notice {
    pub stream: Stream,
    pub text: String,
}

/// The model of [`Notice`].
#[verifier::ext_equal]
pub struct NoticeView {
    pub stream: Stream,
    pub text: Seq<char>,
}

impl View for Notice {
    type V = NoticeView;

    open spec fn view(&self) -> NoticeView {
        NoticeView {
            stream: self.stream,
            text: self.text@,
        }
    }
}

impl DeepView for Notice {
    type V = NoticeView;

    open spec fn deep_view(&self) -> NoticeView {
        self@
    }
}

/// A line that begins with a green tick.
pub open spec fn ticked(text: Seq<char>) -> Seq<char> {
    in_green("✓"@) + " "@ + text
}

/// A line that begins with a yellow sign of warning.
pub open spec fn warned(text: Seq<char>) -> Seq<char> {
    in_yellow("⚠"@) + " "@ + text
}

/// A line that begins with a red cross.
pub open spec fn crossed(text: Seq<char>) -> Seq<char> {
    in_red("✗"@) + " "@ + text
}

/// A line that begins with a cyan arrow.
pub open spec fn pointed(text: Seq<char>) -> Seq<char> {
    in_cyan("→"@) + " "@ + text
}

/// A line that begins with a green tick.
pub fn tick(text: &str) -> (line: String)
    ensures
        line@ == ticked(text@),
{
    concat3(green("✓").as_str(), " ", text)
}

/// A line that begins with a yellow sign of warning.
pub fn warn(text: &str) -> (line: String)
    ensures
        line@ == warned(text@),
{
    concat3(yellow("⚠").as_str(), " ", text)
}

/// A line that begins with a red cross.
pub fn cross(text: &str) -> (line: String)
    ensures
        line@ == crossed(text@),
{
    concat3(red("✗").as_str(), " ", text)
}

/// A line that begins with a cyan arrow.
pub fn point(text: &str) -> (line: String)
    ensures
        line@ == pointed(text@),
{
    concat3(cyan("→").as_str(), " ", text)
}

/// The line `text` on `stream`.
pub open spec fn line_on(stream: Stream, text: Seq<char>) -> NoticeView {
    NoticeView { stream, text }
}

/// The lines `texts` on `stream`.
pub open spec fn lines_on(stream: Stream, texts: Seq<Seq<char>>) -> Seq<NoticeView> {
    texts.map_values(|text: Seq<char>| line_on(stream, text))
}

/// The lines `texts` on `stream`.
pub fn notices(stream: Stream, texts: Vec<String>) -> (lines: Vec<Notice>)
    ensures
        lines.deep_view() == lines_on(stream, texts.deep_view()),
{
    let mut lines: Vec<Notice> = Vec::new();
    let mut i: usize = 0;
    while i < texts.len()
        invariant
            i <= texts@.len(),
            lines@.len() == i,
            forall|j: int| 0 <= j < i ==> (#[trigger] lines@[j])@ == line_on(stream, texts@[j]@),
        decreases texts@.len() - i,
    {
        lines.push(Notice { stream, text: texts[i].clone() });
        i = i + 1;
    }
    proof {
        assert(lines.deep_view() =~= lines_on(stream, texts.deep_view()));
    }
    lines
}

/// No text.
pub fn no_texts() -> (texts: Vec<String>)
    ensures
        texts.deep_view() == Seq::<Seq<char>>::empty(),
{
    let texts: Vec<String> = Vec::new();
    proof {
        assert(texts.deep_view() =~= Seq::<Seq<char>>::empty());
    }
    texts
}

/// One text.
pub fn one_text(text: String) -> (texts: Vec<String>)
    ensures
        texts.deep_view() == seq![text@],
{
    let mut texts: Vec<String> = Vec::new();
    texts.push(text);
    proof {
        assert(texts.deep_view() =~= seq![text@]);
    }
    texts
}

/// No line.
pub fn silence() -> (lines: Vec<Notice>)
    ensures
        lines.deep_view() == Seq::<NoticeView>::empty(),
{
    let lines: Vec<Notice> = Vec::new();
    proof {
        assert(lines.deep_view() =~= Seq::<NoticeView>::empty());
    }
    lines
}

/// One line.
pub fn notice(stream: Stream, text: String) -> (lines: Vec<Notice>)
    ensures
        lines.deep_view() == seq![line_on(stream, text@)],
{
    let mut lines: Vec<Notice> = Vec::new();
    lines.push(Notice { stream, text });
    proof {
        assert(lines.deep_view() =~= seq![line_on(stream, text@)]);
    }
    lines
}

/// Adds the line `text` on `stream`.
pub fn tell(lines: &mut Vec<Notice>, stream: Stream, text: String)
    ensures
        final(lines).deep_view() == old(lines).deep_view().push(line_on(stream, text@)),
{
    lines.push(Notice { stream, text });
    proof {
        assert(lines.deep_view() =~= old(lines).deep_view().push(line_on(stream, text@)));
    }
}

/// A line with a sign is the sign in its colour, a blank, and the text as it is.
pub proof fn signs_stand_before_texts(text: Seq<char>)
    ensures
        ticked(text) == in_green("✓"@) + " "@ + text,
        warned(text) == in_yellow("⚠"@) + " "@ + text,
        crossed(text) == in_red("✗"@) + " "@ + text,
        pointed(text) == in_cyan("→"@) + " "@ + text,
{
}

/// Each text becomes one line on the stream, in the order of the texts.
pub proof fn texts_become_lines(stream: Stream, texts: Seq<Seq<char>>)
    ensures
        lines_on(stream, texts).len() == texts.len(),
        forall|i: int|
            0 <= i < texts.len() ==> (#[trigger] lines_on(stream, texts)[i]).stream == stream
                && lines_on(stream, texts)[i].text == texts[i],
{
}

} // verus!
