//! Reading what `yabridge-host.exe` prints when it is started without
//! arguments. A working installation answers with its usage string. Anything
//! else is a failure, and the last line that is not one of Wine's `fixme`
//! notes is taken to be the reason.

use crate::text::{bytes_stand_at, bytes_stand_at_spec, chars_of, stands_at};
use vstd::prelude::*;
use vstd::string::*;
use vstd::utf8::encode_utf8;

verus! {

/// How every usage string of the host binary begins. Only this much is
/// matched, so that the rest of the message is free to change.
pub const USAGE_PREFIX: &'static str = "Usage: yabridge-";

/// The channel name that marks one of Wine's `fixme` notes.
pub const FIXME_MARKER: &'static str = "fixme";

/// Where the channel name starts in a line of Wine's debug output, after the
/// four digits of the thread id and a colon. The offset counts bytes.
pub const FIXME_OFFSET: usize = 5;

/// The index of the first line feed at or after `from`, or the length of
/// `text` when there is none.
pub open spec fn line_end(text: Seq<char>, from: int) -> int
    decreases text.len() - from,
{
    if from < 0 || from >= text.len() {
        text.len() as int
    } else if text[from] == '\n' {
        from
    } else {
        line_end(text, from + 1)
    }
}

/// A line as it stood before its line feed, without the carriage return of a
/// `\r\n` ending.
pub open spec fn without_carriage_return(line: Seq<char>) -> Seq<char> {
    if line.len() > 0 && line.last() == '\r' {
        line.drop_last()
    } else {
        line
    }
}

/// The lines of `text` from index `from` on. A line ends at a line feed or at
/// the end of the text. The line feed is not part of the line, and neither is
/// a carriage return directly before it. Text that ends in a line feed has no
/// empty last line, and a last line without a line feed keeps a trailing
/// carriage return.
pub open spec fn lines_from(text: Seq<char>, from: int) -> Seq<Seq<char>>
    decreases text.len() - from,
{
    if from < 0 || from >= text.len() {
        Seq::empty()
    } else {
        let end = line_end(text, from);
        if end >= text.len() {
            seq![text.subrange(from, text.len() as int)]
        } else {
            proof {
                lemma_line_end(text, from);
            }
            seq![without_carriage_return(text.subrange(from, end))] + lines_from(text, end + 1)
        }
    }
}

/// The lines of `text`.
pub open spec fn lines(text: Seq<char>) -> Seq<Seq<char>> {
    lines_from(text, 0)
}

/// Whether `line` is the host binary's usage string.
pub open spec fn is_usage_line(line: Seq<char>) -> bool {
    USAGE_PREFIX@.is_prefix_of(line)
}

/// Whether `line` is a `fixme` note: the bytes of the marker stand at its
/// fixed offset among the bytes of the line.
pub open spec fn is_fixme_line(line: Seq<char>) -> bool {
    bytes_stand_at_spec(encode_utf8(line), FIXME_OFFSET as int, encode_utf8(FIXME_MARKER@))
}

/// Whether one of `lines` is the usage string.
pub open spec fn has_usage_line(lines: Seq<Seq<char>>) -> bool {
    exists|i: int| 0 <= i < lines.len() && is_usage_line(#[trigger] lines[i])
}

/// The last of `lines` that is not a `fixme` note.
pub open spec fn last_error_line(lines: Seq<Seq<char>>) -> Option<Seq<char>>
    decreases lines.len(),
{
    if lines.len() == 0 {
        None
    } else if is_fixme_line(lines.last()) {
        last_error_line(lines.drop_last())
    } else {
        Some(lines.last())
    }
}

/// What the host binary's output says about the installation.
#[derive(Debug, PartialEq, Eq)]
pub enum Diagnosis {
    /// The usage string was printed: Wine can run the host binary.
    Success,
    /// No usage string. `last_error` is the line to show to the user, if
    /// there was any output besides `fixme` notes.
    Failure { last_error: Option<String> },
}

/// A `Diagnosis` with its text as a sequence of characters.
pub enum DiagnosisView {
    Success,
    Failure { last_error: Option<Seq<char>> },
}

impl View for Diagnosis {
    type V = DiagnosisView;

    open spec fn view(&self) -> DiagnosisView {
        match self {
            Diagnosis::Success => DiagnosisView::Success,
            Diagnosis::Failure { last_error: None } => DiagnosisView::Failure { last_error: None },
            Diagnosis::Failure { last_error: Some(line) } => DiagnosisView::Failure {
                last_error: Some(line@),
            },
        }
    }
}

/// The diagnosis for a complete output: success as soon as any line is the
/// usage string, else failure with the last line that is no `fixme` note.
pub open spec fn diagnosis_of(output: Seq<char>) -> DiagnosisView {
    if has_usage_line(lines(output)) {
        DiagnosisView::Success
    } else {
        DiagnosisView::Failure { last_error: last_error_line(lines(output)) }
    }
}

/// `line_end` stays within the text, stops at a line feed, and skips none.
pub proof fn lemma_line_end(text: Seq<char>, from: int)
    requires
        0 <= from <= text.len(),
    ensures
        from <= line_end(text, from) <= text.len(),
        line_end(text, from) < text.len() ==> text[line_end(text, from)] == '\n',
        forall|i: int| from <= i < line_end(text, from) ==> text[i] != '\n',
    decreases text.len() - from,
{
    if from < text.len() && text[from] != '\n' {
        lemma_line_end(text, from + 1);
    }
}

/// `line_end` in a text without its first `from` characters is `line_end`
/// in the whole text, counted from `from`.
proof fn lemma_line_end_skip(text: Seq<char>, from: int, k: int)
    requires
        0 <= from,
        0 <= k,
        from + k <= text.len(),
    ensures
        line_end(text.skip(from), k) == line_end(text, from + k) - from,
    decreases text.len() - from - k,
{
    let tail = text.skip(from);
    if from + k < text.len() {
        if text[from + k] != '\n' {
            lemma_line_end_skip(text, from, k + 1);
        }
    }
}

/// The lines of a text from `from` on are the lines of what is left of the
/// text without its first `from` characters.
proof fn lemma_lines_from_skip(text: Seq<char>, from: int)
    requires
        0 <= from <= text.len(),
    ensures
        lines_from(text, from) == lines(text.skip(from)),
    decreases text.len() - from,
{
    let tail = text.skip(from);
    if from < text.len() {
        lemma_line_end(text, from);
        lemma_line_end_skip(text, from, 0);
        let end = line_end(text, from);
        if end >= text.len() {
            assert(text.subrange(from, text.len() as int) == tail.subrange(0, tail.len() as int));
        } else {
            assert(text.subrange(from, end) == tail.subrange(0, end - from));
            lemma_lines_from_skip(text, end + 1);
            lemma_lines_from_skip(tail, end - from + 1);
            assert(tail.skip(end - from + 1) == text.skip(end + 1));
        }
    }
}

/// A first line and its line feed in front of a text add one line in front
/// of the lines of that text.
pub proof fn lemma_lines_of_first_and_rest(first: Seq<char>, rest: Seq<char>)
    requires
        !first.contains('\n'),
    ensures
        lines(first + seq!['\n'] + rest) == seq![without_carriage_return(first)] + lines(rest),
{
    let text = first + seq!['\n'] + rest;
    let n = first.len() as int;
    assert(line_end(text, 0) == n) by {
        lemma_line_end(text, 0);
        assert(text[n] == '\n');
    }
    assert(text.subrange(0, n) == first);
    assert(text.skip(n + 1) == rest);
    lemma_lines_from_skip(text, n + 1);
}

/// `lines`, each followed by a line feed, as one text.
pub open spec fn join_lines(lines: Seq<Seq<char>>) -> Seq<char>
    decreases lines.len(),
{
    if lines.len() == 0 {
        Seq::empty()
    } else {
        lines[0] + seq!['\n'] + join_lines(lines.skip(1))
    }
}

/// Whether `line` can stand as a line of its own: it holds no line feed and
/// does not end in a carriage return.
pub open spec fn is_plain_line(line: Seq<char>) -> bool {
    !line.contains('\n') && without_carriage_return(line) == line
}

/// Splitting undoes joining: a text written line by line is read back as the
/// same lines.
pub proof fn lemma_lines_of_joined(written: Seq<Seq<char>>)
    requires
        forall|i: int| 0 <= i < written.len() ==> is_plain_line(#[trigger] written[i]),
    ensures
        lines(join_lines(written)) == written,
    decreases written.len(),
{
    if written.len() > 0 {
        let rest = written.skip(1);
        lemma_lines_of_joined(rest);
        lemma_lines_of_first_and_rest(written[0], join_lines(rest));
    }
}

/// The usage string wins wherever it stands: output with a usage line among
/// its lines is a success, whatever Wine printed before or after it, `fixme`
/// notes and errors alike.
pub proof fn lemma_usage_line_means_success(written: Seq<Seq<char>>, i: int)
    requires
        forall|j: int| 0 <= j < written.len() ==> is_plain_line(#[trigger] written[j]),
        0 <= i < written.len(),
        is_usage_line(written[i]),
    ensures
        diagnosis_of(join_lines(written)) == DiagnosisView::Success,
{
    lemma_lines_of_joined(written);
}

/// Output without a usage line is a failure, and the error it is blamed on
/// is the last line that is no `fixme` note. Where no line is such a note,
/// that is the very last line.
pub proof fn lemma_last_line_is_the_error(written: Seq<Seq<char>>)
    requires
        forall|j: int| 0 <= j < written.len() ==> is_plain_line(#[trigger] written[j]),
        forall|j: int| 0 <= j < written.len() ==> !is_usage_line(#[trigger] written[j]),
    ensures
        diagnosis_of(join_lines(written)) == (DiagnosisView::Failure {
            last_error: last_error_line(written),
        }),
        written.len() > 0 && !is_fixme_line(written.last()) ==> last_error_line(written) == Some(
            written.last(),
        ),
{
    lemma_lines_of_joined(written);
}

/// One step of `lines_from`: the line that starts at `from`, then the lines
/// after it.
proof fn lemma_lines_step(text: Seq<char>, from: int)
    requires
        0 <= from < text.len(),
    ensures
        ({
            let end = line_end(text, from);
            if end < text.len() {
                lines_from(text, from) == seq![
                    without_carriage_return(text.subrange(from, end)),
                ] + lines_from(text, end + 1)
            } else {
                lines_from(text, from) == seq![text.subrange(from, text.len() as int)]
                    + lines_from(text, text.len() as int)
            }
        }),
{
    lemma_line_end(text, from);
}

/// Classifies the output of the host binary line by line.
pub fn diagnose(output: &str) -> (diagnosis: Diagnosis)
    ensures
        diagnosis@ == diagnosis_of(output@),
{
    let chars = chars_of(output);
    let usage = chars_of(USAGE_PREFIX);
    let n: usize = chars.len();
    let mut from: usize = 0;
    let mut last: Option<(usize, usize)> = None;
    let ghost mut seen: Seq<Seq<char>> = Seq::empty();
    while from < n
        invariant
            from <= n == chars.len(),
            chars@ == output@,
            usage@ == USAGE_PREFIX@,
            lines(output@) == seen + lines_from(output@, from as int),
            !has_usage_line(seen),
            match last {
                None => last_error_line(seen) is None,
                Some((a, b)) => a <= b <= n && last_error_line(seen) == Some(
                    output@.subrange(a as int, b as int),
                ),
            },
        decreases n - from,
    {
        let mut end: usize = from;
        while end < n && chars[end] != '\n'
            invariant
                from <= end <= n == chars.len(),
                chars@ == output@,
                line_end(output@, end as int) == line_end(output@, from as int),
            decreases n - end,
        {
            end += 1;
        }
        let stop: usize = if end < n && end > from && chars[end - 1] == '\r' {
            end - 1
        } else {
            end
        };
        let next: usize = if end < n {
            end + 1
        } else {
            n
        };
        let ghost line = output@.subrange(from as int, stop as int);
        proof {
            lemma_lines_step(output@, from as int);
            let whole = output@.subrange(from as int, end as int);
            assert(end < n ==> without_carriage_return(whole) == line);
        }
        if stands_at(&chars, from, stop, &usage) {
            proof {
                assert(lines(output@)[seen.len() as int] == line);
            }
            return Diagnosis::Success;
        }
        let noted = bytes_stand_at(
            output.substring_char(from, stop).as_bytes(),
            FIXME_OFFSET,
            FIXME_MARKER.as_bytes(),
        );
        proof {
            assert(seen.push(line).drop_last() == seen);
            assert(!is_usage_line(line)) by {
                if is_usage_line(line) {
                    assert(line.subrange(0, usage.len() as int) == output@.subrange(
                        from as int,
                        from + usage.len(),
                    ));
                }
            }
            seen = seen.push(line);
        }
        if !noted {
            last = Some((from, stop));
        }
        from = next;
    }
    match last {
        None => Diagnosis::Failure { last_error: None },
        Some((a, b)) => Diagnosis::Failure {
            last_error: Some(output.substring_char(a, b).to_owned()),
        },
    }
}

} // verus!
