//! The log sink: an append-only text log that keeps the most recent lines only.
//!
//! A line is a text without a line feed. Whatever is appended is cut at its line feeds first,
//! so the log never holds, and never renders, more than [`LOG_CAPACITY`] lines.

use std::collections::VecDeque;
use vstd::prelude::*;
use vstd::string::{StrSliceExecFns, StringExecFns};
use crate::outcome::Severity;

verus! {

broadcast use vstd::string::group_string_axioms;

/// Number of lines that the log keeps.
pub const LOG_CAPACITY: usize = 1000;

/// A line is a text that holds no line feed.
pub open spec fn is_line(text: Seq<char>) -> bool {
    forall|i: int| 0 <= i < text.len() ==> text[i] != '\n'
}

/// Every text of `lines` is a line.
pub open spec fn all_lines(lines: Seq<Seq<char>>) -> bool {
    forall|k: int| 0 <= k < lines.len() ==> is_line(#[trigger] lines[k])
}

/// Number of line feeds in `text`.
pub open spec fn line_feeds(text: Seq<char>) -> nat
    decreases text.len(),
{
    if text.len() == 0 {
        0
    } else if text.last() == '\n' {
        line_feeds(text.drop_last()) + 1
    } else {
        line_feeds(text.drop_last())
    }
}

/// The lines of `text`: what stands before, between and after its line feeds, in order. A
/// text with `n` line feeds has `n + 1` lines, some of which may be empty.
pub open spec fn split_lines(text: Seq<char>) -> Seq<Seq<char>>
    decreases text.len(),
{
    if text.len() == 0 {
        seq![Seq::empty()]
    } else {
        let before = split_lines(text.drop_last());
        if text.last() == '\n' {
            before.push(Seq::empty())
        } else {
            before.drop_last().push(before.last().push(text.last()))
        }
    }
}

/// `lines` with a line feed between each two neighbours.
pub open spec fn joined(lines: Seq<Seq<char>>) -> Seq<char>
    decreases lines.len(),
{
    if lines.len() == 0 {
        Seq::empty()
    } else if lines.len() == 1 {
        lines[0]
    } else {
        joined(lines.drop_last()) + seq!['\n'] + lines.last()
    }
}

/// The lines of all `entries`, in order.
pub open spec fn lines_of_all(entries: Seq<Seq<char>>) -> Seq<Seq<char>>
    decreases entries.len(),
{
    if entries.len() == 0 {
        Seq::empty()
    } else {
        lines_of_all(entries.drop_last()) + split_lines(entries.last())
    }
}

/// The last `capacity` elements of `lines`, oldest first; all of them when there are no more
/// than that.
pub open spec fn newest<T>(lines: Seq<T>, capacity: nat) -> Seq<T> {
    if lines.len() <= capacity {
        lines
    } else {
        lines.subrange(lines.len() - capacity, lines.len() as int)
    }
}

/// The log after `entries` were appended one at a time to `log`: each entry is cut into its
/// lines, and the oldest lines are dropped when the log is over its capacity.
pub open spec fn after_appends(log: Seq<Seq<char>>, entries: Seq<Seq<char>>) -> Seq<Seq<char>>
    decreases entries.len(),
{
    if entries.len() == 0 {
        log
    } else {
        newest(
            after_appends(log, entries.drop_last()) + split_lines(entries.last()),
            LOG_CAPACITY as nat,
        )
    }
}

/// The text of a log: every line followed by a line feed.
pub open spec fn rendered(lines: Seq<Seq<char>>) -> Seq<char>
    decreases lines.len(),
{
    if lines.len() == 0 {
        Seq::empty()
    } else {
        rendered(lines.drop_last()) + lines.last() + seq!['\n']
    }
}

/// Two lines put together are a line.
pub proof fn lines_put_together(first: Seq<char>, second: Seq<char>)
    requires
        is_line(first),
        is_line(second),
    ensures
        is_line(first + second),
{
    assert forall|i: int| 0 <= i < (first + second).len() implies (first + second)[i] != '\n' by {
        if i < first.len() {
            assert((first + second)[i] == first[i]);
        } else {
            assert((first + second)[i] == second[i - first.len()]);
        }
    }
}

/// Cutting a text at its line feeds gives one line more than it has line feeds, and each of
/// them is a line.
pub proof fn split_gives_lines(text: Seq<char>)
    ensures
        split_lines(text).len() == line_feeds(text) + 1,
        all_lines(split_lines(text)),
    decreases text.len(),
{
    if text.len() > 0 {
        split_gives_lines(text.drop_last());
    }
}

/// Cutting loses nothing: the lines of a text, joined by line feeds, are the text.
pub proof fn joined_lines_are_the_text(text: Seq<char>)
    ensures
        joined(split_lines(text)) == text,
    decreases text.len(),
{
    if text.len() > 0 {
        let front = text.drop_last();
        let before = split_lines(front);
        split_gives_lines(front);
        joined_lines_are_the_text(front);
        assert(front.push(text.last()) =~= text);
        if text.last() == '\n' {
            assert(before.push(Seq::empty()).drop_last() =~= before);
            assert(joined(before) + seq!['\n'] + Seq::<char>::empty() =~= front.push('\n'));
        } else {
            let grown = before.drop_last().push(before.last().push(text.last()));
            if before.len() > 1 {
                assert(grown.drop_last() =~= before.drop_last());
                assert(joined(before.drop_last()) + seq!['\n'] + before.last().push(text.last())
                    =~= (joined(before.drop_last()) + seq!['\n'] + before.last()).push(
                    text.last(),
                ));
            }
        }
    }
}

/// A text without a line feed is its own and only line.
pub proof fn a_line_stays_whole(text: Seq<char>)
    requires
        is_line(text),
    ensures
        split_lines(text) == seq![text],
    decreases text.len(),
{
    if text.len() > 0 {
        let front = text.drop_last();
        assert(is_line(front)) by {
            assert forall|i: int| 0 <= i < front.len() implies front[i] != '\n' by {
                assert(front[i] == text[i]);
            }
        }
        a_line_stays_whole(front);
        assert(text.last() == text[text.len() - 1]);
        assert(front.push(text.last()) =~= text);
        assert(seq![front].drop_last().push(front.push(text.last())) =~~= seq![text]);
    } else {
        assert(seq![Seq::<char>::empty()] =~~= seq![text]);
    }
}

/// Entries that are lines already are appended as they are.
pub proof fn single_lines_are_kept_whole(entries: Seq<Seq<char>>)
    requires
        all_lines(entries),
    ensures
        lines_of_all(entries) == entries,
    decreases entries.len(),
{
    if entries.len() > 0 {
        let earlier = entries.drop_last();
        assert(all_lines(earlier)) by {
            assert forall|k: int| 0 <= k < earlier.len() implies is_line(#[trigger] earlier[k]) by {
                assert(earlier[k] == entries[k]);
            }
        }
        single_lines_are_kept_whole(earlier);
        assert(is_line(entries[entries.len() - 1]));
        a_line_stays_whole(entries.last());
        assert(earlier + seq![entries.last()] =~= entries);
    }
}

/// The lines of any entries are lines.
pub proof fn lines_of_all_are_lines(entries: Seq<Seq<char>>)
    ensures
        all_lines(lines_of_all(entries)),
    decreases entries.len(),
{
    if entries.len() > 0 {
        lines_of_all_are_lines(entries.drop_last());
        split_gives_lines(entries.last());
    }
}

/// The text of a log of lines has exactly one line feed for each of its lines.
pub proof fn rendered_has_one_feed_per_line(lines: Seq<Seq<char>>)
    requires
        all_lines(lines),
    ensures
        line_feeds(rendered(lines)) == lines.len(),
    decreases lines.len(),
{
    if lines.len() > 0 {
        let earlier = lines.drop_last();
        assert(all_lines(earlier)) by {
            assert forall|k: int| 0 <= k < earlier.len() implies is_line(#[trigger] earlier[k]) by {
                assert(earlier[k] == lines[k]);
            }
        }
        rendered_has_one_feed_per_line(earlier);
        assert(is_line(lines[lines.len() - 1]));
        line_adds_no_feed(rendered(earlier), lines.last());
        let text = rendered(earlier) + lines.last() + seq!['\n'];
        assert(text.drop_last() =~= rendered(earlier) + lines.last());
    }
}

/// Appending a line to a text adds no line feed.
pub proof fn line_adds_no_feed(text: Seq<char>, line: Seq<char>)
    requires
        is_line(line),
    ensures
        line_feeds(text + line) == line_feeds(text),
    decreases line.len(),
{
    if line.len() == 0 {
        assert(text + line =~= text);
    } else {
        let front = line.drop_last();
        assert(is_line(front)) by {
            assert forall|i: int| 0 <= i < front.len() implies front[i] != '\n' by {
                assert(front[i] == line[i]);
            }
        }
        line_adds_no_feed(text, front);
        assert((text + line).drop_last() =~= text + front);
        assert((text + line).last() == line[line.len() - 1]);
    }
}

/// Cutting down to the newest lines, appending, and cutting down again gives the same as
/// appending first and cutting down once.
pub proof fn newest_absorbs_earlier_cut<T>(lines: Seq<T>, more: Seq<T>, capacity: nat)
    ensures
        newest(newest(lines, capacity) + more, capacity) == newest(lines + more, capacity),
{
    assert(newest(newest(lines, capacity) + more, capacity) =~= newest(lines + more, capacity));
}

/// Appending entries one at a time to a log within its capacity leaves exactly the newest
/// [`LOG_CAPACITY`] lines of everything that was ever in it, oldest first. When the entries
/// are single lines, these are the entries themselves (see
/// [`single_lines_are_kept_whole`]): appending 1200 of them to an empty log leaves the last
/// 1000.
pub proof fn log_keeps_newest_lines(log: Seq<Seq<char>>, entries: Seq<Seq<char>>)
    requires
        log.len() <= LOG_CAPACITY,
    ensures
        after_appends(log, entries) == newest(log + lines_of_all(entries), LOG_CAPACITY as nat),
        after_appends(log, entries).len() <= LOG_CAPACITY,
    decreases entries.len(),
{
    if entries.len() == 0 {
        assert(log + lines_of_all(entries) =~= log);
    } else {
        let earlier = entries.drop_last();
        let more = split_lines(entries.last());
        log_keeps_newest_lines(log, earlier);
        newest_absorbs_earlier_cut(log + lines_of_all(earlier), more, LOG_CAPACITY as nat);
        assert((log + lines_of_all(earlier)) + more =~= log + lines_of_all(entries));
    }
}

/// The character sequences of a sequence of texts, position by position.
pub open spec fn texts_of(lines: Seq<String>) -> Seq<Seq<char>> {
    lines.map_values(|line: String| line@)
}

/// Cuts `text` at its line feeds.
pub fn lines_of(text: &str) -> (lines: Vec<String>)
    ensures
        texts_of(lines@) == split_lines(text@),
        all_lines(texts_of(lines@)),
{
    let total = text.unicode_len();
    let mut lines: Vec<String> = Vec::new();
    let mut start: usize = 0;
    let mut i: usize = 0;
    proof {
        assert(split_lines(text@.take(0)) =~~= texts_of(lines@).push(text@.subrange(0, 0)));
    }
    for c in it: text.chars()
        invariant
            i == it.index(),
            it.seq() == text@,
            total == text@.len(),
            start <= i,
            split_lines(text@.take(i as int)) == texts_of(lines@).push(
                text@.subrange(start as int, i as int),
            ),
    {
        let ghost before = lines@;
        proof {
            assert(text@.take(i + 1).drop_last() =~= text@.take(i as int));
            assert(text@.take(i + 1).last() == c);
        }
        if c == '\n' {
            let piece = String::from_str(text.substring_char(start, i));
            lines.push(piece);
            start = i + 1;
            proof {
                assert(texts_of(before.push(piece)) =~= texts_of(before).push(piece@));
                assert(text@.subrange(i + 1, i + 1) =~= Seq::<char>::empty());
            }
        } else {
            proof {
                assert(texts_of(before).push(text@.subrange(start as int, i as int)).drop_last()
                    =~= texts_of(before));
                assert(text@.subrange(start as int, i + 1) =~= text@.subrange(
                    start as int,
                    i as int,
                ).push(c));
            }
        }
        i += 1;
    }
    let ghost before = lines@;
    let piece = String::from_str(text.substring_char(start, i));
    lines.push(piece);
    proof {
        assert(text@.take(text@.len() as int) =~= text@);
        assert(texts_of(before.push(piece)) =~= texts_of(before).push(piece@));
        split_gives_lines(text@);
    }
    lines
}

/// The capped log. It holds lines only, and never more than [`LOG_CAPACITY`] of them.
pub struct LogSink {
    lines: VecDeque<String>,
}

impl View for LogSink {
    type V = Seq<Seq<char>>;

    closed spec fn view(&self) -> Seq<Seq<char>> {
        texts_of(self.lines@)
    }
}

impl LogSink {
    #[verifier::type_invariant]
    spec fn inv(self) -> bool {
        self.lines@.len() <= LOG_CAPACITY && all_lines(texts_of(self.lines@))
    }

    /// An empty log.
    pub fn new() -> (log: LogSink)
        ensures
            log@ == Seq::<Seq<char>>::empty(),
    {
        LogSink { lines: VecDeque::new() }
    }

    /// Number of lines in the log; never more than [`LOG_CAPACITY`].
    pub fn len(&self) -> (len: usize)
        ensures
            len == self@.len(),
            len <= LOG_CAPACITY,
            all_lines(self@),
    {
        proof {
            use_type_invariant(self);
        }
        self.lines.len()
    }

    /// The line at `index`, counted from the oldest, if there is one.
    pub fn line(&self, index: usize) -> (line: Option<&String>)
        ensures
            match line {
                Some(text) => index < self@.len() && text@ == self@[index as int] && is_line(text@),
                None => index >= self@.len(),
            },
    {
        proof {
            use_type_invariant(self);
        }
        if index < self.lines.len() {
            assert(is_line(self@[index as int]));
            Some(&self.lines[index])
        } else {
            None
        }
    }

    /// Appends `entry`, cut at its line feeds: an entry without a line feed is one line, and
    /// one with `n` line feeds is `n + 1` lines. When the log is full, the oldest lines are
    /// dropped.
    pub fn append(&mut self, entry: String)
        ensures
            final(self)@ == newest(old(self)@ + split_lines(entry@), LOG_CAPACITY as nat),
            final(self)@.len() <= LOG_CAPACITY,
            all_lines(final(self)@),
    {
        proof {
            use_type_invariant(&*self);
        }
        let ghost before = self@;
        let pieces = lines_of(entry.as_str());
        // The queue is taken out while it changes and put back when it is done.
        let mut lines: VecDeque<String> = VecDeque::new();
        core::mem::swap(&mut self.lines, &mut lines);
        let mut k: usize = 0;
        proof {
            assert(before + texts_of(pieces@).take(0) =~= before);
        }
        while k < pieces.len()
            invariant
                k <= pieces.len(),
                before.len() <= LOG_CAPACITY,
                lines@.len() <= LOG_CAPACITY,
                all_lines(texts_of(pieces@)),
                all_lines(texts_of(lines@)),
                texts_of(lines@) == newest(
                    before + texts_of(pieces@).take(k as int),
                    LOG_CAPACITY as nat,
                ),
            decreases pieces.len() - k,
        {
            let ghost held = texts_of(lines@);
            let ghost taken = texts_of(pieces@).take(k as int);
            if lines.len() >= LOG_CAPACITY {
                let _ = lines.pop_front();
            }
            let piece = pieces[k].clone();
            lines.push_back(piece);
            proof {
                assert(piece@ == texts_of(pieces@)[k as int]);
                assert(is_line(texts_of(pieces@)[k as int]));
                assert(texts_of(lines@) =~= newest(held + seq![piece@], LOG_CAPACITY as nat));
                newest_absorbs_earlier_cut(before + taken, seq![piece@], LOG_CAPACITY as nat);
                assert((before + taken) + seq![piece@] =~= before + texts_of(pieces@).take(k + 1));
                assert forall|j: int| 0 <= j < texts_of(lines@).len() implies is_line(
                    #[trigger] texts_of(lines@)[j],
                ) by {
                    if j < texts_of(lines@).len() - 1 {
                        if held.len() >= LOG_CAPACITY {
                            assert(texts_of(lines@)[j] == held[j + 1]);
                        } else {
                            assert(texts_of(lines@)[j] == held[j]);
                        }
                    }
                }
            }
            k += 1;
        }
        proof {
            assert(texts_of(pieces@).take(pieces.len() as int) =~= texts_of(pieces@));
        }
        core::mem::swap(&mut self.lines, &mut lines);
    }

    /// Appends the severity's tag followed by `message`, cut at its line feeds.
    pub fn log(&mut self, severity: Severity, message: &str)
        ensures
            final(self)@ == newest(
                old(self)@ + split_lines(severity.tag() + message@),
                LOG_CAPACITY as nat,
            ),
            all_lines(final(self)@),
    {
        let mut entry = String::from_str(severity.tag_text());
        entry.append(message);
        self.append(entry);
    }

    /// Appends `message` as an error.
    pub fn error(&mut self, message: &str)
        ensures
            final(self)@ == newest(
                old(self)@ + split_lines(Severity::Error.tag() + message@),
                LOG_CAPACITY as nat,
            ),
            all_lines(final(self)@),
    {
        self.log(Severity::Error, message);
    }

    /// Copies of all lines, oldest first.
    pub fn lines(&self) -> (lines: Vec<String>)
        ensures
            texts_of(lines@) == self@,
            all_lines(self@),
    {
        proof {
            use_type_invariant(self);
        }
        let mut lines: Vec<String> = Vec::new();
        let mut i: usize = 0;
        while i < self.lines.len()
            invariant
                i <= self.lines.len(),
                texts_of(lines@) == self@.take(i as int),
            decreases self.lines.len() - i,
        {
            let ghost before = lines@;
            let line = self.lines[i].clone();
            lines.push(line);
            proof {
                assert(line@ == self@[i as int]);
                assert(texts_of(before.push(line)) =~= texts_of(before).push(line@));
                assert(self@.take(i + 1) =~= self@.take(i as int).push(self@[i as int]));
            }
            i += 1;
        }
        assert(self@.take(self.lines.len() as int) =~= self@);
        lines
    }

    /// The whole log as one text, every line followed by a line feed. The text has as many
    /// line feeds as the log has lines, so never more than [`LOG_CAPACITY`].
    pub fn text(&self) -> (text: String)
        ensures
            text@ == rendered(self@),
            line_feeds(text@) == self@.len(),
            line_feeds(text@) <= LOG_CAPACITY,
    {
        proof {
            use_type_invariant(self);
            rendered_has_one_feed_per_line(self@);
        }
        let mut text = String::new();
        let mut i: usize = 0;
        while i < self.lines.len()
            invariant
                i <= self.lines.len(),
                text@ == rendered(self@.take(i as int)),
            decreases self.lines.len() - i,
        {
            proof {
                assert(self@.take(i + 1).drop_last() =~= self@.take(i as int));
                reveal_strlit("\n");
                assert("\n"@ =~= seq!['\n']);
            }
            text.append(self.lines[i].as_str());
            text.append("\n");
            i += 1;
        }
        assert(self@.take(self.lines.len() as int) =~= self@);
        text
    }
}

} // verus!
