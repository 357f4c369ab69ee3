//! The bounded collector of the child process's output lines.
use std::collections::VecDeque;
use vstd::prelude::*;
use vstd::string::*;
use vstd::utf8::*;

use crate::text::concat_all;

verus! {

/// How many entries the collector keeps at most.
pub const MAX_LOG_ENTRIES: usize = 200;

/// The output stream a line was read from.
#[derive(Clone, Copy, Debug, PartialEq, Eq, Structural)]
pub enum LogStream {
    Stdout,
    Stderr,
}

/// What a `LogEntry` holds, as plain values.
pub struct LogLine {
    pub stream: LogStream,
    pub text: Seq<char>,
}

/// One line of output, tagged with the stream it came from.
#[derive(Debug)]
pub struct LogEntry {
    stream: LogStream,
    text: String,
}

impl View for LogEntry {
    type V = LogLine;

    closed spec fn view(&self) -> LogLine {
        LogLine { stream: self.stream, text: self.text@ }
    }
}

/// What arrives from the child process: a chunk of one of its output
/// streams, or anything else (an error report, the exit notice).
#[derive(Debug)]
pub enum ProcessEvent {
    Stdout(Vec<u8>),
    Stderr(Vec<u8>),
    Other,
}

/// The text that a lossy UTF-8 decoding makes of `bytes`.
pub uninterp spec fn utf8_lossy(bytes: Seq<u8>) -> Seq<char>;

/// The tag written in front of a line of the given stream.
pub open spec fn stream_tag(stream: LogStream) -> Seq<char> {
    match stream {
        LogStream::Stdout => "[STDOUT] "@,
        LogStream::Stderr => "[STDERR] "@,
    }
}

/// A line as the snapshot shows it: the stream's tag, then the text.
pub open spec fn rendered(line: LogLine) -> Seq<char> {
    stream_tag(line.stream) + line.text
}

/// The last `MAX_LOG_ENTRIES` lines of `lines`, in their order.
pub open spec fn retained(lines: Seq<LogLine>) -> Seq<LogLine> {
    if lines.len() <= MAX_LOG_ENTRIES {
        lines
    } else {
        lines.skip(lines.len() - MAX_LOG_ENTRIES)
    }
}

/// What a collector that held `start` holds once `lines` were appended
/// one by one.
pub open spec fn after_appends(start: Seq<LogLine>, lines: Seq<LogLine>) -> Seq<LogLine>
    decreases lines.len(),
{
    if lines.len() == 0 {
        start
    } else {
        retained(after_appends(start, lines.drop_last()).push(lines.last()))
    }
}

/// The snapshot of `lines`: every line rendered, with nothing in between.
pub open spec fn joined(lines: Seq<LogLine>) -> Seq<char> {
    concat_all(lines.map_values(|line: LogLine| rendered(line)))
}

/// The line that `event` carries, if it is a chunk of output.
pub open spec fn event_line(event: ProcessEvent) -> Option<LogLine> {
    match event {
        ProcessEvent::Stdout(bytes) => Some(
            LogLine { stream: LogStream::Stdout, text: utf8_lossy(bytes@) },
        ),
        ProcessEvent::Stderr(bytes) => Some(
            LogLine { stream: LogStream::Stderr, text: utf8_lossy(bytes@) },
        ),
        ProcessEvent::Other => None,
    }
}

/// The view of an optional entry.
pub open spec fn line_of(entry: Option<LogEntry>) -> Option<LogLine> {
    match entry {
        Some(e) => Some(e@),
        None => None,
    }
}

/// Appending to a collector within its capacity keeps every line while
/// there is room and drops exactly the oldest one when there is none.
pub proof fn lemma_append_step(lines: Seq<LogLine>, line: LogLine)
    requires
        lines.len() <= MAX_LOG_ENTRIES,
    ensures
        lines.len() < MAX_LOG_ENTRIES ==> retained(lines.push(line)) == lines.push(line),
        lines.len() == MAX_LOG_ENTRIES ==> retained(lines.push(line)) == lines.drop_first().push(
            line,
        ),
{
    if lines.len() == MAX_LOG_ENTRIES {
        assert(lines.push(line).skip(1) =~= lines.drop_first().push(line));
    }
}

/// Dropping old lines early changes nothing: appending to the retained
/// part retains the same lines as appending to the whole.
pub proof fn lemma_retained_push(lines: Seq<LogLine>, line: LogLine)
    ensures
        retained(retained(lines).push(line)) == retained(lines.push(line)),
{
    assert(retained(retained(lines).push(line)) =~= retained(lines.push(line)));
}

/// The eviction law. After any number of lines were appended to an empty
/// collector, it holds `min(N, MAX_LOG_ENTRIES)` lines, and they are the
/// last ones appended, in the order in which they came.
pub proof fn lemma_fifo_eviction(lines: Seq<LogLine>)
    ensures
        after_appends(Seq::empty(), lines) == retained(lines),
        after_appends(Seq::empty(), lines).len() == if lines.len() <= MAX_LOG_ENTRIES {
            lines.len()
        } else {
            MAX_LOG_ENTRIES as nat
        },
        forall|i: int|
            0 <= i < after_appends(Seq::empty(), lines).len() ==> #[trigger] after_appends(
                Seq::empty(),
                lines,
            )[i] == lines[lines.len() - after_appends(Seq::empty(), lines).len() + i],
    decreases lines.len(),
{
    if lines.len() > 0 {
        lemma_fifo_eviction(lines.drop_last());
        lemma_retained_push(lines.drop_last(), lines.last());
        assert(lines.drop_last().push(lines.last()) == lines);
    }
}

/// Appending to a collector that already holds lines: the result is what
/// the same appends retain of the whole history.
pub proof fn lemma_appends_from(start: Seq<LogLine>, lines: Seq<LogLine>)
    requires
        start.len() <= MAX_LOG_ENTRIES,
    ensures
        after_appends(start, lines) == retained(start + lines),
    decreases lines.len(),
{
    if lines.len() == 0 {
        assert(start + lines == start);
    } else {
        lemma_appends_from(start, lines.drop_last());
        lemma_retained_push(start + lines.drop_last(), lines.last());
        assert((start + lines.drop_last()).push(lines.last()) == start + lines);
    }
}

impl LogEntry {
    /// An entry for `text` as read from `stream`.
    pub fn new(stream: LogStream, text: String) -> (r: LogEntry)
        ensures
            r@ == (LogLine { stream: stream, text: text@ }),
    {
        LogEntry { stream, text }
    }

    /// The stream the line was read from.
    pub fn stream(&self) -> (r: LogStream)
        ensures
            r == self@.stream,
    {
        self.stream
    }

    /// The line's text.
    pub fn text(&self) -> (r: &str)
        ensures
            r@ == self@.text,
    {
        self.text.as_str()
    }

    /// The line as the snapshot shows it.
    pub fn render(&self) -> (r: String)
        ensures
            r@ == rendered(self@),
    {
        let mut out = match self.stream {
            LogStream::Stdout => String::from_str("[STDOUT] "),
            LogStream::Stderr => String::from_str("[STDERR] "),
        };
        out.append(self.text.as_str());
        out
    }
}

/// Decodes `bytes` with `String::from_utf8_lossy`. The result is that
/// function's text for these bytes; where the bytes are valid UTF-8 it is
/// the text they encode.
#[verifier::external_body]
fn decode_lossy(bytes: &[u8]) -> (r: String)
    ensures
        r@ == utf8_lossy(bytes@),
        valid_utf8(bytes@) ==> r@ == decode_utf8(bytes@),
{
    String::from_utf8_lossy(bytes).into_owned()
}

/// The entry that `event` carries: its bytes decoded, tagged with the
/// stream. Events that are no output carry none.
pub fn decode_event(event: &ProcessEvent) -> (r: Option<LogEntry>)
    ensures
        line_of(r) == event_line(*event),
        match *event {
            ProcessEvent::Stdout(bytes) => valid_utf8(bytes@) ==> r.unwrap()@.text == decode_utf8(
                bytes@,
            ),
            ProcessEvent::Stderr(bytes) => valid_utf8(bytes@) ==> r.unwrap()@.text == decode_utf8(
                bytes@,
            ),
            ProcessEvent::Other => true,
        },
{
    match event {
        ProcessEvent::Stdout(bytes) => Some(
            LogEntry::new(LogStream::Stdout, decode_lossy(bytes.as_slice())),
        ),
        ProcessEvent::Stderr(bytes) => Some(
            LogEntry::new(LogStream::Stderr, decode_lossy(bytes.as_slice())),
        ),
        ProcessEvent::Other => None,
    }
}

/// The bounded first-in, first-out collector of output lines.
#[derive(Debug)]
pub struct LogCollector {
    entries: VecDeque<LogEntry>,
}

impl View for LogCollector {
    type V = Seq<LogLine>;

    closed spec fn view(&self) -> Seq<LogLine> {
        self.entries@.map_values(|e: LogEntry| e@)
    }
}

impl LogCollector {
    #[verifier::type_invariant]
    spec fn within_capacity(&self) -> bool {
        self.entries@.len() <= MAX_LOG_ENTRIES
    }

    /// A collector that holds nothing.
    pub fn new() -> (r: LogCollector)
        ensures
            r@ == Seq::<LogLine>::empty(),
    {
        let r = LogCollector { entries: VecDeque::new() };
        assert(r@ =~= Seq::<LogLine>::empty());
        r
    }

    /// How many lines the collector holds.
    pub fn len(&self) -> (r: usize)
        ensures
            r == self@.len(),
            r <= MAX_LOG_ENTRIES,
    {
        proof {
            use_type_invariant(self);
        }
        self.entries.len()
    }

    /// Whether the collector holds no line.
    pub fn is_empty(&self) -> (r: bool)
        ensures
            r == (self@.len() == 0),
    {
        self.entries.len() == 0
    }

    /// Appends `entry` as the newest line and, if that exceeds the
    /// capacity, evicts from the oldest end until it does not.
    pub fn append(&mut self, entry: LogEntry)
        ensures
            final(self)@ == retained(old(self)@.push(entry@)),
            final(self)@.len() <= MAX_LOG_ENTRIES,
            final(self)@.last() == entry@,
    {
        proof {
            use_type_invariant(&*self);
        }
        let ghost before = self@;
        let ghost line = entry@;
        let mut entries = VecDeque::new();
        std::mem::swap(&mut entries, &mut self.entries);
        entries.push_back(entry);
        assert(entries@.map_values(|e: LogEntry| e@) =~= before.push(line));
        while entries.len() > MAX_LOG_ENTRIES
            invariant
                before.len() <= MAX_LOG_ENTRIES,
                entries@.len() <= MAX_LOG_ENTRIES + 1,
                entries@.len() >= 1,
                retained(entries@.map_values(|e: LogEntry| e@)) == retained(before.push(line)),
                entries@.last()@ == line,
            decreases entries@.len(),
        {
            let ghost full = entries@.map_values(|e: LogEntry| e@);
            let _ = entries.pop_front();
            assert(entries@.map_values(|e: LogEntry| e@) =~= full.skip(1));
        }
        self.entries = entries;
    }

    /// Every line rendered, oldest first, with nothing in between.
    pub fn snapshot(&self) -> (r: String)
        ensures
            r@ == joined(self@),
    {
        let mut out = String::new();
        let n = self.entries.len();
        let mut i: usize = 0;
        while i < n
            invariant
                i <= n,
                n == self.entries@.len(),
                out@ == joined(self@.take(i as int)),
            decreases n - i,
        {
            let piece = self.entries[i].render();
            out.append(piece.as_str());
            proof {
                let shown = self@.take(i as int + 1).map_values(|line: LogLine| rendered(line));
                assert(shown.drop_last() =~= self@.take(i as int).map_values(
                    |line: LogLine| rendered(line),
                ));
                assert(shown.last() == rendered(self.entries@[i as int]@));
            }
            i = i + 1;
        }
        assert(self@.take(n as int) == self@);
        out
    }
}

/// One turn of the output pump. The line that `event` carries is stored
/// as the newest line of the collector and handed back to be echoed.
/// Where the collector is not to be had (`None`: its lock failed), the
/// line is echoed all the same and the write is skipped without a word.
pub fn pump_output(logs: Option<&mut LogCollector>, event: &ProcessEvent) -> (echo: Option<
    LogEntry,
>)
    ensures
        line_of(echo) == event_line(*event),
        match logs {
            Some(collector) => final(collector)@ == match event_line(*event) {
                Some(line) => retained(collector@.push(line)),
                None => collector@,
            },
            None => true,
        },
{
    match decode_event(event) {
        Some(entry) => {
            let echo = LogEntry::new(entry.stream, entry.text.clone());
            match logs {
                Some(collector) => {
                    collector.append(entry);
                },
                None => {},
            }
            Some(echo)
        },
        None => None,
    }
}

} // verus!
