//! The output sink: takes lines as they are emitted and says what is to be
//! written where. Towards a stream each line is written at once; towards a
//! file the lines are kept and written together at the end. The caller does
//! the writing.

use crate::text::{join, joined, option_view, views};
use vstd::prelude::*;

verus! {

/// Where the output goes.
#[derive(Debug, Clone, PartialEq, Eq)]
pub enum Destination {
    /// To the live output stream, line by line.
    Stream,
    /// To the file at `path`, in one write at the end.
    File { path: String },
}

/// What a `Destination` holds.
pub enum DestinationView {
    Stream,
    File { path: Seq<char> },
}

impl View for Destination {
    type V = DestinationView;

    open spec fn view(&self) -> DestinationView {
        match self {
            Destination::Stream => DestinationView::Stream,
            Destination::File { path } => DestinationView::File { path: path@ },
        }
    }
}

/// One write to a file.
#[derive(Debug, Clone, PartialEq, Eq)]
pub struct FileWrite {
    pub path: String,
    pub content: String,
}

/// What a `FileWrite` holds.
pub struct FileWriteView {
    pub path: Seq<char>,
    pub content: Seq<char>,
}

impl View for FileWrite {
    type V = FileWriteView;

    open spec fn view(&self) -> FileWriteView {
        FileWriteView { path: self.path@, content: self.content@ }
    }
}

/// The state of a sink: where it writes to, and the lines it keeps for the
/// end, in the order in which they were emitted.
pub struct SinkView {
    pub destination: DestinationView,
    pub kept: Seq<Seq<char>>,
}

impl SinkView {
    /// The sink as configured, before any line.
    pub open spec fn configure(destination: DestinationView) -> SinkView {
        SinkView { destination, kept: Seq::empty() }
    }

    /// The sink after `line` was emitted.
    pub open spec fn emit(self, line: Seq<char>) -> SinkView {
        match self.destination {
            DestinationView::Stream => self,
            DestinationView::File { .. } => SinkView {
                destination: self.destination,
                kept: self.kept.push(line),
            },
        }
    }

    /// What is to be written to the stream as `line` is emitted.
    pub open spec fn emitted(self, line: Seq<char>) -> Option<Seq<char>> {
        match self.destination {
            DestinationView::Stream => Some(line),
            DestinationView::File { .. } => None,
        }
    }

    /// The sink after each of `lines` was emitted, in their order.
    pub open spec fn emit_all(self, lines: Seq<Seq<char>>) -> SinkView
        decreases lines.len(),
    {
        if lines.len() == 0 {
            self
        } else {
            self.emit_all(lines.drop_last()).emit(lines.last())
        }
    }

    /// What is written to the stream, write by write, as each of `lines` is
    /// emitted.
    pub open spec fn stream_writes(self, lines: Seq<Seq<char>>) -> Seq<Seq<char>>
        decreases lines.len(),
    {
        if lines.len() == 0 {
            Seq::empty()
        } else {
            let earlier = self.stream_writes(lines.drop_last());
            match self.emit_all(lines.drop_last()).emitted(lines.last()) {
                Some(text) => earlier.push(text),
                None => earlier,
            }
        }
    }

    /// What is to be written at the end: for a file, the lines kept, one
    /// after another.
    pub open spec fn finalize(self) -> Option<FileWriteView> {
        match self.destination {
            DestinationView::Stream => None,
            DestinationView::File { path } => Some(
                FileWriteView { path, content: joined(self.kept, Seq::empty()) },
            ),
        }
    }
}

/// An output sink.
pub struct OutputSink {
    destination: Destination,
    kept: Vec<String>,
}

impl View for OutputSink {
    type V = SinkView;

    closed spec fn view(&self) -> SinkView {
        SinkView { destination: self.destination@, kept: views(self.kept@) }
    }
}

impl OutputSink {
    /// A sink that writes to `destination`.
    pub fn configure(destination: Destination) -> (sink: OutputSink)
        ensures
            sink@ == SinkView::configure(destination@),
    {
        let sink = OutputSink { destination, kept: Vec::new() };
        assert(views(sink.kept@) == Seq::<Seq<char>>::empty());
        sink
    }

    /// Takes one line. Towards a stream, returns it to be written now;
    /// towards a file, keeps it and returns nothing to write.
    pub fn emit(&mut self, line: String) -> (write: Option<String>)
        ensures
            final(self)@ == old(self)@.emit(line@),
            option_view(write) == old(self)@.emitted(line@),
    {
        match &self.destination {
            Destination::Stream => Some(line),
            Destination::File { .. } => {
                let ghost before = self.kept@;
                self.kept.push(line);
                assert(views(self.kept@) == views(before).push(line@));
                None
            },
        }
    }

    /// Ends the output. Towards a file, returns the one write to make: all
    /// lines kept, one after another. Towards a stream, there is nothing
    /// left to write.
    pub fn finalize(self) -> (write: Option<FileWrite>)
        ensures
            option_write(write) == self@.finalize(),
    {
        match self.destination {
            Destination::Stream => None,
            Destination::File { path } => {
                let content = join(&self.kept, "");
                proof {
                    reveal_strlit("");
                    assert(""@ == Seq::<char>::empty());
                }
                Some(FileWrite { path, content })
            },
        }
    }
}

/// What an optional write holds.
pub open spec fn option_write(write: Option<FileWrite>) -> Option<FileWriteView> {
    match write {
        Some(write) => Some(write@),
        None => None,
    }
}

/// Towards a file, emitting writes nothing, whatever the lines and however
/// many; the end brings exactly one write, to the configured path, of all
/// the lines one after another in the order in which they were emitted.
pub proof fn lemma_file_written_once(path: Seq<char>, lines: Seq<Seq<char>>)
    ensures
        ({
            let sink = SinkView::configure(DestinationView::File { path });
            &&& sink.stream_writes(lines) == Seq::<Seq<char>>::empty()
            &&& sink.emit_all(lines).finalize() == Some(
                FileWriteView { path, content: joined(lines, Seq::empty()) },
            )
        }),
{
    let sink = SinkView::configure(DestinationView::File { path });
    lemma_file_keeps(sink, lines);
    assert(Seq::<Seq<char>>::empty() + lines == lines);
}

/// Towards a file, the lines emitted are kept after those kept before, and
/// nothing is written meanwhile.
proof fn lemma_file_keeps(sink: SinkView, lines: Seq<Seq<char>>)
    requires
        sink.destination is File,
    ensures
        sink.emit_all(lines) == (SinkView {
            destination: sink.destination,
            kept: sink.kept + lines,
        }),
        sink.stream_writes(lines) == Seq::<Seq<char>>::empty(),
    decreases lines.len(),
{
    if lines.len() > 0 {
        lemma_file_keeps(sink, lines.drop_last());
        assert((sink.kept + lines.drop_last()).push(lines.last()) == sink.kept + lines);
    } else {
        assert(sink.kept + lines == sink.kept);
    }
}

/// Towards a stream, each line is written as it is emitted, in that order,
/// nothing is kept, and the end writes nothing.
pub proof fn lemma_stream_written_through(lines: Seq<Seq<char>>)
    ensures
        ({
            let sink = SinkView::configure(DestinationView::Stream);
            &&& sink.stream_writes(lines) == lines
            &&& sink.emit_all(lines) == sink
            &&& sink.emit_all(lines).finalize().is_none()
        }),
    decreases lines.len(),
{
    if lines.len() > 0 {
        lemma_stream_written_through(lines.drop_last());
        assert(lines.drop_last().push(lines.last()) == lines);
    }
}

} // verus!
