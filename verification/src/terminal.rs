//! A remote terminal with a fixed viewport, drawn over a [`TerminalHandle`].

use ratatui::backend::CrosstermBackend;
use ratatui::layout::Rect;
use ratatui::{Terminal, TerminalOptions, Viewport};
use vstd::prelude::*;

use crate::handle::{
    chunk_bytes, law_delivery_appends_chunks, lemma_flush_keeps_stream, HandleError, HandleView,
    TerminalHandle,
};
use crate::size::Area;

verus! {

/// The error of an I/O operation of std.
#[verifier::external_type_specification]
#[verifier::external_body]
pub struct ExIoError(std::io::Error);

/// A writer that keeps what it is given, one chunk for each flush.
pub struct ChunkRecorder {
    chunks: Vec<Vec<u8>>,
    sink: Vec<u8>,
}

impl ChunkRecorder {
    /// The chunks that were flushed, in order.
    pub closed spec fn chunks(self) -> Seq<Seq<u8>> {
        chunk_bytes(self.chunks@)
    }

    /// What was written since the last flush.
    pub closed spec fn sink(self) -> Seq<u8> {
        self.sink@
    }

    /// A recorder that holds nothing.
    fn new() -> (recorder: ChunkRecorder)
        ensures
            recorder.chunks() == Seq::<Seq<u8>>::empty(),
            recorder.sink() == Seq::<u8>::empty(),
    {
        let recorder = ChunkRecorder { chunks: Vec::new(), sink: Vec::new() };
        assert(recorder.chunks() == Seq::<Seq<u8>>::empty());
        recorder
    }
}

impl std::io::Write for ChunkRecorder {
    fn write(&mut self, buf: &[u8]) -> (count: std::io::Result<usize>)
        ensures
            count == Ok::<usize, std::io::Error>(buf@.len() as usize),
            final(self).sink() == old(self).sink() + buf@,
            final(self).chunks() == old(self).chunks(),
    {
        self.sink.extend_from_slice(buf);
        assert(self.sink@ == old(self).sink@ + buf@);
        Ok(buf.len())
    }

    fn flush(&mut self) -> (done: std::io::Result<()>)
        ensures
            done is Ok,
            final(self).sink() == Seq::<u8>::empty(),
            final(self).chunks() == old(self).chunks().push(old(self).sink()),
    {
        let mut chunk = Vec::new();
        std::mem::swap(&mut chunk, &mut self.sink);
        self.chunks.push(chunk);
        assert(self.chunks() == old(self).chunks().push(old(self).sink()));
        Ok(())
    }
}

/// A number in decimal digits.
pub open spec fn decimal(n: nat) -> Seq<u8>
    decreases n,
{
    let digit = (0x30 + n % 10) as u8;
    if n < 10 {
        seq![digit]
    } else {
        decimal(n / 10).push(digit)
    }
}

/// The escape sequence that moves the cursor to the first column of a row. Rows
/// are counted from 0 here and from 1 in the sequence.
pub open spec fn move_to_row(row: nat) -> Seq<u8> {
    seq![0x1bu8, 0x5b] + decimal(row + 1) + seq![0x3bu8, 0x31, 0x48]
}

/// The escape sequence that clears everything from the cursor on.
pub open spec fn clear_from_cursor() -> Seq<u8> {
    seq![0x1bu8, 0x5b, 0x4a]
}

/// The row below the last one of a viewport. Rows are counted in 16 bits.
pub open spec fn bottom(area: Area) -> int {
    if area.y + area.height <= 0xffff {
        area.y + area.height
    } else {
        0xffff
    }
}

/// The chunks that clear a viewport: for each of its rows from the top, the
/// cursor moves to the beginning of the row and the screen is cleared from there
/// on.
pub open spec fn clear_chunks(area: Area) -> Seq<Seq<u8>> {
    Seq::new(
        (2 * (bottom(area) - area.y)) as nat,
        |i: int|
            if i % 2 == 0 {
                move_to_row((area.y + i / 2) as nat)
            } else {
                clear_from_cursor()
            },
    )
}

/// Calls ratatui's `Terminal::resize` on a new terminal with a fixed viewport,
/// over a crossterm backend that writes to `recorder`. The contract claims that
/// the resize succeeds when the writer does, as a recorder always does, and that
/// its output is the clearing of the new viewport row by row, one flush for each
/// escape sequence. It holds where crossterm speaks in escape sequences, which
/// leaves out consoles of Windows without them. The call allocates two buffers
/// with a cell for each position of the viewport.
#[verifier::external_body]
fn resize_into(recorder: &mut ChunkRecorder, area: Area) -> (done: std::io::Result<()>)
    requires
        old(recorder).sink().len() == 0,
    ensures
        done is Ok,
        final(recorder).sink().len() == 0,
        final(recorder).chunks() == old(recorder).chunks() + clear_chunks(area),
{
    let viewport = Viewport::Fixed(Rect::default());
    let backend = CrosstermBackend::new(recorder);
    let mut terminal = Terminal::with_options(backend, TerminalOptions { viewport })?;
    terminal.resize(Rect { x: area.x, y: area.y, width: area.width, height: area.height })
}

/// What there is to know of an [`SshTerminal`].
pub struct TerminalView {
    /// The stream that the terminal is drawn over.
    pub handle: HandleView,
    /// The viewport.
    pub area: Area,
}

/// A remote terminal: the stream to it and the viewport that is drawn to.
pub struct SshTerminal {
    handle: TerminalHandle,
    area: Area,
}

impl View for SshTerminal {
    type V = TerminalView;

    closed spec fn view(&self) -> TerminalView {
        TerminalView { handle: self.handle@, area: self.area }
    }
}

/// Whether `after` is `before` with `chunks` written to it and flushed one by
/// one until the channel refused one. The refused chunk was handed to the channel
/// and stays collected.
pub open spec fn refused_within(
    before: HandleView,
    chunks: Seq<Seq<u8>>,
    after: HandleView,
) -> bool {
    exists|taken: int|
        0 <= taken < chunks.len() && after == before.delivered(
            #[trigger] chunks.take(taken),
        ).written(chunks[taken]).flushed(false)
}

/// Whether `after` is `before` with the bytes of `frame` written to it and handed
/// to the channel in one flush. The channel may take the chunk or refuse it.
pub open spec fn drawn(before: HandleView, frame: Seq<char>, after: HandleView) -> bool {
    let written = before.written(vstd::utf8::encode_utf8(frame));
    after == written.flushed(true) || after == written.flushed(false)
}

impl SshTerminal {
    /// A terminal whose viewport is empty until it is resized. Nothing is
    /// written.
    pub fn new(handle: TerminalHandle) -> (terminal: SshTerminal)
        ensures
            terminal@.handle == handle@,
            terminal@.area == (Area { x: 0, y: 0, width: 0, height: 0 }),
    {
        SshTerminal { handle, area: Area::empty() }
    }

    /// Makes `area` the viewport and clears it, row by row. The viewport is the
    /// new one even if the channel refuses a chunk, which ends the clearing.
    pub fn resize(&mut self, area: Area) -> (result: Result<(), HandleError>)
        ensures
            final(self)@.area == area,
            result is Ok ==> final(self)@.handle == old(self)@.handle.delivered(
                clear_chunks(area),
            ),
            result is Err ==> result == Err::<(), HandleError>(HandleError::BrokenPipe)
                && refused_within(
                old(self)@.handle,
                clear_chunks(area),
                final(self)@.handle,
            ),
    {
        self.area = area;
        let mut recorder = ChunkRecorder::new();
        resize_into(&mut recorder, area).unwrap();
        let chunks = recorder.chunks;
        let ghost bytes = clear_chunks(area);
        let mut i: usize = 0;
        while i < chunks.len()
            invariant
                i <= chunks.len(),
                bytes == clear_chunks(area),
                chunk_bytes(chunks@) == bytes,
                self.area == area,
                self.handle@ == old(self)@.handle.delivered(bytes.take(i as int)),
            decreases chunks.len() - i,
        {
            proof {
                assert(bytes[i as int] == chunks@[i as int]@);
                let next = bytes.take(i + 1);
                assert(next.drop_last() == bytes.take(i as int));
                assert(next.last() == bytes[i as int]);
            }
            self.handle.write(chunks[i].as_slice());
            match self.handle.flush() {
                Ok(()) => {},
                Err(e) => {
                    assert(refused_within(old(self)@.handle, bytes, self@.handle));
                    return Err(e);
                },
            }
            i = i + 1;
        }
        assert(bytes.take(i as int) == bytes);
        Ok(())
    }

    /// Writes a frame as it is and flushes it. A refused chunk is not reported:
    /// it stays collected and goes out with a later one.
    pub fn show(&mut self, frame: &str)
        ensures
            final(self)@.area == old(self)@.area,
            drawn(old(self)@.handle, frame@, final(self)@.handle),
    {
        self.handle.write(frame.as_bytes());
        let _ = self.handle.flush();
    }
}

/// Drawing a frame puts exactly its bytes behind the stream, whether the channel
/// takes the chunk now or later.
pub proof fn law_drawing_appends_frame(before: HandleView, frame: Seq<char>, after: HandleView)
    requires
        drawn(before, frame, after),
    ensures
        after.stream() == before.stream() + vstd::utf8::encode_utf8(frame),
{
    let written = before.written(vstd::utf8::encode_utf8(frame));
    lemma_flush_keeps_stream(written, true);
    lemma_flush_keeps_stream(written, false);
    assert(written.stream() == before.stream() + vstd::utf8::encode_utf8(frame));
}

/// A resize that is cut short puts a beginning of its chunks behind the stream.
pub proof fn law_cut_resize_appends_beginning(
    before: HandleView,
    chunks: Seq<Seq<u8>>,
    after: HandleView,
)
    requires
        refused_within(before, chunks, after),
    ensures
        exists|count: int|
            0 < count <= chunks.len() && after.stream() == before.stream() + (
            #[trigger] chunks.take(count)).flatten(),
{
    let taken = choose|taken: int|
        0 <= taken < chunks.len() && after == before.delivered(
            #[trigger] chunks.take(taken),
        ).written(chunks[taken]).flushed(false);
    let delivered = before.delivered(chunks.take(taken));
    law_delivery_appends_chunks(before, chunks.take(taken));
    chunks.take(taken).lemma_flatten_push(chunks[taken]);
    assert(chunks.take(taken).push(chunks[taken]) == chunks.take(taken + 1));
    lemma_flush_keeps_stream(delivered.written(chunks[taken]), false);
    assert(delivered.written(chunks[taken]).stream() == delivered.stream() + chunks[taken]);
    assert(after.stream() == before.stream() + chunks.take(taken + 1).flatten());
}

} // verus!
