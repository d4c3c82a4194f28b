//! A frame on its way to the display: pixels become bytes, and the bytes go out in
//! as many transfers as the buffer of the bus makes necessary.
use crate::tdisplay::st7789::{split_word, RAMWR, WRMEMC};
use vstd::prelude::*;

verus! {

/// The bytes of a run of pixels: two for each, the low byte first.
pub open spec fn encode(pixels: Seq<u16>) -> Seq<u8> {
    Seq::new(
        2 * pixels.len(),
        |i: int|
            if i % 2 == 0 {
                (pixels[i / 2] % 256) as u8
            } else {
                (pixels[i / 2] / 256) as u8
            },
    )
}

/// Writes the bytes of `count` pixels from `offset` on to the beginning of the
/// buffer, and leaves the rest of the buffer as it was.
pub fn write_pixels(pixels: &[u16], offset: usize, count: usize, buffer: &mut [u8])
    requires
        offset + count <= pixels@.len(),
        2 * count <= old(buffer)@.len(),
    ensures
        final(buffer)@ == crate::tdisplay::bus::overwrite(
            old(buffer)@,
            encode(pixels@.subrange(offset as int, offset + count)),
        ),
        final(buffer)@.len() == old(buffer)@.len(),
        forall|j: int|
            offset <= j < offset + count ==> {
                &&& final(buffer)@[2 * (j - offset)] == #[trigger] pixels@[j] % 256
                &&& final(buffer)@[2 * (j - offset) + 1] == pixels@[j] / 256
            },
        forall|i: int|
            2 * count <= i < old(buffer)@.len() ==> #[trigger] final(buffer)@[i] == old(
                buffer,
            )@[i],
{
    let ghost before = buffer@;
    let ghost pixels_len: usize = pixels.len();
    let ghost buffer_len: usize = buffer.len();
    let mut i: usize = 0;
    assert(buffer@ == crate::tdisplay::bus::overwrite(
        before,
        encode(pixels@.subrange(offset as int, offset as int)),
    ));
    while i < count
        invariant
            i <= count,
            offset + count <= pixels@.len() == pixels_len,
            2 * count <= before.len() == buffer_len,
            buffer@ == crate::tdisplay::bus::overwrite(
                before,
                encode(pixels@.subrange(offset as int, offset + i)),
            ),
        decreases count - i,
    {
        let (high, low) = split_word(pixels[offset + i]);
        let ghost encoded = encode(pixels@.subrange(offset as int, offset + i));
        buffer[i * 2] = low;
        buffer[i * 2 + 1] = high;
        i = i + 1;
        assert(encode(pixels@.subrange(offset as int, offset + i)) == encoded + seq![low, high]);
        assert(buffer@ == crate::tdisplay::bus::overwrite(before, encoded + seq![low, high]));
    }
    proof {
        let run = pixels@.subrange(offset as int, offset + count);
        assert forall|j: int| offset <= j < offset + count implies {
            &&& buffer@[2 * (j - offset)] == #[trigger] pixels@[j] % 256
            &&& buffer@[2 * (j - offset) + 1] == pixels@[j] / 256
        } by {
            assert(run[j - offset] == pixels@[j]);
            law_encode_is_low_then_high(run, j - offset);
        }
    }
}

/// Each pixel is two bytes at twice its place: the low byte, then the high byte.
/// Together they are the pixel.
pub proof fn law_encode_is_low_then_high(pixels: Seq<u16>, i: int)
    requires
        0 <= i < pixels.len(),
    ensures
        encode(pixels).len() == 2 * pixels.len(),
        encode(pixels)[2 * i] == pixels[i] % 256,
        encode(pixels)[2 * i + 1] == pixels[i] / 256,
        encode(pixels)[2 * i + 1] * 256 + encode(pixels)[2 * i] == pixels[i],
{
}

/// One transfer of a frame: the command that it goes with, and how many bytes of
/// the buffer it sends.
#[derive(Clone, Copy, Debug, PartialEq, Eq, Structural)]
pub struct Chunk {
    pub command: u8,
    pub len: usize,
}

/// How far the transfers of a frame have come.
#[derive(Clone, Copy, Debug, PartialEq, Eq)]
pub struct FrameTransfer {
    pixel_count: usize,
    pixel_offset: usize,
    remaining: usize,
    started: bool,
}

/// The progress of a frame as contracts speak of it.
pub struct TransferView {
    /// Pixels of the frame.
    pub pixel_count: int,
    /// Pixels that were sent.
    pub pixel_offset: int,
    /// Bytes that are still to be sent.
    pub remaining: int,
    /// A first transfer was made.
    pub started: bool,
}

impl View for FrameTransfer {
    type V = TransferView;

    closed spec fn view(&self) -> TransferView {
        TransferView {
            pixel_count: self.pixel_count as int,
            pixel_offset: self.pixel_offset as int,
            remaining: self.remaining as int,
            started: self.started,
        }
    }
}

impl TransferView {
    /// A frame of `pixel_count` pixels before its first transfer.
    pub open spec fn begin(pixel_count: int) -> TransferView {
        TransferView {
            pixel_count,
            pixel_offset: 0,
            remaining: 2 * pixel_count,
            started: false,
        }
    }

    /// No pixel beyond the frame is ever needed.
    pub open spec fn wf(self) -> bool {
        &&& 0 <= self.pixel_offset
        &&& 0 <= self.remaining
        &&& 2 * self.pixel_offset + self.remaining <= 2 * self.pixel_count
    }

    /// Nothing is left to be sent.
    pub open spec fn done(self) -> bool {
        self.started && self.remaining == 0
    }

    /// How many bytes the next transfer sends from a buffer of `capacity` bytes.
    pub open spec fn chunk_len(self, capacity: int) -> int {
        if self.remaining <= capacity {
            self.remaining
        } else {
            capacity
        }
    }

    /// How many whole pixels these bytes hold.
    pub open spec fn chunk_pixels(self, capacity: int) -> int {
        self.chunk_len(capacity) / 2
    }

    /// The command of the next transfer.
    pub open spec fn command(self) -> u8 {
        if self.started {
            WRMEMC
        } else {
            RAMWR
        }
    }

    /// The next transfer.
    pub open spec fn chunk(self, capacity: int) -> Chunk {
        Chunk { command: self.command(), len: self.chunk_len(capacity) as usize }
    }

    /// What the buffer holds for the next transfer, if it held `buffer` before.
    pub open spec fn filled(self, pixels: Seq<u16>, buffer: Seq<u8>) -> Seq<u8> {
        crate::tdisplay::bus::overwrite(
            buffer,
            encode(
                pixels.subrange(
                    self.pixel_offset,
                    self.pixel_offset + self.chunk_pixels(buffer.len() as int),
                ),
            ),
        )
    }

    /// The progress after the next transfer.
    pub open spec fn after_chunk(self, capacity: int) -> TransferView {
        TransferView {
            pixel_offset: self.pixel_offset + self.chunk_pixels(capacity),
            remaining: self.remaining - self.chunk_len(capacity),
            started: true,
            ..self
        }
    }
}

impl FrameTransfer {
    #[verifier::type_invariant]
    spec fn inv(self) -> bool {
        self@.wf() && 2 * self.pixel_count <= usize::MAX
    }

    /// A frame of `pixel_count` pixels, of which nothing was sent yet.
    pub fn new(pixel_count: usize) -> (transfer: FrameTransfer)
        requires
            2 * pixel_count <= usize::MAX,
        ensures
            transfer@ == TransferView::begin(pixel_count as int),
            transfer@.pixel_count == pixel_count,
            transfer@.pixel_offset == 0,
            transfer@.remaining == 2 * pixel_count,
            !transfer@.started,
    {
        FrameTransfer { pixel_count, pixel_offset: 0, remaining: pixel_count * 2, started: false }
    }

    /// Fills the buffer for the next transfer and says what to send, or returns
    /// `None` where the frame is complete. There is always a first transfer.
    ///
    /// Only whole pixels are written: where an odd number of bytes is sent, the last
    /// of them is what the buffer held before.
    pub fn next_chunk(&mut self, pixels: &[u16], buffer: &mut [u8]) -> (chunk: Option<Chunk>)
        requires
            old(self)@.pixel_count <= pixels@.len(),
            old(self)@.remaining > 0 ==> old(buffer)@.len() > 0,
        ensures
            old(self)@.done() ==> {
                &&& chunk is None
                &&& *final(self) == *old(self)
                &&& final(buffer)@ == old(buffer)@
            },
            !old(self)@.done() ==> {
                &&& chunk == Some(old(self)@.chunk(old(buffer)@.len() as int))
                &&& chunk->0.len == old(self)@.chunk_len(old(buffer)@.len() as int)
                &&& final(self)@ == old(self)@.after_chunk(old(buffer)@.len() as int)
                &&& final(buffer)@ == old(self)@.filled(pixels@, old(buffer)@)
            },
            chunk is None <==> old(self)@.started && old(self)@.remaining == 0,
            chunk is None ==> *final(self) == *old(self) && final(buffer)@ == old(buffer)@,
            final(buffer)@.len() == old(buffer)@.len(),
            chunk matches Some(c) ==> {
                &&& c.command == if old(self)@.started {
                    0x3Cu8
                } else {
                    0x2Cu8
                }
                &&& c.len <= old(buffer)@.len()
                &&& c.len <= old(self)@.remaining
                &&& c.len == old(buffer)@.len() || c.len == old(self)@.remaining
                &&& final(self)@.remaining == old(self)@.remaining - c.len
                &&& final(self)@.pixel_offset == old(self)@.pixel_offset + c.len / 2
                &&& final(self)@.pixel_count == old(self)@.pixel_count
                &&& final(self)@.started
                &&& forall|j: int|
                    old(self)@.pixel_offset <= j < old(self)@.pixel_offset + c.len / 2 ==> {
                        &&& final(buffer)@[2 * (j - old(self)@.pixel_offset)]
                            == #[trigger] pixels@[j] % 256
                        &&& final(buffer)@[2 * (j - old(self)@.pixel_offset) + 1] == pixels@[j]
                            / 256
                    }
                &&& forall|i: int|
                    2 * (c.len / 2) <= i < old(buffer)@.len() ==> #[trigger] final(buffer)@[i]
                        == old(buffer)@[i]
            },
    {
        proof {
            use_type_invariant(&*self);
        }
        if self.started && self.remaining == 0 {
            return None;
        }
        let capacity: usize = buffer.len();
        let len: usize = if self.remaining <= capacity {
            self.remaining
        } else {
            capacity
        };
        let count: usize = len / 2;
        write_pixels(pixels, self.pixel_offset, count, buffer);
        let command: u8 = if self.started {
            WRMEMC
        } else {
            RAMWR
        };
        *self = FrameTransfer {
            pixel_count: self.pixel_count,
            pixel_offset: self.pixel_offset + count,
            remaining: self.remaining - len,
            started: true,
        };
        Some(Chunk { command, len })
    }
}

/// The bytes that each transfer of the rest of a frame sends, out of a buffer that
/// held `buffer` before.
pub open spec fn sent(t: TransferView, pixels: Seq<u16>, buffer: Seq<u8>) -> Seq<Seq<u8>>
    decreases
            t.remaining,
            if t.started {
                0int
            } else {
                1int
            },
{
    let capacity = buffer.len() as int;
    if t.done() || t.remaining < 0 || (t.remaining > 0 && capacity == 0) {
        Seq::empty()
    } else {
        let filled = t.filled(pixels, buffer);
        seq![filled.take(t.chunk_len(capacity))] + sent(t.after_chunk(capacity), pixels, filled)
    }
}

/// The transfers of the rest of a frame, out of a buffer of `capacity` bytes.
pub open spec fn chunks(t: TransferView, capacity: int) -> Seq<Chunk>
    decreases
            t.remaining,
            if t.started {
                0int
            } else {
                1int
            },
{
    if t.done() || t.remaining < 0 || capacity < 0 || (t.remaining > 0 && capacity == 0) {
        Seq::empty()
    } else {
        seq![t.chunk(capacity)] + chunks(t.after_chunk(capacity), capacity)
    }
}

/// The bytes that a row of transfers sends in all.
pub open spec fn total_len(row: Seq<Chunk>) -> int
    decreases row.len(),
{
    if row.len() == 0 {
        0
    } else {
        row.first().len + total_len(row.drop_first())
    }
}

/// Encoding two runs of pixels one after the other is encoding them together.
pub proof fn law_encode_splits(pixels: Seq<u16>, i: int, j: int, k: int)
    requires
        0 <= i <= j <= k <= pixels.len(),
    ensures
        encode(pixels.subrange(i, j)) + encode(pixels.subrange(j, k)) == encode(
            pixels.subrange(i, k),
        ),
{
    let left = encode(pixels.subrange(i, j));
    let right = encode(pixels.subrange(j, k));
    let whole = encode(pixels.subrange(i, k));
    assert forall|b: int| 0 <= b < whole.len() implies (left + right)[b] == whole[b] by {
        if b >= left.len() {
            assert((b - left.len()) / 2 == b / 2 - (j - i));
            assert((b - left.len()) % 2 == b % 2);
        }
    }
    assert(left + right =~= whole);
}

/// No two frames look the same on the bus: pixels can be read back from their bytes.
pub proof fn law_encode_keeps_pixels(a: Seq<u16>, b: Seq<u16>)
    requires
        encode(a) == encode(b),
    ensures
        a == b,
{
    assert(encode(a).len() == 2 * a.len());
    assert(encode(b).len() == 2 * b.len());
    assert forall|i: int| 0 <= i < a.len() implies a[i] == b[i] by {
        assert(encode(a)[2 * i] == (a[i] % 256) as u8);
        assert(encode(b)[2 * i] == (b[i] % 256) as u8);
        assert(encode(a)[2 * i + 1] == (a[i] / 256) as u8);
        assert(encode(b)[2 * i + 1] == (b[i] / 256) as u8);
    }
    assert(a =~= b);
}

proof fn lemma_rest_arrives(t: TransferView, pixels: Seq<u16>, buffer: Seq<u8>)
    requires
        0 <= t.pixel_offset,
        0 <= t.remaining,
        2 * t.pixel_offset + t.remaining == 2 * t.pixel_count,
        t.pixel_count <= pixels.len(),
        buffer.len() > 0,
        buffer.len() % 2 == 0,
    ensures
        sent(t, pixels, buffer).flatten() == encode(
            pixels.subrange(t.pixel_offset, t.pixel_count),
        ),
    decreases
            t.remaining,
            if t.started {
                0int
            } else {
                1int
            },
{
    if t.done() {
        assert(sent(t, pixels, buffer).flatten() =~= encode(
            pixels.subrange(t.pixel_offset, t.pixel_count),
        ));
    } else {
        let capacity = buffer.len() as int;
        let filled = t.filled(pixels, buffer);
        let next = t.after_chunk(capacity);
        let piece = encode(pixels.subrange(t.pixel_offset, next.pixel_offset));
        let rest = sent(next, pixels, filled);
        assert(t.chunk_len(capacity) % 2 == 0);
        assert(filled.len() == buffer.len());
        assert(filled.take(t.chunk_len(capacity)) =~= piece);
        lemma_rest_arrives(next, pixels, filled);
        law_encode_splits(pixels, t.pixel_offset, next.pixel_offset, t.pixel_count);
        let all = seq![piece] + rest;
        assert(all.drop_first() =~= rest);
        assert(all.first() == piece);
    }
}

/// A frame arrives whole: with a buffer that holds whole pixels, the transfers
/// together send the bytes of all pixels of the frame, each once and in order,
/// whatever the buffer held before.
pub proof fn law_frame_arrives_whole(pixels: Seq<u16>, pixel_count: int, buffer: Seq<u8>)
    requires
        0 <= pixel_count <= pixels.len(),
        buffer.len() > 0,
        buffer.len() % 2 == 0,
    ensures
        sent(TransferView::begin(pixel_count), pixels, buffer).flatten() == encode(
            pixels.take(pixel_count),
        ),
        sent(TransferView::begin(pixel_count), pixels, buffer).flatten().len() == 2 * pixel_count,
        forall|j: int|
            0 <= j < pixel_count ==> {
                let bytes = sent(TransferView::begin(pixel_count), pixels, buffer).flatten();
                bytes[2 * j + 1] * 256 + bytes[2 * j] == #[trigger] pixels[j]
            },
{
    lemma_rest_arrives(TransferView::begin(pixel_count), pixels, buffer);
    assert(pixels.take(pixel_count) =~= pixels.subrange(0, pixel_count));
    assert forall|j: int| 0 <= j < pixel_count implies {
        let bytes = sent(TransferView::begin(pixel_count), pixels, buffer).flatten();
        bytes[2 * j + 1] * 256 + bytes[2 * j] == #[trigger] pixels[j]
    } by {
        assert(pixels.take(pixel_count)[j] == pixels[j]);
        law_encode_is_low_then_high(pixels.take(pixel_count), j);
    }
}

/// One transfer: it sends the whole buffer or, where less is left, all that is left;
/// the first begins the window and every other continues it; the buffer begins with
/// the next pixels, two bytes each, low byte first, and is otherwise as it was; and
/// as much is left afterwards as was not sent.
pub proof fn law_transfer_sends_next_pixels(
    t: TransferView,
    pixels: Seq<u16>,
    buffer: Seq<u8>,
    j: int,
)
    requires
        2 * t.pixel_count <= usize::MAX,
        t.pixel_count <= pixels.len(),
        0 <= t.pixel_offset,
        0 <= t.remaining,
        2 * t.pixel_offset + t.remaining <= 2 * t.pixel_count,
    ensures
        ({
            let capacity = buffer.len() as int;
            let chunk = t.chunk(capacity);
            let filled = t.filled(pixels, buffer);
            let after = t.after_chunk(capacity);
            &&& chunk.len <= capacity
            &&& chunk.len <= t.remaining
            &&& chunk.len == capacity || chunk.len == t.remaining
            &&& t.started ==> chunk.command == 0x3C
            &&& !t.started ==> chunk.command == 0x2C
            &&& after.started
            &&& after.remaining == t.remaining - chunk.len
            &&& after.pixel_offset == t.pixel_offset + chunk.len / 2
            &&& after.pixel_count == t.pixel_count
            &&& filled.len() == buffer.len()
            &&& t.pixel_offset <= j < after.pixel_offset ==> filled[2 * (j - t.pixel_offset) + 1]
                * 256 + filled[2 * (j - t.pixel_offset)] == pixels[j]
            &&& 2 * (chunk.len / 2) <= j < buffer.len() ==> filled[j] == buffer[j]
            &&& t.done() <==> t.started && t.remaining == 0
            &&& t.wf()
            &&& after.wf()
        }),
{
    let after = t.after_chunk(buffer.len() as int);
    let run = pixels.subrange(t.pixel_offset, after.pixel_offset);
    if t.pixel_offset <= j < after.pixel_offset {
        assert(run[j - t.pixel_offset] == pixels[j]);
        law_encode_is_low_then_high(run, j - t.pixel_offset);
    }
}

/// The transfers are made one after the other: what they send is what the next one
/// sends out of the filled buffer, followed by what the rest send.
pub proof fn law_transfers_follow_each_other(t: TransferView, pixels: Seq<u16>, buffer: Seq<u8>)
    requires
        0 <= t.remaining,
        buffer.len() > 0,
    ensures
        t.started && t.remaining == 0 ==> sent(t, pixels, buffer).len() == 0,
        !(t.started && t.remaining == 0) ==> {
            let filled = t.filled(pixels, buffer);
            let len = t.chunk(buffer.len() as int).len as int;
            let rest = sent(t.after_chunk(buffer.len() as int), pixels, filled);
            t.remaining <= usize::MAX ==> sent(t, pixels, buffer) == seq![filled.take(len)] + rest
        },
{
}

/// The number of transfers for `bytes` bytes out of a buffer of `capacity` bytes:
/// as few as can be.
pub open spec fn transfers_for(bytes: int, capacity: int) -> int {
    (bytes + capacity - 1) / capacity
}

proof fn lemma_transfers_suffice(bytes: int, capacity: int)
    requires
        bytes > 0,
        capacity > 0,
    ensures
        (transfers_for(bytes, capacity) - 1) * capacity < bytes <= transfers_for(bytes, capacity)
            * capacity,
{
    let n = transfers_for(bytes, capacity);
    vstd::arithmetic::div_mod::lemma_fundamental_div_mod(bytes + capacity - 1, capacity);
    vstd::arithmetic::div_mod::lemma_mod_bound(bytes + capacity - 1, capacity);
    assert(capacity * n == n * capacity) by (nonlinear_arith);
    assert((n - 1) * capacity == n * capacity - capacity) by (nonlinear_arith);
}

proof fn lemma_rest_of_chunks(t: TransferView, capacity: int)
    requires
        t.wf(),
        2 * t.pixel_count <= usize::MAX,
        t.started,
        capacity > 0,
    ensures
        chunks(t, capacity).len() == transfers_for(t.remaining, capacity),
        total_len(chunks(t, capacity)) == t.remaining,
        forall|i: int|
            0 <= i < chunks(t, capacity).len() ==> {
                &&& (#[trigger] chunks(t, capacity)[i]).command == WRMEMC
                &&& 0 < chunks(t, capacity)[i].len <= capacity
                &&& i < chunks(t, capacity).len() - 1 ==> chunks(t, capacity)[i].len == capacity
            },
    decreases t.remaining,
{
    if t.remaining == 0 {
        vstd::arithmetic::div_mod::lemma_basic_div(capacity - 1, capacity);
    } else {
        let next = t.after_chunk(capacity);
        let rest = chunks(next, capacity);
        lemma_rest_of_chunks(next, capacity);
        let all = chunks(t, capacity);
        assert(all =~= seq![t.chunk(capacity)] + rest);
        assert(all.drop_first() =~= rest);
        assert forall|i: int| 0 <= i < all.len() implies {
            &&& (#[trigger] all[i]).command == WRMEMC
            &&& 0 < all[i].len <= capacity
            &&& i < all.len() - 1 ==> all[i].len == capacity
        } by {
            if i > 0 {
                assert(all[i] == rest[i - 1]);
            }
        }
        if t.remaining <= capacity {
            vstd::arithmetic::div_mod::lemma_basic_div(capacity - 1, capacity);
            vstd::arithmetic::div_mod::lemma_basic_div(t.remaining - 1, capacity);
            vstd::arithmetic::div_mod::lemma_div_plus_one(t.remaining - 1, capacity);
        } else {
            vstd::arithmetic::div_mod::lemma_div_minus_one(t.remaining + capacity - 1, capacity);
        }
    }
}

/// The transfers of a frame are in order: the first begins the window, every other
/// continues it, every one but the last sends all that the buffer holds, together
/// they send two bytes for each pixel, and there are no more of them than it takes.
pub proof fn law_chunks_in_order(pixel_count: int, capacity: int)
    requires
        0 < pixel_count,
        2 * pixel_count <= usize::MAX,
        capacity > 0,
    ensures
        ({
            let row = chunks(TransferView::begin(pixel_count), capacity);
            &&& row.len() == transfers_for(2 * pixel_count, capacity)
            &&& row.len() > 0
            &&& row[0].command == RAMWR
            &&& forall|i: int| 0 < i < row.len() ==> (#[trigger] row[i]).command == WRMEMC
            &&& forall|i: int| 0 <= i < row.len() ==> 0 < (#[trigger] row[i]).len <= capacity
            &&& total_len(row) == 2 * pixel_count
            &&& (row.len() - 1) * capacity < 2 * pixel_count <= row.len() * capacity
            &&& row[0].command == 0x2C
            &&& forall|i: int| 0 < i < row.len() ==> (#[trigger] row[i]).command == 0x3C
            &&& forall|i: int|
                0 <= i < row.len() - 1 ==> (#[trigger] row[i]).len == capacity
        }),
{
    lemma_transfers_suffice(2 * pixel_count, capacity);
    let t = TransferView::begin(pixel_count);
    let next = t.after_chunk(capacity);
    let rest = chunks(next, capacity);
    lemma_rest_of_chunks(next, capacity);
    let row = chunks(t, capacity);
    assert(row =~= seq![t.chunk(capacity)] + rest);
    assert(row.drop_first() =~= rest);
    assert forall|i: int| 0 < i < row.len() implies {
        &&& (#[trigger] row[i]).command == WRMEMC
        &&& 0 < row[i].len <= capacity
        &&& i < row.len() - 1 ==> row[i].len == capacity
    } by {
        assert(row[i] == rest[i - 1]);
    }
    if t.remaining <= capacity {
        vstd::arithmetic::div_mod::lemma_basic_div(capacity - 1, capacity);
        vstd::arithmetic::div_mod::lemma_basic_div(t.remaining - 1, capacity);
        vstd::arithmetic::div_mod::lemma_div_plus_one(t.remaining - 1, capacity);
    } else {
        vstd::arithmetic::div_mod::lemma_div_minus_one(t.remaining + capacity - 1, capacity);
    }
}

/// A frame without pixels is still begun: one transfer opens the window and sends
/// nothing.
pub proof fn law_empty_frame_is_begun(capacity: int)
    requires
        capacity >= 0,
    ensures
        chunks(TransferView::begin(0), capacity) == seq![Chunk { command: 0x2C, len: 0 }],
{
    reveal_with_fuel(chunks, 2);
}

} // verus!
