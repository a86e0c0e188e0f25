//! The video sink: a fixed framebuffer of four bytes per pixel.

use vstd::prelude::*;

verus! {

/// Width of the emulated display, in pixels.
pub const FRAME_WIDTH: usize = 256;

/// Height of the emulated display, in pixels.
pub const FRAME_HEIGHT: usize = 240;

/// Bytes that one pixel takes in the framebuffer.
pub const BYTES_PER_PIXEL: usize = 4;

/// Pixels in one frame: `FRAME_WIDTH * FRAME_HEIGHT`.
pub const FRAME_PIXELS: usize = 61440;

/// Bytes in one frame: `FRAME_PIXELS * BYTES_PER_PIXEL`.
pub const FRAME_BYTES: usize = 245760;

/// The byte of `value` with weight `256^k`.
pub open spec fn byte_at(value: u32, k: nat) -> u8 {
    ((value as int / pow256(k)) % 256) as u8
}

/// `256^k` for the four positions of a 32-bit word.
pub open spec fn pow256(k: nat) -> int {
    if k == 0 {
        1
    } else if k == 1 {
        0x100
    } else if k == 2 {
        0x1_0000
    } else {
        0x100_0000
    }
}

/// The four bytes of `value`, least significant first.
pub open spec fn little_endian_bytes(value: u32) -> Seq<u8> {
    seq![byte_at(value, 0), byte_at(value, 1), byte_at(value, 2), byte_at(value, 3)]
}

/// The four bytes of `value`, most significant first.
pub open spec fn big_endian_bytes(value: u32) -> Seq<u8> {
    seq![byte_at(value, 3), byte_at(value, 2), byte_at(value, 1), byte_at(value, 0)]
}

/// The four bytes of `value` in the byte order named by `little`.
pub open spec fn ordered_bytes(value: u32, little: bool) -> Seq<u8> {
    if little {
        little_endian_bytes(value)
    } else {
        big_endian_bytes(value)
    }
}

/// The word that four bytes spell when read in the byte order named by
/// `little`.
pub open spec fn word_of(bytes: Seq<u8>, little: bool) -> int {
    if little {
        bytes[0] + 0x100 * bytes[1] + 0x1_0000 * bytes[2] + 0x100_0000 * bytes[3]
    } else {
        bytes[3] + 0x100 * bytes[2] + 0x1_0000 * bytes[1] + 0x100_0000 * bytes[0]
    }
}

/// `bytes` is the memory representation of `value` on some machine: its four
/// bytes in little-endian or in big-endian order.
pub open spec fn is_native_bytes(bytes: Seq<u8>, value: u32) -> bool {
    bytes == little_endian_bytes(value) || bytes == big_endian_bytes(value)
}

/// The four framebuffer bytes that belong to the pixel at `index`.
pub open spec fn pixel_bytes(buffer: Seq<u8>, index: int) -> Seq<u8> {
    buffer.subrange(4 * index, 4 * index + 4)
}

/// `after` is `before` with `pixels` repacked into its front in the byte
/// order named by `little`: pixel `i` fills the four bytes from `4 * i` on,
/// and the bytes behind the last pixel are those of `before`.
pub open spec fn repacked_as(before: Seq<u8>, pixels: Seq<u32>, little: bool, after: Seq<u8>) -> bool {
    &&& after.len() == before.len()
    &&& forall|i: int|
        0 <= i < pixels.len() ==> #[trigger] pixel_bytes(after, i) == ordered_bytes(
            pixels[i],
            little,
        )
    &&& forall|j: int| 4 * pixels.len() <= j < after.len() ==> after[j] == before[j]
}

/// `after` is `before` with `pixels` repacked into its front, all of them
/// in one byte order.
pub open spec fn repacked(before: Seq<u8>, pixels: Seq<u32>, after: Seq<u8>) -> bool {
    repacked_as(before, pixels, true, after) || repacked_as(before, pixels, false, after)
}

/// Calls `u32::to_ne_bytes`. The contract claims that the result is the
/// value's four bytes in one of the two byte orders; which one is the
/// machine's choice and is not stated.
#[verifier::external_body]
fn native_bytes(value: u32) -> (bytes: [u8; 4])
    ensures
        is_native_bytes(bytes@, value),
{
    value.to_ne_bytes()
}

/// Whether this machine keeps the least significant byte of a word first,
/// learnt from the memory representation of the word 1.
pub fn native_order_is_little() -> (little: bool) {
    let probe = native_bytes(1);
    probe[0] == 1
}

/// Splits `value` into its four bytes in the byte order named by `little`.
pub fn word_bytes(value: u32, little: bool) -> (bytes: [u8; 4])
    ensures
        bytes@ == ordered_bytes(value, little),
{
    let b0: u8 = (value & 0xff) as u8;
    let b1: u8 = ((value >> 8) & 0xff) as u8;
    let b2: u8 = ((value >> 16) & 0xff) as u8;
    let b3: u8 = ((value >> 24) & 0xff) as u8;
    assert(value & 0xff == value % 0x100) by (bit_vector);
    assert((value >> 8) & 0xff == (value / 0x100) % 0x100) by (bit_vector);
    assert((value >> 16) & 0xff == (value / 0x1_0000) % 0x100) by (bit_vector);
    assert((value >> 24) & 0xff == (value / 0x100_0000) % 0x100) by (bit_vector);
    let bytes = if little {
        [b0, b1, b2, b3]
    } else {
        [b3, b2, b1, b0]
    };
    assert(bytes@ =~= ordered_bytes(value, little));
    bytes
}

#[verifier::external_type_specification]
#[verifier::external_body]
pub struct ExPixelBuffer(ludus::PixelBuffer);

/// The pixels that one of the engine's pixel buffers holds, row by row.
pub uninterp spec fn buffer_pixels(buffer: ludus::PixelBuffer) -> Seq<u32>;

/// Calls `as_ref` of `ludus::PixelBuffer`, which lends the buffer's pixels
/// as a slice. The contract claims that the slice is what the buffer
/// holds, and that it is one frame long: the buffer is an array of
/// `NES_WIDTH * NES_HEIGHT` words.
#[verifier::external_body]
fn pixels_of(buffer: &ludus::PixelBuffer) -> (pixels: &[u32])
    ensures
        pixels@ == buffer_pixels(*buffer),
        pixels@.len() == FRAME_PIXELS,
{
    buffer.as_ref()
}

/// The framebuffer that the host reads after each frame.
pub struct LibretroVideo(pub Box<[u8; FRAME_BYTES]>);

impl View for LibretroVideo {
    type V = Seq<u8>;

    open spec fn view(&self) -> Seq<u8> {
        self.0@
    }
}

impl Default for LibretroVideo {
    fn default() -> (video: Self)
        ensures
            video@.len() == FRAME_BYTES,
            forall|j: int| 0 <= j < FRAME_BYTES ==> video@[j] == 0,
    {
        LibretroVideo(Box::new([0u8; FRAME_BYTES]))
    }
}

impl LibretroVideo {
    /// Takes one frame from the engine: every pixel of `pixels` is repacked
    /// into the framebuffer, which is thereby overwritten as a whole.
    pub fn blit_pixels(&mut self, pixels: &ludus::PixelBuffer)
        ensures
            final(self)@.len() == FRAME_BYTES,
            repacked(old(self)@, buffer_pixels(*pixels), final(self)@),
            buffer_pixels(*pixels).len() == FRAME_PIXELS,
    {
        self.blit_words(pixels_of(pixels));
    }

    /// Repacks `pixels` into the front of the framebuffer, four bytes per
    /// pixel in the machine's byte order, in the order received. Bytes
    /// behind the last pixel keep their value. The byte order is learnt
    /// once and holds for every pixel of the call.
    pub fn blit_words(&mut self, pixels: &[u32])
        requires
            pixels@.len() <= FRAME_PIXELS,
        ensures
            final(self)@.len() == FRAME_BYTES,
            repacked(old(self)@, pixels@, final(self)@),
    {
        let little = native_order_is_little();
        self.blit_words_as(pixels, little);
    }

    /// Repacks `pixels` into the front of the framebuffer, four bytes per
    /// pixel in the byte order named by `little`, in the order received.
    /// Bytes behind the last pixel keep their value.
    pub fn blit_words_as(&mut self, pixels: &[u32], little: bool)
        requires
            pixels@.len() <= FRAME_PIXELS,
        ensures
            final(self)@.len() == FRAME_BYTES,
            repacked_as(old(self)@, pixels@, little, final(self)@),
    {
        let mut i: usize = 0;
        while i < pixels.len()
            invariant
                i <= pixels@.len() <= FRAME_PIXELS,
                self@.len() == FRAME_BYTES,
                forall|k: int|
                    0 <= k < i ==> #[trigger] pixel_bytes(self@, k) == ordered_bytes(
                        pixels@[k],
                        little,
                    ),
                forall|j: int| 4 * i <= j < FRAME_BYTES ==> self@[j] == old(self)@[j],
            decreases pixels@.len() - i,
        {
            let bytes = word_bytes(pixels[i], little);
            let base: usize = i * 4;
            let ghost before = self@;
            self.0[base] = bytes[0];
            self.0[base + 1] = bytes[1];
            self.0[base + 2] = bytes[2];
            self.0[base + 3] = bytes[3];
            proof {
                assert(pixel_bytes(self@, i as int) =~= bytes@);
                assert forall|k: int| 0 <= k < i implies #[trigger] pixel_bytes(self@, k)
                    == ordered_bytes(pixels@[k], little) by {
                    assert(pixel_bytes(self@, k) =~= pixel_bytes(before, k));
                }
            }
            i += 1;
        }
    }
}

/// Repacking does not drift: byte `j` of the repacked front is the byte at
/// position `j % 4` of pixel `j / 4`, in the byte order of the repack.
pub proof fn lemma_repack_places_each_byte(
    before: Seq<u8>,
    pixels: Seq<u32>,
    little: bool,
    after: Seq<u8>,
    j: int,
)
    requires
        repacked_as(before, pixels, little, after),
        4 * pixels.len() <= after.len(),
        0 <= j < 4 * pixels.len(),
    ensures
        after[j] == ordered_bytes(pixels[j / 4], little)[j % 4],
{
    let i = j / 4;
    let k = j % 4;
    let quad = pixel_bytes(after, i);
    assert(quad == ordered_bytes(pixels[i], little));
    assert(quad[k] == after[4 * i + k]);
}

/// Repacking a whole frame overwrites the whole framebuffer: two buffers
/// that took the same frame in the same byte order are equal, whatever
/// they held before.
pub proof fn lemma_full_frame_overwrites(
    before_a: Seq<u8>,
    before_b: Seq<u8>,
    pixels: Seq<u32>,
    little: bool,
    after_a: Seq<u8>,
    after_b: Seq<u8>,
)
    requires
        before_a.len() == FRAME_BYTES,
        before_b.len() == FRAME_BYTES,
        pixels.len() == FRAME_PIXELS,
        repacked_as(before_a, pixels, little, after_a),
        repacked_as(before_b, pixels, little, after_b),
    ensures
        after_a == after_b,
{
    assert forall|j: int| 0 <= j < after_a.len() implies after_a[j] == after_b[j] by {
        lemma_repack_places_each_byte(before_a, pixels, little, after_a, j);
        lemma_repack_places_each_byte(before_b, pixels, little, after_b, j);
    }
    assert(after_a =~= after_b);
}

/// Repacking the same pixels again, in the same byte order, leaves the
/// framebuffer as the first repack left it.
pub proof fn lemma_repack_twice_as_once(
    before: Seq<u8>,
    pixels: Seq<u32>,
    little: bool,
    once: Seq<u8>,
    twice: Seq<u8>,
)
    requires
        4 * pixels.len() <= before.len(),
        repacked_as(before, pixels, little, once),
        repacked_as(once, pixels, little, twice),
    ensures
        twice == once,
{
    assert forall|j: int| 0 <= j < once.len() implies twice[j] == once[j] by {
        if j < 4 * pixels.len() {
            lemma_repack_places_each_byte(before, pixels, little, once, j);
            lemma_repack_places_each_byte(once, pixels, little, twice, j);
        }
    }
    assert(twice =~= once);
}

/// The four bytes of a word, read back in the order they were split in,
/// spell the word.
pub proof fn lemma_bytes_spell_the_word(value: u32, little: bool)
    ensures
        word_of(ordered_bytes(value, little), little) == value,
{
    assert(value == (value % 0x100) + 0x100 * ((value / 0x100) % 0x100) + 0x1_0000 * ((value
        / 0x1_0000) % 0x100) + 0x100_0000 * ((value / 0x100_0000) % 0x100)) by (bit_vector);
}

/// Repacking round-trips: the four bytes of pixel `i`, read back in the
/// byte order of the repack, spell the pixel.
pub proof fn lemma_repack_reads_back(
    before: Seq<u8>,
    pixels: Seq<u32>,
    little: bool,
    after: Seq<u8>,
    i: int,
)
    requires
        repacked_as(before, pixels, little, after),
        0 <= i < pixels.len(),
    ensures
        word_of(pixel_bytes(after, i), little) == pixels[i],
{
    lemma_bytes_spell_the_word(pixels[i], little);
}

/// A pixel that is not zero leaves a byte that is not zero, in whichever
/// byte order the frame was repacked: a repack that takes one leaves no
/// zeroed framebuffer behind.
pub proof fn lemma_nonzero_pixel_shows(before: Seq<u8>, pixels: Seq<u32>, after: Seq<u8>, i: int)
    requires
        repacked(before, pixels, after),
        4 * pixels.len() <= after.len(),
        0 <= i < pixels.len(),
        pixels[i] != 0,
    ensures
        exists|j: int| 4 * i <= j < 4 * i + 4 && #[trigger] after[j] != 0,
{
    let little = repacked_as(before, pixels, true, after);
    lemma_repack_reads_back(before, pixels, little, after, i);
    let quad = pixel_bytes(after, i);
    assert(quad[0] == after[4 * i]);
    assert(quad[1] == after[4 * i + 1]);
    assert(quad[2] == after[4 * i + 2]);
    assert(quad[3] == after[4 * i + 3]);
}

} // verus!
