//! The pixel format converter: pure transcoding from the three accepted
//! input buffer shapes (4-byte channel groups, a flat byte stream, packed
//! 32-bit words) into the byte layout a backend's presentation call expects.

use vstd::prelude::*;

verus! {

/// One logical pixel: alpha, red, green and blue channels, 8 bits each.
#[derive(Clone, Copy, PartialEq, Eq, Structural, Debug)]
pub struct Pixel {
    pub a: u8,
    pub r: u8,
    pub g: u8,
    pub b: u8,
}

/// The logical pixel described by one `[A, R, G, B]` channel group.
pub open spec fn quad_pixel(q: [u8; 4]) -> Pixel {
    Pixel { a: q[0], r: q[1], g: q[2], b: q[3] }
}

/// The logical image described by a buffer of channel groups.
pub open spec fn quads_pixels(s: Seq<[u8; 4]>) -> Seq<Pixel> {
    Seq::new(s.len(), |i: int| quad_pixel(s[i]))
}

/// The `i`th logical pixel of a flat `A, R, G, B` byte stream.
pub open spec fn bytes_pixel(s: Seq<u8>, i: int) -> Pixel {
    Pixel { a: s[4 * i], r: s[4 * i + 1], g: s[4 * i + 2], b: s[4 * i + 3] }
}

/// The logical image described by a flat byte stream.
pub open spec fn bytes_pixels(s: Seq<u8>) -> Seq<Pixel> {
    Seq::new(s.len() / 4, |i: int| bytes_pixel(s, i))
}

/// A pixel packed into one 32-bit word as `A<<24 | R<<16 | G<<8 | B`,
/// written with multiplications so that the value is plain arithmetic.
pub open spec fn pack_argb_int(p: Pixel) -> int {
    p.a * 0x1000000 + p.r * 0x10000 + p.g * 0x100 + p.b
}

/// The packed word itself; `pack_argb_int` never exceeds `u32::MAX`.
pub open spec fn pack_argb(p: Pixel) -> u32 {
    pack_argb_int(p) as u32
}

/// The logical pixel encoded by one packed word.
pub open spec fn packed_pixel(w: u32) -> Pixel {
    Pixel {
        a: (w / 0x1000000) as u8,
        r: ((w / 0x10000) % 0x100) as u8,
        g: ((w / 0x100) % 0x100) as u8,
        b: (w % 0x100) as u8,
    }
}

/// The logical image described by a buffer of packed words.
pub open spec fn packed_pixels(s: Seq<u32>) -> Seq<Pixel> {
    Seq::new(s.len(), |i: int| packed_pixel(s[i]))
}

/// The four bytes one pixel occupies in the shared-memory region. The
/// region's declared format is ARGB8888 in little-endian byte order, so on a
/// little-endian host the channel order is reversed and the wire bytes are
/// `[B, G, R, A]`; on a big-endian host the channel bytes are written as
/// they stand.
pub open spec fn shm_pixel_bytes(p: Pixel, little_endian: bool) -> Seq<u8> {
    if little_endian {
        seq![p.b, p.g, p.r, p.a]
    } else {
        seq![p.a, p.r, p.g, p.b]
    }
}

/// The full byte stream the shared-memory backend writes: four bytes per
/// pixel, row-major, in the order `shm_pixel_bytes` gives.
pub open spec fn shm_encode(pixels: Seq<Pixel>, little_endian: bool) -> Seq<u8> {
    Seq::new(pixels.len() * 4, |i: int| shm_pixel_bytes(pixels[i / 4], little_endian)[i % 4])
}

/// The word stream the direct-image and device-context backends consume:
/// one packed `A<<24 | R<<16 | G<<8 | B` word per pixel, row-major.
pub open spec fn packed_encode(pixels: Seq<Pixel>) -> Seq<u32> {
    Seq::new(pixels.len(), |i: int| pack_argb(pixels[i]))
}

/// Appending one pixel to an image appends exactly its four wire bytes.
pub proof fn lemma_shm_encode_push(pixels: Seq<Pixel>, p: Pixel, little_endian: bool)
    ensures
        shm_encode(pixels.push(p), little_endian) =~= shm_encode(pixels, little_endian)
            + shm_pixel_bytes(p, little_endian),
{
    let lhs = shm_encode(pixels.push(p), little_endian);
    let rhs = shm_encode(pixels, little_endian) + shm_pixel_bytes(p, little_endian);
    assert(lhs.len() == rhs.len());
    assert forall|i: int| 0 <= i < lhs.len() implies lhs[i] == rhs[i] by {
        let n = pixels.len() as int;
        if i < 4 * n {
            assert(i / 4 < n) by (nonlinear_arith)
                requires 0 <= i, i < 4 * n;
            assert(pixels.push(p)[i / 4] == pixels[i / 4]);
        } else {
            assert(i / 4 == n && 0 <= i % 4 < 4) by (nonlinear_arith)
                requires 4 * n <= i, i < 4 * n + 4, 0 <= n;
            assert(i % 4 == i - 4 * n) by (nonlinear_arith)
                requires 4 * n <= i, i < 4 * n + 4, 0 <= n;
            assert(pixels.push(p)[i / 4] == p);
        }
    }
}

/// Converts a buffer of `[A, R, G, B]` channel groups into the byte stream
/// the shared-memory backend writes into its pool.
pub fn shm_bytes_from_quads(buffer: &[[u8; 4]], little_endian: bool) -> (out: Vec<u8>)
    requires
        4 * buffer@.len() <= usize::MAX,
    ensures
        out@ == shm_encode(quads_pixels(buffer@), little_endian),
{
    let ghost pixels = quads_pixels(buffer@);
    let n = buffer.len();
    let mut out: Vec<u8> = Vec::new();
    let mut i: usize = 0;
    while i < n
        invariant
            n == buffer@.len(),
            0 <= i <= n,
            4 * n <= usize::MAX,
            pixels == quads_pixels(buffer@),
            out@ =~= shm_encode(pixels.take(i as int), little_endian),
        decreases n - i,
    {
        let q = buffer[i];
        if little_endian {
            out.push(q[3]);
            out.push(q[2]);
            out.push(q[1]);
            out.push(q[0]);
        } else {
            out.push(q[0]);
            out.push(q[1]);
            out.push(q[2]);
            out.push(q[3]);
        }
        proof {
            lemma_shm_encode_push(pixels.take(i as int), pixels[i as int], little_endian);
            assert(pixels.take(i + 1) =~= pixels.take(i as int).push(pixels[i as int]));
        }
        i += 1;
    }
    proof {
        assert(pixels.take(n as int) =~= pixels);
    }
    out
}

/// Converts a flat `A, R, G, B` byte stream into the byte stream the
/// shared-memory backend writes into its pool.
pub fn shm_bytes_from_bytes(buffer: &[u8], little_endian: bool) -> (out: Vec<u8>)
    requires
        buffer@.len() % 4 == 0,
    ensures
        out@ == shm_encode(bytes_pixels(buffer@), little_endian),
{
    let ghost pixels = bytes_pixels(buffer@);
    let n = buffer.len();
    let count = n / 4;
    let mut out: Vec<u8> = Vec::new();
    let mut i: usize = 0;
    while i < count
        invariant
            n == buffer@.len(),
            n % 4 == 0,
            count == n / 4,
            0 <= i <= count,
            pixels == bytes_pixels(buffer@),
            out@ =~= shm_encode(pixels.take(i as int), little_endian),
        decreases count - i,
    {
        proof {
            assert(4 * (i as int) + 4 <= n) by (nonlinear_arith)
                requires 0 <= i < n / 4, n % 4 == 0;
        }
        let base = 4 * i;
        let a = buffer[base];
        let r = buffer[base + 1];
        let g = buffer[base + 2];
        let b = buffer[base + 3];
        if little_endian {
            out.push(b);
            out.push(g);
            out.push(r);
            out.push(a);
        } else {
            out.push(a);
            out.push(r);
            out.push(g);
            out.push(b);
        }
        proof {
            assert(pixels[i as int] == Pixel { a, r, g, b });
            lemma_shm_encode_push(pixels.take(i as int), pixels[i as int], little_endian);
            assert(pixels.take(i + 1) =~= pixels.take(i as int).push(pixels[i as int]));
        }
        i += 1;
    }
    proof {
        assert(pixels.take(count as int) =~= pixels);
    }
    out
}

/// Converts a buffer of packed words into the byte stream the shared-memory
/// backend writes into its pool. Writing a packed word in the host's native
/// byte order lays its channels out exactly as `shm_pixel_bytes` demands.
pub fn shm_bytes_from_packed(buffer: &[u32], little_endian: bool) -> (out: Vec<u8>)
    ensures
        out@ == shm_encode(packed_pixels(buffer@), little_endian),
{
    let ghost pixels = packed_pixels(buffer@);
    let n = buffer.len();
    let mut out: Vec<u8> = Vec::new();
    let mut i: usize = 0;
    while i < n
        invariant
            n == buffer@.len(),
            0 <= i <= n,
            pixels == packed_pixels(buffer@),
            out@ =~= shm_encode(pixels.take(i as int), little_endian),
        decreases n - i,
    {
        let w = buffer[i];
        let a = (w / 0x1000000) as u8;
        let r = ((w / 0x10000) % 0x100) as u8;
        let g = ((w / 0x100) % 0x100) as u8;
        let b = (w % 0x100) as u8;
        if little_endian {
            out.push(b);
            out.push(g);
            out.push(r);
            out.push(a);
        } else {
            out.push(a);
            out.push(r);
            out.push(g);
            out.push(b);
        }
        proof {
            assert(pixels[i as int] == Pixel { a, r, g, b });
            lemma_shm_encode_push(pixels.take(i as int), pixels[i as int], little_endian);
            assert(pixels.take(i + 1) =~= pixels.take(i as int).push(pixels[i as int]));
        }
        i += 1;
    }
    proof {
        assert(pixels.take(n as int) =~= pixels);
    }
    out
}

/// Packs the four channels of one `[A, R, G, B]` group into a 32-bit word.
pub fn pack_quad(q: [u8; 4]) -> (w: u32)
    ensures
        w == pack_argb(quad_pixel(q)),
{
    let w: u32 = (q[0] as u32) * 0x1000000 + (q[1] as u32) * 0x10000 + (q[2] as u32) * 0x100
        + (q[3] as u32);
    w
}

/// Converts a buffer of `[A, R, G, B]` channel groups into the packed words
/// the direct-image and device-context backends consume.
pub fn packed_from_quads(buffer: &[[u8; 4]]) -> (out: Vec<u32>)
    ensures
        out@ == packed_encode(quads_pixels(buffer@)),
{
    let ghost pixels = quads_pixels(buffer@);
    let n = buffer.len();
    let mut out: Vec<u32> = Vec::new();
    let mut i: usize = 0;
    while i < n
        invariant
            n == buffer@.len(),
            0 <= i <= n,
            pixels == quads_pixels(buffer@),
            out@.len() == i,
            forall|j: int| 0 <= j < i ==> out@[j] == pack_argb(pixels[j]),
        decreases n - i,
    {
        let w = pack_quad(buffer[i]);
        out.push(w);
        i += 1;
    }
    proof {
        assert(out@ =~= packed_encode(pixels));
    }
    out
}

/// Converts a flat `A, R, G, B` byte stream into the packed words the
/// direct-image and device-context backends consume.
pub fn packed_from_bytes(buffer: &[u8]) -> (out: Vec<u32>)
    requires
        buffer@.len() % 4 == 0,
    ensures
        out@ == packed_encode(bytes_pixels(buffer@)),
{
    let ghost pixels = bytes_pixels(buffer@);
    let n = buffer.len();
    let count = n / 4;
    let mut out: Vec<u32> = Vec::new();
    let mut i: usize = 0;
    while i < count
        invariant
            n == buffer@.len(),
            n % 4 == 0,
            count == n / 4,
            0 <= i <= count,
            pixels == bytes_pixels(buffer@),
            out@.len() == i,
            forall|j: int| 0 <= j < i ==> out@[j] == pack_argb(pixels[j]),
        decreases count - i,
    {
        proof {
            assert(4 * (i as int) + 4 <= n) by (nonlinear_arith)
                requires 0 <= i < n / 4, n % 4 == 0;
        }
        let base = 4 * i;
        let w: u32 = (buffer[base] as u32) * 0x1000000 + (buffer[base + 1] as u32) * 0x10000
            + (buffer[base + 2] as u32) * 0x100 + (buffer[base + 3] as u32);
        proof {
            assert(pixels[i as int] == bytes_pixel(buffer@, i as int));
        }
        out.push(w);
        i += 1;
    }
    proof {
        assert(out@ =~= packed_encode(pixels));
    }
    out
}

/// Copies a buffer of packed words unchanged: for word-consuming backends
/// the packed input shape is already in its final form.
pub fn packed_from_packed(buffer: &[u32]) -> (out: Vec<u32>)
    ensures
        out@ == buffer@,
        out@ == packed_encode(packed_pixels(buffer@)),
{
    let n = buffer.len();
    let mut out: Vec<u32> = Vec::new();
    let mut i: usize = 0;
    while i < n
        invariant
            n == buffer@.len(),
            0 <= i <= n,
            out@ =~= buffer@.take(i as int),
        decreases n - i,
    {
        out.push(buffer[i]);
        i += 1;
    }
    proof {
        assert(out@ =~= buffer@);
        lemma_packed_encode_of_pixels(buffer@);
    }
    out
}

/// Packing the channels of the pixel a word encodes gives back that word.
pub proof fn lemma_pack_unpack(w: u32)
    ensures
        pack_argb(packed_pixel(w)) == w,
{
    assert(((w / 0x1000000) as u8) as u32 == w / 0x1000000) by (bit_vector);
    assert((((w / 0x10000) % 0x100) as u8) as u32 == (w / 0x10000) % 0x100) by (bit_vector);
    assert((((w / 0x100) % 0x100) as u8) as u32 == (w / 0x100) % 0x100) by (bit_vector);
    assert(((w % 0x100) as u8) as u32 == w % 0x100) by (bit_vector);
    assert((w / 0x1000000) * 0x1000000 + ((w / 0x10000) % 0x100) * 0x10000 + ((w / 0x100) % 0x100)
        * 0x100 + (w % 0x100) == w) by (bit_vector);
}

/// The pixel a packed word encodes, repacked: word-shaped input buffers are
/// exactly the word stream the word-consuming backends require.
pub proof fn lemma_packed_encode_of_pixels(s: Seq<u32>)
    ensures
        packed_encode(packed_pixels(s)) =~= s,
{
    assert forall|i: int| 0 <= i < s.len() implies packed_encode(packed_pixels(s))[i] == s[i] by {
        lemma_pack_unpack(s[i]);
    }
}

/// Each pixel's wire bytes stand at their exact offsets: pixel `i` of the
/// image occupies bytes `4*i .. 4*i + 4` of the shared-memory stream, and
/// those four bytes are exactly its encoding.
pub proof fn lemma_shm_encode_index(pixels: Seq<Pixel>, little_endian: bool, i: int)
    requires
        0 <= i < pixels.len(),
    ensures
        shm_encode(pixels, little_endian).subrange(4 * i, 4 * i + 4) =~= shm_pixel_bytes(
            pixels[i],
            little_endian,
        ),
{
    let enc = shm_encode(pixels, little_endian);
    assert(4 * i + 4 <= enc.len()) by (nonlinear_arith)
        requires 0 <= i < pixels.len(), enc.len() == pixels.len() * 4;
    assert forall|j: int| 0 <= j < 4 implies enc.subrange(4 * i, 4 * i + 4)[j]
        == shm_pixel_bytes(pixels[i], little_endian)[j] by {
        assert((4 * i + j) / 4 == i && (4 * i + j) % 4 == j) by (nonlinear_arith)
            requires 0 <= j < 4, 0 <= i;
    }
}

/// The value of a 32-bit word whose four bytes are read least significant
/// first.
pub open spec fn le_word(b: Seq<u8>) -> int {
    b[0] + b[1] * 0x100 + b[2] * 0x10000 + b[3] * 0x1000000
}

/// The value of a 32-bit word whose four bytes are read most significant
/// first.
pub open spec fn be_word(b: Seq<u8>) -> int {
    b[3] + b[2] * 0x100 + b[1] * 0x10000 + b[0] * 0x1000000
}

/// Relies on `u32::from_ne_bytes`: the four bytes are interpreted in the
/// host's native byte order, which is either little-endian or big-endian.
#[verifier::external_body]
fn u32_from_native_bytes(bytes: [u8; 4]) -> (r: u32)
    ensures
        r == le_word(bytes@) || r == be_word(bytes@),
{
    u32::from_ne_bytes(bytes)
}

/// Whether the host stores a 32-bit word least significant byte first. The
/// answer depends on the machine alone; the conversion contracts hold for
/// either answer.
pub fn host_is_little_endian() -> bool {
    let w = u32_from_native_bytes([1, 0, 0, 0]);
    w == 1
}

/// A channel-group buffer and a flat byte stream describe the same logical
/// image: the stream is four bytes per group, channel for channel.
pub open spec fn same_image_quads_bytes(q: Seq<[u8; 4]>, b: Seq<u8>) -> bool {
    &&& b.len() == 4 * q.len()
    &&& forall|i: int| 0 <= i < q.len() ==> bytes_pixel(b, i) == quad_pixel(q[i])
}

/// A channel-group buffer and a packed-word buffer describe the same logical
/// image: word `i` encodes the channels of group `i`.
pub open spec fn same_image_quads_packed(q: Seq<[u8; 4]>, w: Seq<u32>) -> bool {
    &&& w.len() == q.len()
    &&& forall|i: int| 0 <= i < q.len() ==> packed_pixel(w[i]) == quad_pixel(q[i])
}

/// Cross-shape equivalence: buffers in the three accepted shapes that
/// describe the same logical image convert to identical backend-ready
/// output, byte for byte, for either backend target and either host
/// byte order.
pub proof fn lemma_cross_shape_equivalence(
    q: Seq<[u8; 4]>,
    b: Seq<u8>,
    w: Seq<u32>,
    little_endian: bool,
)
    requires
        same_image_quads_bytes(q, b),
        same_image_quads_packed(q, w),
    ensures
        shm_encode(bytes_pixels(b), little_endian) == shm_encode(quads_pixels(q), little_endian),
        shm_encode(packed_pixels(w), little_endian) == shm_encode(quads_pixels(q), little_endian),
        packed_encode(bytes_pixels(b)) == packed_encode(quads_pixels(q)),
        packed_encode(packed_pixels(w)) == packed_encode(quads_pixels(q)),
{
    assert(b.len() / 4 == q.len()) by (nonlinear_arith)
        requires b.len() == 4 * q.len();
    assert(bytes_pixels(b) =~= quads_pixels(q));
    assert(packed_pixels(w) =~= quads_pixels(q));
}

/// The channels of a packed pixel unpack to the very channels packed.
pub proof fn lemma_unpack_pack(p: Pixel)
    ensures
        packed_pixel(pack_argb(p)) == p,
{
    let a = p.a;
    let r = p.r;
    let g = p.g;
    let b = p.b;
    let w = pack_argb(p);
    assert(w == (a as u32) * 0x1000000 + (r as u32) * 0x10000 + (g as u32) * 0x100 + (b as u32));
    assert(((((a as u32) * 0x1000000 + (r as u32) * 0x10000 + (g as u32) * 0x100 + (b as u32))
        / 0x1000000) as u8) == a) by (bit_vector);
    assert((((((a as u32) * 0x1000000 + (r as u32) * 0x10000 + (g as u32) * 0x100 + (b as u32))
        / 0x10000) % 0x100) as u8) == r) by (bit_vector);
    assert((((((a as u32) * 0x1000000 + (r as u32) * 0x10000 + (g as u32) * 0x100 + (b as u32))
        / 0x100) % 0x100) as u8) == g) by (bit_vector);
    assert(((((a as u32) * 0x1000000 + (r as u32) * 0x10000 + (g as u32) * 0x100 + (b as u32))
        % 0x100) as u8) == b) by (bit_vector);
}

} // verus!
