//! The backend surfaces. Each of the three mutually exclusive native
//! windowing protocols is modelled by one backend type whose present
//! operation computes, from the current dimensions and the logical image,
//! exactly the native actions one present call must perform — returned as a
//! [`PresentCommand`] for the embedder to execute — together with the
//! backend's own state change.

use vstd::prelude::*;

use crate::convert::{
    bytes_pixels, packed_encode, packed_pixels, quads_pixels, shm_encode, Pixel,
    packed_from_bytes, packed_from_packed, packed_from_quads, shm_bytes_from_bytes,
    shm_bytes_from_packed, shm_bytes_from_quads,
};
use crate::pool::{other, other_half, DoublePool, PoolHalf};

verus! {

/// The three native presentation protocols a window handle can expose.
#[derive(Clone, Copy, PartialEq, Eq, Structural, Debug)]
pub enum BackendKind {
    /// Shared-memory pool committed to a display-server surface.
    SharedMemory,
    /// Persistent image descriptor put directly onto the framebuffer.
    DirectImage,
    /// Transient bitmap block-transferred onto a device context.
    DeviceContext,
}

/// Which native handles a window exposes, as found by probing its opaque
/// handle once at construction time.
#[derive(Clone, Copy, PartialEq, Eq, Structural, Debug)]
pub struct HandleProbe {
    pub wayland_display: bool,
    pub wayland_surface: bool,
    pub xlib_display: bool,
    pub xlib_window: bool,
    pub device_context: bool,
}

/// The backend a probed handle selects: the shared-memory protocol is
/// attempted first and applies when both its handles are present; the
/// direct-image protocol applies only otherwise; a bare device context
/// comes last; a handle exposing none of them selects no backend, and
/// drawing is then a no-op.
pub open spec fn spec_select_backend(p: HandleProbe) -> Option<BackendKind> {
    if p.wayland_display && p.wayland_surface {
        Some(BackendKind::SharedMemory)
    } else if p.xlib_display && p.xlib_window {
        Some(BackendKind::DirectImage)
    } else if p.device_context {
        Some(BackendKind::DeviceContext)
    } else {
        None
    }
}

/// Determines which single backend, if any, applies to a probed handle.
pub fn select_backend(p: &HandleProbe) -> (r: Option<BackendKind>)
    ensures
        r == spec_select_backend(*p),
{
    if p.wayland_display && p.wayland_surface {
        Some(BackendKind::SharedMemory)
    } else if p.xlib_display && p.xlib_window {
        Some(BackendKind::DirectImage)
    } else if p.device_context {
        Some(BackendKind::DeviceContext)
    } else {
        None
    }
}

/// The native actions one present call must perform, fully computed: the
/// embedder executes the variant's steps in order and adds nothing.
#[derive(Debug, PartialEq, Eq)]
pub enum PresentCommand {
    /// Resize region `half` to `bytes` length, seek to offset zero, write
    /// `bytes`, flush, attach the region's buffer to the surface, damage
    /// the full `width`×`height` rectangle, commit, flush the display
    /// connection, then block on one round-trip with the server.
    SharedMemory { half: PoolHalf, width: usize, height: usize, bytes: Vec<u8> },
    /// Point the persistent image descriptor's data at `words`, overwrite
    /// its declared width, stride and height, then issue one blocking
    /// put-image call followed by one blocking synchronize call.
    DirectImage { width: usize, height: usize, stride_bytes: usize, words: Vec<u32> },
    /// Build a transient bitmap from `words`, select it into a compatible
    /// off-screen context, block-transfer it onto the window's persistent
    /// context, then release the transient objects.
    DeviceContext { width: usize, height: usize, words: Vec<u32> },
}

/// The mathematical shape of a [`PresentCommand`].
pub enum SpecPresentCommand {
    SharedMemory { half: PoolHalf, width: usize, height: usize, bytes: Seq<u8> },
    DirectImage { width: usize, height: usize, stride_bytes: usize, words: Seq<u32> },
    DeviceContext { width: usize, height: usize, words: Seq<u32> },
}

impl View for PresentCommand {
    type V = SpecPresentCommand;

    open spec fn view(&self) -> SpecPresentCommand {
        match self {
            PresentCommand::SharedMemory { half, width, height, bytes } =>
                SpecPresentCommand::SharedMemory {
                    half: *half,
                    width: *width,
                    height: *height,
                    bytes: bytes@,
                },
            PresentCommand::DirectImage { width, height, stride_bytes, words } =>
                SpecPresentCommand::DirectImage {
                    width: *width,
                    height: *height,
                    stride_bytes: *stride_bytes,
                    words: words@,
                },
            PresentCommand::DeviceContext { width, height, words } =>
                SpecPresentCommand::DeviceContext {
                    width: *width,
                    height: *height,
                    words: words@,
                },
        }
    }
}

/// The view of an optional command.
pub open spec fn opt_cmd_view(r: Option<PresentCommand>) -> Option<SpecPresentCommand> {
    match r {
        Some(c) => Some(c@),
        None => None,
    }
}

/// The shared-memory backend: owns the accounting of the double memory
/// pool and the host byte order its pool writes must respect.
#[derive(Clone, Copy, PartialEq, Eq, Structural, Debug)]
pub struct ShmBackend {
    pub pool: DoublePool,
    pub little_endian: bool,
}

impl ShmBackend {
    /// A fresh backend over a newly established memory mapping.
    pub fn new(little_endian: bool) -> (b: ShmBackend)
        ensures
            b.pool == (DoublePool { first_held: false, second_held: false }),
            b.little_endian == little_endian,
    {
        ShmBackend { pool: DoublePool::new(), little_endian }
    }

    /// One present call: acquire a free region (skipping the frame if the
    /// server holds both), write the encoded image into it, and hand it to
    /// the server; the closing round-trip releases the other region. The
    /// pair returned is the backend's next state and the command, if any.
    pub open spec fn spec_draw(self, dimensions: (usize, usize), pixels: Seq<Pixel>) -> (
        ShmBackend,
        Option<SpecPresentCommand>,
    ) {
        match self.pool.spec_acquire() {
            None => (self, None),
            Some(h) => (
                ShmBackend {
                    pool: DoublePool {
                        first_held: h == PoolHalf::First,
                        second_held: h == PoolHalf::Second,
                    },
                    ..self
                },
                Some(SpecPresentCommand::SharedMemory {
                    half: h,
                    width: dimensions.0,
                    height: dimensions.1,
                    bytes: shm_encode(pixels, self.little_endian),
                }),
            ),
        }
    }

    /// Runs the pool accounting of one present call and returns the region
    /// to write, or none when the frame is skipped.
    fn advance_pool(&mut self) -> (r: Option<PoolHalf>)
        ensures
            r == old(self).pool.spec_acquire(),
            r matches Some(h) ==> (!old(self).pool.held(h) && final(self).pool == (DoublePool {
                first_held: h == PoolHalf::First,
                second_held: h == PoolHalf::Second,
            })),
            r is None ==> (*final(self)) == (*old(self)),
            final(self).little_endian == old(self).little_endian,
    {
        let got = self.pool.acquire();
        match got {
            None => None,
            Some(h) => {
                self.pool.mark_held(h);
                self.pool.mark_released(other(h));
                proof {
                    assert(self.pool.first_held == (h == PoolHalf::First));
                    assert(self.pool.second_held == (h == PoolHalf::Second));
                }
                Some(h)
            },
        }
    }

    /// Presents a buffer of `[A, R, G, B]` channel groups.
    pub fn draw_argb8888(&mut self, dimensions: (usize, usize), buffer: &[[u8; 4]]) -> (r: Option<
        PresentCommand,
    >)
        requires
            buffer@.len() == dimensions.0 * dimensions.1,
            4 * buffer@.len() <= usize::MAX,
        ensures
            (*final(self)) == old(self).spec_draw(dimensions, quads_pixels(buffer@)).0,
            opt_cmd_view(r) == old(self).spec_draw(dimensions, quads_pixels(buffer@)).1,
            r matches Some(cmd) ==> (cmd@ matches SpecPresentCommand::SharedMemory {
                half,
                bytes,
                ..
            } && !old(self).pool.held(half) && bytes.len() == 4 * (dimensions.0 * dimensions.1)),
    {
        let little_endian = self.little_endian;
        match self.advance_pool() {
            None => None,
            Some(h) => {
                let bytes = shm_bytes_from_quads(buffer, little_endian);
                Some(PresentCommand::SharedMemory {
                    half: h,
                    width: dimensions.0,
                    height: dimensions.1,
                    bytes,
                })
            },
        }
    }

    /// Presents a flat `A, R, G, B` byte stream.
    pub fn draw_argb8888_bytes(&mut self, dimensions: (usize, usize), buffer: &[u8]) -> (r: Option<
        PresentCommand,
    >)
        requires
            buffer@.len() == 4 * (dimensions.0 * dimensions.1),
            buffer@.len() <= usize::MAX,
        ensures
            (*final(self)) == old(self).spec_draw(dimensions, bytes_pixels(buffer@)).0,
            opt_cmd_view(r) == old(self).spec_draw(dimensions, bytes_pixels(buffer@)).1,
            r matches Some(cmd) ==> (cmd@ matches SpecPresentCommand::SharedMemory {
                half,
                bytes,
                ..
            } && !old(self).pool.held(half) && bytes.len() == 4 * (dimensions.0 * dimensions.1)),
    {
        proof {
            assert(buffer@.len() % 4 == 0) by (nonlinear_arith)
                requires buffer@.len() == 4 * (dimensions.0 * dimensions.1);
        }
        let little_endian = self.little_endian;
        match self.advance_pool() {
            None => None,
            Some(h) => {
                let bytes = shm_bytes_from_bytes(buffer, little_endian);
                Some(PresentCommand::SharedMemory {
                    half: h,
                    width: dimensions.0,
                    height: dimensions.1,
                    bytes,
                })
            },
        }
    }

    /// Presents a buffer of packed 32-bit words.
    pub fn draw_argb32(&mut self, dimensions: (usize, usize), buffer: &[u32]) -> (r: Option<
        PresentCommand,
    >)
        requires
            buffer@.len() == dimensions.0 * dimensions.1,
            4 * buffer@.len() <= usize::MAX,
        ensures
            (*final(self)) == old(self).spec_draw(dimensions, packed_pixels(buffer@)).0,
            opt_cmd_view(r) == old(self).spec_draw(dimensions, packed_pixels(buffer@)).1,
            r matches Some(cmd) ==> (cmd@ matches SpecPresentCommand::SharedMemory {
                half,
                bytes,
                ..
            } && !old(self).pool.held(half) && bytes.len() == 4 * (dimensions.0 * dimensions.1)),
    {
        let little_endian = self.little_endian;
        match self.advance_pool() {
            None => None,
            Some(h) => {
                let bytes = shm_bytes_from_packed(buffer, little_endian);
                Some(PresentCommand::SharedMemory {
                    half: h,
                    width: dimensions.0,
                    height: dimensions.1,
                    bytes,
                })
            },
        }
    }
}

/// Across consecutive shared-memory presents the backend never writes into
/// the region the server was handed by the immediately preceding call: that
/// region stays held until its round-trip completes, the closing round-trip
/// of each call releases only the other region, and the next call therefore
/// writes the other region — and is never skipped.
pub proof fn lemma_consecutive_presents_alternate(
    b0: ShmBackend,
    dims1: (usize, usize),
    px1: Seq<Pixel>,
    dims2: (usize, usize),
    px2: Seq<Pixel>,
)
    ensures
        ({
            let (b1, r1) = b0.spec_draw(dims1, px1);
            let (b2, r2) = b1.spec_draw(dims2, px2);
            r1 matches Some(SpecPresentCommand::SharedMemory { half: h1, .. }) ==> {
                &&& b1.pool.held(h1)
                &&& r2 matches Some(SpecPresentCommand::SharedMemory { half: h2, .. })
                    && h2 == other_half(h1) && !b1.pool.held(h2)
            }
        }),
{
}

/// The direct-framebuffer-image backend: holds the dimensions currently
/// declared in its persistent image descriptor. The descriptor itself is
/// created once, at the window's construction-time size, and never
/// reallocated; each present overwrites its declared dimensions.
#[derive(Clone, Copy, PartialEq, Eq, Structural, Debug)]
pub struct ImageBackend {
    pub width: usize,
    pub height: usize,
}

impl ImageBackend {
    /// A fresh backend whose descriptor was created at the given size.
    pub fn new(width: usize, height: usize) -> (b: ImageBackend)
        ensures
            b == (ImageBackend { width, height }),
    {
        ImageBackend { width, height }
    }

    /// One present call: the descriptor's declared dimensions are
    /// overwritten to the current ones and the packed words are put onto
    /// the framebuffer in one blocking call.
    pub open spec fn spec_draw(self, dimensions: (usize, usize), pixels: Seq<Pixel>) -> (
        ImageBackend,
        SpecPresentCommand,
    ) {
        (
            ImageBackend { width: dimensions.0, height: dimensions.1 },
            SpecPresentCommand::DirectImage {
                width: dimensions.0,
                height: dimensions.1,
                stride_bytes: (4 * dimensions.0) as usize,
                words: packed_encode(pixels),
            },
        )
    }

    /// Presents a buffer of `[A, R, G, B]` channel groups.
    pub fn draw_argb8888(&mut self, dimensions: (usize, usize), buffer: &[[u8; 4]]) -> (r:
        PresentCommand)
        requires
            buffer@.len() == dimensions.0 * dimensions.1,
            4 * dimensions.0 <= usize::MAX,
        ensures
            (*final(self)) == old(self).spec_draw(dimensions, quads_pixels(buffer@)).0,
            r@ == old(self).spec_draw(dimensions, quads_pixels(buffer@)).1,
            r@ matches SpecPresentCommand::DirectImage { words, .. } && words.len()
                == dimensions.0 * dimensions.1,
    {
        let words = packed_from_quads(buffer);
        self.width = dimensions.0;
        self.height = dimensions.1;
        PresentCommand::DirectImage {
            width: dimensions.0,
            height: dimensions.1,
            stride_bytes: 4 * dimensions.0,
            words,
        }
    }

    /// Presents a flat `A, R, G, B` byte stream.
    pub fn draw_argb8888_bytes(&mut self, dimensions: (usize, usize), buffer: &[u8]) -> (r:
        PresentCommand)
        requires
            buffer@.len() == 4 * (dimensions.0 * dimensions.1),
            4 * dimensions.0 <= usize::MAX,
        ensures
            (*final(self)) == old(self).spec_draw(dimensions, bytes_pixels(buffer@)).0,
            r@ == old(self).spec_draw(dimensions, bytes_pixels(buffer@)).1,
            r@ matches SpecPresentCommand::DirectImage { words, .. } && words.len()
                == dimensions.0 * dimensions.1,
    {
        proof {
            assert(buffer@.len() % 4 == 0 && buffer@.len() / 4 == dimensions.0 * dimensions.1)
                by (nonlinear_arith)
                requires buffer@.len() == 4 * (dimensions.0 * dimensions.1);
        }
        let words = packed_from_bytes(buffer);
        self.width = dimensions.0;
        self.height = dimensions.1;
        PresentCommand::DirectImage {
            width: dimensions.0,
            height: dimensions.1,
            stride_bytes: 4 * dimensions.0,
            words,
        }
    }

    /// Presents a buffer of packed 32-bit words: already in final form, the
    /// words go through unchanged.
    pub fn draw_argb32(&mut self, dimensions: (usize, usize), buffer: &[u32]) -> (r:
        PresentCommand)
        requires
            buffer@.len() == dimensions.0 * dimensions.1,
            4 * dimensions.0 <= usize::MAX,
        ensures
            (*final(self)) == old(self).spec_draw(dimensions, packed_pixels(buffer@)).0,
            r@ == old(self).spec_draw(dimensions, packed_pixels(buffer@)).1,
            r@ matches SpecPresentCommand::DirectImage { words, .. } && words == buffer@,
    {
        let words = packed_from_packed(buffer);
        self.width = dimensions.0;
        self.height = dimensions.1;
        PresentCommand::DirectImage {
            width: dimensions.0,
            height: dimensions.1,
            stride_bytes: 4 * dimensions.0,
            words,
        }
    }
}

/// The device-context backend: its persistent device context is acquired at
/// construction and held by the embedder; every present builds only
/// transient objects, released before the call returns, so the backend
/// keeps no per-frame state at all.
#[derive(Clone, Copy, PartialEq, Eq, Structural, Debug)]
pub struct DcBackend {
}

impl DcBackend {
    /// A fresh backend over a newly acquired device context.
    pub fn new() -> (b: DcBackend)
        ensures
            b == (DcBackend {  }),
    {
        DcBackend {  }
    }

    /// One present call: a transient bitmap of the packed words is
    /// block-transferred onto the window's device context; nothing of it
    /// outlives the call.
    pub open spec fn spec_draw(self, dimensions: (usize, usize), pixels: Seq<Pixel>) ->
        SpecPresentCommand {
        SpecPresentCommand::DeviceContext {
            width: dimensions.0,
            height: dimensions.1,
            words: packed_encode(pixels),
        }
    }

    /// Presents a buffer of `[A, R, G, B]` channel groups.
    pub fn draw_argb8888(&mut self, dimensions: (usize, usize), buffer: &[[u8; 4]]) -> (r:
        PresentCommand)
        requires
            buffer@.len() == dimensions.0 * dimensions.1,
        ensures
            (*final(self)) == (*old(self)),
            r@ == old(self).spec_draw(dimensions, quads_pixels(buffer@)),
    {
        let words = packed_from_quads(buffer);
        PresentCommand::DeviceContext { width: dimensions.0, height: dimensions.1, words }
    }

    /// Presents a flat `A, R, G, B` byte stream.
    pub fn draw_argb8888_bytes(&mut self, dimensions: (usize, usize), buffer: &[u8]) -> (r:
        PresentCommand)
        requires
            buffer@.len() == 4 * (dimensions.0 * dimensions.1),
        ensures
            (*final(self)) == (*old(self)),
            r@ == old(self).spec_draw(dimensions, bytes_pixels(buffer@)),
    {
        proof {
            assert(buffer@.len() % 4 == 0) by (nonlinear_arith)
                requires buffer@.len() == 4 * (dimensions.0 * dimensions.1);
        }
        let words = packed_from_bytes(buffer);
        PresentCommand::DeviceContext { width: dimensions.0, height: dimensions.1, words }
    }

    /// Presents a buffer of packed 32-bit words, passed through unchanged.
    pub fn draw_argb32(&mut self, dimensions: (usize, usize), buffer: &[u32]) -> (r:
        PresentCommand)
        requires
            buffer@.len() == dimensions.0 * dimensions.1,
        ensures
            (*final(self)) == (*old(self)),
            r@ == old(self).spec_draw(dimensions, packed_pixels(buffer@)),
            r@ matches SpecPresentCommand::DeviceContext { words, .. } && words == buffer@,
    {
        let words = packed_from_packed(buffer);
        PresentCommand::DeviceContext { width: dimensions.0, height: dimensions.1, words }
    }
}

} // verus!
