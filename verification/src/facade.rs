//! The window facade: the object an application holds. It is built once,
//! when the window's native handles have been probed, and it forwards each
//! draw call — after checking the buffer against the window's current
//! dimensions, which the embedder re-queries every frame — to whichever
//! backend was selected at construction.

use vstd::prelude::*;

use crate::backend::{
    opt_cmd_view, spec_select_backend, select_backend, BackendKind, DcBackend, HandleProbe,
    ImageBackend, PresentCommand, ShmBackend, SpecPresentCommand,
};
use crate::convert::{bytes_pixels, packed_pixels, quads_pixels, Pixel};
use crate::error::CreationError;
use crate::pool::DoublePool;

verus! {

/// Why one present call was rejected. A rejected present changes nothing:
/// the frame is not shown, no backend state moves.
#[derive(Clone, Copy, PartialEq, Eq, Structural, Debug)]
pub enum PresentError {
    /// The buffer's length does not equal what the window's current
    /// dimensions demand — in its own units: pixels for the channel-group
    /// and packed-word shapes, bytes for the flat byte stream. The buffer
    /// is neither truncated nor padded.
    SizeMismatch { expected: usize, actual: usize },
}

/// The one backend surface selected for a window.
#[derive(Clone, Copy, PartialEq, Eq, Structural, Debug)]
pub enum BackendSurface {
    SharedMemory(ShmBackend),
    DirectImage(ImageBackend),
    DeviceContext(DcBackend),
}

/// The window facade. `backend` is the surface the construction-time probe
/// selected; a window with none draws as a no-op.
#[derive(Clone, Copy, PartialEq, Eq, Structural, Debug)]
pub struct YuxaWindow {
    pub backend: Option<BackendSurface>,
}

impl YuxaWindow {
    /// Builds the facade for a window whose native handles answered
    /// `probe`. `width` and `height` are the window's physical size at
    /// construction; `little_endian` is the host byte order; and
    /// `shm_pool_ready` reports whether the synchronous round-trip that
    /// establishes the shared memory mapping succeeded — consulted only
    /// when the shared-memory backend is the one selected, and fatal to
    /// construction when it failed.
    pub fn new(
        probe: &HandleProbe,
        width: usize,
        height: usize,
        little_endian: bool,
        shm_pool_ready: bool,
    ) -> (r: Result<YuxaWindow, CreationError>)
        ensures
            spec_select_backend(*probe) is None ==> r == Ok::<YuxaWindow, CreationError>(
                (YuxaWindow { backend: None }),
            ),
            spec_select_backend(*probe) == Some(BackendKind::SharedMemory) && shm_pool_ready
                ==> r == Ok::<YuxaWindow, CreationError>(
                (YuxaWindow {
                    backend: Some(
                        BackendSurface::SharedMemory(
                            (ShmBackend {
                                pool: (DoublePool { first_held: false, second_held: false }),
                                little_endian,
                            }),
                        ),
                    ),
                }),
            ),
            spec_select_backend(*probe) == Some(BackendKind::SharedMemory) && !shm_pool_ready
                ==> (r matches Err(e) && e matches CreationError::OsError(m) && m@
                == "Failed to create a memory pool !"@),
            spec_select_backend(*probe) == Some(BackendKind::DirectImage) ==> r == Ok::<
                YuxaWindow,
                CreationError,
            >((YuxaWindow { backend: Some(BackendSurface::DirectImage((ImageBackend { width, height }))) })),
            spec_select_backend(*probe) == Some(BackendKind::DeviceContext) ==> r == Ok::<
                YuxaWindow,
                CreationError,
            >((YuxaWindow { backend: Some(BackendSurface::DeviceContext((DcBackend {  }))) })),
            r is Err ==> (spec_select_backend(*probe) == Some(BackendKind::SharedMemory)
                && !shm_pool_ready),
    {
        match select_backend(probe) {
            None => Ok(YuxaWindow { backend: None }),
            Some(BackendKind::SharedMemory) => {
                if shm_pool_ready {
                    Ok(
                        YuxaWindow {
                            backend: Some(BackendSurface::SharedMemory(ShmBackend::new(little_endian))),
                        },
                    )
                } else {
                    Err(CreationError::OsError("Failed to create a memory pool !".to_owned()))
                }
            },
            Some(BackendKind::DirectImage) => Ok(
                YuxaWindow {
                    backend: Some(BackendSurface::DirectImage(ImageBackend::new(width, height))),
                },
            ),
            Some(BackendKind::DeviceContext) => Ok(
                YuxaWindow { backend: Some(BackendSurface::DeviceContext(DcBackend::new())) },
            ),
        }
    }

    /// One draw call on a length-checked buffer: the selected backend's
    /// present, as a pair of the facade's next state and the command the
    /// embedder must execute — none when no backend is configured or the
    /// shared-memory frame is skipped.
    pub open spec fn spec_draw(self, dimensions: (usize, usize), pixels: Seq<Pixel>) -> (
        YuxaWindow,
        Option<SpecPresentCommand>,
    ) {
        match self.backend {
            None => (self, None),
            Some(BackendSurface::SharedMemory(b)) => {
                let (b2, c) = b.spec_draw(dimensions, pixels);
                ((YuxaWindow { backend: Some(BackendSurface::SharedMemory(b2)) }), c)
            },
            Some(BackendSurface::DirectImage(b)) => {
                let (b2, c) = b.spec_draw(dimensions, pixels);
                ((YuxaWindow { backend: Some(BackendSurface::DirectImage(b2)) }), Some(c))
            },
            Some(BackendSurface::DeviceContext(b)) => (self, Some(b.spec_draw(dimensions, pixels))),
        }
    }

    /// Presents a buffer of `[A, R, G, B]` channel groups at the window's
    /// current dimensions. A buffer whose length is not exactly
    /// `width * height` pixels is rejected unchanged.
    pub fn draw_argb8888(&mut self, dimensions: (usize, usize), buffer: &[[u8; 4]]) -> (r: Result<
        Option<PresentCommand>,
        PresentError,
    >)
        requires
            4 * (dimensions.0 * dimensions.1) <= usize::MAX,
            4 * dimensions.0 <= usize::MAX,
        ensures
            buffer@.len() != dimensions.0 * dimensions.1 ==> ((*final(self)) == (*old(self)) && r
                == Err::<Option<PresentCommand>, PresentError>(
                PresentError::SizeMismatch {
                    expected: (dimensions.0 * dimensions.1) as usize,
                    actual: buffer@.len() as usize,
                },
            )),
            buffer@.len() == dimensions.0 * dimensions.1 ==> ({
                let (s2, c) = old(self).spec_draw(dimensions, quads_pixels(buffer@));
                (*final(self)) == s2 && (r matches Ok(rc) && opt_cmd_view(rc) == c)
            }),
    {
        proof {
            assert(dimensions.0 * dimensions.1 <= 4 * (dimensions.0 * dimensions.1));
        }
        let expected = dimensions.0 * dimensions.1;
        if buffer.len() != expected {
            return Err(PresentError::SizeMismatch { expected, actual: buffer.len() });
        }
        match self.backend {
            None => Ok(None),
            Some(BackendSurface::SharedMemory(mut b)) => {
                let c = b.draw_argb8888(dimensions, buffer);
                self.backend = Some(BackendSurface::SharedMemory(b));
                Ok(c)
            },
            Some(BackendSurface::DirectImage(mut b)) => {
                let c = b.draw_argb8888(dimensions, buffer);
                self.backend = Some(BackendSurface::DirectImage(b));
                Ok(Some(c))
            },
            Some(BackendSurface::DeviceContext(mut b)) => {
                let c = b.draw_argb8888(dimensions, buffer);
                self.backend = Some(BackendSurface::DeviceContext(b));
                Ok(Some(c))
            },
        }
    }

    /// Presents a flat `A, R, G, B` byte stream at the window's current
    /// dimensions. A buffer whose length is not exactly
    /// `4 * width * height` bytes is rejected unchanged.
    pub fn draw_argb8888_bytes(&mut self, dimensions: (usize, usize), buffer: &[u8]) -> (r: Result<
        Option<PresentCommand>,
        PresentError,
    >)
        requires
            4 * (dimensions.0 * dimensions.1) <= usize::MAX,
            4 * dimensions.0 <= usize::MAX,
        ensures
            buffer@.len() != 4 * (dimensions.0 * dimensions.1) ==> ((*final(self)) == (*old(self))
                && r == Err::<Option<PresentCommand>, PresentError>(
                PresentError::SizeMismatch {
                    expected: (4 * (dimensions.0 * dimensions.1)) as usize,
                    actual: buffer@.len() as usize,
                },
            )),
            buffer@.len() == 4 * (dimensions.0 * dimensions.1) ==> ({
                let (s2, c) = old(self).spec_draw(dimensions, bytes_pixels(buffer@));
                (*final(self)) == s2 && (r matches Ok(rc) && opt_cmd_view(rc) == c)
            }),
    {
        let expected = 4 * (dimensions.0 * dimensions.1);
        if buffer.len() != expected {
            return Err(PresentError::SizeMismatch { expected, actual: buffer.len() });
        }
        match self.backend {
            None => Ok(None),
            Some(BackendSurface::SharedMemory(mut b)) => {
                let c = b.draw_argb8888_bytes(dimensions, buffer);
                self.backend = Some(BackendSurface::SharedMemory(b));
                Ok(c)
            },
            Some(BackendSurface::DirectImage(mut b)) => {
                let c = b.draw_argb8888_bytes(dimensions, buffer);
                self.backend = Some(BackendSurface::DirectImage(b));
                Ok(Some(c))
            },
            Some(BackendSurface::DeviceContext(mut b)) => {
                let c = b.draw_argb8888_bytes(dimensions, buffer);
                self.backend = Some(BackendSurface::DeviceContext(b));
                Ok(Some(c))
            },
        }
    }

    /// Presents a buffer of packed 32-bit words at the window's current
    /// dimensions. A buffer whose length is not exactly `width * height`
    /// words is rejected unchanged.
    pub fn draw_argb32(&mut self, dimensions: (usize, usize), buffer: &[u32]) -> (r: Result<
        Option<PresentCommand>,
        PresentError,
    >)
        requires
            4 * (dimensions.0 * dimensions.1) <= usize::MAX,
            4 * dimensions.0 <= usize::MAX,
        ensures
            buffer@.len() != dimensions.0 * dimensions.1 ==> ((*final(self)) == (*old(self)) && r
                == Err::<Option<PresentCommand>, PresentError>(
                PresentError::SizeMismatch {
                    expected: (dimensions.0 * dimensions.1) as usize,
                    actual: buffer@.len() as usize,
                },
            )),
            buffer@.len() == dimensions.0 * dimensions.1 ==> ({
                let (s2, c) = old(self).spec_draw(dimensions, packed_pixels(buffer@));
                (*final(self)) == s2 && (r matches Ok(rc) && opt_cmd_view(rc) == c)
            }),
    {
        proof {
            assert(dimensions.0 * dimensions.1 <= 4 * (dimensions.0 * dimensions.1));
        }
        let expected = dimensions.0 * dimensions.1;
        if buffer.len() != expected {
            return Err(PresentError::SizeMismatch { expected, actual: buffer.len() });
        }
        match self.backend {
            None => Ok(None),
            Some(BackendSurface::SharedMemory(mut b)) => {
                let c = b.draw_argb32(dimensions, buffer);
                self.backend = Some(BackendSurface::SharedMemory(b));
                Ok(c)
            },
            Some(BackendSurface::DirectImage(mut b)) => {
                let c = b.draw_argb32(dimensions, buffer);
                self.backend = Some(BackendSurface::DirectImage(b));
                Ok(Some(c))
            },
            Some(BackendSurface::DeviceContext(mut b)) => {
                let c = b.draw_argb32(dimensions, buffer);
                self.backend = Some(BackendSurface::DeviceContext(b));
                Ok(Some(c))
            },
        }
    }
}

/// Two present commands put the same image on the screen: same protocol,
/// same dimensions, and payloads equal byte for byte or word for word.
pub open spec fn same_visible(c1: SpecPresentCommand, c2: SpecPresentCommand) -> bool {
    match (c1, c2) {
        (
            SpecPresentCommand::SharedMemory { width: w1, height: h1, bytes: b1, .. },
            SpecPresentCommand::SharedMemory { width: w2, height: h2, bytes: b2, .. },
        ) => w1 == w2 && h1 == h2 && b1 == b2,
        (
            SpecPresentCommand::DirectImage {
                width: w1,
                height: h1,
                stride_bytes: s1,
                words: d1,
            },
            SpecPresentCommand::DirectImage {
                width: w2,
                height: h2,
                stride_bytes: s2,
                words: d2,
            },
        ) => w1 == w2 && h1 == h2 && s1 == s2 && d1 == d2,
        (
            SpecPresentCommand::DeviceContext { width: w1, height: h1, words: d1 },
            SpecPresentCommand::DeviceContext { width: w2, height: h2, words: d2 },
        ) => w1 == w2 && h1 == h2 && d1 == d2,
        _ => false,
    }
}

/// Idempotence of presentation: drawing the same buffer twice in succession
/// at the same dimensions puts exactly the bytes on the surface that one
/// drawing puts. The encoding is a function of buffer, dimensions and
/// backend alone, so no channel swap is ever applied twice; and the second
/// call is emitted whenever the first was.
pub proof fn lemma_draw_idempotent(w: YuxaWindow, dimensions: (usize, usize), pixels: Seq<Pixel>)
    ensures
        ({
            let (w1, c1) = w.spec_draw(dimensions, pixels);
            let (w2, c2) = w1.spec_draw(dimensions, pixels);
            &&& (c1 is None <==> c2 is None)
            &&& (c1 matches Some(x1) ==> (c2 matches Some(x2) && same_visible(x1, x2)))
        }),
{
}

} // verus!
