//! Layer-surface bookkeeping: sizing, configuration and frame-callback state.
use vstd::prelude::*;

verus! {

/// The state of a surface: its size and flags, and whether it holds a layer
/// surface and a buffer pool.
pub struct SurfaceView {
    pub has_layer_surface: bool,
    pub has_pool: bool,
    pub width: u32,
    pub height: u32,
    pub configured: bool,
    pub frame_callback_pending: bool,
}

/// Tracks the active layer surface (`L`), buffer pool (`P`), and associated
/// sizing state.
pub struct SurfaceState<L, P> {
    layer_surface: Option<L>,
    pool: Option<P>,
    width: u32,
    height: u32,
    configured: bool,
    frame_callback_pending: bool,
}

impl<L, P> View for SurfaceState<L, P> {
    type V = SurfaceView;

    closed spec fn view(&self) -> SurfaceView {
        SurfaceView {
            has_layer_surface: self.layer_surface is Some,
            has_pool: self.pool is Some,
            width: self.width,
            height: self.height,
            configured: self.configured,
            frame_callback_pending: self.frame_callback_pending,
        }
    }
}

impl<L, P> SurfaceState<L, P> {
    /// The layer surface held, if any.
    pub closed spec fn layer_surface_spec(&self) -> Option<L> {
        self.layer_surface
    }

    /// The buffer pool held, if any.
    pub closed spec fn pool_spec(&self) -> Option<P> {
        self.pool
    }
}

/// The bytes of one buffer of a `width × height` surface, four per pixel.
pub open spec fn buffer_bytes(width: u32, height: u32) -> int {
    width * height * 4
}

impl<L, P> SurfaceState<L, P> {
    /// Creates a new, unconfigured surface state.
    pub fn new() -> (s: Self)
        ensures
            s@ == (SurfaceView {
                has_layer_surface: false,
                has_pool: false,
                width: 0,
                height: 0,
                configured: false,
                frame_callback_pending: false,
            }),
            s.layer_surface_spec() is None,
            s.pool_spec() is None,
    {
        Self { layer_surface: None, pool: None, width: 0, height: 0, configured: false, frame_callback_pending: false }
    }

    /// Assigns the layer surface produced during startup.
    pub fn set_layer_surface(&mut self, surface: L)
        ensures
            final(self)@ == (SurfaceView { has_layer_surface: true, ..old(self)@ }),
            final(self).layer_surface_spec() == Some(surface),
            final(self).pool_spec() == old(self).pool_spec(),
    {
        self.layer_surface = Some(surface);
    }

    /// Returns the current layer surface, if initialized.
    pub fn layer_surface(&self) -> (r: Option<&L>)
        ensures
            r is Some == self@.has_layer_surface,
            match r { Some(l) => self.layer_surface_spec() == Some(*l), None => self.layer_surface_spec() is None },
    {
        self.layer_surface.as_ref()
    }

    /// Returns the mutable layer surface, if initialized.
    pub fn layer_surface_mut(&mut self) -> (r: Option<&mut L>)
        ensures
            r is Some == old(self)@.has_layer_surface,
            final(self)@ == old(self)@,
            r matches Some(l) ==> old(self).layer_surface_spec() == Some(*l),
            final(self).pool_spec() == old(self).pool_spec(),
    {
        match &mut self.layer_surface {
            Some(l) => Some(l),
            None => None,
        }
    }

    /// Updates the surface dimensions, returning `true` if the size changed.
    ///
    /// When the size changes, any existing buffer pool becomes invalid and is dropped.
    pub fn update_dimensions(&mut self, width: u32, height: u32) -> (changed: bool)
        ensures
            changed == (old(self)@.width != width || old(self)@.height != height),
            final(self)@ == (SurfaceView {
                width,
                height,
                has_pool: old(self)@.has_pool && !changed,
                ..old(self)@
            }),
            final(self).layer_surface_spec() == old(self).layer_surface_spec(),
            final(self).pool_spec() == (if changed { None } else { old(self).pool_spec() }),
    {
        let changed = self.width != width || self.height != height;
        self.width = width;
        self.height = height;
        if changed {
            self.pool = None;
        }
        changed
    }

    /// Current surface width in pixels.
    pub fn width(&self) -> (w: u32)
        ensures
            w == self@.width,
    {
        self.width
    }

    /// Current surface height in pixels.
    pub fn height(&self) -> (h: u32)
        ensures
            h == self@.height,
    {
        self.height
    }

    /// Marks the surface as configured by the compositor.
    pub fn set_configured(&mut self, configured: bool)
        ensures
            final(self)@ == (SurfaceView { configured, ..old(self)@ }),
            final(self).layer_surface_spec() == old(self).layer_surface_spec(),
            final(self).pool_spec() == old(self).pool_spec(),
    {
        self.configured = configured;
    }

    /// Returns whether the surface has completed its initial configure.
    pub fn is_configured(&self) -> (b: bool)
        ensures
            b == self@.configured,
    {
        self.configured
    }

    /// Sets the frame callback pending flag.
    pub fn set_frame_callback_pending(&mut self, pending: bool)
        ensures
            final(self)@ == (SurfaceView { frame_callback_pending: pending, ..old(self)@ }),
            final(self).layer_surface_spec() == old(self).layer_surface_spec(),
            final(self).pool_spec() == old(self).pool_spec(),
    {
        self.frame_callback_pending = pending;
    }

    /// Returns whether a frame callback is currently outstanding.
    pub fn frame_callback_pending(&self) -> (b: bool)
        ensures
            b == self@.frame_callback_pending,
    {
        self.frame_callback_pending
    }

    /// The size of the buffer pool to create: one buffer of four bytes per
    /// pixel for each of the `buffer_count` buffers.
    pub fn pool_size(&self, buffer_count: usize) -> (size: usize)
        requires
            buffer_bytes(self@.width, self@.height) <= u32::MAX,
            buffer_bytes(self@.width, self@.height) * buffer_count <= usize::MAX,
        ensures
            size == buffer_bytes(self@.width, self@.height) * buffer_count,
    {
        let pixels: u64 = self.width as u64 * self.height as u64;
        let bytes: u64 = pixels * 4;
        assert(bytes <= u32::MAX);
        let buffer_size = bytes as usize;
        buffer_size * buffer_count
    }

    /// The buffer pool, if one is held.
    pub fn pool_mut(&mut self) -> (r: Option<&mut P>)
        ensures
            r is Some == old(self)@.has_pool,
            final(self)@ == old(self)@,
            r matches Some(p) ==> old(self).pool_spec() == Some(*p),
            final(self).layer_surface_spec() == old(self).layer_surface_spec(),
    {
        match &mut self.pool {
            Some(p) => Some(p),
            None => None,
        }
    }

    /// Keeps a newly created buffer pool.
    pub fn set_pool(&mut self, pool: P)
        ensures
            final(self)@ == (SurfaceView { has_pool: true, ..old(self)@ }),
            final(self).pool_spec() == Some(pool),
            final(self).layer_surface_spec() == old(self).layer_surface_spec(),
    {
        self.pool = Some(pool);
    }
}

} // verus!
