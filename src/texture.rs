use vstd::prelude::*;

verus! {

/// Side, in pixels, of the render target before its panel is first laid out.
pub const INITIAL_SIDE: u32 = 512;

/// The off-screen image the camera draws into, as far as its size goes.
///
/// `width` and `height` are the pixel dimensions of the backing buffer;
/// `scale` is the display scale factor that panel sizes are multiplied by,
/// in thousandths (1000 is 1×, 1500 is 1.5×).
pub struct ViewportTexture {
    pub width: u32,
    pub height: u32,
    pub scale: u32,
}

/// The scale factor, in thousandths, that stands for 1×.
pub const UNIT_SCALE: u32 = 1000;

/// The pixel size of one side for an observed panel side: the side times the
/// scale factor, rounded down to whole pixels.
pub open spec fn target_side(observed: nat, scale: nat) -> nat {
    observed * scale / (UNIT_SCALE as nat)
}

/// Whether the scaled panel size fits the texture's pixel counters.
pub open spec fn size_fits(t: ViewportTexture, w: u32, h: u32) -> bool {
    target_side(w as nat, t.scale as nat) <= u32::MAX && target_side(h as nat, t.scale as nat)
        <= u32::MAX
}

/// Whether the texture must be reallocated to match a panel of `w` by `h`.
pub open spec fn needs_resize(t: ViewportTexture, w: u32, h: u32) -> bool {
    t.width as nat != target_side(w as nat, t.scale as nat) || t.height as nat != target_side(
        h as nat,
        t.scale as nat,
    )
}

/// The texture once it matches a panel of `w` by `h`.
pub open spec fn synced(t: ViewportTexture, w: u32, h: u32) -> ViewportTexture {
    ViewportTexture {
        width: target_side(w as nat, t.scale as nat) as u32,
        height: target_side(h as nat, t.scale as nat) as u32,
        scale: t.scale,
    }
}

impl ViewportTexture {
    /// A fresh render target of the initial size. The display scale factor is
    /// given in thousandths; without one, panel sizes are taken as they are.
    pub fn new(display_scale: Option<u32>) -> (r: Self)
        ensures
            r.width == INITIAL_SIDE,
            r.height == INITIAL_SIDE,
            r.scale == match display_scale {
                Some(s) => s,
                None => UNIT_SCALE,
            },
    {
        let scale = match display_scale {
            Some(s) => s,
            None => UNIT_SCALE,
        };
        ViewportTexture { width: INITIAL_SIDE, height: INITIAL_SIDE, scale }
    }

    /// Whether `sync_size` may be called for a panel of `w` by `h`.
    pub fn can_sync(&self, w: u32, h: u32) -> (r: bool)
        ensures
            r == size_fits(*self, w, h),
    {
        let s = self.scale as u64;
        let w64 = w as u64;
        let h64 = h as u64;
        proof {
            assert(w64 * s <= u32::MAX * u32::MAX) by (nonlinear_arith)
                requires
                    w64 <= u32::MAX,
                    s <= u32::MAX,
            ;
            assert(h64 * s <= u32::MAX * u32::MAX) by (nonlinear_arith)
                requires
                    h64 <= u32::MAX,
                    s <= u32::MAX,
            ;
        }
        w64 * s / (UNIT_SCALE as u64) <= u32::MAX as u64 && h64 * s / (UNIT_SCALE as u64) <= u32::MAX as u64
    }

    /// Brings the texture to the scaled size of the panel that shows it.
    /// Returns whether the backing buffer had to be reallocated, which
    /// happens exactly when the size differed.
    pub fn sync_size(&mut self, w: u32, h: u32) -> (resized: bool)
        requires
            size_fits(*old(self), w, h),
        ensures
            resized == needs_resize(*old(self), w, h),
            *final(self) == synced(*old(self), w, h),
    {
        let s = self.scale as u64;
        let w64 = w as u64;
        let h64 = h as u64;
        proof {
            assert(w64 * s <= u32::MAX * u32::MAX) by (nonlinear_arith)
                requires
                    w64 <= u32::MAX,
                    s <= u32::MAX,
            ;
            assert(h64 * s <= u32::MAX * u32::MAX) by (nonlinear_arith)
                requires
                    h64 <= u32::MAX,
                    s <= u32::MAX,
            ;
        }
        let tw = (w64 * s / (UNIT_SCALE as u64)) as u32;
        let th = (h64 * s / (UNIT_SCALE as u64)) as u32;
        let resized = self.width != tw || self.height != th;
        self.width = tw;
        self.height = th;
        resized
    }
}

/// Syncing twice to the same panel size reallocates at most once: after the
/// first sync nothing is left to resize.
pub proof fn law_sync_idempotent(t: ViewportTexture, w: u32, h: u32)
    requires
        size_fits(t, w, h),
    ensures
        !needs_resize(synced(t, w, h), w, h),
        synced(synced(t, w, h), w, h) == synced(t, w, h),
{
}

} // verus!
