//! Choices the renderer makes about its drawing surface: the compositing
//! mode, the pixel format, and the surface size it keeps.
use vstd::prelude::*;

verus! {

/// How the window compositor blends the surface with what lies behind it.
#[derive(Debug, Clone, Copy, PartialEq, Eq, Structural)]
pub enum AlphaMode {
    Auto,
    Opaque,
    PreMultiplied,
    PostMultiplied,
    Inherit,
}

/// The compositing mode for a transparent window: premultiplied alpha if
/// the surface offers it, else postmultiplied, else the surface's first.
pub open spec fn preferred_alpha_mode(modes: Seq<AlphaMode>) -> AlphaMode {
    if modes.contains(AlphaMode::PreMultiplied) {
        AlphaMode::PreMultiplied
    } else if modes.contains(AlphaMode::PostMultiplied) {
        AlphaMode::PostMultiplied
    } else {
        modes[0]
    }
}

/// Pick the compositing mode among those the surface supports.
pub fn choose_alpha_mode(modes: &[AlphaMode]) -> (mode: AlphaMode)
    requires
        modes@.len() > 0,
    ensures
        mode == preferred_alpha_mode(modes@),
        modes@.contains(mode),
{
    let mut has_post = false;
    let mut i: usize = 0;
    while i < modes.len()
        invariant
            i <= modes@.len(),
            forall|j: int| 0 <= j < i ==> modes@[j] != AlphaMode::PreMultiplied,
            has_post <==> exists|j: int| 0 <= j < i && modes@[j] == AlphaMode::PostMultiplied,
        decreases modes@.len() - i,
    {
        if modes[i] == AlphaMode::PreMultiplied {
            assert(modes@.contains(AlphaMode::PreMultiplied)) by {
                assert(modes@[i as int] == AlphaMode::PreMultiplied);
            }
            return AlphaMode::PreMultiplied;
        }
        if modes[i] == AlphaMode::PostMultiplied {
            has_post = true;
        }
        i = i + 1;
    }
    if has_post {
        assert(modes@.contains(AlphaMode::PostMultiplied)) by {
            let j = choose|j: int| 0 <= j < modes@.len() && modes@[j] == AlphaMode::PostMultiplied;
            assert(modes@[j] == AlphaMode::PostMultiplied);
        }
        AlphaMode::PostMultiplied
    } else {
        assert(!modes@.contains(AlphaMode::PostMultiplied));
        assert(modes@.contains(modes@[0]));
        modes[0]
    }
}

/// Pick the pixel format: the first sRGB format the surface offers, else
/// its first format. `srgb[i]` says whether the surface's `i`-th format is
/// sRGB; the result is an index into the surface's formats.
pub fn choose_format(srgb: &[bool]) -> (idx: usize)
    requires
        srgb@.len() > 0,
    ensures
        idx < srgb@.len(),
        (exists|j: int| 0 <= j < srgb@.len() && srgb@[j]) ==> srgb@[idx as int] && forall|j: int|
            0 <= j < idx ==> !srgb@[j],
        !(exists|j: int| 0 <= j < srgb@.len() && srgb@[j]) ==> idx == 0,
{
    let mut i: usize = 0;
    while i < srgb.len()
        invariant
            i <= srgb@.len(),
            forall|j: int| 0 <= j < i ==> !srgb@[j],
        decreases srgb@.len() - i,
    {
        if srgb[i] {
            return i;
        }
        i = i + 1;
    }
    0
}

/// The size the drawing surface is configured with, never zero in either
/// dimension.
#[derive(Debug, Clone, Copy)]
pub struct SurfaceSize {
    width: u32,
    height: u32,
}

impl View for SurfaceSize {
    type V = (u32, u32);

    closed spec fn view(&self) -> (u32, u32) {
        (self.width, self.height)
    }
}

impl SurfaceSize {
    #[verifier::type_invariant]
    spec fn nonzero(self) -> bool {
        self.width >= 1 && self.height >= 1
    }

    /// The size for a window of the given size, each dimension at least 1.
    pub fn new(width: u32, height: u32) -> (s: SurfaceSize)
        ensures
            s@ == ((if width == 0 { 1 } else { width }), (if height == 0 { 1 } else { height })),
            s@.0 >= 1 && s@.1 >= 1,
    {
        let w: u32 = if width == 0 {
            1
        } else {
            width
        };
        let h: u32 = if height == 0 {
            1
        } else {
            height
        };
        SurfaceSize { width: w, height: h }
    }

    pub fn width(&self) -> (w: u32)
        ensures
            w == self@.0,
            w >= 1,
    {
        proof {
            use_type_invariant(self);
        }
        self.width
    }

    pub fn height(&self) -> (h: u32)
        ensures
            h == self@.1,
            h >= 1,
    {
        proof {
            use_type_invariant(self);
        }
        self.height
    }

    /// Take on a new window size; a size with a zero dimension is ignored.
    /// Returns whether the surface must be configured anew.
    pub fn resize(&mut self, width: u32, height: u32) -> (changed: bool)
        ensures
            changed <==> (width != 0 && height != 0),
            final(self)@ == (if changed { (width, height) } else { old(self)@ }),
            final(self)@.0 >= 1 && final(self)@.1 >= 1,
    {
        proof {
            use_type_invariant(&*self);
        }
        if width == 0 || height == 0 {
            return false;
        }
        self.width = width;
        self.height = height;
        true
    }
}

} // verus!
