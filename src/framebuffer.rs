//! The shared-memory frame buffer: its layout, when its backing region has to
//! be replaced, and the byte-exact copy of a frame into it.
//!
//! The region itself (an anonymous file, its mapping and the compositor's pool)
//! is made by the caller; this module decides when a new one is needed and
//! hands back the old one only once the new one is installed.
use vstd::prelude::*;

verus! {

/// The largest region the compositor's pool takes: its sizes are signed 32-bit.
pub const MAX_REGION_BYTES: u32 = 0x7fff_ffff;

/// Why a frame could not be produced.
#[derive(Clone, Copy, Debug, PartialEq, Eq)]
pub enum FrameError {
    /// No backing region of the size asked for can be had.
    FatalAllocation,
    /// A drawing primitive failed.
    FatalDraw,
    /// A caller broke a contract, such as the length of a frame's pixels.
    ContractViolation,
}

/// The surface as the compositor describes it: logical size and scale.
#[derive(Clone, Copy, Debug, PartialEq, Eq)]
pub struct Geometry {
    pub width: u32,
    pub height: u32,
    pub scale: i32,
}

/// Whether logical `w` by `h` at scale `s` gives a physical size that the
/// compositor's signed 32-bit coordinates hold.
pub open spec fn scaled_fits(w: nat, h: nat, s: int) -> bool {
    &&& s >= 1
    &&& w * s <= MAX_REGION_BYTES
    &&& h * s <= MAX_REGION_BYTES
}

impl Geometry {
    /// The physical size, logical size times scale; an error where the scale
    /// is below one or the product leaves the signed 32-bit range.
    pub fn physical_size(&self) -> (r: Result<(u32, u32), FrameError>)
        ensures
            r is Ok <==> scaled_fits(self.width as nat, self.height as nat, self.scale as int),
            r matches Ok((w, h)) ==> w == self.width * self.scale && h == self.height
                * self.scale,
            r matches Err(e) ==> e == FrameError::FatalAllocation,
    {
        if self.scale < 1 {
            return Err(FrameError::FatalAllocation);
        }
        assert(self.width as u64 * self.scale as u64 <= 0xffff_ffff * 0x7fff_ffff) by (nonlinear_arith)
            requires
                1 <= self.scale <= 0x7fff_ffff,
        ;
        assert(self.height as u64 * self.scale as u64 <= 0xffff_ffff * 0x7fff_ffff) by (nonlinear_arith)
            requires
                1 <= self.scale <= 0x7fff_ffff,
        ;
        let w: u64 = self.width as u64 * self.scale as u64;
        let h: u64 = self.height as u64 * self.scale as u64;
        if w > MAX_REGION_BYTES as u64 || h > MAX_REGION_BYTES as u64 {
            return Err(FrameError::FatalAllocation);
        }
        Ok((w as u32, h as u32))
    }
}

/// The pixel layout of a physical frame, four bytes per pixel (alpha and
/// three colour channels).
#[derive(Clone, Copy, Debug, PartialEq, Eq)]
pub struct Layout {
    pub width: u32,
    pub height: u32,
    /// Bytes per row.
    pub stride: u32,
    /// Bytes of the whole frame.
    pub size: usize,
}

/// Whether a `w` by `h` frame fits a region: its row and its whole size
/// within the pool's signed 32-bit range.
pub open spec fn layout_fits(w: nat, h: nat) -> bool {
    &&& w * 4 <= MAX_REGION_BYTES
    &&& h <= MAX_REGION_BYTES
    &&& w * 4 * h <= MAX_REGION_BYTES
}

/// The layout of a `w` by `h` frame.
pub open spec fn layout_spec(w: nat, h: nat) -> Layout {
    Layout { width: w as u32, height: h as u32, stride: (w * 4) as u32, size: (w * 4 * h) as usize }
}

impl Layout {
    /// Stride is width times bytes per pixel; size is stride times height.
    pub open spec fn wf(&self) -> bool {
        &&& self.stride == self.width * 4
        &&& self.size == self.stride * self.height
        &&& self.size <= MAX_REGION_BYTES
    }
}

/// The layout of a frame of `physical_width` by `physical_height` pixels; an
/// error where it does not fit a region.
pub fn layout_for(physical_width: u32, physical_height: u32) -> (r: Result<Layout, FrameError>)
    ensures
        r is Ok <==> layout_fits(physical_width as nat, physical_height as nat),
        r matches Ok(l) ==> l == layout_spec(physical_width as nat, physical_height as nat)
            && l.wf(),
        r matches Err(e) ==> e == FrameError::FatalAllocation,
{
    let stride: u64 = physical_width as u64 * 4;
    if stride > MAX_REGION_BYTES as u64 || physical_height > MAX_REGION_BYTES {
        return Err(FrameError::FatalAllocation);
    }
    assert(stride * physical_height <= 0x7fff_ffff * 0x7fff_ffff) by (nonlinear_arith)
        requires
            stride <= 0x7fff_ffff,
            physical_height <= 0x7fff_ffff,
    ;
    let size: u64 = stride * physical_height as u64;
    if size > MAX_REGION_BYTES as u64 {
        return Err(FrameError::FatalAllocation);
    }
    Ok(Layout { width: physical_width, height: physical_height, stride: stride as u32, size: size as usize })
}

/// A backing region: which allocation it was, and its size in bytes.
#[derive(Clone, Copy, Debug, PartialEq, Eq)]
pub struct Region {
    pub id: u64,
    pub size: usize,
}

/// What a frame of a given layout needs.
#[derive(Clone, Copy, Debug, PartialEq, Eq)]
pub enum Sizing {
    /// The current region has the size needed: draw into it again.
    Reuse { region: Region, layout: Layout },
    /// A new region of `layout.size` bytes is needed.
    Allocate { layout: Layout },
}

/// What a frame of `w` by `h` needs, given the region now installed.
pub open spec fn sizing_for(current: Option<Region>, w: nat, h: nat) -> Result<Sizing, FrameError> {
    if !layout_fits(w, h) {
        Err(FrameError::FatalAllocation)
    } else {
        let l = layout_spec(w, h);
        match current {
            Some(g) => if g.size == l.size {
                Ok(Sizing::Reuse { region: g, layout: l })
            } else {
                Ok(Sizing::Allocate { layout: l })
            },
            None => Ok(Sizing::Allocate { layout: l }),
        }
    }
}

/// The installed region and the allocation count after `s` is carried out.
pub open spec fn apply_sizing(current: Option<Region>, count: nat, s: Sizing) -> (Option<Region>, nat) {
    match s {
        Sizing::Reuse { .. } => (current, count),
        Sizing::Allocate { layout } => (Some(Region { id: (count + 1) as u64, size: layout.size }), count + 1),
    }
}

/// Relies on `<[u8]>::copy_from_slice`: with equal lengths, `dst` becomes a
/// copy of `src`.
#[verifier::external_body]
fn copy_bytes(dst: &mut [u8], src: &[u8])
    requires
        old(dst)@.len() == src@.len(),
    ensures
        final(dst)@ == src@,
{
    dst.copy_from_slice(src)
}

/// The frame buffer's bookkeeping: the installed backing region, if any, and
/// how many regions were allocated so far.
pub struct FrameBuffer {
    current: Option<Region>,
    allocations: u64,
}

impl FrameBuffer {
    /// The installed region.
    pub closed spec fn region(&self) -> Option<Region> {
        self.current
    }

    /// How many regions were installed so far.
    pub closed spec fn allocation_count(&self) -> nat {
        self.allocations as nat
    }

    /// The installed region is the latest allocation, of a size the pool takes.
    pub closed spec fn wf(&self) -> bool {
        match self.current {
            Some(g) => g.id == self.allocations && g.size <= MAX_REGION_BYTES,
            None => self.allocations == 0,
        }
    }

    /// A frame buffer with no region yet.
    pub fn new() -> (r: Self)
        ensures
            r.wf(),
            r.region() is None,
            r.allocation_count() == 0,
    {
        FrameBuffer { current: None, allocations: 0 }
    }

    /// What a frame of `physical_width` by `physical_height` pixels needs: the
    /// installed region where its size is the one needed, else a new one. Only
    /// compares sizes; changes nothing.
    pub fn ensure_sized(&self, physical_width: u32, physical_height: u32) -> (r: Result<
        Sizing,
        FrameError,
    >)
        ensures
            r == sizing_for(self.region(), physical_width as nat, physical_height as nat),
    {
        let layout = match layout_for(physical_width, physical_height) {
            Ok(l) => l,
            Err(e) => return Err(e),
        };
        match self.current {
            Some(g) => if g.size == layout.size {
                Ok(Sizing::Reuse { region: g, layout })
            } else {
                Ok(Sizing::Allocate { layout })
            },
            None => Ok(Sizing::Allocate { layout }),
        }
    }

    /// Installs a newly mapped region for `layout` and hands back the one it
    /// replaces, which may be released only now.
    pub fn install(&mut self, layout: Layout) -> (released: Option<Region>)
        requires
            old(self).wf(),
            layout.wf(),
            old(self).allocation_count() < u64::MAX,
        ensures
            final(self).wf(),
            released == old(self).region(),
            (final(self).region(), final(self).allocation_count()) == apply_sizing(
                old(self).region(),
                old(self).allocation_count(),
                Sizing::Allocate { layout },
            ),
    {
        let released = self.current;
        self.allocations = self.allocations + 1;
        self.current = Some(Region { id: self.allocations, size: layout.size });
        released
    }

    /// The installed region, to be handed to the compositor.
    pub fn handle(&self) -> (r: Option<Region>)
        ensures
            r == self.region(),
    {
        self.current
    }

    /// How many regions were installed so far.
    pub fn allocations(&self) -> (r: u64)
        ensures
            r == self.allocation_count(),
    {
        self.allocations
    }

    /// Copies a frame's pixels into the installed region's memory `backing`.
    /// Pixels whose length is not the region's size exactly are refused, and
    /// nothing is copied.
    pub fn write(&self, backing: &mut [u8], pixels: &[u8]) -> (r: Result<(), FrameError>)
        ensures
            r is Ok <==> (self.region() matches Some(g) && g.size == pixels@.len()
                && old(backing)@.len() == pixels@.len()),
            r is Ok ==> final(backing)@ == pixels@,
            r matches Err(e) ==> e == FrameError::ContractViolation && final(backing)@ == old(
                backing,
            )@,
    {
        match self.current {
            Some(g) => {
                if g.size != pixels.len() || backing.len() != pixels.len() {
                    return Err(FrameError::ContractViolation);
                }
                copy_bytes(backing, pixels);
                Ok(())
            },
            None => Err(FrameError::ContractViolation),
        }
    }
}

/// Sizing twice for the same dimensions allocates at most once: once what the
/// first sizing asks for is carried out, the second reuses that region and
/// leaves the allocation count as it is.
pub proof fn lemma_ensure_sized_idempotent(current: Option<Region>, count: nat, w: nat, h: nat)
    requires
        layout_fits(w, h),
    ensures
        ({
            let first = sizing_for(current, w, h)->Ok_0;
            let (c1, n1) = apply_sizing(current, count, first);
            let second = sizing_for(c1, w, h);
            &&& second matches Ok(Sizing::Reuse { region, layout }) && c1 == Some(region)
                && layout == layout_spec(w, h)
            &&& apply_sizing(c1, n1, second->Ok_0) == (c1, n1)
        }),
{
}

} // verus!
