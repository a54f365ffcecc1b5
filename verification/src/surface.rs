//! Decisions about the render surface: its extent, its texture format, and
//! what to do with each kind of texture that acquiring a frame hands back.

use vstd::prelude::*;

verus! {

#[verifier::external_type_specification]
#[verifier::external_body]
pub struct ExTextureFormat(wgpu::TextureFormat);

/// A surface dimension as configured: a zero-sized canvas side still gets
/// one pixel.
pub open spec fn at_least_one(dim: u32) -> u32 {
    if dim == 0 {
        1
    } else {
        dim
    }
}

/// The surface extent for a canvas of `width` by `height` pixels: each
/// side is raised to at least one pixel.
pub fn surface_extent(width: u32, height: u32) -> (extent: (u32, u32))
    ensures
        extent.0 == at_least_one(width),
        extent.1 == at_least_one(height),
        width > 0 ==> extent.0 == width,
        width == 0 ==> extent.0 == 1,
        height > 0 ==> extent.1 == height,
        height == 0 ==> extent.1 == 1,
        extent.0 >= 1,
        extent.1 >= 1,
{
    let w = if width == 0 {
        1
    } else {
        width
    };
    let h = if height == 0 {
        1
    } else {
        height
    };
    (w, h)
}

/// A side of the surface is the canvas side unless that side is zero, in
/// which case it is one pixel: a positive side is never changed.
pub proof fn lemma_extent_keeps_positive_sides()
    ensures
        forall|dim: u32| dim > 0 ==> #[trigger] at_least_one(dim) == dim,
        at_least_one(0) == 1,
        forall|dim: u32| #[trigger] at_least_one(dim) >= 1,
{
}

/// `i` is the format chosen among formats whose sRGB-ness is `srgb`: the
/// first format that is not sRGB, or the first format when all are sRGB.
pub open spec fn is_format_choice(srgb: Seq<bool>, i: int) -> bool {
    &&& 0 <= i < srgb.len()
    &&& forall|j: int| 0 <= j < i ==> #[trigger] srgb[j]
    &&& !srgb[i] || (i == 0 && forall|j: int| 0 <= j < srgb.len() ==> #[trigger] srgb[j])
}

/// The format choice is the first non-sRGB format: it comes no later than
/// any non-sRGB format and is itself not sRGB when one exists; when all
/// formats are sRGB it is the first. So there is exactly one choice.
pub proof fn lemma_format_choice_is_first_non_srgb(srgb: Seq<bool>, i: int)
    requires
        is_format_choice(srgb, i),
    ensures
        forall|p: int| 0 <= p < srgb.len() && !srgb[p] ==> i <= p && !srgb[i],
        (forall|p: int| 0 <= p < srgb.len() ==> srgb[p]) ==> i == 0,
        forall|i2: int| is_format_choice(srgb, i2) ==> i2 == i,
{
    assert forall|i2: int| is_format_choice(srgb, i2) implies i2 == i by {
        if i2 < i {
            assert(srgb[i2]);
            assert(i2 == 0);
            assert(!srgb[i] || i == 0);
        } else if i < i2 {
            assert(srgb[i]);
            assert(i == 0);
            assert(!srgb[i2] || i2 == 0);
        }
    }
}

/// Picks a surface format given which of the offered formats are sRGB:
/// the index of the first non-sRGB format (the shader converts colours
/// itself), or 0 when every format is sRGB.
pub fn first_non_srgb_index(srgb: &Vec<bool>) -> (i: usize)
    requires
        srgb@.len() > 0,
    ensures
        is_format_choice(srgb@, i as int),
{
    let mut k: usize = 0;
    while k < srgb.len()
        invariant
            k <= srgb@.len(),
            forall|j: int| 0 <= j < k ==> #[trigger] srgb@[j],
        decreases srgb@.len() - k,
    {
        if !srgb[k] {
            return k;
        }
        k = k + 1;
    }
    0
}

/// Whether wgpu's `TextureFormat::is_srgb` reports `format` as an sRGB
/// format: a function of the format alone.
pub uninterp spec fn format_is_srgb(format: wgpu::TextureFormat) -> bool;

/// Calls wgpu's `TextureFormat::is_srgb`, which tells whether `format` is
/// one of the sRGB formats; the result is `format_is_srgb` of the format.
#[verifier::external_body]
fn texture_format_is_srgb(format: &wgpu::TextureFormat) -> (srgb: bool)
    ensures
        srgb == format_is_srgb(*format),
{
    format.is_srgb()
}

/// The index, among the formats that the surface offers, of the format to
/// configure it with: the first one that wgpu does not report as sRGB, or
/// the first one when all are sRGB.
pub fn surface_format_index(formats: &Vec<wgpu::TextureFormat>) -> (i: usize)
    requires
        formats@.len() > 0,
    ensures
        is_format_choice(formats@.map_values(|f: wgpu::TextureFormat| format_is_srgb(f)), i as int),
{
    let mut srgb: Vec<bool> = Vec::new();
    let mut k: usize = 0;
    while k < formats.len()
        invariant
            k <= formats@.len(),
            srgb@.len() == k,
            forall|j: int| 0 <= j < k ==> #[trigger] srgb@[j] == format_is_srgb(formats@[j]),
        decreases formats@.len() - k,
    {
        srgb.push(texture_format_is_srgb(&formats[k]));
        k = k + 1;
    }
    assert(srgb@ =~= formats@.map_values(|f: wgpu::TextureFormat| format_is_srgb(f)));
    first_non_srgb_index(&srgb)
}

/// The kinds of result that acquiring the surface's next texture can have.
#[derive(Clone, Copy, Debug, PartialEq, Eq, Structural)]
pub enum SurfaceStatus {
    Success,
    Suboptimal,
    Timeout,
    Occluded,
    Outdated,
    Lost,
    Validation,
}

/// What the renderer does with an acquired surface texture.
#[derive(Clone, Copy, Debug, PartialEq, Eq, Structural)]
pub enum FrameAction {
    /// Draw the frame into the texture and present it.
    Render,
    /// Configure the surface again and skip this frame.
    ReconfigureAndSkip,
    /// Give up: the surface cannot be drawn to.
    Fail,
}

/// Decides what to do with the result of acquiring a surface texture: a
/// usable texture (also a suboptimal one) is rendered; an outdated or lost
/// surface is configured again and the frame skipped; anything else fails.
pub fn frame_action(status: SurfaceStatus) -> (action: FrameAction)
    ensures
        action == FrameAction::Render <==> (status == SurfaceStatus::Success || status
            == SurfaceStatus::Suboptimal),
        action == FrameAction::ReconfigureAndSkip <==> (status == SurfaceStatus::Outdated
            || status == SurfaceStatus::Lost),
        action == FrameAction::Fail <==> (status == SurfaceStatus::Timeout || status
            == SurfaceStatus::Occluded || status == SurfaceStatus::Validation),
{
    match status {
        SurfaceStatus::Success | SurfaceStatus::Suboptimal => FrameAction::Render,
        SurfaceStatus::Outdated | SurfaceStatus::Lost => FrameAction::ReconfigureAndSkip,
        SurfaceStatus::Timeout | SurfaceStatus::Occluded | SurfaceStatus::Validation => {
            FrameAction::Fail
        },
    }
}

} // verus!
