use vstd::prelude::*;

use crate::volume::{Dimensions, Extent, Texture};

verus! {

/// The principal axis along which a slice view cuts the volume.
#[derive(Clone, Copy, Debug, PartialEq, Eq, Structural)]
pub enum VolumeAxis {
    Axial,
    Coronal,
    Sagittal,
}

impl VolumeAxis {
    /// The index by which the fragment stage tells the axes apart.
    pub open spec fn index_spec(self) -> int {
        match self {
            VolumeAxis::Axial => 0,
            VolumeAxis::Coronal => 1,
            VolumeAxis::Sagittal => 2,
        }
    }

    pub fn index(self) -> (r: i32)
        ensures
            r == self.index_spec(),
    {
        match self {
            VolumeAxis::Axial => 0,
            VolumeAxis::Coronal => 1,
            VolumeAxis::Sagittal => 2,
        }
    }
}

impl From<VolumeAxis> for i32 {
    fn from(v: VolumeAxis) -> (r: i32) {
        v.index()
    }
}

impl vstd::std_specs::convert::FromSpecImpl<VolumeAxis> for i32 {
    open spec fn obeys_from_spec() -> bool {
        true
    }

    open spec fn from_spec(v: VolumeAxis) -> i32 {
        v.index_spec() as i32
    }
}

/// Voxel count of `d` along `axis`.
pub open spec fn dimension_along(d: Dimensions, axis: VolumeAxis) -> u32 {
    match axis {
        VolumeAxis::Axial => d.x,
        VolumeAxis::Coronal => d.y,
        VolumeAxis::Sagittal => d.z,
    }
}

pub fn dimension_along_axis(d: Dimensions, axis: VolumeAxis) -> (r: u32)
    ensures
        r == dimension_along(d, axis),
{
    match axis {
        VolumeAxis::Axial => d.x,
        VolumeAxis::Coronal => d.y,
        VolumeAxis::Sagittal => d.z,
    }
}

/// A non-negative rational number `num / den`.
#[derive(Clone, Copy, Debug, PartialEq, Eq, Structural)]
pub struct Ratio {
    pub num: u128,
    pub den: u128,
}

impl Ratio {
    /// Both ratios stand for the same number.
    pub open spec fn same_value(self, other: Ratio) -> bool {
        self.num * other.den == other.num * self.den
    }

    pub open spec fn is_one(self) -> bool {
        self.num == self.den
    }

    /// The number lies in `(0, 1]`.
    pub open spec fn in_unit_range(self) -> bool {
        0 < self.num <= self.den
    }

    /// The number lies in `[0, 1)`.
    pub open spec fn in_unit_interval(self) -> bool {
        0 <= self.num < self.den
    }

    pub open spec fn one() -> Ratio {
        Ratio { num: 1, den: 1 }
    }
}

/// Physical size of a cut plane, in nanometres.
#[derive(Clone, Copy, Debug, PartialEq, Eq, Structural)]
pub struct SliceScale {
    pub width: u64,
    pub height: u64,
}

/// The cut plane of `axis` spans the two other axes: its width lies along the
/// first of them and its height along the second.
pub open spec fn in_plane_scale(e: Extent, axis: VolumeAxis) -> SliceScale {
    match axis {
        VolumeAxis::Axial => SliceScale { width: e.y, height: e.z },
        VolumeAxis::Coronal => SliceScale { width: e.x, height: e.z },
        VolumeAxis::Sagittal => SliceScale { width: e.x, height: e.y },
    }
}

/// Size of a viewport in pixels.
#[derive(Clone, Copy, Debug, PartialEq, Eq, Structural)]
pub struct Viewport {
    pub width: u32,
    pub height: u32,
}

/// Horizontal and vertical scale of the slice quad; the depth scale is always one.
#[derive(Clone, Copy, Debug, PartialEq, Eq, Structural)]
pub struct FullscreenFactor {
    pub x: Ratio,
    pub y: Ratio,
}

/// Compares the aspect ratio of the cut plane with that of the viewport. When
/// the plane is wider, its height shrinks by `viewport_aspect / volume_aspect`;
/// otherwise its width shrinks by `volume_aspect / viewport_aspect`.
pub open spec fn fullscreen_factor_of(viewport: Viewport, volume: SliceScale) -> FullscreenFactor {
    let pw = viewport.width as int;
    let ph = viewport.height as int;
    let vw = volume.width as int;
    let vh = volume.height as int;
    if vw * ph > pw * vh {
        FullscreenFactor { x: Ratio::one(), y: Ratio { num: (pw * vh) as u128, den: (ph * vw) as u128 } }
    } else {
        FullscreenFactor { x: Ratio { num: (vw * ph) as u128, den: (vh * pw) as u128 }, y: Ratio::one() }
    }
}

proof fn lemma_u32_u64_product_fits(a: u32, b: u64)
    ensures
        0 <= a * b <= u128::MAX,
        0 <= b * a <= u128::MAX,
{
    assert(a * b <= 0xffff_ffffu128 * 0xffff_ffff_ffff_ffffu128) by (nonlinear_arith)
        requires
            a <= 0xffff_ffffu32,
            b <= 0xffff_ffff_ffff_ffffu64,
    ;
    assert(a * b == b * a) by (nonlinear_arith);
}

/// Scale of a quad that shows `volume` with its true aspect ratio inside
/// `viewport`, stretched along no axis beyond the viewport.
pub fn fullscreen_factor(viewport: Viewport, volume: SliceScale) -> (r: FullscreenFactor)
    requires
        viewport.width > 0,
        viewport.height > 0,
        volume.width > 0,
        volume.height > 0,
    ensures
        r == fullscreen_factor_of(viewport, volume),
{
    let pw = viewport.width as u128;
    let ph = viewport.height as u128;
    let vw = volume.width as u128;
    let vh = volume.height as u128;
    proof {
        lemma_u32_u64_product_fits(viewport.width, volume.width);
        lemma_u32_u64_product_fits(viewport.width, volume.height);
        lemma_u32_u64_product_fits(viewport.height, volume.width);
        lemma_u32_u64_product_fits(viewport.height, volume.height);
    }
    if vw * ph > pw * vh {
        FullscreenFactor { x: Ratio { num: 1, den: 1 }, y: Ratio { num: pw * vh, den: ph * vw } }
    } else {
        FullscreenFactor { x: Ratio { num: vw * ph, den: vh * pw }, y: Ratio { num: 1, den: 1 } }
    }
}

/// Scaling the cut plane's width and height by the same positive factor
/// leaves the fullscreen factor's values unchanged.
pub proof fn lemma_fullscreen_factor_scale_invariant(viewport: Viewport, volume: SliceScale, k: u64)
    requires
        viewport.width > 0,
        viewport.height > 0,
        volume.width > 0,
        volume.height > 0,
        k > 0,
        k * volume.width <= u64::MAX,
        k * volume.height <= u64::MAX,
    ensures
        ({
            let scaled = SliceScale {
                width: (k * volume.width) as u64,
                height: (k * volume.height) as u64,
            };
            let a = fullscreen_factor_of(viewport, volume);
            let b = fullscreen_factor_of(viewport, scaled);
            a.x.same_value(b.x) && a.y.same_value(b.y)
        }),
{
    let pw = viewport.width as int;
    let ph = viewport.height as int;
    let vw = volume.width as int;
    let vh = volume.height as int;
    let kk = k as int;
    let sw = kk * vw;
    let sh = kk * vh;
    lemma_u32_u64_product_fits(viewport.width, volume.width);
    lemma_u32_u64_product_fits(viewport.width, volume.height);
    lemma_u32_u64_product_fits(viewport.height, volume.width);
    lemma_u32_u64_product_fits(viewport.height, volume.height);
    lemma_u32_u64_product_fits(viewport.width, sw as u64);
    lemma_u32_u64_product_fits(viewport.width, sh as u64);
    lemma_u32_u64_product_fits(viewport.height, sw as u64);
    lemma_u32_u64_product_fits(viewport.height, sh as u64);
    assert(sw * ph == kk * (vw * ph) && pw * sh == kk * (pw * vh)) by (nonlinear_arith)
        requires
            sw == kk * vw,
            sh == kk * vh,
    ;
    assert((sw * ph > pw * sh) == (vw * ph > pw * vh)) by (nonlinear_arith)
        requires
            sw * ph == kk * (vw * ph),
            pw * sh == kk * (pw * vh),
            kk > 0,
    ;
    assert((pw * vh) * (ph * sw) == (pw * sh) * (ph * vw)) by (nonlinear_arith)
        requires
            sw == kk * vw,
            sh == kk * vh,
    ;
    assert((vw * ph) * (sh * pw) == (sw * ph) * (vh * pw)) by (nonlinear_arith)
        requires
            sw == kk * vw,
            sh == kk * vh,
    ;
}

/// Neither axis of the fullscreen factor stretches the quad beyond the
/// viewport, at least one of them is one, and both are exactly when the cut
/// plane and the viewport have the same aspect ratio.
pub proof fn lemma_fullscreen_factor_unit_axis(viewport: Viewport, volume: SliceScale)
    requires
        viewport.width > 0,
        viewport.height > 0,
        volume.width > 0,
        volume.height > 0,
    ensures
        ({
            let f = fullscreen_factor_of(viewport, volume);
            let same_aspect = volume.width * viewport.height == viewport.width * volume.height;
            &&& f.x.in_unit_range() && f.y.in_unit_range()
            &&& f.x.is_one() || f.y.is_one()
            &&& (f.x.is_one() && f.y.is_one()) <==> same_aspect
        }),
{
    lemma_u32_u64_product_fits(viewport.width, volume.width);
    lemma_u32_u64_product_fits(viewport.width, volume.height);
    lemma_u32_u64_product_fits(viewport.height, volume.width);
    lemma_u32_u64_product_fits(viewport.height, volume.height);
    let pw = viewport.width as int;
    let ph = viewport.height as int;
    let vw = volume.width as int;
    let vh = volume.height as int;
    assert(vw * ph == ph * vw && pw * vh == vh * pw) by (nonlinear_arith);
    assert(pw * vh > 0 && vw * ph > 0) by (nonlinear_arith)
        requires
            pw > 0,
            ph > 0,
            vw > 0,
            vh > 0,
    ;
}


/// What the slice pipeline reads each frame.
#[derive(Clone, Copy, Debug, PartialEq, Eq, Structural)]
pub struct SliceUniforms {
    /// Depth of the cut along its axis, as a fraction of the volume's size there.
    pub slice_position: Ratio,
    pub fullscreen_factor: FullscreenFactor,
    pub axis: i32,
}

/// State of one slice view: the axis it cuts along and the voxel layer it shows.
pub struct SliceRenderer {
    pub axis: VolumeAxis,
    pub slice_position: u32,
    pub scale: SliceScale,
    pub dimensions: Dimensions,
    pub show_settings_oberlay: bool,
}

/// `p` clamped to the voxel layers `[0, dim)`.
pub open spec fn clamp_layer(p: int, dim: u32) -> u32 {
    if p < 0 {
        0
    } else if p >= dim {
        (dim - 1) as u32
    } else {
        p as u32
    }
}

impl SliceRenderer {
    /// The slice lies inside the volume and the cut plane has a positive size.
    pub open spec fn wf(&self) -> bool {
        &&& self.dimensions.is_valid()
        &&& self.slice_position < dimension_along(self.dimensions, self.axis)
        &&& self.scale.width > 0
        &&& self.scale.height > 0
    }

    /// A view of `texture` along `axis`, showing the middle layer.
    pub fn new(texture: &Texture, axis: VolumeAxis) -> (r: SliceRenderer)
        requires
            texture.wf(),
        ensures
            r.wf(),
            r.axis == axis,
            r.slice_position == dimension_along(texture.dimensions, axis) / 2,
            r.scale == in_plane_scale(texture.extent, axis),
            r.dimensions == texture.dimensions,
            r.show_settings_oberlay,
    {
        let e = texture.extent;
        proof {
            assert(e.x > 0 && e.y > 0 && e.z > 0) by {
                crate::volume::lemma_extent_positive(texture.dimensions, texture.spacing);
            }
        }
        let scale = match axis {
            VolumeAxis::Axial => SliceScale { width: e.y, height: e.z },
            VolumeAxis::Coronal => SliceScale { width: e.x, height: e.z },
            VolumeAxis::Sagittal => SliceScale { width: e.x, height: e.y },
        };
        SliceRenderer {
            axis,
            slice_position: dimension_along_axis(texture.dimensions, axis) / 2,
            scale,
            dimensions: texture.dimensions,
            show_settings_oberlay: true,
        }
    }

    pub fn axial(texture: &Texture) -> (r: SliceRenderer)
        requires
            texture.wf(),
        ensures
            r.wf(),
            r.axis == VolumeAxis::Axial,
            r.slice_position == texture.dimensions.x / 2,
            r.scale == in_plane_scale(texture.extent, VolumeAxis::Axial),
            r.dimensions == texture.dimensions,
            r.show_settings_oberlay,
    {
        Self::new(texture, VolumeAxis::Axial)
    }

    pub fn coronal(texture: &Texture) -> (r: SliceRenderer)
        requires
            texture.wf(),
        ensures
            r.wf(),
            r.axis == VolumeAxis::Coronal,
            r.slice_position == texture.dimensions.y / 2,
            r.scale == in_plane_scale(texture.extent, VolumeAxis::Coronal),
            r.dimensions == texture.dimensions,
            r.show_settings_oberlay,
    {
        Self::new(texture, VolumeAxis::Coronal)
    }

    pub fn saggital(texture: &Texture) -> (r: SliceRenderer)
        requires
            texture.wf(),
        ensures
            r.wf(),
            r.axis == VolumeAxis::Sagittal,
            r.slice_position == texture.dimensions.z / 2,
            r.scale == in_plane_scale(texture.extent, VolumeAxis::Sagittal),
            r.dimensions == texture.dimensions,
            r.show_settings_oberlay,
    {
        Self::new(texture, VolumeAxis::Sagittal)
    }

    /// Depth of the slice as a fraction of the volume's size along the axis.
    pub fn normalized_slice_position(&self) -> (r: Ratio)
        requires
            self.wf(),
        ensures
            r.num == self.slice_position,
            r.den == dimension_along(self.dimensions, self.axis),
            r.in_unit_interval(),
    {
        Ratio {
            num: self.slice_position as u128,
            den: dimension_along_axis(self.dimensions, self.axis) as u128,
        }
    }

    /// Moves the slice to layer `p`, or to the nearest layer inside the volume.
    pub fn set_slice_position(&mut self, p: u32)
        requires
            old(self).wf(),
        ensures
            final(self).wf(),
            final(self).slice_position == clamp_layer(p as int, dimension_along(old(self).dimensions, old(self).axis)),
            final(self).axis == old(self).axis,
            final(self).scale == old(self).scale,
            final(self).dimensions == old(self).dimensions,
            final(self).show_settings_oberlay == old(self).show_settings_oberlay,
    {
        let dim = dimension_along_axis(self.dimensions, self.axis);
        if p >= dim {
            self.slice_position = dim - 1;
        } else {
            self.slice_position = p;
        }
    }

    /// Moves the slice by `delta` layers, stopping at the first and the last layer.
    pub fn shift_slice_position(&mut self, delta: i64)
        requires
            old(self).wf(),
        ensures
            final(self).wf(),
            final(self).slice_position == clamp_layer(
                old(self).slice_position + delta,
                dimension_along(old(self).dimensions, old(self).axis),
            ),
            final(self).axis == old(self).axis,
            final(self).scale == old(self).scale,
            final(self).dimensions == old(self).dimensions,
            final(self).show_settings_oberlay == old(self).show_settings_oberlay,
    {
        let dim = dimension_along_axis(self.dimensions, self.axis) as i128;
        let target = self.slice_position as i128 + delta as i128;
        if target < 0 {
            self.slice_position = 0;
        } else if target >= dim {
            self.slice_position = (dim - 1) as u32;
        } else {
            self.slice_position = target as u32;
        }
    }

    /// The values the slice pipeline reads for a frame drawn into `viewport`.
    pub fn uniforms(&self, viewport: Viewport) -> (r: SliceUniforms)
        requires
            self.wf(),
            viewport.width > 0,
            viewport.height > 0,
        ensures
            r.slice_position.num == self.slice_position,
            r.slice_position.den == dimension_along(self.dimensions, self.axis),
            r.fullscreen_factor == fullscreen_factor_of(viewport, self.scale),
            r.axis == self.axis.index_spec(),
    {
        SliceUniforms {
            slice_position: self.normalized_slice_position(),
            fullscreen_factor: fullscreen_factor(viewport, self.scale),
            axis: self.axis.index(),
        }
    }
}

/// Every layer inside the volume has a depth in `[0, 1)`; the last layer's
/// depth is still below one.
pub proof fn lemma_slice_position_in_unit_interval(position: u32, dimension: u32)
    requires
        position < dimension,
    ensures
        (Ratio { num: position as u128, den: dimension as u128 }).in_unit_interval(),
        (Ratio { num: (dimension - 1) as u128, den: dimension as u128 }).in_unit_interval(),
{
}

} // verus!
