use vstd::prelude::*;

use crate::volume::{extent_of, Dimensions, Extent, Position, Spacing, Texture};

verus! {

/// Full scale of a sample and of the threshold: `65535` stands for one.
pub const FULL_SCALE: u16 = 65535;

/// Threshold a new first-hit view starts with: five hundredths of full scale.
pub const INITIAL_THRESHOLD: u16 = 3277;

/// Axis-aligned bounding box of the volume in model space, in nanometres.
#[derive(Clone, Copy, Debug, PartialEq, Eq, Structural)]
pub struct Aabb {
    pub top: Position,
    pub bottom: Position,
}

/// The volume is centred at the model origin: its box runs from minus to plus
/// its extent along every axis.
pub open spec fn aabb_of(e: Extent) -> Aabb {
    Aabb {
        top: Position { x: e.x as i128, y: e.y as i128, z: e.z as i128 },
        bottom: Position { x: (-e.x) as i128, y: (-e.y) as i128, z: (-e.z) as i128 },
    }
}

pub fn aabb(extent: Extent) -> (r: Aabb)
    ensures
        r == aabb_of(extent),
{
    let x = extent.x as i128;
    let y = extent.y as i128;
    let z = extent.z as i128;
    Aabb { top: Position { x, y, z }, bottom: Position { x: -x, y: -y, z: -z } }
}

/// `r` is where a march over `samples` stops: the first sample above
/// `threshold`, or `None` when the ray leaves the volume without one, in which
/// case the pixel shows the background.
pub open spec fn is_first_hit(samples: Seq<u16>, threshold: u16, r: Option<usize>) -> bool {
    match r {
        Some(i) => {
            &&& i < samples.len()
            &&& samples[i as int] > threshold
            &&& forall|j: int| 0 <= j < i ==> samples[j] <= threshold
        },
        None => forall|j: int| 0 <= j < samples.len() ==> samples[j] <= threshold,
    }
}

/// Marches along the samples that a ray meets at fixed steps and stops at the
/// first one above the threshold.
pub fn first_hit(samples: &[u16], threshold: u16) -> (r: Option<usize>)
    ensures
        is_first_hit(samples@, threshold, r),
{
    let mut i: usize = 0;
    while i < samples.len()
        invariant
            i <= samples@.len(),
            forall|j: int| 0 <= j < i ==> samples@[j] <= threshold,
        decreases samples@.len() - i,
    {
        if samples[i] > threshold {
            return Some(i);
        }
        i = i + 1;
    }
    None
}

/// With a zero threshold a ray stops at its entry sample whenever that sample
/// is nonzero.
pub proof fn lemma_zero_threshold_hits_at_entry(samples: Seq<u16>, r: Option<usize>)
    requires
        samples.len() > 0,
        samples[0] != 0,
        is_first_hit(samples, 0, r),
    ensures
        r == Some(0usize),
{
}

/// With the threshold at full scale no sample lies above it, so every ray
/// misses.
pub proof fn lemma_full_threshold_misses(samples: Seq<u16>, r: Option<usize>)
    requires
        is_first_hit(samples, FULL_SCALE, r),
    ensures
        r is None,
{
}

/// State of a first-hit view: the iso-value and the volume geometry it marches through.
pub struct RayMarchingRenderer {
    /// Iso-value in units of one part in [`FULL_SCALE`].
    pub threshold: u16,
    pub dimensions: Dimensions,
    pub spacing: Spacing,
    pub extent: Extent,
    pub show_settings_oberlay: bool,
}

impl RayMarchingRenderer {
    pub open spec fn wf(&self) -> bool {
        &&& self.dimensions.is_valid()
        &&& self.spacing.is_valid()
        &&& self.extent == extent_of(self.dimensions, self.spacing)
    }

    /// A first-hit view of `texture` at the initial threshold.
    pub fn new(texture: &Texture) -> (r: RayMarchingRenderer)
        requires
            texture.wf(),
        ensures
            r.wf(),
            r.threshold == INITIAL_THRESHOLD,
            r.dimensions == texture.dimensions,
            r.spacing == texture.spacing,
            r.extent == texture.extent,
            r.show_settings_oberlay,
    {
        RayMarchingRenderer {
            threshold: INITIAL_THRESHOLD,
            dimensions: texture.dimensions,
            spacing: texture.spacing,
            extent: texture.extent,
            show_settings_oberlay: true,
        }
    }

    /// The bounding box that the fragment stage clips rays against.
    pub fn bounding_box(&self) -> (r: Aabb)
        ensures
            r == aabb_of(self.extent),
    {
        aabb(self.extent)
    }
}

} // verus!
