use vstd::prelude::*;

verus! {

/// Number of voxels along each axis of a volume.
#[derive(Clone, Copy, Debug, PartialEq, Eq, Structural)]
pub struct Dimensions {
    pub x: u32,
    pub y: u32,
    pub z: u32,
}

impl Dimensions {
    /// Every axis holds at least one voxel.
    pub open spec fn is_valid(self) -> bool {
        self.x >= 1 && self.y >= 1 && self.z >= 1
    }

    pub open spec fn voxel_count(self) -> int {
        self.x * self.y * self.z
    }

    pub fn new(x: u32, y: u32, z: u32) -> (r: Dimensions)
        ensures
            r == (Dimensions { x, y, z }),
    {
        Dimensions { x, y, z }
    }
}

/// Distance between neighbouring voxel centres along each axis, in nanometres.
#[derive(Clone, Copy, Debug, PartialEq, Eq, Structural)]
pub struct Spacing {
    pub x: u32,
    pub y: u32,
    pub z: u32,
}

/// Nanometres in one millimetre, the unit in which volume files state their spacing.
pub const NANOMETRES_PER_MILLIMETRE: u32 = 1000000;

impl Spacing {
    /// Every spacing is positive.
    pub open spec fn is_valid(self) -> bool {
        self.x > 0 && self.y > 0 && self.z > 0
    }

    pub fn new(x: u32, y: u32, z: u32) -> (r: Spacing)
        ensures
            r == (Spacing { x, y, z }),
    {
        Spacing { x, y, z }
    }

    /// One millimetre along every axis.
    pub fn isotropic_millimetre() -> (r: Spacing)
        ensures
            r == (Spacing {
                x: NANOMETRES_PER_MILLIMETRE,
                y: NANOMETRES_PER_MILLIMETRE,
                z: NANOMETRES_PER_MILLIMETRE,
            }),
            r.is_valid(),
    {
        Spacing {
            x: NANOMETRES_PER_MILLIMETRE,
            y: NANOMETRES_PER_MILLIMETRE,
            z: NANOMETRES_PER_MILLIMETRE,
        }
    }
}

/// Physical size of a volume along each axis, in nanometres.
#[derive(Clone, Copy, Debug, PartialEq, Eq, Structural)]
pub struct Extent {
    pub x: u64,
    pub y: u64,
    pub z: u64,
}

/// The extent is the spacing times the voxel count, axis by axis.
pub open spec fn extent_of(d: Dimensions, s: Spacing) -> Extent {
    Extent { x: (d.x * s.x) as u64, y: (d.y * s.y) as u64, z: (d.z * s.z) as u64 }
}

proof fn lemma_u32_product_fits(a: u32, b: u32)
    ensures
        0 <= a * b <= u64::MAX,
{
    assert(a * b <= 0xffff_ffffu64 * 0xffff_ffffu64) by (nonlinear_arith)
        requires
            a <= 0xffff_ffffu32,
            b <= 0xffff_ffffu32,
    ;
}

fn axis_extent(count: u32, spacing: u32) -> (r: u64)
    ensures
        r == count * spacing,
{
    proof {
        lemma_u32_product_fits(count, spacing);
    }
    (count as u64) * (spacing as u64)
}

impl Extent {
    /// The extent of a volume with the given voxel counts and spacing.
    pub fn of(dimensions: Dimensions, spacing: Spacing) -> (r: Extent)
        ensures
            r == extent_of(dimensions, spacing),
    {
        proof {
            lemma_u32_product_fits(dimensions.x, spacing.x);
            lemma_u32_product_fits(dimensions.y, spacing.y);
            lemma_u32_product_fits(dimensions.z, spacing.z);
        }
        Extent {
            x: axis_extent(dimensions.x, spacing.x),
            y: axis_extent(dimensions.y, spacing.y),
            z: axis_extent(dimensions.z, spacing.z),
        }
    }
}


/// A point or offset in model space, in nanometres.
#[derive(Clone, Copy, Debug, PartialEq, Eq, Structural)]
pub struct Position {
    pub x: i128,
    pub y: i128,
    pub z: i128,
}

impl Position {
    pub fn origin() -> (r: Position)
        ensures
            r == (Position { x: 0, y: 0, z: 0 }),
    {
        Position { x: 0, y: 0, z: 0 }
    }
}

/// For valid dimensions and spacing, the extent is the spacing times the
/// voxel count along every axis, and it is positive.
pub proof fn lemma_extent_positive(d: Dimensions, s: Spacing)
    requires
        d.is_valid(),
        s.is_valid(),
    ensures
        extent_of(d, s).x == d.x * s.x,
        extent_of(d, s).y == d.y * s.y,
        extent_of(d, s).z == d.z * s.z,
        extent_of(d, s).x > 0,
        extent_of(d, s).y > 0,
        extent_of(d, s).z > 0,
{
    lemma_u32_product_fits(d.x, s.x);
    lemma_u32_product_fits(d.y, s.y);
    lemma_u32_product_fits(d.z, s.z);
    assert(d.x * s.x > 0 && d.y * s.y > 0 && d.z * s.z > 0) by (nonlinear_arith)
        requires
            d.x >= 1,
            d.y >= 1,
            d.z >= 1,
            s.x >= 1,
            s.y >= 1,
            s.z >= 1,
    ;
}

/// Why a buffer cannot become a volume texture.
#[derive(Clone, Copy, Debug, PartialEq, Eq, Structural)]
pub enum TextureError {
    /// Some axis holds no voxel.
    InvalidDimensions,
    /// The buffer does not hold two bytes for every voxel.
    BufferSizeMismatch,
}

/// Bytes that a volume of the given dimensions takes at two bytes per voxel.
pub open spec fn byte_len_of(d: Dimensions) -> int {
    2 * d.voxel_count()
}

/// The outcome that checking a buffer of `len` bytes against `d` must have.
pub open spec fn buffer_check(len: int, d: Dimensions) -> Result<(), TextureError> {
    if !d.is_valid() {
        Err(TextureError::InvalidDimensions)
    } else if len != byte_len_of(d) {
        Err(TextureError::BufferSizeMismatch)
    } else {
        Ok(())
    }
}

/// Checks that a buffer of `len` bytes holds exactly one two-byte sample per voxel.
pub fn check_buffer(len: usize, dimensions: Dimensions) -> (r: Result<(), TextureError>)
    ensures
        r == buffer_check(len as int, dimensions),
{
    if dimensions.x == 0 || dimensions.y == 0 || dimensions.z == 0 {
        return Err(TextureError::InvalidDimensions);
    }
    let x = dimensions.x as u128;
    let y = dimensions.y as u128;
    let z = dimensions.z as u128;
    assert(x * y <= 0xffff_ffffu128 * 0xffff_ffffu128) by (nonlinear_arith)
        requires
            x <= 0xffff_ffffu128,
            y <= 0xffff_ffffu128,
    ;
    let xy = x * y;
    assert(xy * z <= 0xffff_ffff_ffff_ffffu128 * 0xffff_ffffu128) by (nonlinear_arith)
        requires
            xy <= 0xffff_ffff_ffff_ffffu128,
            z <= 0xffff_ffffu128,
    ;
    let expected = 2 * (xy * z);
    if len as u128 != expected {
        Err(TextureError::BufferSizeMismatch)
    } else {
        Ok(())
    }
}

/// Reads a byte buffer as little-endian 16-bit samples, two bytes per sample.
pub open spec fn le_u16_samples(b: Seq<u8>) -> Seq<u16> {
    Seq::new(b.len() / 2, |i: int| (b[2 * i] + 256 * b[2 * i + 1]) as u16)
}

/// Writes 16-bit samples as little-endian bytes, two bytes per sample.
pub open spec fn le_u16_bytes(s: Seq<u16>) -> Seq<u8> {
    Seq::new(
        2 * s.len(),
        |j: int|
            if j % 2 == 0 {
                (s[j / 2] % 256) as u8
            } else {
                (s[j / 2] / 256) as u8
            },
    )
}

/// Reading back the bytes that texels were written as gives the same texels.
pub proof fn lemma_texel_bytes_round_trip(texels: Seq<u16>)
    ensures
        le_u16_samples(le_u16_bytes(texels)) == texels,
{
    let b = le_u16_bytes(texels);
    assert forall|i: int| 0 <= i < texels.len() implies #[trigger] le_u16_samples(b)[i]
        == texels[i] by {
        assert((2 * i) % 2 == 0 && (2 * i) / 2 == i);
        assert((2 * i + 1) % 2 == 1 && (2 * i + 1) / 2 == i);
        let t = texels[i] as int;
        assert(t % 256 + 256 * (t / 256) == t) by (nonlinear_arith)
            requires
                0 <= t,
        ;
    }
    assert(le_u16_samples(b) =~= texels);
}

/// Reads the samples of a raw volume file: one little-endian unsigned 16-bit
/// sample per voxel.
pub fn decode_u16_samples(bytes: &[u8], dimensions: Dimensions) -> (r: Result<
    Vec<u16>,
    TextureError,
>)
    ensures
        match buffer_check(bytes@.len() as int, dimensions) {
            Ok(()) => r == Ok::<Vec<u16>, TextureError>(r->Ok_0) && r->Ok_0@ == le_u16_samples(
                bytes@,
            ),
            Err(e) => r == Err::<Vec<u16>, TextureError>(e),
        },
{
    match check_buffer(bytes.len(), dimensions) {
        Err(e) => Err(e),
        Ok(()) => {
            let len = bytes.len();
            let n = len / 2;
            let mut samples: Vec<u16> = Vec::with_capacity(n);
            let mut i: usize = 0;
            while i < n
                invariant
                    len == bytes@.len(),
                    n == len / 2,
                    i <= n,
                    samples@.len() == i,
                    forall|k: int|
                        0 <= k < i ==> samples@[k] == (bytes@[2 * k] + 256 * bytes@[2 * k
                            + 1]) as u16,
                decreases n - i,
            {
                let lo = bytes[2 * i] as u16;
                let hi = bytes[2 * i + 1] as u16;
                samples.push(lo + hi * 256);
                i = i + 1;
            }
            assert(samples@ =~= le_u16_samples(bytes@));
            Ok(samples)
        },
    }
}

/// Writes 16-bit half-precision texels as the little-endian bytes that the
/// texture upload takes.
pub fn encode_f16_texels(texels: &[u16]) -> (r: Vec<u8>)
    requires
        2 * texels@.len() <= usize::MAX,
    ensures
        r@ == le_u16_bytes(texels@),
{
    let mut bytes: Vec<u8> = Vec::with_capacity(2 * texels.len());
    let mut i: usize = 0;
    while i < texels.len()
        invariant
            i <= texels@.len(),
            bytes@.len() == 2 * i,
            forall|j: int| 0 <= j < 2 * i ==> bytes@[j] == le_u16_bytes(texels@)[j],
        decreases texels@.len() - i,
    {
        let t = texels[i];
        bytes.push((t % 256) as u8);
        bytes.push((t / 256) as u8);
        i = i + 1;
    }
    assert(bytes@ =~= le_u16_bytes(texels@));
    bytes
}

/// A volume that is ready to be sampled: its half-precision texels and the
/// geometry they stand for.
pub struct Texture {
    pub dimensions: Dimensions,
    pub spacing: Spacing,
    pub extent: Extent,
    pub origin: Position,
    /// One little-endian half-precision float per voxel.
    pub texels: Vec<u8>,
}

impl Texture {
    /// Dimensions are valid, spacing positive, the extent derived from both,
    /// and the texel buffer holds two bytes per voxel.
    pub open spec fn wf(&self) -> bool {
        &&& self.dimensions.is_valid()
        &&& self.spacing.is_valid()
        &&& self.extent == extent_of(self.dimensions, self.spacing)
        &&& self.texels@.len() == byte_len_of(self.dimensions)
    }

    /// Builds a volume from half-precision texels, two little-endian bytes per
    /// voxel, centred at the model origin.
    pub fn from_f16_bytes(bytes: Vec<u8>, dimensions: Dimensions, spacing: Spacing) -> (r: Result<
        Texture,
        TextureError,
    >)
        requires
            spacing.is_valid(),
        ensures
            match buffer_check(bytes@.len() as int, dimensions) {
                Ok(()) => r is Ok && r->Ok_0.wf() && r->Ok_0.dimensions == dimensions
                    && r->Ok_0.spacing == spacing && r->Ok_0.texels@ == bytes@
                    && r->Ok_0.origin == (Position { x: 0, y: 0, z: 0 }),
                Err(e) => r is Err && r->Err_0 == e,
            },
    {
        match check_buffer(bytes.len(), dimensions) {
            Err(e) => Err(e),
            Ok(()) => {
                let extent = Extent::of(dimensions, spacing);
                Ok(Texture { dimensions, spacing, extent, origin: Position::origin(), texels: bytes })
            },
        }
    }
}

} // verus!
