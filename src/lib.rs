//! Volume data model and the integer math behind slice and ray-marching views
//! of a 3D scalar field.

pub mod decimal;
pub mod file_type;
pub mod import;
pub mod ray_march;
pub mod slice;
pub mod volume;

pub use decimal::{parse_decimal_digits, parse_millimetres};
pub use file_type::{Endianness, VolumeDataFileType};
pub use import::{
    metadata_from_captures, metadata_from_file_name, FileMetadata, ImportItem, ImportedVolume,
    Importer, PickedFile, State, DEFAULT_BITS, PLACEHOLDER_BYTE,
};
pub use ray_march::{
    aabb, first_hit, Aabb, RayMarchingRenderer, FULL_SCALE, INITIAL_THRESHOLD,
};
pub use slice::{
    fullscreen_factor, FullscreenFactor, Ratio, SliceRenderer, SliceScale, SliceUniforms,
    Viewport, VolumeAxis,
};
pub use volume::{
    check_buffer, decode_u16_samples, encode_f16_texels, Dimensions, Extent, Position, Spacing,
    TextureError, Texture, NANOMETRES_PER_MILLIMETRE,
};
