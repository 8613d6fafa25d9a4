use vstd::prelude::*;

use crate::decimal::{millimetres_in_nanometres, parse_decimal, parse_decimal_digits, parse_millimetres};
use crate::file_type::VolumeDataFileType;
use crate::volume::{Dimensions, Spacing, NANOMETRES_PER_MILLIMETRE};

verus! {

/// The capture groups of the leftmost-first match of `pattern` in `haystack`,
/// group zero being the whole match.
pub uninterp spec fn regex_captures(pattern: Seq<char>, haystack: Seq<char>) -> Option<
    Seq<Seq<char>>,
>;

/// Relies on `regex::Regex::new` and `regex::Regex::captures`: the groups of
/// the leftmost-first match, a group that took no part in it as an empty
/// text; `None` when nothing matches. The search depends on the pattern and
/// the text alone.
#[verifier::external_body]
fn captures(pattern: &str, haystack: &str) -> (r: Option<Vec<Vec<char>>>)
    ensures
        r.deep_view() == regex_captures(pattern@, haystack@),
{
    match regex::Regex::new(pattern) {
        Ok(re) => re.captures(haystack).map(
            |c| c.iter().map(|m| m.map_or(Vec::new(), |m| m.as_str().chars().collect())).collect(),
        ),
        Err(_) => None,
    }
}

/// Bits per voxel: a number followed by `bit`, in any case, perhaps with one
/// of `.`, `_` or `-` between them.
pub open spec fn bits_pattern() -> Seq<char> {
    "(?i)(\\d+)[\\._-]?bit"@
}

/// Voxel counts: three numbers, each two separated by one other character.
pub open spec fn dimensions_pattern() -> Seq<char> {
    "(?i)(\\d+)\\D(\\d+)\\D(\\d+)"@
}

/// Spacing in millimetres: three decimal numbers separated by `x`.
pub open spec fn spacing_pattern() -> Seq<char> {
    "(?i)(\\d+\\.\\d+)x(\\d+\\.\\d+)x(\\d+\\.\\d+)"@
}

/// Bits per voxel assumed when a file name does not state them.
pub const DEFAULT_BITS: u8 = 16;

/// What a raw volume's file name tells of its layout.
#[derive(Clone, Copy, Debug, PartialEq, Eq, Structural)]
pub struct FileMetadata {
    pub bits: u8,
    pub dimensions: Dimensions,
    pub spacing: Spacing,
}

/// Capture group `i` of a match, when there is a match with such a group.
pub open spec fn group(c: Option<Seq<Seq<char>>>, i: int) -> Option<Seq<char>> {
    match c {
        Some(g) => if 0 <= i < g.len() {
            Some(g[i])
        } else {
            None
        },
        None => None,
    }
}

/// The number that group `i` spells, when it spells one no larger than `max`.
pub open spec fn group_number(c: Option<Seq<Seq<char>>>, i: int, max: int) -> Option<int> {
    match group(c, i) {
        Some(t) => parse_decimal(t, max),
        None => None,
    }
}

/// The nanometres that group `i` spells as a decimal number of millimetres.
pub open spec fn group_nanometres(c: Option<Seq<Seq<char>>>, i: int) -> Option<int> {
    match group(c, i) {
        Some(t) => millimetres_in_nanometres(t),
        None => None,
    }
}

pub open spec fn bits_from(c: Option<Seq<Seq<char>>>) -> u8 {
    match group_number(c, 1, 255) {
        Some(b) => b as u8,
        None => DEFAULT_BITS,
    }
}

/// Voxel counts from the three groups of a match; one voxel along every axis
/// unless all three spell numbers that fit in a `u32`.
pub open spec fn dimensions_from(c: Option<Seq<Seq<char>>>) -> Dimensions {
    let x = group_number(c, 1, u32::MAX as int);
    let y = group_number(c, 2, u32::MAX as int);
    let z = group_number(c, 3, u32::MAX as int);
    if x is Some && y is Some && z is Some {
        Dimensions { x: x->0 as u32, y: y->0 as u32, z: z->0 as u32 }
    } else {
        Dimensions { x: 1, y: 1, z: 1 }
    }
}

/// Spacing from the three groups of a match; one millimetre along every axis
/// unless all three spell positive spacings that fit in a `u32` of nanometres.
pub open spec fn spacing_from(c: Option<Seq<Seq<char>>>) -> Spacing {
    let x = group_nanometres(c, 1);
    let y = group_nanometres(c, 2);
    let z = group_nanometres(c, 3);
    if x is Some && y is Some && z is Some {
        Spacing { x: x->0 as u32, y: y->0 as u32, z: z->0 as u32 }
    } else {
        Spacing {
            x: NANOMETRES_PER_MILLIMETRE,
            y: NANOMETRES_PER_MILLIMETRE,
            z: NANOMETRES_PER_MILLIMETRE,
        }
    }
}

/// The metadata that the matches of the three patterns give.
pub open spec fn metadata_from(
    bits: Option<Seq<Seq<char>>>,
    dimensions: Option<Seq<Seq<char>>>,
    spacing: Option<Seq<Seq<char>>>,
) -> FileMetadata {
    FileMetadata {
        bits: bits_from(bits),
        dimensions: dimensions_from(dimensions),
        spacing: spacing_from(spacing),
    }
}

/// The metadata that a file name states, with defaults where it states none.
pub open spec fn metadata_of_file_name(name: Seq<char>) -> FileMetadata {
    metadata_from(
        regex_captures(bits_pattern(), name),
        regex_captures(dimensions_pattern(), name),
        regex_captures(spacing_pattern(), name),
    )
}

fn group_text(c: &Option<Vec<Vec<char>>>, i: usize) -> (r: Option<&Vec<char>>)
    ensures
        match group(c.deep_view(), i as int) {
            Some(t) => r is Some && r->0@ == t,
            None => r is None,
        },
{
    match c {
        Some(g) => {
            if i < g.len() {
                assert(g.deep_view()[i as int] =~= g@[i as int]@);
                Some(&g[i])
            } else {
                None
            }
        },
        None => None,
    }
}

fn group_digits(c: &Option<Vec<Vec<char>>>, i: usize, max: u64) -> (r: Option<u64>)
    ensures
        match group_number(c.deep_view(), i as int, max as int) {
            Some(v) => r == Some(v as u64) && 0 <= v <= max,
            None => r is None,
        },
{
    match group_text(c, i) {
        Some(t) => parse_decimal_digits(t.as_slice(), max),
        None => None,
    }
}

fn group_millimetres(c: &Option<Vec<Vec<char>>>, i: usize) -> (r: Option<u32>)
    ensures
        match group_nanometres(c.deep_view(), i as int) {
            Some(v) => r == Some(v as u32),
            None => r is None,
        },
{
    match group_text(c, i) {
        Some(t) => parse_millimetres(t.as_slice()),
        None => None,
    }
}

/// The metadata that the matches of the bits, dimensions and spacing
/// patterns in a file name give, with defaults for what they do not give.
pub fn metadata_from_captures(
    bits: &Option<Vec<Vec<char>>>,
    dimensions: &Option<Vec<Vec<char>>>,
    spacing: &Option<Vec<Vec<char>>>,
) -> (r: FileMetadata)
    ensures
        r == metadata_from(bits.deep_view(), dimensions.deep_view(), spacing.deep_view()),
{
    let b = match group_digits(bits, 1, 255) {
        Some(v) => v as u8,
        None => DEFAULT_BITS,
    };
    let dx = group_digits(dimensions, 1, 0xffff_ffff);
    let dy = group_digits(dimensions, 2, 0xffff_ffff);
    let dz = group_digits(dimensions, 3, 0xffff_ffff);
    let d = match (dx, dy, dz) {
        (Some(x), Some(y), Some(z)) => Dimensions { x: x as u32, y: y as u32, z: z as u32 },
        _ => Dimensions { x: 1, y: 1, z: 1 },
    };
    let sx = group_millimetres(spacing, 1);
    let sy = group_millimetres(spacing, 2);
    let sz = group_millimetres(spacing, 3);
    let s = match (sx, sy, sz) {
        (Some(x), Some(y), Some(z)) => Spacing { x, y, z },
        _ => Spacing::isotropic_millimetre(),
    };
    FileMetadata { bits: b, dimensions: d, spacing: s }
}

/// Reads bits per voxel, voxel counts and spacing from a raw volume's file
/// name, such as `head_512x512x256_16bit_0.5x0.5x1.0.raw`; what the name does
/// not state falls back to 16 bits, one voxel and one millimetre per axis.
pub fn metadata_from_file_name(file_name: &str) -> (r: FileMetadata)
    ensures
        r == metadata_of_file_name(file_name@),
{
    let b = captures("(?i)(\\d+)[\\._-]?bit", file_name);
    let d = captures("(?i)(\\d+)\\D(\\d+)\\D(\\d+)", file_name);
    let s = captures("(?i)(\\d+\\.\\d+)x(\\d+\\.\\d+)x(\\d+\\.\\d+)", file_name);
    metadata_from_captures(&b, &d, &s)
}


/// A file chosen for import: where it lies, its name, and its size in bytes
/// when known.
pub struct PickedFile {
    pub path: String,
    pub file_name: String,
    pub size: Option<u64>,
}

/// What is known of the volume being imported.
pub struct ImportItem {
    pub file_type: Option<VolumeDataFileType>,
    pub file_size: Option<u64>,
    pub path: Option<String>,
    pub bits: Option<u8>,
    pub dimensions: Option<Dimensions>,
    pub spacing: Option<Spacing>,
    pub data: Option<Vec<u8>>,
}

impl ImportItem {
    pub open spec fn is_empty(&self) -> bool {
        &&& self.file_type is None
        &&& self.file_size is None
        &&& self.path is None
        &&& self.bits is None
        &&& self.dimensions is None
        &&& self.spacing is None
        &&& self.data is None
    }

    pub fn new() -> (r: ImportItem)
        ensures
            r.is_empty(),
    {
        ImportItem {
            file_type: None,
            file_size: None,
            path: None,
            bits: None,
            dimensions: None,
            spacing: None,
            data: None,
        }
    }
}

/// A volume whose bytes and layout are all known, ready to be built.
pub struct ImportedVolume {
    pub bytes: Vec<u8>,
    pub dimensions: Dimensions,
    pub spacing: Spacing,
}

/// Value of every byte of the placeholder volume: a mid-grey sample.
pub const PLACEHOLDER_BYTE: u8 = 127;

impl ImportedVolume {
    /// The volume shown before any file is imported: one mid-grey voxel of one
    /// millimetre.
    pub fn placeholder() -> (r: ImportedVolume)
        ensures
            r.bytes@ == seq![PLACEHOLDER_BYTE, PLACEHOLDER_BYTE],
            r.dimensions == (Dimensions { x: 1, y: 1, z: 1 }),
            r.spacing == (Spacing {
                x: NANOMETRES_PER_MILLIMETRE,
                y: NANOMETRES_PER_MILLIMETRE,
                z: NANOMETRES_PER_MILLIMETRE,
            }),
    {
        let dimensions = Dimensions { x: 1, y: 1, z: 1 };
        let bytes = vec![PLACEHOLDER_BYTE; 2];
        ImportedVolume { bytes, dimensions, spacing: Spacing::isotropic_millimetre() }
    }
}

/// Progress of importing one volume file.
pub struct Importer {
    pub visible: bool,
    pub loading: bool,
    pub show_drag_and_drop: bool,
    pub new_data_available: bool,
    pub item: ImportItem,
}

impl Importer {
    pub open spec fn is_idle(&self) -> bool {
        &&& !self.visible
        &&& !self.loading
        &&& !self.show_drag_and_drop
        &&& !self.new_data_available
        &&& self.item.is_empty()
    }

    pub fn new() -> (r: Importer)
        ensures
            r.is_idle(),
    {
        Importer {
            visible: false,
            loading: false,
            show_drag_and_drop: false,
            new_data_available: false,
            item: ImportItem::new(),
        }
    }

    /// Starts importing a file of `file_type`. Without a file the import
    /// stops there; with one, its metadata are read from its name and the
    /// metadata dialog opens.
    pub fn load_dialog(&mut self, file_type: VolumeDataFileType, file: Option<PickedFile>)
        ensures
            final(self).item.file_type == Some(file_type),
            final(self).loading == old(self).loading,
            final(self).show_drag_and_drop == old(self).show_drag_and_drop,
            final(self).new_data_available == old(self).new_data_available,
            final(self).item.data == old(self).item.data,
            match file {
                None => {
                    &&& final(self).visible == old(self).visible
                    &&& final(self).item.path == old(self).item.path
                    &&& final(self).item.file_size == old(self).item.file_size
                    &&& final(self).item.bits == old(self).item.bits
                    &&& final(self).item.dimensions == old(self).item.dimensions
                    &&& final(self).item.spacing == old(self).item.spacing
                },
                Some(f) => {
                    let m = metadata_of_file_name(f.file_name@);
                    &&& final(self).visible
                    &&& final(self).item.path == Some(f.path)
                    &&& final(self).item.file_size == f.size
                    &&& final(self).item.bits == Some(m.bits)
                    &&& final(self).item.dimensions == Some(m.dimensions)
                    &&& final(self).item.spacing == Some(m.spacing)
                },
            },
    {
        self.item.file_type = Some(file_type);
        match file {
            None => {},
            Some(f) => {
                let m = metadata_from_file_name(f.file_name.as_str());
                self.item.path = Some(f.path);
                self.item.file_size = f.size;
                self.item.bits = Some(m.bits);
                self.item.dimensions = Some(m.dimensions);
                self.item.spacing = Some(m.spacing);
                self.visible = true;
            },
        }
    }

    /// The user confirmed the metadata: the file's bytes, when read, become
    /// the data, the dialog closes and the new data wait to be built.
    pub fn finish_load(&mut self, data: Option<Vec<u8>>)
        ensures
            final(self).item.data == (match data {
                Some(d) => Some(d),
                None => old(self).item.data,
            }),
            !final(self).loading,
            !final(self).visible,
            final(self).new_data_available,
            final(self).show_drag_and_drop == old(self).show_drag_and_drop,
            final(self).item.file_type == old(self).item.file_type,
            final(self).item.file_size == old(self).item.file_size,
            final(self).item.path == old(self).item.path,
            final(self).item.bits == old(self).item.bits,
            final(self).item.dimensions == old(self).item.dimensions,
            final(self).item.spacing == old(self).item.spacing,
    {
        if let Some(d) = data {
            self.item.data = Some(d);
        }
        self.loading = false;
        self.visible = false;
        self.new_data_available = true;
    }

    /// Hands out the imported volume when its bytes, voxel counts and spacing
    /// are all known, and starts afresh; otherwise leaves everything as it is.
    pub fn take_volume(&mut self) -> (r: Option<ImportedVolume>)
        ensures
            match (old(self).item.data, old(self).item.dimensions, old(self).item.spacing) {
                (Some(b), Some(d), Some(s)) => {
                    &&& r is Some
                    &&& r->0.bytes == b
                    &&& r->0.dimensions == d
                    &&& r->0.spacing == s
                    &&& final(self).is_idle()
                },
                _ => r is None && *final(self) == *old(self),
            },
    {
        if self.item.data.is_some() && self.item.dimensions.is_some() && self.item.spacing.is_some() {
            let data = self.item.data.take();
            let dimensions = self.item.dimensions;
            let spacing = self.item.spacing;
            *self = Importer::new();
            match (data, dimensions, spacing) {
                (Some(bytes), Some(dimensions), Some(spacing)) => Some(
                    ImportedVolume { bytes, dimensions, spacing },
                ),
                _ => None,
            }
        } else {
            None
        }
    }
}

/// Application state that outlives a frame.
pub struct State {
    pub importer: Importer,
    pub hide_settings_oberlay: bool,
}

impl State {
    pub fn new() -> (r: State)
        ensures
            r.importer.is_idle(),
            !r.hide_settings_oberlay,
    {
        State { importer: Importer::new(), hide_settings_oberlay: false }
    }

    /// Flips whether the views hide their settings overlays; returns whether
    /// they show them now.
    pub fn toggle_settings_overlays(&mut self) -> (show: bool)
        ensures
            final(self).hide_settings_oberlay == !old(self).hide_settings_oberlay,
            show == !final(self).hide_settings_oberlay,
            final(self).importer == old(self).importer,
    {
        self.hide_settings_oberlay = !self.hide_settings_oberlay;
        !self.hide_settings_oberlay
    }
}

} // verus!
