use vstd::prelude::*;

verus! {

/// Byte order of the samples in a raw volume file.
#[derive(Clone, Copy, Debug, PartialEq, Eq, Structural)]
pub enum Endianness {
    LitteEndian,
    BigEndian,
}

/// The kinds of volume file that can be imported.
#[derive(Clone, Copy, Debug, PartialEq, Eq, Structural)]
pub enum VolumeDataFileType {
    RAW3D,
}

/// The lowercase form of a text.
pub uninterp spec fn lower_of(s: Seq<char>) -> Seq<char>;

/// Relies on `str::to_lowercase`: the lowercase form depends on the characters
/// alone.
#[verifier::external_body]
fn lowercase_chars(s: &str) -> (r: Vec<char>)
    ensures
        r@ == lower_of(s@),
{
    s.to_lowercase().chars().collect()
}

/// The file type that a lowercase name stands for: `raw` and `raw3d` both
/// name raw volume data.
pub open spec fn file_type_named(l: Seq<char>) -> Result<VolumeDataFileType, ()> {
    if l == seq!['r', 'a', 'w'] || l == seq!['r', 'a', 'w', '3', 'd'] {
        Ok(VolumeDataFileType::RAW3D)
    } else {
        Err(())
    }
}

impl VolumeDataFileType {
    /// The file type that an already lowercase name stands for.
    pub fn from_lowercase(l: &[char]) -> (r: Result<VolumeDataFileType, ()>)
        ensures
            r == file_type_named(l@),
    {
        let raw = l.len() >= 3 && l[0] == 'r' && l[1] == 'a' && l[2] == 'w';
        if raw && l.len() == 3 {
            assert(l@ =~= seq!['r', 'a', 'w']);
            Ok(VolumeDataFileType::RAW3D)
        } else if raw && l.len() == 5 && l[3] == '3' && l[4] == 'd' {
            assert(l@ =~= seq!['r', 'a', 'w', '3', 'd']);
            Ok(VolumeDataFileType::RAW3D)
        } else {
            assert(l@ != seq!['r', 'a', 'w']) by {
                if l@ == seq!['r', 'a', 'w'] {
                    assert(l@[0] == 'r' && l@[1] == 'a' && l@[2] == 'w');
                }
            }
            assert(l@ != seq!['r', 'a', 'w', '3', 'd']) by {
                if l@ == seq!['r', 'a', 'w', '3', 'd'] {
                    assert(l@[0] == 'r' && l@[1] == 'a' && l@[2] == 'w' && l@[3] == '3' && l@[4] == 'd');
                }
            }
            Err(())
        }
    }

    /// The file type that a name stands for, in any case.
    pub fn from_str(input: &str) -> (r: Result<VolumeDataFileType, ()>)
        ensures
            r == file_type_named(lower_of(input@)),
    {
        let l = lowercase_chars(input);
        Self::from_lowercase(l.as_slice())
    }
}

} // verus!
