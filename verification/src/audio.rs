//! What the crate computes for audio playback: the file name a sound name
//! stands for.  Decoding and output stay with the binary.

use vstd::prelude::*;
use vstd::string::StringExecFns;

verus! {

/// The file name of a named sound: the name with the `.ogg` extension.
pub fn sound_filename(name: &str) -> (r: String)
    ensures
        r@ == name@ + ".ogg"@,
{
    String::from_str(name).concat(".ogg")
}

} // verus!
