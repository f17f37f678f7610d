//! Model identifiers that the design endpoint accepts.

use vstd::prelude::*;

verus! {

/// The multilingual model, second version: the one used when none is named.
pub const ELEVEN_MULTILINGUAL_TTV_V2: &'static str = "eleven_multilingual_ttv_v2";

/// The third version, the only model that takes reference audio.
pub const ELEVEN_TTV_V3: &'static str = "eleven_ttv_v3";

} // verus!
