use vstd::prelude::*;

verus! {

/// The one AI behaviour of the compact object world: a basic monster
/// that chases and attacks whatever it can see. Its turn logic steers
/// by floating-point distances through the external console library,
/// so the behaviour itself lives with the interface layer; the tag is
/// what the object model stores.
#[derive(Clone, Copy, PartialEq, Eq, Structural, Debug)]
pub struct AiMonster;

} // verus!
