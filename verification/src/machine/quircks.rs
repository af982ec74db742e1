use vstd::prelude::*;

verus! {

/// Configuration flags selecting between historically incompatible
/// behaviors of ambiguous opcodes. `shift` selects the shift semantics:
/// enabled, the shifts operate in place on VX; disabled, they read VY.
#[derive(Debug, Clone, Copy, PartialEq, Eq, Structural)]
pub struct Quircks {
    pub shift: bool,
}

impl Default for Quircks {
    /// All quirks off: the shifts read VY.
    fn default() -> (r: Self)
        ensures
            r.shift == false,
    {
        Quircks { shift: false }
    }
}

} // verus!
