use vstd::prelude::*;

verus! {

/// A hardware feature that a device variant may carry.
#[derive(Debug, Clone, Copy, PartialEq, Eq, Hash, Structural)]
pub enum Capability {
    GPS,
    LoRa,
    Ejection,
}

/// A named hardware configuration of the remote device.
#[derive(Debug, Clone, Copy, PartialEq, Eq, Hash, Structural)]
pub enum BoardVariant {
    Entangler,
    Warp,
    Default,
}

/// The fixed capability set of each variant.
pub open spec fn capabilities_of(v: BoardVariant) -> Set<Capability> {
    match v {
        BoardVariant::Entangler => set![Capability::GPS, Capability::LoRa],
        BoardVariant::Warp => set![Capability::GPS, Capability::Ejection],
        BoardVariant::Default => Set::empty(),
    }
}

impl BoardVariant {
    /// The capabilities of this variant, each listed once.
    pub fn get_capabilities(self) -> (r: Vec<Capability>)
        ensures
            r@.to_set() == capabilities_of(self),
            r@.no_duplicates(),
    {
        let mut capabilities: Vec<Capability> = Vec::new();
        match self {
            BoardVariant::Entangler => {
                capabilities.push(Capability::GPS);
                capabilities.push(Capability::LoRa);
            },
            BoardVariant::Warp => {
                capabilities.push(Capability::GPS);
                capabilities.push(Capability::Ejection);
            },
            BoardVariant::Default => {},
        }
        proof {
            let s = capabilities@;
            assert(s.to_set() =~= capabilities_of(self)) by {
                assert forall|c: Capability| s.contains(c) <==> capabilities_of(self).contains(c) by {
                    if s.contains(c) {
                        let i = choose|i: int| 0 <= i < s.len() && s[i] == c;
                        assert(capabilities_of(self).contains(s[i]));
                    }
                    if capabilities_of(self).contains(c) {
                        match self {
                            BoardVariant::Entangler => {
                                if c == Capability::GPS { assert(s[0] == c); } else { assert(s[1] == c); }
                            },
                            BoardVariant::Warp => {
                                if c == Capability::GPS { assert(s[0] == c); } else { assert(s[1] == c); }
                            },
                            BoardVariant::Default => {},
                        }
                    }
                }
            }
        }
        capabilities
    }
}

/// Every board variant, in declaration order.
pub fn get_board_variants() -> (r: Vec<BoardVariant>)
    ensures
        r@ == seq![BoardVariant::Entangler, BoardVariant::Warp, BoardVariant::Default],
{
    let r: Vec<BoardVariant> = vec![BoardVariant::Entangler, BoardVariant::Warp, BoardVariant::Default];
    assert(r@ =~= seq![BoardVariant::Entangler, BoardVariant::Warp, BoardVariant::Default]);
    r
}

} // verus!
