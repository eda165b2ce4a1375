//! A payload-free enumeration with a fixed layout.
use vstd::prelude::*;

verus! {

/// A small tag that both sides read alike: `Male` comes first, `Female` second.
/// The order of the variants is part of the contract.
#[derive(Debug, PartialEq, Eq, Clone, Copy, Structural)]
pub enum CGender {
    Male,
    Female,
}

impl CGender {
    /// The tag under which a variant crosses the boundary.
    pub open spec fn tag_of(self) -> u8 {
        match self {
            CGender::Male => 0,
            CGender::Female => 1,
        }
    }

    /// The tag under which this variant crosses the boundary.
    pub fn tag(&self) -> (tag: u8)
        ensures
            tag == self.tag_of(),
    {
        match self {
            CGender::Male => 0,
            CGender::Female => 1,
        }
    }

    /// The variant that a tag stands for, if it stands for one.
    pub fn from_tag(tag: u8) -> (gender: Option<CGender>)
        ensures
            tag == 0 ==> gender == Some(CGender::Male),
            tag == 1 ==> gender == Some(CGender::Female),
            tag > 1 ==> gender is None,
            forall|g: CGender| g.tag_of() == tag ==> gender == Some(g),
    {
        if tag == 0 {
            Some(CGender::Male)
        } else if tag == 1 {
            Some(CGender::Female)
        } else {
            None
        }
    }
}

} // verus!
