//! Diagnostics raised by the naming-phase checks.
use vstd::prelude::*;

use crate::ast::Pos;

verus! {

/// A language feature that cannot be combined with higher-kinded type
/// parameters.
#[derive(Clone, Copy, Debug, PartialEq, Eq, Structural)]
pub enum UnsupportedFeature {
    FtConstraints,
    FtReification,
    FtUserAttrs,
    FtVariance,
    FtWhereConstraints,
}

#[derive(Clone, Debug, PartialEq, Eq)]
pub enum NamingError {
    ShadowedTparam { pos: Pos, tparam_name: String, prev_pos: Pos },
    TparamNonShadowingReuse { pos: Pos, tparam_name: String },
    ThisReserved(Pos),
    WildcardHintDisallowed(Pos),
    StartWithT(Pos),
    HKTUnsupportedFeature {
        pos: Pos,
        because_nested: bool,
        var_name: String,
        feature: UnsupportedFeature,
    },
}

#[derive(Clone, Debug, PartialEq, Eq)]
pub enum NastCheckError {
    InterfaceUsesTrait(Pos),
    InterfaceWithMemberVariable(Pos),
    InterfaceWithStaticMemberVariable(Pos),
    AbstractBody(Pos),
}

#[derive(Clone, Debug, PartialEq, Eq)]
pub enum NamingPhaseError {
    Naming(NamingError),
    NastCheck(NastCheckError),
}

} // verus!
