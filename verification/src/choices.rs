//! Move identifiers.
use vstd::prelude::*;

verus! {

/// The moves the engine knows by name.
#[derive(Clone, Copy, Debug, PartialEq, Eq, Structural)]
pub enum Choices {
    NONE,
    BATONPASS,
    BLOODMOON,
    BODYSLAM,
    COMEUPPANCE,
    COUNTER,
    CROSSCHOP,
    CURSE,
    DOUBLEEDGE,
    DYNAMICPUNCH,
    EARTHQUAKE,
    ENCORE,
    EXPLOSION,
    FAKEOUT,
    FIREBLAST,
    FIRSTIMPRESSION,
    FOCUSPUNCH,
    GIGATONHAMMER,
    HIDDENPOWER,
    HYPERBEAM,
    ICEBEAM,
    LEECHSEED,
    MEANLOOK,
    METALBURST,
    MIRRORCOAT,
    OUTRAGE,
    PERISHSONG,
    PROTECT,
    PSYCHIC,
    RAPIDSPIN,
    REST,
    ROAR,
    SLEEPTALK,
    SPIKES,
    SPLASH,
    SUBSTITUTE,
    SURF,
    TACKLE,
    THIEF,
    THUNDERBOLT,
    TOXIC,
    WHIRLWIND,
    WRAP,
}

} // verus!
