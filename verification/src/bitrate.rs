//! Audio bitrate by guild capacity tier.

use vstd::prelude::*;

verus! {

/// Bitrate, in bits per second, of a guild without boost perks. It is also
/// the bitrate of every tier this crate does not know.
pub const BITRATE_TIER0: u32 = 96000;

/// Bitrate of a guild with level 1 perks.
pub const BITRATE_TIER1: u32 = 128000;

/// Bitrate of a guild with level 2 perks.
pub const BITRATE_TIER2: u32 = 256000;

/// Bitrate of a guild with level 3 perks.
pub const BITRATE_TIER3: u32 = 384000;

/// The capacity tier of a guild, as the platform reports it.
#[derive(Clone, Copy, Debug, PartialEq, Eq, Structural)]
pub enum PremiumTier {
    Tier0,
    Tier1,
    Tier2,
    Tier3,
    /// A tier number the platform sent that has no name here.
    Unknown(u8),
}

impl PremiumTier {
    /// The number under which the platform sends this tier.
    pub open spec fn spec_number(self) -> u8 {
        match self {
            PremiumTier::Tier0 => 0,
            PremiumTier::Tier1 => 1,
            PremiumTier::Tier2 => 2,
            PremiumTier::Tier3 => 3,
            PremiumTier::Unknown(n) => n,
        }
    }

    /// The tier that the platform means by `number`: the named tier for 0 to
    /// 3, `Unknown(number)` for anything else.
    pub open spec fn spec_from_number(number: u8) -> PremiumTier {
        if number == 0 {
            PremiumTier::Tier0
        } else if number == 1 {
            PremiumTier::Tier1
        } else if number == 2 {
            PremiumTier::Tier2
        } else if number == 3 {
            PremiumTier::Tier3
        } else {
            PremiumTier::Unknown(number)
        }
    }

    /// Reads a tier from the number the platform sent.
    pub fn from_number(number: u8) -> (tier: PremiumTier)
        ensures
            tier == Self::spec_from_number(number),
            tier.spec_number() == number,
    {
        match number {
            0 => PremiumTier::Tier0,
            1 => PremiumTier::Tier1,
            2 => PremiumTier::Tier2,
            3 => PremiumTier::Tier3,
            n => PremiumTier::Unknown(n),
        }
    }

    /// The number under which the platform sends this tier.
    pub fn number(&self) -> (number: u8)
        ensures
            number == self.spec_number(),
    {
        match *self {
            PremiumTier::Tier0 => 0,
            PremiumTier::Tier1 => 1,
            PremiumTier::Tier2 => 2,
            PremiumTier::Tier3 => 3,
            PremiumTier::Unknown(n) => n,
        }
    }
}

/// The highest audio bitrate a guild of the given tier may use. A tier
/// without a name gets the bitrate of the lowest one.
pub open spec fn bitrate_of(tier: PremiumTier) -> u32 {
    match tier {
        PremiumTier::Tier0 => BITRATE_TIER0,
        PremiumTier::Tier1 => BITRATE_TIER1,
        PremiumTier::Tier2 => BITRATE_TIER2,
        PremiumTier::Tier3 => BITRATE_TIER3,
        PremiumTier::Unknown(_) => BITRATE_TIER0,
    }
}

/// The highest audio bitrate available to a guild of tier `premium_tier`.
pub fn get_bitrate(premium_tier: &PremiumTier) -> (bitrate: u32)
    ensures
        bitrate == bitrate_of(*premium_tier),
{
    match premium_tier {
        PremiumTier::Tier0 => BITRATE_TIER0,
        PremiumTier::Tier1 => BITRATE_TIER1,
        PremiumTier::Tier2 => BITRATE_TIER2,
        PremiumTier::Tier3 => BITRATE_TIER3,
        _ => BITRATE_TIER0,
    }
}

} // verus!
