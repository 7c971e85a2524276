use autoroom::bitrate::{get_bitrate, PremiumTier};

#[test]
fn bitrate_of_each_named_tier() {
    assert_eq!(get_bitrate(&PremiumTier::Tier0), 96000);
    assert_eq!(get_bitrate(&PremiumTier::Tier1), 128000);
    assert_eq!(get_bitrate(&PremiumTier::Tier2), 256000);
    assert_eq!(get_bitrate(&PremiumTier::Tier3), 384000);
}

#[test]
fn unknown_tier_gets_lowest_bitrate() {
    assert_eq!(get_bitrate(&PremiumTier::Unknown(4)), 96000);
    assert_eq!(get_bitrate(&PremiumTier::Unknown(255)), 96000);
}

#[test]
fn tier_number_round_trip() {
    for n in 0..=255u8 {
        assert_eq!(PremiumTier::from_number(n).number(), n);
    }
    assert_eq!(PremiumTier::from_number(1), PremiumTier::Tier1);
    assert_eq!(PremiumTier::from_number(9), PremiumTier::Unknown(9));
}
