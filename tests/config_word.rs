use ads1115::config::{
    config_for, single_shot_config_for, CONFIG_COMPARATOR_MASK, CONFIG_CQUE_NONE,
    CONFIG_MODE_MASK, CONFIG_MODE_SINGLE, CONFIG_MUX_MASK, CONFIG_OS_MASK, CONFIG_PGA_MASK,
    CONFIG_RATE_MASK,
};
use ads1115::{DataRate, DifferentialChannel, Gain, SingleEndedChannel};

const GAINS: [Gain; 6] = [
    Gain::TwoThirds,
    Gain::One,
    Gain::Two,
    Gain::Four,
    Gain::Eight,
    Gain::Sixteen,
];

const RATES: [DataRate; 8] = [
    DataRate::SPS8,
    DataRate::SPS16,
    DataRate::SPS32,
    DataRate::SPS64,
    DataRate::SPS128,
    DataRate::SPS250,
    DataRate::SPS475,
    DataRate::SPS860,
];

const CHANNELS: [SingleEndedChannel; 4] = [
    SingleEndedChannel::One,
    SingleEndedChannel::Two,
    SingleEndedChannel::Three,
    SingleEndedChannel::Four,
];

#[test]
fn gain_bit_patterns() {
    let expected: [u16; 6] = [0x0000, 0x0200, 0x0400, 0x0600, 0x0800, 0x0A00];
    for (g, e) in GAINS.iter().zip(expected.iter()) {
        assert_eq!(g.bits(), *e);
    }
}

#[test]
fn rate_bit_patterns() {
    let expected: [u16; 8] = [0x0000, 0x0020, 0x0040, 0x0060, 0x0080, 0x00A0, 0x00C0, 0x00E0];
    for (r, e) in RATES.iter().zip(expected.iter()) {
        assert_eq!(r.bits(), *e);
    }
}

#[test]
fn mux_bit_patterns() {
    let expected: [u16; 4] = [0x4000, 0x5000, 0x6000, 0x7000];
    for (c, e) in CHANNELS.iter().zip(expected.iter()) {
        assert_eq!(c.mux_bits(), *e);
    }
    assert_eq!(DifferentialChannel::One.mux_bits(), 0x0000);
    assert_eq!(DifferentialChannel::Two.mux_bits(), 0x3000);
}

#[test]
fn default_config_word() {
    assert_eq!(config_for(Gain::TwoThirds, DataRate::SPS128), 0x0183);
}

#[test]
fn single_shot_word_exact() {
    assert_eq!(
        single_shot_config_for(Gain::One, DataRate::SPS860, SingleEndedChannel::Four),
        0xF3E3
    );
    assert_eq!(
        single_shot_config_for(Gain::TwoThirds, DataRate::SPS8, SingleEndedChannel::One),
        0xC103
    );
}

#[test]
fn fields_are_independent_for_all_gain_rate_pairs() {
    for g in GAINS.iter() {
        for r in RATES.iter() {
            let w = config_for(*g, *r);
            assert_eq!(w & CONFIG_PGA_MASK, g.bits());
            assert_eq!(w & CONFIG_RATE_MASK, r.bits());
            assert_eq!(w & CONFIG_MUX_MASK, 0);
            assert_eq!(w & CONFIG_OS_MASK, 0);
            assert_eq!(w & CONFIG_MODE_MASK, CONFIG_MODE_SINGLE);
            assert_eq!(w & CONFIG_COMPARATOR_MASK, CONFIG_CQUE_NONE);
            for c in CHANNELS.iter() {
                let s = single_shot_config_for(*g, *r, *c);
                assert_eq!(s & CONFIG_PGA_MASK, g.bits());
                assert_eq!(s & CONFIG_RATE_MASK, r.bits());
                assert_eq!(s & CONFIG_MUX_MASK, c.mux_bits());
                assert_eq!(s & CONFIG_OS_MASK, 0x8000);
                assert_eq!(s & CONFIG_MODE_MASK, CONFIG_MODE_SINGLE);
                assert_eq!(s & CONFIG_COMPARATOR_MASK, CONFIG_CQUE_NONE);
            }
        }
    }
}
