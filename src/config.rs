//! Bit-field layout of the configuration register.
//!
//! From the most significant bit: status (1) | mux (3) | gain (3) | mode (1) |
//! rate (3) | comparator mode (1) | comparator polarity (1) | latch (1) | queue (2).
use vstd::prelude::*;

verus! {

/// Status bit mask.
pub const CONFIG_OS_MASK: u16 = 0x8000;
/// Written: start a single conversion.
pub const CONFIG_OS_SINGLE: u16 = 0x8000;
/// Read: the device is not performing a conversion.
pub const CONFIG_OS_NOTBUSY: u16 = 0x8000;

/// Input multiplexer mask.
pub const CONFIG_MUX_MASK: u16 = 0x7000;
/// Differential P = AIN0, N = AIN1.
pub const CONFIG_MUX_DIFF_0_1: u16 = 0x0000;
/// Differential P = AIN0, N = AIN3.
pub const CONFIG_MUX_DIFF_0_3: u16 = 0x1000;
/// Differential P = AIN1, N = AIN3.
pub const CONFIG_MUX_DIFF_1_3: u16 = 0x2000;
/// Differential P = AIN2, N = AIN3.
pub const CONFIG_MUX_DIFF_2_3: u16 = 0x3000;
/// Single-ended AIN0.
pub const CONFIG_MUX_SINGLE_0: u16 = 0x4000;
/// Single-ended AIN1.
pub const CONFIG_MUX_SINGLE_1: u16 = 0x5000;
/// Single-ended AIN2.
pub const CONFIG_MUX_SINGLE_2: u16 = 0x6000;
/// Single-ended AIN3.
pub const CONFIG_MUX_SINGLE_3: u16 = 0x7000;

/// Programmable gain amplifier mask.
pub const CONFIG_PGA_MASK: u16 = 0x0E00;
/// +/-6.144V range, gain 2/3.
pub const CONFIG_PGA_6_144V: u16 = 0x0000;
/// +/-4.096V range, gain 1.
pub const CONFIG_PGA_4_096V: u16 = 0x0200;
/// +/-2.048V range, gain 2.
pub const CONFIG_PGA_2_048V: u16 = 0x0400;
/// +/-1.024V range, gain 4.
pub const CONFIG_PGA_1_024V: u16 = 0x0600;
/// +/-0.512V range, gain 8.
pub const CONFIG_PGA_0_512V: u16 = 0x0800;
/// +/-0.256V range, gain 16.
pub const CONFIG_PGA_0_256V: u16 = 0x0A00;

/// Conversion mode mask.
pub const CONFIG_MODE_MASK: u16 = 0x0100;
/// Continuous conversion mode.
pub const CONFIG_MODE_CONTIN: u16 = 0x0000;
/// Power-down single-shot mode.
pub const CONFIG_MODE_SINGLE: u16 = 0x0100;

/// Data rate mask.
pub const CONFIG_RATE_MASK: u16 = 0x00E0;
/// 8 samples per second.
pub const RATE_8SPS: u16 = 0x0000;
/// 16 samples per second.
pub const RATE_16SPS: u16 = 0x0020;
/// 32 samples per second.
pub const RATE_32SPS: u16 = 0x0040;
/// 64 samples per second.
pub const RATE_64SPS: u16 = 0x0060;
/// 128 samples per second.
pub const RATE_128SPS: u16 = 0x0080;
/// 250 samples per second.
pub const RATE_250SPS: u16 = 0x00A0;
/// 475 samples per second.
pub const RATE_475SPS: u16 = 0x00C0;
/// 860 samples per second.
pub const RATE_860SPS: u16 = 0x00E0;

/// Comparator mode mask.
pub const CONFIG_CMODE_MASK: u16 = 0x0010;
/// Traditional comparator with hysteresis.
pub const CONFIG_CMODE_TRAD: u16 = 0x0000;
/// Window comparator.
pub const CONFIG_CMODE_WINDOW: u16 = 0x0010;

/// Comparator polarity mask.
pub const CONFIG_CPOL_MASK: u16 = 0x0008;
/// ALERT/RDY pin is low when active.
pub const CONFIG_CPOL_ACTVLOW: u16 = 0x0000;
/// ALERT/RDY pin is high when active.
pub const CONFIG_CPOL_ACTVHI: u16 = 0x0008;

/// Comparator latch mask.
pub const CONFIG_CLAT_MASK: u16 = 0x0004;
/// Non-latching comparator.
pub const CONFIG_CLAT_NONLAT: u16 = 0x0000;
/// Latching comparator.
pub const CONFIG_CLAT_LATCH: u16 = 0x0004;

/// Comparator queue mask.
pub const CONFIG_CQUE_MASK: u16 = 0x0003;
/// Assert ALERT/RDY after one conversion.
pub const CONFIG_CQUE_1CONV: u16 = 0x0000;
/// Assert ALERT/RDY after two conversions.
pub const CONFIG_CQUE_2CONV: u16 = 0x0001;
/// Assert ALERT/RDY after four conversions.
pub const CONFIG_CQUE_4CONV: u16 = 0x0002;
/// Disable the comparator; ALERT/RDY stays high.
pub const CONFIG_CQUE_NONE: u16 = 0x0003;

/// The comparator bits (mode, polarity, latch, queue) together.
pub const CONFIG_COMPARATOR_MASK: u16 = 0x001F;

/// The fixed part of every configuration word this driver writes: comparator
/// disabled, non-latching, active-low, traditional, single-shot mode.
pub const CONFIG_BASE: u16 = 0x0103;

/// Output data rate.
#[derive(Debug, Clone, Copy, PartialEq, Eq, Structural)]
pub enum DataRate {
    SPS8,
    SPS16,
    SPS32,
    SPS64,
    SPS128,
    SPS250,
    SPS475,
    SPS860,
}

/// Programmable gain amplifier setting (full-scale range).
#[derive(Debug, Clone, Copy, PartialEq, Eq, Structural)]
pub enum Gain {
    TwoThirds,
    One,
    Two,
    Four,
    Eight,
    Sixteen,
}

/// A single-ended input: AIN0 to AIN3 measured against ground.
#[derive(Debug, Clone, Copy, PartialEq, Eq, Structural)]
pub enum SingleEndedChannel {
    One,
    Two,
    Three,
    Four,
}

/// A differential input pair.
#[derive(Debug, Clone, Copy, PartialEq, Eq, Structural)]
pub enum DifferentialChannel {
    One,
    Two,
}

/// The rate field's bit pattern for a data rate.
pub open spec fn rate_bits(rate: DataRate) -> u16 {
    match rate {
        DataRate::SPS8 => RATE_8SPS,
        DataRate::SPS16 => RATE_16SPS,
        DataRate::SPS32 => RATE_32SPS,
        DataRate::SPS64 => RATE_64SPS,
        DataRate::SPS128 => RATE_128SPS,
        DataRate::SPS250 => RATE_250SPS,
        DataRate::SPS475 => RATE_475SPS,
        DataRate::SPS860 => RATE_860SPS,
    }
}

/// The gain field's bit pattern for a gain.
pub open spec fn gain_bits(gain: Gain) -> u16 {
    match gain {
        Gain::TwoThirds => CONFIG_PGA_6_144V,
        Gain::One => CONFIG_PGA_4_096V,
        Gain::Two => CONFIG_PGA_2_048V,
        Gain::Four => CONFIG_PGA_1_024V,
        Gain::Eight => CONFIG_PGA_0_512V,
        Gain::Sixteen => CONFIG_PGA_0_256V,
    }
}

/// The mux field's bit pattern for a single-ended input.
pub open spec fn single_mux_bits(channel: SingleEndedChannel) -> u16 {
    match channel {
        SingleEndedChannel::One => CONFIG_MUX_SINGLE_0,
        SingleEndedChannel::Two => CONFIG_MUX_SINGLE_1,
        SingleEndedChannel::Three => CONFIG_MUX_SINGLE_2,
        SingleEndedChannel::Four => CONFIG_MUX_SINGLE_3,
    }
}

/// The mux field's bit pattern for a differential pair.
pub open spec fn differential_mux_bits(channel: DifferentialChannel) -> u16 {
    match channel {
        DifferentialChannel::One => CONFIG_MUX_DIFF_0_1,
        DifferentialChannel::Two => CONFIG_MUX_DIFF_2_3,
    }
}

/// The configuration word for the current gain and data rate, before a mux
/// selection and the start bit are added.
pub open spec fn base_config(gain: Gain, rate: DataRate) -> u16 {
    CONFIG_BASE | gain_bits(gain) | rate_bits(rate)
}

/// The configuration word that starts a single-shot conversion on `channel`.
pub open spec fn single_shot_config(gain: Gain, rate: DataRate, channel: SingleEndedChannel) -> u16 {
    base_config(gain, rate) | single_mux_bits(channel) | CONFIG_OS_SINGLE
}

impl DataRate {
    /// The rate field's bit pattern.
    pub fn bits(self) -> (r: u16)
        ensures
            r == rate_bits(self),
    {
        match self {
            DataRate::SPS8 => RATE_8SPS,
            DataRate::SPS16 => RATE_16SPS,
            DataRate::SPS32 => RATE_32SPS,
            DataRate::SPS64 => RATE_64SPS,
            DataRate::SPS128 => RATE_128SPS,
            DataRate::SPS250 => RATE_250SPS,
            DataRate::SPS475 => RATE_475SPS,
            DataRate::SPS860 => RATE_860SPS,
        }
    }
}

impl Gain {
    /// The gain field's bit pattern.
    pub fn bits(self) -> (r: u16)
        ensures
            r == gain_bits(self),
    {
        match self {
            Gain::TwoThirds => CONFIG_PGA_6_144V,
            Gain::One => CONFIG_PGA_4_096V,
            Gain::Two => CONFIG_PGA_2_048V,
            Gain::Four => CONFIG_PGA_1_024V,
            Gain::Eight => CONFIG_PGA_0_512V,
            Gain::Sixteen => CONFIG_PGA_0_256V,
        }
    }
}

impl SingleEndedChannel {
    /// The mux field's bit pattern.
    pub fn mux_bits(self) -> (r: u16)
        ensures
            r == single_mux_bits(self),
    {
        match self {
            SingleEndedChannel::One => CONFIG_MUX_SINGLE_0,
            SingleEndedChannel::Two => CONFIG_MUX_SINGLE_1,
            SingleEndedChannel::Three => CONFIG_MUX_SINGLE_2,
            SingleEndedChannel::Four => CONFIG_MUX_SINGLE_3,
        }
    }
}

impl DifferentialChannel {
    /// The mux field's bit pattern.
    pub fn mux_bits(self) -> (r: u16)
        ensures
            r == differential_mux_bits(self),
    {
        match self {
            DifferentialChannel::One => CONFIG_MUX_DIFF_0_1,
            DifferentialChannel::Two => CONFIG_MUX_DIFF_2_3,
        }
    }
}

/// Assembling a configuration word from pre-shifted fields leaves each field
/// exactly as given: gain, rate and mux land in their own bits, the start bit
/// is set, single-shot mode is selected and the comparator stays disabled.
proof fn lemma_fields_disjoint(g: u16, r: u16, m: u16)
    by (bit_vector)
    requires
        g & 0x0E00 == g,
        r & 0x00E0 == r,
        m & 0x7000 == m,
    ensures
        (0x0103u16 | g | r) & 0x0E00 == g,
        (0x0103u16 | g | r) & 0x00E0 == r,
        (0x0103u16 | g | r) & 0x7000 == 0,
        (0x0103u16 | g | r) & 0x8000 == 0,
        (0x0103u16 | g | r) & 0x0100 == 0x0100,
        (0x0103u16 | g | r) & 0x001F == 0x0003,
        (0x0103u16 | g | r | m | 0x8000) & 0x0E00 == g,
        (0x0103u16 | g | r | m | 0x8000) & 0x00E0 == r,
        (0x0103u16 | g | r | m | 0x8000) & 0x7000 == m,
        (0x0103u16 | g | r | m | 0x8000) & 0x8000 == 0x8000,
        (0x0103u16 | g | r | m | 0x8000) & 0x0100 == 0x0100,
        (0x0103u16 | g | r | m | 0x8000) & 0x001F == 0x0003,
{
}

/// Each enum's bit pattern lies inside its field's mask.
proof fn lemma_bits_in_field(gain: Gain, rate: DataRate, channel: SingleEndedChannel)
    ensures
        gain_bits(gain) & CONFIG_PGA_MASK == gain_bits(gain),
        rate_bits(rate) & CONFIG_RATE_MASK == rate_bits(rate),
        single_mux_bits(channel) & CONFIG_MUX_MASK == single_mux_bits(channel),
{
    assert(0x0000u16 & 0x0E00 == 0x0000) by (bit_vector);
    assert(0x0200u16 & 0x0E00 == 0x0200) by (bit_vector);
    assert(0x0400u16 & 0x0E00 == 0x0400) by (bit_vector);
    assert(0x0600u16 & 0x0E00 == 0x0600) by (bit_vector);
    assert(0x0800u16 & 0x0E00 == 0x0800) by (bit_vector);
    assert(0x0A00u16 & 0x0E00 == 0x0A00) by (bit_vector);
    assert(0x0000u16 & 0x00E0 == 0x0000) by (bit_vector);
    assert(0x0020u16 & 0x00E0 == 0x0020) by (bit_vector);
    assert(0x0040u16 & 0x00E0 == 0x0040) by (bit_vector);
    assert(0x0060u16 & 0x00E0 == 0x0060) by (bit_vector);
    assert(0x0080u16 & 0x00E0 == 0x0080) by (bit_vector);
    assert(0x00A0u16 & 0x00E0 == 0x00A0) by (bit_vector);
    assert(0x00C0u16 & 0x00E0 == 0x00C0) by (bit_vector);
    assert(0x00E0u16 & 0x00E0 == 0x00E0) by (bit_vector);
    assert(0x4000u16 & 0x7000 == 0x4000) by (bit_vector);
    assert(0x5000u16 & 0x7000 == 0x5000) by (bit_vector);
    assert(0x6000u16 & 0x7000 == 0x6000) by (bit_vector);
    assert(0x7000u16 & 0x7000 == 0x7000) by (bit_vector);
}

/// The fields of the configuration word are independent: for every gain, data
/// rate and single-ended input, the assembled word's gain and rate fields hold
/// exactly the enums' bit patterns, its mux field holds the input's pattern,
/// its start bit is set, and the mode and comparator fields keep their fixed
/// values (single-shot, comparator disabled). Before the input is chosen, the
/// mux field and the start bit are clear.
pub proof fn lemma_config_fields(gain: Gain, rate: DataRate, channel: SingleEndedChannel)
    ensures
        base_config(gain, rate) & CONFIG_PGA_MASK == gain_bits(gain),
        base_config(gain, rate) & CONFIG_RATE_MASK == rate_bits(rate),
        base_config(gain, rate) & CONFIG_MUX_MASK == 0,
        base_config(gain, rate) & CONFIG_OS_MASK == 0,
        base_config(gain, rate) & CONFIG_MODE_MASK == CONFIG_MODE_SINGLE,
        base_config(gain, rate) & CONFIG_COMPARATOR_MASK == CONFIG_CQUE_NONE,
        single_shot_config(gain, rate, channel) & CONFIG_PGA_MASK == gain_bits(gain),
        single_shot_config(gain, rate, channel) & CONFIG_RATE_MASK == rate_bits(rate),
        single_shot_config(gain, rate, channel) & CONFIG_MUX_MASK == single_mux_bits(channel),
        single_shot_config(gain, rate, channel) & CONFIG_OS_MASK == CONFIG_OS_SINGLE,
        single_shot_config(gain, rate, channel) & CONFIG_MODE_MASK == CONFIG_MODE_SINGLE,
        single_shot_config(gain, rate, channel) & CONFIG_COMPARATOR_MASK == CONFIG_CQUE_NONE,
{
    lemma_bits_in_field(gain, rate, channel);
    lemma_fields_disjoint(gain_bits(gain), rate_bits(rate), single_mux_bits(channel));
}

/// The configuration word for a gain and a data rate: the fixed defaults
/// (single-shot, comparator disabled) with the two fields filled in.
pub fn config_for(gain: Gain, rate: DataRate) -> (r: u16)
    ensures
        r == base_config(gain, rate),
{
    let mut config: u16 = CONFIG_CQUE_NONE | CONFIG_CLAT_NONLAT | CONFIG_CPOL_ACTVLOW
        | CONFIG_CMODE_TRAD | CONFIG_MODE_SINGLE;
    assert(config == CONFIG_BASE) by (bit_vector)
        requires
            config == 0x0003u16 | 0x0000u16 | 0x0000u16 | 0x0000u16 | 0x0100u16,
    ;
    config = config | gain.bits();
    config = config | rate.bits();
    config
}

/// The configuration word that starts a single-shot conversion on `channel`
/// at the given gain and data rate.
pub fn single_shot_config_for(gain: Gain, rate: DataRate, channel: SingleEndedChannel) -> (r: u16)
    ensures
        r == single_shot_config(gain, rate, channel),
{
    let mut config = config_for(gain, rate);
    config = config | channel.mux_bits();
    config = config | CONFIG_OS_SINGLE;
    config
}

} // verus!
