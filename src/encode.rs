use vstd::prelude::*;

verus! {

/// All available DAC channels (A..H), configurable in two groups: A..D and E..H.
#[derive(Clone, Copy, Debug, PartialEq, Eq, Structural)]
pub enum Channel {
    A,
    B,
    C,
    D,
    E,
    F,
    G,
    H,
}

/// The 3-bit address of a channel.
pub open spec fn channel_addr(c: Channel) -> u8 {
    match c {
        Channel::A => 0,
        Channel::B => 1,
        Channel::C => 2,
        Channel::D => 3,
        Channel::E => 4,
        Channel::F => 5,
        Channel::G => 6,
        Channel::H => 7,
    }
}

impl From<Channel> for u8 {
    fn from(chan: Channel) -> (r: u8) {
        match chan {
            Channel::A => 0,
            Channel::B => 1,
            Channel::C => 2,
            Channel::D => 3,
            Channel::E => 4,
            Channel::F => 5,
            Channel::G => 6,
            Channel::H => 7,
        }
    }
}

impl vstd::std_specs::convert::FromSpecImpl<Channel> for u8 {
    open spec fn obeys_from_spec() -> bool {
        true
    }

    open spec fn from_spec(v: Channel) -> u8 {
        channel_addr(v)
    }
}

impl Channel {
    /// The channel's address placed in bits 12..14.
    pub fn as_u16(&self) -> (r: u16)
        ensures
            r == channel_addr(*self) as u16 * 4096,
    {
        let a: u8 = u8::from(*self);
        (a as u16) * 4096
    }
}

/// Output range of a group of DACs: bit 4 for A..D, bit 5 for E..H.
#[derive(Clone, Copy, Debug, PartialEq, Eq, Structural)]
pub enum GAIN {
    /// Output range of 0 V to Vref
    Gain0Vref,
    /// Output range of 0 V to 2 * Vref
    Gain02Vref,
}

pub open spec fn gain_flag(g: GAIN) -> u16 {
    match g {
        GAIN::Gain0Vref => 0,
        GAIN::Gain02Vref => 1,
    }
}

impl GAIN {
    /// The gain flag of the first group, in bit 4.
    pub fn as_u16(&self) -> (r: u16)
        ensures
            r == gain_flag(*self) * 16,
    {
        match self {
            GAIN::Gain0Vref => 0,
            GAIN::Gain02Vref => 16,
        }
    }
}

/// Whether the reference of a group is buffered: bit 2 for A..D, bit 3 for E..H.
#[derive(Clone, Copy, Debug, PartialEq, Eq, Structural)]
pub enum BUF {
    /// Unbuffered reference
    Unbuffered,
    /// Buffered reference
    Buffered,
}

pub open spec fn buf_flag(b: BUF) -> u16 {
    match b {
        BUF::Unbuffered => 0,
        BUF::Buffered => 1,
    }
}

impl BUF {
    /// The buffer flag of the first group, in bit 2.
    pub fn as_u16(&self) -> (r: u16)
        ensures
            r == buf_flag(*self) * 4,
    {
        match self {
            BUF::Unbuffered => 0,
            BUF::Buffered => 4,
        }
    }
}

/// Whether VDD is used as reference: bit 0 for A..D, bit 1 for E..H.
/// The chip gives these bits priority over GAIN and BUF.
#[derive(Clone, Copy, Debug, PartialEq, Eq, Structural)]
pub enum VDD {
    /// Use external voltage reference
    ExternalRef,
    /// Use VDD as voltage reference
    VddAsRef,
}

pub open spec fn vdd_flag(v: VDD) -> u16 {
    match v {
        VDD::ExternalRef => 0,
        VDD::VddAsRef => 1,
    }
}

impl VDD {
    /// The reference flag of the first group, in bit 0.
    pub fn as_u16(&self) -> (r: u16)
        ensures
            r == vdd_flag(*self),
    {
        match self {
            VDD::ExternalRef => 0,
            VDD::VddAsRef => 1,
        }
    }
}

/// When the input registers are transferred to the DAC registers.
#[derive(Clone, Copy, Debug, PartialEq, Eq, Structural)]
pub enum LDAC {
    /// LDAC permanently low: DAC registers update continuously
    LdacLow,
    /// LDAC permanently high: DAC registers are latched (the chip's default)
    LdacHigh,
    /// A single pulse on LDAC: DAC registers update once
    LdacSingleUpdate,
}

pub open spec fn ldac_code(l: LDAC) -> u16 {
    match l {
        LDAC::LdacLow => 0,
        LDAC::LdacHigh => 1,
        LDAC::LdacSingleUpdate => 2,
    }
}

/// The LDAC mode command: identifier 0xA000 and the mode code in bits 0..1.
pub open spec fn ldac_word(l: LDAC) -> u16 {
    (0xA000 + ldac_code(l)) as u16
}

impl LDAC {
    pub fn as_u16(&self) -> (r: u16)
        ensures
            r == ldac_word(*self),
    {
        match self {
            LDAC::LdacLow => 0xa000,
            LDAC::LdacHigh => 0xa001,
            LDAC::LdacSingleUpdate => 0xa002,
        }
    }
}

/// GAIN, BUF and VDD settings for channels A..D and E..H, and the LDAC mode
/// shared by all channels.
#[derive(Clone, Copy, Debug)]
pub struct Ad5328Config {
    pub gain: (GAIN, GAIN),
    pub buf: (BUF, BUF),
    pub vdd: (VDD, VDD),
    pub ldac: LDAC,
}

/// The control command: bit 15 set, bit 14 clear, and the six group flags.
pub open spec fn control_word(c: Ad5328Config) -> u16 {
    (0x8000 + gain_flag(c.gain.0) * 16 + gain_flag(c.gain.1) * 32 + buf_flag(c.buf.0) * 4
        + buf_flag(c.buf.1) * 8 + vdd_flag(c.vdd.0) + vdd_flag(c.vdd.1) * 2) as u16
}

/// The two words that apply a configuration, in the order they are sent.
pub open spec fn config_words(c: Ad5328Config) -> Seq<u16> {
    seq![control_word(c), ldac_word(c.ldac)]
}

impl Default for Ad5328Config {
    fn default() -> (r: Self)
        ensures
            r == (Ad5328Config {
                gain: (GAIN::Gain0Vref, GAIN::Gain0Vref),
                buf: (BUF::Buffered, BUF::Buffered),
                vdd: (VDD::ExternalRef, VDD::ExternalRef),
                ldac: LDAC::LdacHigh,
            }),
    {
        Ad5328Config {
            gain: (GAIN::Gain0Vref, GAIN::Gain0Vref),
            buf: (BUF::Buffered, BUF::Buffered),
            vdd: (VDD::ExternalRef, VDD::ExternalRef),
            ldac: LDAC::LdacHigh,
        }
    }
}

impl Ad5328Config {
    /// Serialize the config as its control command and its LDAC command.
    pub fn as_commands(&self) -> (r: [u16; 2])
        ensures
            r@ == config_words(*self),
    {
        let w0: u16 = 0x8000 + self.gain.0.as_u16() + self.gain.1.as_u16() * 2
            + self.buf.0.as_u16() + self.buf.1.as_u16() * 2 + self.vdd.0.as_u16()
            + self.vdd.1.as_u16() * 2;
        let r = [w0, self.ldac.as_u16()];
        assert(r@ =~= config_words(*self));
        r
    }
}

/// A channel-write command: bit 15 clear, the channel address in bits 12..14
/// and the 12-bit value in bits 0..11.
pub open spec fn channel_word(c: Channel, value: u16) -> u16 {
    (channel_addr(c) as int * 4096 + value) as u16
}

/// Encodes a channel write; the value must fit in 12 bits.
pub fn channel_command(channel: Channel, value: u16) -> (r: u16)
    requires
        value <= 4095,
    ensures
        r == channel_word(channel, value),
        r as int == channel_addr(channel) as int * 4096 + value,
{
    channel.as_u16() + value
}

/// A channel-write word holds no command bit, the channel's address and the
/// value, each in its own field.
pub proof fn lemma_channel_word_fields(c: Channel, value: u16)
    requires
        value <= 4095,
    ensures
        channel_word(c, value) / 0x8000 == 0,
        (channel_word(c, value) / 0x1000) % 8 == channel_addr(c),
        channel_word(c, value) % 0x1000 == value,
{
    let a = channel_addr(c) as int;
    let w = a * 4096 + value;
    assert(0 <= a < 8);
    assert(w / 4096 == a && w % 4096 == value) by (nonlinear_arith)
        requires
            0 <= a < 8,
            0 <= value <= 4095,
            w == a * 4096 + value,
    ;
}

/// The reset command: 0xE000 clears the DAC data, 0xF000 also the control data.
pub open spec fn reset_word(full: bool) -> u16 {
    if full {
        0xF000
    } else {
        0xE000
    }
}

pub fn reset_command(full: bool) -> (r: u16)
    ensures
        r == reset_word(full),
{
    if full {
        0xf000
    } else {
        0xe000
    }
}

/// 2 to the power `n`, for the eight channel positions and one past them.
pub open spec fn bit_weight(n: int) -> int {
    if n <= 0 {
        1
    } else if n == 1 {
        2
    } else if n == 2 {
        4
    } else if n == 3 {
        8
    } else if n == 4 {
        16
    } else if n == 5 {
        32
    } else if n == 6 {
        64
    } else if n == 7 {
        128
    } else {
        256
    }
}

/// The flags of the first `n` positions of `mask`, position `i` in bit `i`.
pub open spec fn mask_bits(mask: Seq<bool>, n: int) -> int
    decreases n,
{
    if n <= 0 {
        0
    } else {
        mask_bits(mask, n - 1) + if mask[n - 1] {
            bit_weight(n - 1)
        } else {
            0
        }
    }
}

/// The power-down command: identifier 0xC000 and channel `i`'s flag in bit `i`.
pub open spec fn power_down_word(mask: Seq<bool>) -> u16 {
    (0xC000 + mask_bits(mask, 8)) as u16
}

pub fn power_down_command(channels: [bool; 8]) -> (r: u16)
    ensures
        r == power_down_word(channels@),
        r as int == 0xC000 + mask_bits(channels@, 8),
{
    let mut cmd: u16 = 0xc000;
    let mut weight: u16 = 1;
    let mut n: usize = 0;
    while n < 8
        invariant
            n <= 8,
            weight as int == bit_weight(n as int),
            cmd as int == 0xC000 + mask_bits(channels@, n as int),
            (cmd as int) < 0xC000 + weight,
        decreases 8 - n,
    {
        if channels[n] {
            cmd = cmd + weight;
        }
        weight = weight * 2;
        n = n + 1;
    }
    cmd
}

} // verus!
