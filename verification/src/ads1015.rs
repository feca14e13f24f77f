//! ADS1015 analog-to-digital converter: the bit layout of its config
//! register and of its conversion result.
//!
//! The converter is reached over I2C by the firmware; the library computes
//! the bytes written and interprets the bytes read, and keeps the copy of
//! the config register the driver relies on.
use vstd::prelude::*;

verus! {

/// Input multiplexer setting (register bits 14:12).
#[derive(Debug, Clone, Copy, PartialEq, Eq, Structural)]
pub enum MuxConfig {
    DiffP0N1,
    DiffP0N3,
    DiffP1N3,
    DiffP2N3,
    MUX0,
    MUX1,
    MUX2,
    MUX3,
}

/// Programmable gain (register bits 11:9).
#[derive(Debug, Clone, Copy, PartialEq, Eq, Structural)]
pub enum FsrConfig {
    Fsr6_144,
    Fsr4_096,
    Fsr2_048,
    Fsr1_024,
    Fsr0_512,
    Fsr0_256,
}

/// Operating mode (register bit 8).
#[derive(Debug, Clone, Copy, PartialEq, Eq, Structural)]
pub enum OpModeConfig {
    Continuous,
    SingleShot,
}

/// Data rate (register bits 7:5).
#[derive(Debug, Clone, Copy, PartialEq, Eq, Structural)]
pub enum DataRateConfig {
    DataRate128,
    DataRate250,
    DataRate490,
    DataRate920,
    DataRate1600,
    DataRate2400,
    DataRate3300,
}

/// Comparator mode (register bit 4).
#[derive(Debug, Clone, Copy, PartialEq, Eq, Structural)]
pub enum CompModeConfig {
    Traditional,
    Window,
}

/// Comparator polarity (register bit 3).
#[derive(Debug, Clone, Copy, PartialEq, Eq, Structural)]
pub enum CompPolarityConfig {
    ActiveLow,
    ActiveHigh,
}

/// Comparator latching (register bit 2).
#[derive(Debug, Clone, Copy, PartialEq, Eq, Structural)]
pub enum CompLatchingConfig {
    NonLatching,
    Latching,
}

/// Comparator queue (register bits 1:0).
#[derive(Debug, Clone, Copy, PartialEq, Eq, Structural)]
pub enum CompQueueDisableConfig {
    AssertAfterOne,
    AssertAfterTwo,
    AssertAfterFour,
    DisableComp,
}

pub open spec fn mux_code(m: MuxConfig) -> u8 {
    match m {
        MuxConfig::DiffP0N1 => 0,
        MuxConfig::DiffP0N3 => 1,
        MuxConfig::DiffP1N3 => 2,
        MuxConfig::DiffP2N3 => 3,
        MuxConfig::MUX0 => 4,
        MuxConfig::MUX1 => 5,
        MuxConfig::MUX2 => 6,
        MuxConfig::MUX3 => 7,
    }
}

pub open spec fn fsr_code(f: FsrConfig) -> u8 {
    match f {
        FsrConfig::Fsr6_144 => 0,
        FsrConfig::Fsr4_096 => 1,
        FsrConfig::Fsr2_048 => 2,
        FsrConfig::Fsr1_024 => 3,
        FsrConfig::Fsr0_512 => 4,
        FsrConfig::Fsr0_256 => 5,
    }
}

pub open spec fn op_code(o: OpModeConfig) -> u8 {
    match o {
        OpModeConfig::Continuous => 0,
        OpModeConfig::SingleShot => 1,
    }
}

pub open spec fn rate_code(d: DataRateConfig) -> u8 {
    match d {
        DataRateConfig::DataRate128 => 0,
        DataRateConfig::DataRate250 => 1,
        DataRateConfig::DataRate490 => 2,
        DataRateConfig::DataRate920 => 3,
        DataRateConfig::DataRate1600 => 4,
        DataRateConfig::DataRate2400 => 5,
        DataRateConfig::DataRate3300 => 6,
    }
}

pub open spec fn comp_mode_code(c: CompModeConfig) -> u8 {
    match c {
        CompModeConfig::Traditional => 0,
        CompModeConfig::Window => 1,
    }
}

pub open spec fn polarity_code(c: CompPolarityConfig) -> u8 {
    match c {
        CompPolarityConfig::ActiveLow => 0,
        CompPolarityConfig::ActiveHigh => 1,
    }
}

pub open spec fn latching_code(c: CompLatchingConfig) -> u8 {
    match c {
        CompLatchingConfig::NonLatching => 0,
        CompLatchingConfig::Latching => 1,
    }
}

pub open spec fn queue_code(c: CompQueueDisableConfig) -> u8 {
    match c {
        CompQueueDisableConfig::AssertAfterOne => 0,
        CompQueueDisableConfig::AssertAfterTwo => 1,
        CompQueueDisableConfig::AssertAfterFour => 2,
        CompQueueDisableConfig::DisableComp => 3,
    }
}

/// The single-ended input a scanner channel number selects; channels past
/// 3 fall back to input 0.
pub open spec fn mux_of_value(value: u8) -> MuxConfig {
    if value == 0 {
        MuxConfig::MUX0
    } else if value == 1 {
        MuxConfig::MUX1
    } else if value == 2 {
        MuxConfig::MUX2
    } else if value == 3 {
        MuxConfig::MUX3
    } else {
        MuxConfig::MUX0
    }
}

impl MuxConfig {
    pub fn mux_from(value: u8) -> (r: Self)
        ensures
            r == mux_of_value(value),
    {
        match value {
            0 => MuxConfig::MUX0,
            1 => MuxConfig::MUX1,
            2 => MuxConfig::MUX2,
            3 => MuxConfig::MUX3,
            _ => MuxConfig::MUX0,
        }
    }

    pub fn code(&self) -> (r: u8)
        ensures
            r == mux_code(*self),
    {
        match self {
            MuxConfig::DiffP0N1 => 0,
            MuxConfig::DiffP0N3 => 1,
            MuxConfig::DiffP1N3 => 2,
            MuxConfig::DiffP2N3 => 3,
            MuxConfig::MUX0 => 4,
            MuxConfig::MUX1 => 5,
            MuxConfig::MUX2 => 6,
            MuxConfig::MUX3 => 7,
        }
    }
}

#[derive(Debug, Clone, Copy, PartialEq, Eq, Structural)]
pub struct ADS1015Config {
    pub mux_config: MuxConfig,
    pub fsr_mode: FsrConfig,
    pub op_mode: OpModeConfig,
    pub data_rate: DataRateConfig,
    pub comparator_mode: CompModeConfig,
    pub comparator_polarity: CompPolarityConfig,
    pub comparator_latching: CompLatchingConfig,
    pub queue_and_disable: CompQueueDisableConfig,
}

/// High byte of the config register for `c`.
pub open spec fn config_high(c: ADS1015Config) -> u8 {
    ((mux_code(c.mux_config) << 4u8) | (fsr_code(c.fsr_mode) << 1u8) | op_code(c.op_mode)) as u8
}

/// Low byte of the config register for `c`.
pub open spec fn config_low(c: ADS1015Config) -> u8 {
    ((rate_code(c.data_rate) << 5u8) | (comp_mode_code(c.comparator_mode) << 4u8) | (
    polarity_code(c.comparator_polarity) << 3u8) | (latching_code(c.comparator_latching) << 2u8)
        | queue_code(c.queue_and_disable)) as u8
}

/// The 16-bit register value made of a high and a low byte.
pub open spec fn register_of(high: u8, low: u8) -> u16 {
    (((high as u16) << 8u16) | (low as u16)) as u16
}

/// The mux field (bits 14:12) of a register value.
pub open spec fn register_mux(reg: u16) -> u16 {
    (reg >> 12u16) & 7u16
}

/// The register value with its mux field replaced by `code`.
pub open spec fn with_mux(reg: u16, code: u8) -> u16 {
    ((reg & 0x8FFFu16) | ((code as u16 & 7u16) << 12u16)) as u16
}

/// Driver state of one converter: its I2C address and the last config
/// register value known to be on the chip.
pub struct ADS1015 {
    cfg_reg: u16,
    addr: u8,
}

/// Register pointer byte of the config register.
pub const CONFIG_REGISTER: u8 = 0x01;

/// Register pointer byte of the conversion register.
pub const CONVERSION_REGISTER: u8 = 0x00;

impl ADS1015 {
    pub closed spec fn spec_cfg_reg(&self) -> u16 {
        self.cfg_reg
    }

    pub closed spec fn spec_addr(&self) -> u8 {
        self.addr
    }

    pub fn new(addr: u8) -> (r: Self)
        ensures
            r.spec_addr() == addr,
            r.spec_cfg_reg() == 0,
    {
        ADS1015 { cfg_reg: 0, addr }
    }

    pub fn addr(&self) -> (r: u8)
        ensures
            r == self.spec_addr(),
    {
        self.addr
    }

    pub fn cfg_reg(&self) -> (r: u16)
        ensures
            r == self.spec_cfg_reg(),
    {
        self.cfg_reg
    }

    /// The write that selects input `mux` and keeps every other field of
    /// the known register value.
    pub fn mux_packet(&self, mux: &MuxConfig) -> (r: [u8; 3])
        ensures
            r@[0] == CONFIG_REGISTER,
            register_of(r@[1], r@[2]) == with_mux(self.spec_cfg_reg(), mux_code(*mux)),
            r@.len() == 3,
    {
        let mask: u8 = !0b0111_0000u8;
        assert(mask == 0x8Fu8) by (bit_vector)
            requires
                mask == !0x70u8,
        ;
        let cfg_reg = self.cfg_reg;
        let m = mux.code();
        let high: u8 = (((cfg_reg >> 8) & 0xFF) as u8 & mask) | ((m & 0b111) << 4);
        let low: u8 = (cfg_reg & 0xFF) as u8;
        assert(register_of(high, low) == with_mux(cfg_reg, m)) by (bit_vector)
            requires
                high == (((cfg_reg >> 8u16) & 0xFFu16) as u8 & 0x8Fu8) | ((m & 7u8) << 4u8),
                low == (cfg_reg & 0xFFu16) as u8,
                mask == 0x8Fu8,
        ;
        [CONFIG_REGISTER, high, low]
    }

    /// The write that programs the whole config register from `config`.
    pub fn config_packet(config: &ADS1015Config) -> (r: [u8; 3])
        ensures
            r@ == seq![CONFIG_REGISTER, config_high(*config), config_low(*config)],
    {
        let mux_config = config.mux_config.code();
        let fsr_mode = fsr_code_of(config.fsr_mode);
        let op_mode = op_code_of(config.op_mode);
        let data_rate = rate_code_of(config.data_rate);
        let comparator_mode = comp_mode_code_of(config.comparator_mode);
        let comparator_polarity = polarity_code_of(config.comparator_polarity);
        let comparator_latching = latching_code_of(config.comparator_latching);
        let queue_and_disable = queue_code_of(config.queue_and_disable);
        let high: u8 = ((mux_config & 0b111) << 4) | ((fsr_mode & 0b111) << 1) | ((op_mode & 0b1) << 0);
        let low: u8 = ((data_rate & 0b111) << 5) | ((comparator_mode & 0b1) << 4) | ((
        comparator_polarity & 0b1) << 3) | ((comparator_latching & 0b1) << 2) | ((queue_and_disable
            & 0b11) << 0);
        assert(high == ((mux_config << 4u8) | (fsr_mode << 1u8) | op_mode)) by (bit_vector)
            requires
                high == ((mux_config & 7u8) << 4u8) | ((fsr_mode & 7u8) << 1u8) | ((op_mode & 1u8)
                    << 0u8),
                mux_config < 8,
                fsr_mode < 8,
                op_mode < 2,
        ;
        assert(low == ((data_rate << 5u8) | (comparator_mode << 4u8) | (comparator_polarity << 3u8)
            | (comparator_latching << 2u8) | queue_and_disable)) by (bit_vector)
            requires
                low == ((data_rate & 7u8) << 5u8) | ((comparator_mode & 1u8) << 4u8) | ((
                comparator_polarity & 1u8) << 3u8) | ((comparator_latching & 1u8) << 2u8) | ((
                queue_and_disable & 3u8) << 0u8),
                data_rate < 8,
                comparator_mode < 2,
                comparator_polarity < 2,
                comparator_latching < 2,
                queue_and_disable < 4,
        ;
        [CONFIG_REGISTER, high, low]
    }

    /// Records that a config write of `packet` reached the chip.
    pub fn commit_write(&mut self, packet: &[u8; 3])
        ensures
            final(self).spec_cfg_reg() == register_of(packet@[1], packet@[2]),
            final(self).spec_addr() == old(self).spec_addr(),
    {
        let high = packet[1];
        let low = packet[2];
        let value: u16 = ((high as u16 & 0xFF) << 8) | (low as u16 & 0xFF);
        assert(value == register_of(high, low)) by (bit_vector)
            requires
                value == ((high as u16 & 0xFFu16) << 8u16) | (low as u16 & 0xFFu16),
        ;
        self.cfg_reg = value;
    }

    /// Records the config register value read back from the chip.
    pub fn commit_read_config(&mut self, bytes: &[u8; 2])
        ensures
            final(self).spec_cfg_reg() == register_of(bytes@[0], bytes@[1]),
            final(self).spec_addr() == old(self).spec_addr(),
    {
        let high = bytes[0];
        let low = bytes[1];
        let value: u16 = ((high as u16 & 0xFF) << 8) | (low as u16 & 0xFF);
        assert(value == register_of(high, low)) by (bit_vector)
            requires
                value == ((high as u16 & 0xFFu16) << 8u16) | (low as u16 & 0xFFu16),
        ;
        self.cfg_reg = value;
    }

    /// The 12-bit conversion result in the two bytes read from the
    /// conversion register.
    pub fn decode_sample(data: &[u8; 2]) -> (r: u16)
        ensures
            r == register_of(data@[0], data@[1]) / 16,
            r < 4096,
    {
        let high = data[0];
        let low = data[1];
        let raw_val: u16 = ((high as u16) << 8) | (low as u16);
        let r = raw_val >> 4;
        assert(r == register_of(high, low) / 16 && r < 4096) by (bit_vector)
            requires
                raw_val == ((high as u16) << 8u16) | (low as u16),
                r == raw_val >> 4u16,
        ;
        r
    }
}

fn fsr_code_of(f: FsrConfig) -> (r: u8)
    ensures
        r == fsr_code(f),
        r < 8,
{
    match f {
        FsrConfig::Fsr6_144 => 0,
        FsrConfig::Fsr4_096 => 1,
        FsrConfig::Fsr2_048 => 2,
        FsrConfig::Fsr1_024 => 3,
        FsrConfig::Fsr0_512 => 4,
        FsrConfig::Fsr0_256 => 5,
    }
}

fn op_code_of(o: OpModeConfig) -> (r: u8)
    ensures
        r == op_code(o),
        r < 2,
{
    match o {
        OpModeConfig::Continuous => 0,
        OpModeConfig::SingleShot => 1,
    }
}

fn rate_code_of(d: DataRateConfig) -> (r: u8)
    ensures
        r == rate_code(d),
        r < 8,
{
    match d {
        DataRateConfig::DataRate128 => 0,
        DataRateConfig::DataRate250 => 1,
        DataRateConfig::DataRate490 => 2,
        DataRateConfig::DataRate920 => 3,
        DataRateConfig::DataRate1600 => 4,
        DataRateConfig::DataRate2400 => 5,
        DataRateConfig::DataRate3300 => 6,
    }
}

fn comp_mode_code_of(c: CompModeConfig) -> (r: u8)
    ensures
        r == comp_mode_code(c),
        r < 2,
{
    match c {
        CompModeConfig::Traditional => 0,
        CompModeConfig::Window => 1,
    }
}

fn polarity_code_of(c: CompPolarityConfig) -> (r: u8)
    ensures
        r == polarity_code(c),
        r < 2,
{
    match c {
        CompPolarityConfig::ActiveLow => 0,
        CompPolarityConfig::ActiveHigh => 1,
    }
}

fn latching_code_of(c: CompLatchingConfig) -> (r: u8)
    ensures
        r == latching_code(c),
        r < 2,
{
    match c {
        CompLatchingConfig::NonLatching => 0,
        CompLatchingConfig::Latching => 1,
    }
}

fn queue_code_of(c: CompQueueDisableConfig) -> (r: u8)
    ensures
        r == queue_code(c),
        r < 4,
{
    match c {
        CompQueueDisableConfig::AssertAfterOne => 0,
        CompQueueDisableConfig::AssertAfterTwo => 1,
        CompQueueDisableConfig::AssertAfterFour => 2,
        CompQueueDisableConfig::DisableComp => 3,
    }
}

/// Selecting an input changes the mux field to that input and leaves every
/// other bit of the register as it was.
pub proof fn lemma_with_mux(reg: u16, code: u8)
    requires
        code < 8,
    ensures
        register_mux(with_mux(reg, code)) == code,
        with_mux(reg, code) & 0x8FFFu16 == reg & 0x8FFFu16,
{
    assert(register_mux(with_mux(reg, code)) == code as u16 && with_mux(reg, code) & 0x8FFFu16
        == reg & 0x8FFFu16) by (bit_vector)
        requires
            code < 8u8,
    ;
}

/// The register programmed from a configuration holds each setting in its
/// field.
pub proof fn lemma_config_fields(c: ADS1015Config)
    ensures
        register_mux(register_of(config_high(c), config_low(c))) == mux_code(c.mux_config),
        (register_of(config_high(c), config_low(c)) >> 9u16) & 7u16 == fsr_code(c.fsr_mode),
        (register_of(config_high(c), config_low(c)) >> 8u16) & 1u16 == op_code(c.op_mode),
        (register_of(config_high(c), config_low(c)) >> 5u16) & 7u16 == rate_code(c.data_rate),
        (register_of(config_high(c), config_low(c)) >> 4u16) & 1u16 == comp_mode_code(
            c.comparator_mode,
        ),
        (register_of(config_high(c), config_low(c)) >> 3u16) & 1u16 == polarity_code(
            c.comparator_polarity,
        ),
        (register_of(config_high(c), config_low(c)) >> 2u16) & 1u16 == latching_code(
            c.comparator_latching,
        ),
        register_of(config_high(c), config_low(c)) & 3u16 == queue_code(c.queue_and_disable),
{
    let m = mux_code(c.mux_config);
    let f = fsr_code(c.fsr_mode);
    let o = op_code(c.op_mode);
    let d = rate_code(c.data_rate);
    let cm = comp_mode_code(c.comparator_mode);
    let p = polarity_code(c.comparator_polarity);
    let l = latching_code(c.comparator_latching);
    let q = queue_code(c.queue_and_disable);
    let h = config_high(c);
    let lo = config_low(c);
    let reg = register_of(h, lo);
    assert(h == ((m << 4u8) | (f << 1u8) | o) as u8);
    assert(lo == ((d << 5u8) | (cm << 4u8) | (p << 3u8) | (l << 2u8) | q) as u8);
    assert(reg == (((h as u16) << 8u16) | (lo as u16)) as u16);
    assert({
        &&& (reg >> 12u16) & 7u16 == m as u16
        &&& (reg >> 9u16) & 7u16 == f as u16
        &&& (reg >> 8u16) & 1u16 == o as u16
        &&& (reg >> 5u16) & 7u16 == d as u16
        &&& (reg >> 4u16) & 1u16 == cm as u16
        &&& (reg >> 3u16) & 1u16 == p as u16
        &&& (reg >> 2u16) & 1u16 == l as u16
        &&& reg & 3u16 == q as u16
    }) by (bit_vector)
        requires
            m < 8u8,
            f < 8u8,
            o < 2u8,
            d < 8u8,
            cm < 2u8,
            p < 2u8,
            l < 2u8,
            q < 4u8,
            h == ((m << 4u8) | (f << 1u8) | o) as u8,
            lo == ((d << 5u8) | (cm << 4u8) | (p << 3u8) | (l << 2u8) | q) as u8,
            reg == (((h as u16) << 8u16) | (lo as u16)) as u16,
    ;
}

/// Input `k` (0 to 3) is selected by the single-ended code `4 + k` of the
/// converter's mux field (100 to 111 select AIN0 to AIN3): the register a
/// selection packet programs, and the register a configuration for that
/// input programs, read back input `k`.
pub proof fn lemma_mux_selects_input(reg: u16, k: u8, c: ADS1015Config)
    requires
        k < 4,
        c.mux_config == mux_of_value(k),
    ensures
        mux_code(mux_of_value(k)) == 4 + k,
        register_mux(with_mux(reg, mux_code(mux_of_value(k)))) == 4 + k,
        register_mux(register_of(config_high(c), config_low(c))) == 4 + k,
{
    lemma_with_mux(reg, mux_code(mux_of_value(k)));
    lemma_config_fields(c);
}

} // verus!
