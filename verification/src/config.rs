//! What the driver is told of the hardware, and how it is to run.
use crate::registers::Dspd;
use vstd::prelude::*;

verus! {

/// USB PHY type.
#[derive(Copy, Clone, Debug, PartialEq, Eq, Structural)]
pub enum PhyType {
    /// Internal full-speed PHY.
    ///
    /// Available on most high-speed peripherals.
    InternalFullSpeed,
    /// Internal high-speed PHY.
    ///
    /// Available on a few STM32 chips.
    InternalHighSpeed,
    /// External ULPI full-speed PHY, or high-speed PHY in full-speed mode.
    ExternalFullSpeed,
    /// External ULPI high-speed PHY.
    ExternalHighSpeed,
}

impl PhyType {
    /// Whether this PHY is one of the internal types.
    pub open spec fn is_internal(self) -> bool {
        self is InternalFullSpeed || self is InternalHighSpeed
    }

    /// Whether this PHY is one of the high-speed types.
    pub open spec fn is_high_speed(self) -> bool {
        self is InternalHighSpeed || self is ExternalHighSpeed
    }

    /// The device speed that this PHY runs at.
    pub open spec fn speed(self) -> Dspd {
        if self.is_high_speed() {
            Dspd::HighSpeed
        } else if self.is_internal() {
            Dspd::FullSpeedInternal
        } else {
            Dspd::FullSpeedExternal
        }
    }

    /// Gets whether this PHY is any of the internal types.
    pub fn internal(&self) -> (r: bool)
        ensures
            r == self.is_internal(),
    {
        match self {
            PhyType::InternalFullSpeed | PhyType::InternalHighSpeed => true,
            PhyType::ExternalHighSpeed | PhyType::ExternalFullSpeed => false,
        }
    }

    /// Gets whether this PHY is any of the high-speed types.
    pub fn high_speed(&self) -> (r: bool)
        ensures
            r == self.is_high_speed(),
    {
        match self {
            PhyType::InternalFullSpeed | PhyType::ExternalFullSpeed => false,
            PhyType::ExternalHighSpeed | PhyType::InternalHighSpeed => true,
        }
    }

    /// Gets the value of DCFG.DSPD for this PHY.
    pub fn to_dspd(&self) -> (r: Dspd)
        ensures
            r == self.speed(),
    {
        match self {
            PhyType::InternalFullSpeed => Dspd::FullSpeedInternal,
            PhyType::InternalHighSpeed => Dspd::HighSpeed,
            PhyType::ExternalFullSpeed => Dspd::FullSpeedExternal,
            PhyType::ExternalHighSpeed => Dspd::HighSpeed,
        }
    }
}

/// USB driver configuration.
#[non_exhaustive]
#[derive(Copy, Clone, Debug, PartialEq, Eq, Structural)]
pub struct Config {
    /// Enable VBUS detection.
    ///
    /// The USB specification requires devices to monitor whether the cable is plugged in, by
    /// checking for 5 V on the VBUS pin. A bus-powered device may take it for granted; a
    /// self-powered device must set this.
    pub vbus_detection: bool,
    /// Enable transceiver delay.
    ///
    /// Some ULPI PHYs need a delay between the register write that starts the high-speed chirp
    /// and the transmit command that follows, or else the device enumerates in full-speed mode.
    pub xcvrdly: bool,
    /// Move packets with the core's internal DMA engine instead of the processor.
    ///
    /// Buffers must be 4-byte aligned, and the data cache is maintained around each transfer. In
    /// effect only where [`Features::dma`] is.
    pub dma_enable: bool,
}

impl Default for Config {
    fn default() -> (r: Config)
        ensures
            r == (Config { vbus_detection: false, xcvrdly: false, dma_enable: false }),
    {
        Config { vbus_detection: false, xcvrdly: false, dma_enable: false }
    }
}

/// Parts of the driver that a build has or leaves out.
#[derive(Copy, Clone, Debug, PartialEq, Eq, Structural)]
pub struct Features {
    /// DMA transfers, which are used where [`Config::dma_enable`] is set as well.
    pub dma: bool,
    /// The quirks of the AR8030's core.
    pub ar8030: bool,
}

/// Hardware-dependent configuration of one USB core.
#[derive(Copy, Clone, Debug, PartialEq, Eq, Structural)]
pub struct OtgInstance {
    /// FIFO depth in words.
    pub fifo_depth_words: u16,
    /// Number of used endpoints.
    pub endpoint_count: usize,
    /// The PHY type.
    pub phy_type: PhyType,
    /// Extra receive FIFO words needed by some implementations.
    pub extra_rx_fifo_words: u16,
    /// What the build holds.
    pub features: Features,
}

impl OtgInstance {
    /// Whether transfers go through the DMA engine under this configuration.
    pub open spec fn uses_dma(self, config: Config) -> bool {
        self.features.dma && config.dma_enable
    }

    /// Gets whether transfers go through the DMA engine under this configuration.
    pub fn dma_in_use(&self, config: &Config) -> (r: bool)
        ensures
            r == self.uses_dma(*config),
    {
        self.features.dma && config.dma_enable
    }
}

} // verus!
