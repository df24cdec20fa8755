//! The fields of the core's registers that the driver reads and writes.
//!
//! A register that is only ever written whole is a structure of plain values; a field left at
//! zero is written as zero. A register that is also updated in place is a structure of optional
//! values: `Some` names the fields that an access sets. A write puts zero in the others, an
//! update leaves them as they are.
use vstd::prelude::*;

verus! {

/// Device speed, as DCFG and DSTS encode it.
#[derive(Copy, Clone, Debug, PartialEq, Eq, Structural)]
pub enum Dspd {
    /// High speed.
    HighSpeed,
    /// Full speed over an external ULPI PHY.
    FullSpeedExternal,
    /// Full speed over the internal PHY.
    FullSpeedInternal,
}

/// Endpoint type, as the endpoint control registers encode it.
#[derive(Copy, Clone, Debug, PartialEq, Eq, Structural)]
pub enum Eptyp {
    /// Control.
    Control,
    /// Isochronous.
    Isochronous,
    /// Bulk.
    Bulk,
    /// Interrupt.
    Interrupt,
}

/// Periodic frame interval of DCFG.
#[derive(Copy, Clone, Debug, PartialEq, Eq, Structural)]
pub enum Pfivl {
    /// 80 % of the frame.
    FrameInterval80,
}

/// Packet status that is popped from the receive queue.
#[derive(Copy, Clone, Debug, PartialEq, Eq, Structural)]
pub enum Pktstsd {
    /// Data of an OUT packet.
    OutDataRx,
    /// End of an OUT transfer.
    OutDataDone,
    /// End of a SETUP stage.
    SetupDataDone,
    /// Data of a SETUP packet.
    SetupDataRx,
    /// Any other status, by its bits.
    Other(u8),
}

/// An entry popped from the receive status queue, GRXSTSP.
#[derive(Copy, Clone, Debug, PartialEq, Eq, Structural)]
pub struct RxStatus {
    /// Endpoint number.
    pub epnum: u8,
    /// Byte count.
    pub bcnt: u16,
    /// What the entry is about.
    pub pktstsd: Pktstsd,
}

/// OTG interrupts, GOTGINT, as read.
#[derive(Copy, Clone, Debug, PartialEq, Eq, Structural)]
pub struct Gotgint {
    /// The register's bits.
    pub bits: u32,
    /// Session end detected.
    pub sedet: bool,
}

/// Interrupts of one IN endpoint, DIEPINT, as read.
#[derive(Copy, Clone, Debug, PartialEq, Eq, Structural)]
pub struct Diepint {
    /// The register's bits.
    pub bits: u32,
    /// Transmit FIFO empty.
    pub txfe: bool,
}

/// Interrupts of one OUT endpoint, DOEPINT, as read.
#[derive(Copy, Clone, Debug, PartialEq, Eq, Structural)]
pub struct Doepint {
    /// The register's bits.
    pub bits: u32,
    /// SETUP phase done.
    pub stup: bool,
    /// Transfer completed.
    pub xfrc: bool,
}

/// What the driver reads of an endpoint control register, DIEPCTL or DOEPCTL.
#[derive(Copy, Clone, Debug, PartialEq, Eq, Structural)]
pub struct EpStatus {
    /// The endpoint is active.
    pub usbaep: bool,
    /// A transfer is enabled.
    pub epena: bool,
    /// The endpoint is stalled.
    pub stall: bool,
}

/// Core interrupts, GINTSTS: as read, or as written to clear the flags that are set.
#[derive(Copy, Clone, Debug, PartialEq, Eq)]
pub struct Gintsts {
    /// Resume detected.
    pub wkupint: bool,
    /// Suspend detected.
    pub usbsusp: bool,
    /// Bus reset detected.
    pub usbrst: bool,
    /// Speed enumeration done.
    pub enumdne: bool,
    /// An OTG interrupt is pending.
    pub otgint: bool,
    /// Session requested: VBUS is present.
    pub srqint: bool,
    /// The receive queue is not empty.
    pub rxflvl: bool,
    /// An IN endpoint interrupt is pending.
    pub iepint: bool,
    /// An OUT endpoint interrupt is pending.
    pub oepint: bool,
}

impl Gintsts {
    /// Every field at zero.
    pub open spec fn spec_none() -> Gintsts {
        Gintsts {
            wkupint: false,
            usbsusp: false,
            usbrst: false,
            enumdne: false,
            otgint: false,
            srqint: false,
            rxflvl: false,
            iepint: false,
            oepint: false,
        }
    }

    /// Every field at zero.
    #[verifier::when_used_as_spec(spec_none)]
    pub fn none() -> (r: Gintsts)
        ensures
            r == Gintsts::spec_none(),
    {
        Gintsts {
            wkupint: false,
            usbsusp: false,
            usbrst: false,
            enumdne: false,
            otgint: false,
            srqint: false,
            rxflvl: false,
            iepint: false,
            oepint: false,
        }
    }
}

/// Core interrupt mask, GINTMSK.
#[derive(Copy, Clone, Debug, PartialEq, Eq)]
pub struct Gintmsk {
    /// Bus reset.
    pub usbrst: bool,
    /// Speed enumeration done.
    pub enumdnem: bool,
    /// Suspend.
    pub usbsuspm: bool,
    /// Resume.
    pub wuim: bool,
    /// IN endpoints.
    pub iepint: bool,
    /// OUT endpoints.
    pub oepint: bool,
    /// Receive queue not empty.
    pub rxflvlm: bool,
    /// Session request.
    pub srqim: bool,
    /// OTG interrupts.
    pub otgint: bool,
}

impl Gintmsk {
    /// Every field at zero.
    pub open spec fn spec_none() -> Gintmsk {
        Gintmsk {
            usbrst: false,
            enumdnem: false,
            usbsuspm: false,
            wuim: false,
            iepint: false,
            oepint: false,
            rxflvlm: false,
            srqim: false,
            otgint: false,
        }
    }

    /// Every field at zero.
    #[verifier::when_used_as_spec(spec_none)]
    pub fn none() -> (r: Gintmsk)
        ensures
            r == Gintmsk::spec_none(),
    {
        Gintmsk {
            usbrst: false,
            enumdnem: false,
            usbsuspm: false,
            wuim: false,
            iepint: false,
            oepint: false,
            rxflvlm: false,
            srqim: false,
            otgint: false,
        }
    }
}

/// Bus configuration, GAHBCFG.
#[derive(Copy, Clone, Debug, PartialEq, Eq)]
pub struct Gahbcfg {
    /// Global interrupt enable.
    pub gint: bool,
    /// DMA burst length.
    pub hbstlen: u8,
    /// DMA enable.
    pub dmaen: bool,
}

/// USB configuration, GUSBCFG.
#[derive(Copy, Clone, Debug, PartialEq, Eq)]
pub struct Gusbcfg {
    /// Force device mode.
    pub fdmod: Option<bool>,
    /// Select the internal full-speed PHY.
    pub physel: Option<bool>,
    /// Turnaround time.
    pub trdt: Option<u8>,
}

impl Gusbcfg {
    /// No field set.
    pub open spec fn spec_none() -> Gusbcfg {
        Gusbcfg {
            fdmod: None,
            physel: None,
            trdt: None,
        }
    }

    /// No field set.
    #[verifier::when_used_as_spec(spec_none)]
    pub fn none() -> (r: Gusbcfg)
        ensures
            r == Gusbcfg::spec_none(),
    {
        Gusbcfg {
            fdmod: None,
            physel: None,
            trdt: None,
        }
    }
}

/// Reset control, GRSTCTL.
#[derive(Copy, Clone, Debug, PartialEq, Eq)]
pub struct Grstctl {
    /// Core soft reset.
    pub csrst: Option<bool>,
    /// Flush the receive FIFO.
    pub rxfflsh: Option<bool>,
    /// Flush a transmit FIFO.
    pub txfflsh: Option<bool>,
    /// Number of the transmit FIFO to flush.
    pub txfnum: Option<u8>,
}

impl Grstctl {
    /// No field set.
    pub open spec fn spec_none() -> Grstctl {
        Grstctl {
            csrst: None,
            rxfflsh: None,
            txfflsh: None,
            txfnum: None,
        }
    }

    /// No field set.
    #[verifier::when_used_as_spec(spec_none)]
    pub fn none() -> (r: Grstctl)
        ensures
            r == Grstctl::spec_none(),
    {
        Grstctl {
            csrst: None,
            rxfflsh: None,
            txfflsh: None,
            txfnum: None,
        }
    }
}

/// Transmit FIFO of one IN endpoint, DIEPTXF.
#[derive(Copy, Clone, Debug, PartialEq, Eq)]
pub struct Dieptxf {
    /// Depth, in words.
    pub fd: u16,
    /// Start address, in words.
    pub sa: u16,
}

/// Core configuration, GCCFG, first layout.
#[derive(Copy, Clone, Debug, PartialEq, Eq)]
pub struct GccfgV1 {
    /// Transceiver on.
    pub pwrdwn: Option<bool>,
    /// No VBUS sensing.
    pub novbussens: Option<bool>,
    /// Sense VBUS as an A device.
    pub vbusasen: Option<bool>,
    /// Sense VBUS as a B device.
    pub vbusbsen: Option<bool>,
    /// Start-of-frame output.
    pub sofouten: Option<bool>,
}

impl GccfgV1 {
    /// No field set.
    pub open spec fn spec_none() -> GccfgV1 {
        GccfgV1 {
            pwrdwn: None,
            novbussens: None,
            vbusasen: None,
            vbusbsen: None,
            sofouten: None,
        }
    }

    /// No field set.
    #[verifier::when_used_as_spec(spec_none)]
    pub fn none() -> (r: GccfgV1)
        ensures
            r == GccfgV1::spec_none(),
    {
        GccfgV1 {
            pwrdwn: None,
            novbussens: None,
            vbusasen: None,
            vbusbsen: None,
            sofouten: None,
        }
    }
}

/// Core configuration, GCCFG, second layout.
#[derive(Copy, Clone, Debug, PartialEq, Eq)]
pub struct GccfgV2 {
    /// Transceiver on.
    pub pwrdwn: Option<bool>,
    /// Internal high-speed PHY on.
    pub phyhsen: Option<bool>,
    /// VBUS detection.
    pub vbden: Option<bool>,
}

impl GccfgV2 {
    /// No field set.
    pub open spec fn spec_none() -> GccfgV2 {
        GccfgV2 {
            pwrdwn: None,
            phyhsen: None,
            vbden: None,
        }
    }

    /// No field set.
    #[verifier::when_used_as_spec(spec_none)]
    pub fn none() -> (r: GccfgV2)
        ensures
            r == GccfgV2::spec_none(),
    {
        GccfgV2 {
            pwrdwn: None,
            phyhsen: None,
            vbden: None,
        }
    }
}

/// Core configuration, GCCFG, third layout.
#[derive(Copy, Clone, Debug, PartialEq, Eq)]
pub struct GccfgV3 {
    /// Override the VBUS valid signal.
    pub vbvaloven: Option<bool>,
    /// Value of the override.
    pub vbvaloval: Option<bool>,
    /// VBUS detection.
    pub vbden: Option<bool>,
}

impl GccfgV3 {
    /// No field set.
    pub open spec fn spec_none() -> GccfgV3 {
        GccfgV3 {
            vbvaloven: None,
            vbvaloval: None,
            vbden: None,
        }
    }

    /// No field set.
    #[verifier::when_used_as_spec(spec_none)]
    pub fn none() -> (r: GccfgV3)
        ensures
            r == GccfgV3::spec_none(),
    {
        GccfgV3 {
            vbvaloven: None,
            vbvaloval: None,
            vbden: None,
        }
    }
}

/// OTG control, GOTGCTL.
#[derive(Copy, Clone, Debug, PartialEq, Eq)]
pub struct Gotgctl {
    /// Override the B-peripheral session valid signal.
    pub bvaloen: Option<bool>,
    /// Value of the override.
    pub bvaloval: Option<bool>,
}

impl Gotgctl {
    /// No field set.
    pub open spec fn spec_none() -> Gotgctl {
        Gotgctl {
            bvaloen: None,
            bvaloval: None,
        }
    }

    /// No field set.
    #[verifier::when_used_as_spec(spec_none)]
    pub fn none() -> (r: Gotgctl)
        ensures
            r == Gotgctl::spec_none(),
    {
        Gotgctl {
            bvaloen: None,
            bvaloval: None,
        }
    }
}

/// Device configuration, DCFG.
#[derive(Copy, Clone, Debug, PartialEq, Eq)]
pub struct Dcfg {
    /// Periodic frame interval.
    pub pfivl: Option<Pfivl>,
    /// Device speed.
    pub dspd: Option<Dspd>,
    /// Transceiver delay.
    pub xcvrdly: Option<bool>,
    /// Device address.
    pub dad: Option<u8>,
}

impl Dcfg {
    /// No field set.
    pub open spec fn spec_none() -> Dcfg {
        Dcfg {
            pfivl: None,
            dspd: None,
            xcvrdly: None,
            dad: None,
        }
    }

    /// No field set.
    #[verifier::when_used_as_spec(spec_none)]
    pub fn none() -> (r: Dcfg)
        ensures
            r == Dcfg::spec_none(),
    {
        Dcfg {
            pfivl: None,
            dspd: None,
            xcvrdly: None,
            dad: None,
        }
    }
}

/// Device control, DCTL.
#[derive(Copy, Clone, Debug, PartialEq, Eq)]
pub struct Dctl {
    /// Soft disconnect.
    pub sdis: Option<bool>,
    /// Clear the global IN NAK.
    pub cginak: Option<bool>,
}

impl Dctl {
    /// No field set.
    pub open spec fn spec_none() -> Dctl {
        Dctl {
            sdis: None,
            cginak: None,
        }
    }

    /// No field set.
    #[verifier::when_used_as_spec(spec_none)]
    pub fn none() -> (r: Dctl)
        ensures
            r == Dctl::spec_none(),
    {
        Dctl {
            sdis: None,
            cginak: None,
        }
    }
}

/// Interrupts that OUT endpoints raise, DOEPMSK.
#[derive(Copy, Clone, Debug, PartialEq, Eq)]
pub struct Doepmsk {
    /// SETUP phase done.
    pub stupm: bool,
    /// Transfer completed.
    pub xfrcm: bool,
    /// Endpoint disabled.
    pub epdm: bool,
    /// OUT token received while disabled.
    pub otepdm: bool,
}

impl Doepmsk {
    /// Every field at zero.
    pub open spec fn spec_none() -> Doepmsk {
        Doepmsk {
            stupm: false,
            xfrcm: false,
            epdm: false,
            otepdm: false,
        }
    }

    /// Every field at zero.
    #[verifier::when_used_as_spec(spec_none)]
    pub fn none() -> (r: Doepmsk)
        ensures
            r == Doepmsk::spec_none(),
    {
        Doepmsk {
            stupm: false,
            xfrcm: false,
            epdm: false,
            otepdm: false,
        }
    }
}

/// Endpoint interrupt mask, DAINTMSK.
#[derive(Copy, Clone, Debug, PartialEq, Eq)]
pub struct Daintmsk {
    /// IN endpoints, one bit each.
    pub iepm: Option<u16>,
    /// OUT endpoints, one bit each.
    pub oepm: Option<u16>,
}

impl Daintmsk {
    /// No field set.
    pub open spec fn spec_none() -> Daintmsk {
        Daintmsk {
            iepm: None,
            oepm: None,
        }
    }

    /// No field set.
    #[verifier::when_used_as_spec(spec_none)]
    pub fn none() -> (r: Daintmsk)
        ensures
            r == Daintmsk::spec_none(),
    {
        Daintmsk {
            iepm: None,
            oepm: None,
        }
    }
}

/// Endpoint control, DIEPCTL or DOEPCTL.
#[derive(Copy, Clone, Debug, PartialEq, Eq)]
pub struct Epctl {
    /// Maximum packet size.
    pub mpsiz: Option<u16>,
    /// Active endpoint.
    pub usbaep: Option<bool>,
    /// Endpoint type.
    pub eptyp: Option<Eptyp>,
    /// Stall.
    pub stall: Option<bool>,
    /// Transmit FIFO.
    pub txfnum: Option<u8>,
    /// Clear NAK.
    pub cnak: Option<bool>,
    /// Set NAK.
    pub snak: Option<bool>,
    /// DATA0, or even frame.
    pub sd0pid_sevnfrm: Option<bool>,
    /// DATA1, or odd frame.
    pub sd1pid_soddfrm: Option<bool>,
    /// Disable the transfer.
    pub epdis: Option<bool>,
    /// Enable the transfer.
    pub epena: Option<bool>,
}

impl Epctl {
    /// No field set.
    pub open spec fn spec_none() -> Epctl {
        Epctl {
            mpsiz: None,
            usbaep: None,
            eptyp: None,
            stall: None,
            txfnum: None,
            cnak: None,
            snak: None,
            sd0pid_sevnfrm: None,
            sd1pid_soddfrm: None,
            epdis: None,
            epena: None,
        }
    }

    /// No field set.
    #[verifier::when_used_as_spec(spec_none)]
    pub fn none() -> (r: Epctl)
        ensures
            r == Epctl::spec_none(),
    {
        Epctl {
            mpsiz: None,
            usbaep: None,
            eptyp: None,
            stall: None,
            txfnum: None,
            cnak: None,
            snak: None,
            sd0pid_sevnfrm: None,
            sd1pid_soddfrm: None,
            epdis: None,
            epena: None,
        }
    }
}

impl Epctl {
    /// What the driver reads of a control register that held `before`, after this update.
    pub open spec fn updated(self, before: EpStatus) -> EpStatus {
        EpStatus {
            usbaep: match self.usbaep {
                Some(value) => value,
                None => before.usbaep,
            },
            epena: match self.epena {
                Some(value) => value,
                None => before.epena,
            },
            stall: match self.stall {
                Some(value) => value,
                None => before.stall,
            },
        }
    }
}

/// Transfer size of an IN endpoint, DIEPTSIZ.
#[derive(Copy, Clone, Debug, PartialEq, Eq)]
pub struct Dieptsiz {
    /// Packets per frame.
    pub mcnt: u8,
    /// Packet count.
    pub pktcnt: u16,
    /// Transfer size, in bytes.
    pub xfrsiz: u32,
}

/// Transfer size of an OUT endpoint, DOEPTSIZ.
#[derive(Copy, Clone, Debug, PartialEq, Eq)]
pub struct Doeptsiz {
    /// SETUP packet count.
    pub rxdpid_stupcnt: Option<u8>,
    /// Packet count.
    pub pktcnt: Option<u16>,
    /// Transfer size, in bytes.
    pub xfrsiz: Option<u32>,
}

impl Doeptsiz {
    /// No field set.
    pub open spec fn spec_none() -> Doeptsiz {
        Doeptsiz {
            rxdpid_stupcnt: None,
            pktcnt: None,
            xfrsiz: None,
        }
    }

    /// No field set.
    #[verifier::when_used_as_spec(spec_none)]
    pub fn none() -> (r: Doeptsiz)
        ensures
            r == Doeptsiz::spec_none(),
    {
        Doeptsiz {
            rxdpid_stupcnt: None,
            pktcnt: None,
            xfrsiz: None,
        }
    }
}

} // verus!
