//! The vocabulary shared with the USB stack: directions, endpoint addresses, transfer types,
//! events and errors.
use vstd::prelude::*;

verus! {

/// Direction of USB traffic, seen from the host.
#[derive(Copy, Clone, Debug, PartialEq, Eq, Structural)]
pub enum Direction {
    /// Host to device.
    Out,
    /// Device to host.
    In,
}

/// Transfer type of an endpoint.
#[derive(Copy, Clone, Debug, PartialEq, Eq, Structural)]
pub enum EndpointType {
    /// Control transfers, used for device management.
    Control,
    /// Isochronous transfers.
    Isochronous,
    /// Bulk transfers.
    Bulk,
    /// Interrupt transfers.
    Interrupt,
}

/// Address of an endpoint, as the byte that descriptors carry: the direction in the top bit, the
/// endpoint number below it.
#[derive(Copy, Clone, Debug, PartialEq, Eq, Structural)]
pub struct EndpointAddress {
    /// The address byte.
    pub byte: u8,
}

/// Number of endpoints that an address can tell apart in one direction.
pub const MAX_ENDPOINTS: usize = 128;

/// `embassy_usb_driver::EndpointAddress::index`: the address byte without its direction bit.
#[verifier::external_body]
fn address_index(byte: u8) -> (r: usize)
    ensures
        r == byte % 128,
{
    embassy_usb_driver::EndpointAddress::from(byte).index()
}

/// `embassy_usb_driver::EndpointAddress::direction`: IN exactly when the top bit of the address
/// byte is set.
#[verifier::external_body]
fn address_direction(byte: u8) -> (r: Direction)
    ensures
        r == if byte >= 128 {
            Direction::In
        } else {
            Direction::Out
        },
{
    match embassy_usb_driver::EndpointAddress::from(byte).direction() {
        embassy_usb_driver::Direction::Out => Direction::Out,
        embassy_usb_driver::Direction::In => Direction::In,
    }
}

/// `embassy_usb_driver::EndpointAddress::from_parts`: the low byte of the index, with the top bit
/// set for IN and left as it is for OUT.
#[verifier::external_body]
fn address_from_parts(index: usize, dir: Direction) -> (r: u8)
    ensures
        dir is In ==> r == 128 + index % 128,
        dir is Out ==> r == index % 256,
{
    let dir = match dir {
        Direction::Out => embassy_usb_driver::Direction::Out,
        Direction::In => embassy_usb_driver::Direction::In,
    };
    u8::from(embassy_usb_driver::EndpointAddress::from_parts(index, dir))
}

impl EndpointAddress {
    /// The endpoint number in an address.
    pub open spec fn number(self) -> int {
        self.byte as int % 128
    }

    /// The direction in an address.
    pub open spec fn heading(self) -> Direction {
        if self.byte >= 128 {
            Direction::In
        } else {
            Direction::Out
        }
    }

    /// The address that is made of an endpoint number and a direction.
    pub open spec fn of(index: int, dir: Direction) -> EndpointAddress {
        EndpointAddress {
            byte: match dir {
                Direction::In => (128 + index % 128) as u8,
                Direction::Out => (index % 256) as u8,
            },
        }
    }

    /// Constructs an address from an endpoint number and a direction.
    pub fn from_parts(index: usize, dir: Direction) -> (r: EndpointAddress)
        ensures
            r == EndpointAddress::of(index as int, dir),
    {
        EndpointAddress { byte: address_from_parts(index, dir) }
    }

    /// Gets the endpoint number.
    pub fn index(&self) -> (r: usize)
        ensures
            r == self.number(),
    {
        address_index(self.byte)
    }

    /// Gets the direction.
    pub fn direction(&self) -> (r: Direction)
        ensures
            r == self.heading(),
    {
        address_direction(self.byte)
    }

    /// An address gives back the number and the direction that it was made of, for every number
    /// that fits its seven bits.
    pub proof fn law_parts(index: int, dir: Direction)
        requires
            0 <= index < MAX_ENDPOINTS,
        ensures
            EndpointAddress::of(index, dir).number() == index,
            EndpointAddress::of(index, dir).heading() == dir,
    {
    }
}

/// What is known of an endpoint.
#[derive(Copy, Clone, Debug, PartialEq, Eq, Structural)]
pub struct EndpointInfo {
    /// The endpoint's address.
    pub addr: EndpointAddress,
    /// The endpoint's transfer type.
    pub ep_type: EndpointType,
    /// Maximum packet size, in bytes.
    pub max_packet_size: u16,
    /// Polling interval, in milliseconds.
    pub interval_ms: u8,
}

/// What the bus reports to the USB stack.
#[derive(Copy, Clone, Debug, PartialEq, Eq, Structural)]
pub enum Event {
    /// The bus was reset and the speed has been enumerated.
    Reset,
    /// The bus was suspended.
    Suspend,
    /// The bus was resumed.
    Resume,
    /// Power was detected on VBUS.
    PowerDetected,
    /// Power was removed from VBUS.
    PowerRemoved,
}

/// Allocating an endpoint failed.
#[derive(Copy, Clone, Debug, PartialEq, Eq, Structural)]
pub struct EndpointAllocError;

/// The operation is not supported by the driver.
#[derive(Copy, Clone, Debug, PartialEq, Eq, Structural)]
pub struct Unsupported;

/// Why a transfer failed.
#[derive(Copy, Clone, Debug, PartialEq, Eq, Structural)]
pub enum EndpointError {
    /// The packet is too long for the buffer.
    BufferOverflow,
    /// The endpoint is disabled.
    Disabled,
}

} // verus!
