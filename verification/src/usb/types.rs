//! Values exchanged between the control-transfer engine and the handlers of
//! set-up requests, and the standard descriptors.

use vstd::prelude::*;

verus! {

pub const TYPE_DEVICE: u8 = 1;

pub const TYPE_CONFIGURATION: u8 = 2;

pub const TYPE_STRING: u8 = 3;

pub const TYPE_INTERFACE: u8 = 4;

pub const TYPE_ENDPOINT: u8 = 5;

pub const TYPE_DEVICE_QUAL: u8 = 6;

pub const TYPE_INTF_ASSOC: u8 = 11;

pub const TYPE_DFU_FUNCTIONAL: u8 = 0x21;

pub const TYPE_CS_INTERFACE: u8 = 0x24;

pub struct DeviceDesc {
    pub length: u8,
    pub descriptor_type: u8,
    pub usb: u16,
    pub device_class: u8,
    pub device_sub_class: u8,
    pub device_protocol: u8,
    pub max_packet_size0: u8,
    pub vendor: u16,
    pub product: u16,
    pub device: u16,
    pub i_manufacturer: u8,
    pub i_product: u8,
    pub i_serial: u8,
    pub num_configurations: u8,
}

pub struct ConfigurationDesc {
    pub length: u8,
    pub descriptor_type: u8,
    pub total_length: u16,
    pub num_interfaces: u8,
    pub configuration_value: u8,
    pub i_configuration: u8,
    pub attributes: u8,
    pub max_power: u8,
}

pub struct InterfaceAssociation {
    pub length: u8,
    pub descriptor_type: u8,
    pub first_interface: u8,
    pub interface_count: u8,
    pub function_class: u8,
    pub function_sub_class: u8,
    pub function_protocol: u8,
    pub i_function: u8,
}

pub struct InterfaceDesc {
    pub length: u8,
    pub descriptor_type: u8,
    pub interface_number: u8,
    pub alternate_setting: u8,
    pub num_endpoints: u8,
    pub interface_class: u8,
    pub interface_sub_class: u8,
    pub interface_protocol: u8,
    pub i_interface: u8,
}

pub struct EndpointDesc {
    pub length: u8,
    pub descriptor_type: u8,
    pub endpoint_address: u8,
    pub attributes: u8,
    pub max_packet_size: u16,
    pub interval: u8,
}

impl InterfaceDesc {
    /// An interface descriptor with alternate setting 0.
    pub fn new(
        interface_number: u8,
        num_endpoints: u8,
        interface_class: u8,
        interface_sub_class: u8,
        interface_protocol: u8,
        i_interface: u8,
    ) -> (d: InterfaceDesc)
        ensures
            d == (InterfaceDesc {
                length: 9,
                descriptor_type: TYPE_INTERFACE,
                interface_number,
                alternate_setting: 0,
                num_endpoints,
                interface_class,
                interface_sub_class,
                interface_protocol,
                i_interface,
            }),
    {
        InterfaceDesc {
            length: 9,
            descriptor_type: TYPE_INTERFACE,
            interface_number,
            alternate_setting: 0,
            num_endpoints,
            interface_class,
            interface_sub_class,
            interface_protocol,
            i_interface,
        }
    }
}

impl EndpointDesc {
    pub fn new(endpoint_address: u8, attributes: u8, max_packet_size: u16, interval: u8) -> (d:
        EndpointDesc)
        ensures
            d == (EndpointDesc {
                length: 7,
                descriptor_type: TYPE_ENDPOINT,
                endpoint_address,
                attributes,
                max_packet_size,
                interval,
            }),
    {
        EndpointDesc {
            length: 7,
            descriptor_type: TYPE_ENDPOINT,
            endpoint_address,
            attributes,
            max_packet_size,
            interval,
        }
    }
}

#[allow(non_camel_case_types)]
pub struct CDC_ACM_Continuation {
    pub cdc: u16,
    pub call_management: u8,
    pub data_interface: u8,
    pub cdc_acm: u8,
    pub cdc_union: u8,
}

pub struct DeviceQualifier {
    pub length: u8,
    pub descriptor_type: u8,
    pub usb: u16,
    pub device_class: u8,
}

#[allow(non_camel_case_types)]
pub struct CDC_Header {
    pub length: u8,
    pub descriptor_type: u8,
    pub sub_type: u8,
    pub cdc: u16,
}

pub struct UnionFunctionalDesc<const NUM_INTF: usize> {
    pub length: u8,
    pub descriptor_type: u8,
    pub sub_type: u8,
    pub control_interface: u8,
    pub sub_interface: [u8; NUM_INTF],
}

pub struct CallManagementDesc {
    pub length: u8,
    pub descriptor_type: u8,
    pub sub_type: u8,
    pub capabilities: u8,
    pub data_interface: u8,
}

pub struct AbstractControlDesc {
    pub length: u8,
    pub descriptor_type: u8,
    pub sub_type: u8,
    pub capabilities: u8,
}

#[allow(non_camel_case_types)]
pub struct DFU_FunctionalDesc {
    pub length: u8,
    pub descriptor_type: u8,
    pub attributes: u8,
    pub detach_time_out: u16,
    pub transfer_size: u16,
    pub dfu_version: u16,
}

pub struct LineCoding {
    pub dte_rate: u32,
    pub char_format: u8,
    pub parity_type: u8,
    pub data_bits: u8,
}

impl Default for LineCoding {
    fn default() -> (r: LineCoding)
        ensures
            r == (LineCoding { dte_rate: 0, char_format: 0, parity_type: 0, data_bits: 0 }),
    {
        LineCoding { dte_rate: 0, char_format: 0, parity_type: 0, data_bits: 0 }
    }
}

/// The eight bytes that open a control transfer.
#[derive(Clone, Copy, PartialEq, Eq, Structural, Debug)]
pub struct SetupHeader {
    pub request_type: u8,
    pub request: u8,
    pub value_lo: u8,
    pub value_hi: u8,
    pub index: u16,
    pub length: u16,
}

impl Default for SetupHeader {
    fn default() -> (r: SetupHeader)
        ensures
            r == SetupHeader::empty(),
    {
        SetupHeader { request_type: 0, request: 0, value_lo: 0, value_hi: 0, index: 0, length: 0 }
    }
}

impl SetupHeader {
    /// The header with every field zero, which stands for "no transfer in hand".
    pub open spec fn empty() -> SetupHeader {
        SetupHeader { request_type: 0, request: 0, value_lo: 0, value_hi: 0, index: 0, length: 0 }
    }

    /// The header as it travels on the bus: eight bytes, multi-byte fields
    /// low byte first.
    pub open spec fn bytes(self) -> Seq<u8> {
        seq![
            self.request_type,
            self.request,
            self.value_lo,
            self.value_hi,
            (self.index % 256) as u8,
            (self.index / 256) as u8,
            (self.length % 256) as u8,
            (self.length / 256) as u8,
        ]
    }

    /// The header that eight bytes on the bus stand for.
    pub open spec fn parse(b: Seq<u8>) -> SetupHeader {
        SetupHeader {
            request_type: b[0],
            request: b[1],
            value_lo: b[2],
            value_hi: b[3],
            index: (b[4] + 0x100 * b[5]) as u16,
            length: (b[6] + 0x100 * b[7]) as u16,
        }
    }

    /// The header as two little-endian words, the way a word-wide buffer
    /// memory hands it out.
    pub open spec fn words(self) -> (u32, u32) {
        (
            (self.request_type + 0x100 * self.request + 0x1_0000 * self.value_lo + 0x100_0000
                * self.value_hi) as u32,
            (self.index + 0x1_0000 * self.length) as u32,
        )
    }

    /// Takes a header apart from the two words that hold it.
    pub fn new(w0: u32, w1: u32) -> (h: SetupHeader)
        ensures
            h.words() == (w0, w1),
            h.request_type == w0 % 0x100,
            h.request == w0 / 0x100 % 0x100,
            h.value_lo == w0 / 0x1_0000 % 0x100,
            h.value_hi == w0 / 0x100_0000,
            h.index == w1 % 0x1_0000,
            h.length == w1 / 0x1_0000,
    {
        let h = SetupHeader {
            request_type: (w0 & 0xff) as u8,
            request: ((w0 >> 8) & 0xff) as u8,
            value_lo: ((w0 >> 16) & 0xff) as u8,
            value_hi: (w0 >> 24) as u8,
            index: (w1 & 0xffff) as u16,
            length: (w1 >> 16) as u16,
        };
        assert(w0 & 0xff == w0 % 0x100 && (w0 >> 8) & 0xff == w0 / 0x100 % 0x100 && (w0 >> 16)
            & 0xff == w0 / 0x1_0000 % 0x100 && w0 >> 24 == w0 / 0x100_0000 && w0 >> 24 < 0x100)
            by (bit_vector);
        assert(w1 & 0xffff == w1 % 0x1_0000 && w1 >> 16 == w1 / 0x1_0000 && w1 >> 16 < 0x1_0000)
            by (bit_vector);
        assert(w0 == w0 % 0x100 + 0x100 * (w0 / 0x100 % 0x100) + 0x1_0000 * (w0 / 0x1_0000 % 0x100)
            + 0x100_0000 * (w0 / 0x100_0000)) by (bit_vector);
        assert(w1 == w1 % 0x1_0000 + 0x1_0000 * (w1 / 0x1_0000)) by (bit_vector);
        h
    }

    /// Reads a header in place from the first eight bytes of a packet buffer.
    pub fn from_ptr(ptr: &[u8; 8]) -> (h: SetupHeader)
        ensures
            h == SetupHeader::parse(ptr@),
            h.bytes() == ptr@,
            h.request_type == ptr[0],
            h.request == ptr[1],
            h.value_lo == ptr[2],
            h.value_hi == ptr[3],
            h.index == ptr[4] + 0x100 * ptr[5],
            h.length == ptr[6] + 0x100 * ptr[7],
    {
        let index: u16 = ptr[4] as u16 + 0x100 * (ptr[5] as u16);
        let length: u16 = ptr[6] as u16 + 0x100 * (ptr[7] as u16);
        let h = SetupHeader {
            request_type: ptr[0],
            request: ptr[1],
            value_lo: ptr[2],
            value_hi: ptr[3],
            index,
            length,
        };
        assert(h.bytes() =~= ptr@);
        h
    }

    /// The eight bytes of the header, as a packet buffer holds them.
    pub fn to_bytes(&self) -> (b: [u8; 8])
        ensures
            b@ == self.bytes(),
    {
        let b = [
            self.request_type,
            self.request,
            self.value_lo,
            self.value_hi,
            (self.index % 256) as u8,
            (self.index / 256) as u8,
            (self.length % 256) as u8,
            (self.length / 256) as u8,
        ];
        assert(b@ =~= self.bytes());
        b
    }

    /// Reading a header from eight bytes loses nothing and adds nothing: each
    /// of the six fields is fixed by the bytes, and the bytes by the fields.
    pub proof fn lemma_bytes_round_trip(a: SetupHeader, b: SetupHeader)
        ensures
            a.bytes().len() == 8,
            a.bytes() == b.bytes() <==> a == b,
    {
        if a.bytes() == b.bytes() {
            assert(a.bytes()[0] == b.bytes()[0]);
            assert(a.bytes()[1] == b.bytes()[1]);
            assert(a.bytes()[2] == b.bytes()[2]);
            assert(a.bytes()[3] == b.bytes()[3]);
            assert(a.bytes()[4] == b.bytes()[4]);
            assert(a.bytes()[5] == b.bytes()[5]);
            assert(a.bytes()[6] == b.bytes()[6]);
            assert(a.bytes()[7] == b.bytes()[7]);
            assert(a.index == a.index % 256 + 256 * (a.index / 256));
            assert(b.index == b.index % 256 + 256 * (b.index / 256));
            assert(a.length == a.length % 256 + 256 * (a.length / 256));
            assert(b.length == b.length % 256 + 256 * (b.length / 256));
        }
    }
}

/// What is to happen once the STATUS stage of a transfer that sent data (or an
/// empty acknowledgement) has completed.
#[derive(Clone, Copy, PartialEq, Eq, Structural, Debug)]
pub enum SetupTxCallback {
    /// Put the address that the request carried into the device address
    /// register.
    SetAddress,
    /// Run a routine of the handler that answered the request.  The number is
    /// of the handler's choosing and comes back to the caller unchanged,
    /// together with the header of the request.
    Handler(u32),
}

/// A predicate to run on OUT data once it has arrived.  The number is of the
/// handler's choosing; the caller runs the predicate that it stands for and
/// reports the verdict.
#[derive(Clone, Copy, PartialEq, Eq, Structural, Debug)]
pub struct SetupRxCallback {
    pub id: u32,
}

/// Result from processing a set-up.  It can indicate no-data, data TX, data RX
/// and error.
#[derive(Clone, Copy, Debug)]
pub enum SetupResult {
    /// Send these bytes, in packets of at most 64; the completion runs after
    /// the STATUS stage.
    Tx(&'static [u8], Option<SetupTxCallback>),
    /// Expect this many bytes of OUT data.  Length 0 without a predicate is
    /// the error value.
    Rx(usize, Option<SetupRxCallback>),
}

/// A `SetupResult` with its bytes as a sequence.
pub ghost enum SetupResultView {
    Tx(Seq<u8>, Option<SetupTxCallback>),
    Rx(usize, Option<SetupRxCallback>),
}

impl View for SetupResult {
    type V = SetupResultView;

    open spec fn view(&self) -> SetupResultView {
        match *self {
            SetupResult::Tx(data, cb) => SetupResultView::Tx(data@, cb),
            SetupResult::Rx(len, cb) => SetupResultView::Rx(len, cb),
        }
    }
}

impl SetupResultView {
    /// The value that stands for "no valid response".
    pub open spec fn error() -> SetupResultView {
        SetupResultView::Rx(0, None)
    }

    /// An empty packet: the acknowledgement of a request without data.
    pub open spec fn no_data() -> SetupResultView {
        SetupResultView::Tx(Seq::empty(), None)
    }
}

impl Default for SetupResult {
    fn default() -> (r: SetupResult)
        ensures
            r@ == SetupResultView::error(),
    {
        SetupResult::Rx(0, None)
    }
}

impl SetupResult {
    /// Send `data`, with nothing to run afterwards.
    pub fn tx_data(data: &'static [u8]) -> (r: SetupResult)
        ensures
            r@ == SetupResultView::Tx(data@, None),
    {
        SetupResult::Tx(data, None)
    }

    /// Send `data`, and run `cb` once the STATUS stage is through.
    pub fn tx_data_cb(data: &'static [u8], cb: SetupTxCallback) -> (r: SetupResult)
        ensures
            r@ == SetupResultView::Tx(data@, Some(cb)),
    {
        SetupResult::Tx(data, Some(cb))
    }

    /// Acknowledge with an empty packet.
    pub fn no_data() -> (r: SetupResult)
        ensures
            r@ == SetupResultView::no_data(),
    {
        let empty: &'static [u8; 0] = &[];
        let r = SetupResult::tx_data(empty);
        assert(r@ =~= SetupResultView::Tx(Seq::empty(), None)) by {
            assert(empty@ =~= Seq::<u8>::empty());
        }
        r
    }

    /// Acknowledge with an empty packet, and run `cb` once the STATUS stage is
    /// through.
    pub fn no_data_cb(cb: SetupTxCallback) -> (r: SetupResult)
        ensures
            r@ == SetupResultView::Tx(Seq::empty(), Some(cb)),
    {
        let empty: &'static [u8; 0] = &[];
        let r = SetupResult::tx_data_cb(empty, cb);
        assert(r@ =~= SetupResultView::Tx(Seq::empty(), Some(cb))) by {
            assert(empty@ =~= Seq::<u8>::empty());
        }
        r
    }

    /// Expect `len` bytes of OUT data, with no predicate to judge them.
    pub fn rx_data(len: usize) -> (r: SetupResult)
        ensures
            r@ == SetupResultView::Rx(len, None),
    {
        SetupResult::Rx(len, None)
    }

    /// Expect `len` bytes of OUT data, and let `cb` judge them.
    pub fn rx_data_cb(len: usize, cb: SetupRxCallback) -> (r: SetupResult)
        ensures
            r@ == SetupResultView::Rx(len, Some(cb)),
    {
        SetupResult::Rx(len, Some(cb))
    }

    /// The error value: the request is answered with a stall.
    pub fn error() -> (r: SetupResult)
        ensures
            r@ == SetupResultView::error(),
    {
        SetupResult::Rx(0, None)
    }

    pub fn is_tx(&self) -> (b: bool)
        ensures
            b == (self@ is Tx),
    {
        if let SetupResult::Tx(_, _) = self {
            true
        } else {
            false
        }
    }
}

} // verus!
