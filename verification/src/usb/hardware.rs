//! The endpoint registers and the buffer descriptor table, as values.
//!
//! The status and data-toggle fields of an endpoint register flip where a 1
//! is written and stay where a 0 is written.  So a write is always composed
//! from a value that was just read: `stat_rx`, `stat_tx`, `dtogrx` and
//! `dtogtx` take that value and the state that is wanted, and put the
//! difference into the value to write.

use super::types::SetupHeader;
use vstd::prelude::*;

verus! {

/// Endpoint status: the endpoint ignores the host.
pub const STAT_DISABLED: u8 = 0;

/// Endpoint status: the endpoint answers with a stall.
pub const STAT_STALL: u8 = 1;

/// Endpoint status: the endpoint answers "not ready".
pub const STAT_NAK: u8 = 2;

/// Endpoint status: the endpoint takes part in the next transaction.
pub const STAT_VALID: u8 = 3;

/// Endpoint type of a control endpoint.
pub const UTYPE_CONTROL: u8 = 1;

/// An endpoint register as read.
#[derive(Clone, Copy, PartialEq, Eq, Structural, Debug)]
pub struct CheprR {
    /// Endpoint address.
    pub ea: u8,
    /// TX status, one of the four `STAT_` values.
    pub stattx: u8,
    /// TX data toggle.
    pub dtogtx: bool,
    /// A transmission has completed.
    pub vttx: bool,
    /// Endpoint type.
    pub utype: u8,
    /// The reception that completed was a SETUP.
    pub setup: bool,
    /// RX status, one of the four `STAT_` values.
    pub statrx: u8,
    /// RX data toggle.
    pub dtogrx: bool,
    /// A reception has completed.
    pub vtrx: bool,
}

/// A value to write to an endpoint register.  In the status and toggle fields
/// a set bit flips the bit of the register; a completion flag is cleared by
/// writing 0 and left alone by writing 1; address and type are stored as
/// written.
#[derive(Clone, Copy, PartialEq, Eq, Structural, Debug)]
pub struct CheprW {
    pub ea: u8,
    pub stattx: u8,
    pub dtogtx: bool,
    pub vttx: bool,
    pub utype: u8,
    pub statrx: u8,
    pub dtogrx: bool,
    pub vtrx: bool,
}

/// Exclusive or of two status values, kept to the two bits of the field.
pub open spec fn stat_xor(a: u8, b: u8) -> u8 {
    (a ^ b) & 3
}

/// Flipping by the difference to `s` gives `s`, and flipping by nothing
/// changes nothing.
pub proof fn lemma_stat_xor(c: u8, s: u8)
    ensures
        stat_xor(c, s) < 4,
        c < 4 && s < 4 ==> stat_xor(c, stat_xor(c, s)) == s,
        c < 4 ==> stat_xor(c, 0) == c,
{
    assert((c ^ s) & 3 < 4) by (bit_vector);
    assert(c < 4 && s < 4 ==> (c ^ ((c ^ s) & 3)) & 3 == s) by (bit_vector);
    assert(c < 4 ==> (c ^ 0) & 3 == c) by (bit_vector);
}

impl CheprR {
    /// Each field is within the width that the register gives it.
    pub open spec fn wf(self) -> bool {
        self.ea < 16 && self.stattx < 4 && self.utype < 4 && self.statrx < 4
    }

    /// The register after `w` has been written to it.
    pub open spec fn written(self, w: CheprW) -> CheprR {
        CheprR {
            ea: w.ea,
            stattx: stat_xor(self.stattx, w.stattx),
            dtogtx: self.dtogtx != w.dtogtx,
            vttx: self.vttx && w.vttx,
            utype: w.utype,
            setup: self.setup,
            statrx: stat_xor(self.statrx, w.statrx),
            dtogrx: self.dtogrx != w.dtogrx,
            vtrx: self.vtrx && w.vtrx,
        }
    }

    /// What the register holds once `w` has been written to it: the model of
    /// the hardware that the rest of this module is written against.
    pub fn after_write(&self, w: &CheprW) -> (r: CheprR)
        ensures
            r == self.written(*w),
    {
        CheprR {
            ea: w.ea,
            stattx: (self.stattx ^ w.stattx) & 3,
            dtogtx: self.dtogtx != w.dtogtx,
            vttx: self.vttx && w.vttx,
            utype: w.utype,
            setup: self.setup,
            statrx: (self.statrx ^ w.statrx) & 3,
            dtogrx: self.dtogrx != w.dtogrx,
            vtrx: self.vtrx && w.vtrx,
        }
    }
}

impl CheprW {
    /// The value that changes nothing but clears address, type and both
    /// completion flags: every field zero.
    pub open spec fn zero() -> CheprW {
        CheprW {
            ea: 0,
            stattx: 0,
            dtogtx: false,
            vttx: false,
            utype: 0,
            statrx: 0,
            dtogrx: false,
            vtrx: false,
        }
    }

    pub open spec fn to_endpoint(self, ea: u8, utype: u8) -> CheprW {
        CheprW { utype, ea, vttx: true, vtrx: true, ..self }
    }

    pub open spec fn to_control(self) -> CheprW {
        self.to_endpoint(0, UTYPE_CONTROL)
    }

    pub open spec fn to_stat_rx(self, c: CheprR, s: u8) -> CheprW {
        CheprW { statrx: stat_xor(c.statrx, s), ..self }
    }

    pub open spec fn to_stat_tx(self, c: CheprR, s: u8) -> CheprW {
        CheprW { stattx: stat_xor(c.stattx, s), ..self }
    }

    pub open spec fn to_dtogrx(self, c: CheprR, t: bool) -> CheprW {
        CheprW { dtogrx: c.dtogrx != t, ..self }
    }

    pub open spec fn to_dtogtx(self, c: CheprR, t: bool) -> CheprW {
        CheprW { dtogtx: c.dtogtx != t, ..self }
    }

    pub open spec fn to_init(self, c: CheprR) -> CheprW {
        self.to_stat_rx(c, 0).to_stat_tx(c, 0).to_dtogrx(c, false).to_dtogtx(c, false)
    }

    pub open spec fn to_rx_valid(self, c: CheprR) -> CheprW {
        self.to_stat_rx(c, STAT_VALID)
    }

    pub open spec fn to_tx_valid(self, c: CheprR) -> CheprW {
        self.to_stat_tx(c, STAT_VALID)
    }

    pub open spec fn to_tx_nak(self, c: CheprR) -> CheprW {
        self.to_stat_tx(c, STAT_NAK)
    }

    pub open spec fn to_clear_vtrx(self) -> CheprW {
        CheprW { vtrx: false, ..self }
    }

    pub open spec fn to_clear_vttx(self) -> CheprW {
        CheprW { vttx: false, ..self }
    }

    /// A fresh value to write: every field zero.
    pub fn new() -> (w: CheprW)
        ensures
            w == CheprW::zero(),
    {
        CheprW {
            ea: 0,
            stattx: 0,
            dtogtx: false,
            vttx: false,
            utype: 0,
            statrx: 0,
            dtogrx: false,
            vtrx: false,
        }
    }

    /// Acknowledge a completed reception.
    pub fn clear_vtrx(&mut self) -> (r: &mut Self)
        ensures
            *r == old(self).to_clear_vtrx(),
            *final(self) == *final(r),
    {
        self.vtrx = false;
        self
    }

    /// Acknowledge a completed transmission.
    pub fn clear_vttx(&mut self) -> (r: &mut Self)
        ensures
            *r == old(self).to_clear_vttx(),
            *final(self) == *final(r),
    {
        self.vttx = false;
        self
    }
}

/// A write that is composed from the value `c` just read brings status and
/// data toggle of both directions to what was asked for, whatever they were.
pub proof fn lemma_write_reaches(c: CheprR, w: CheprW, rx: u8, tx: u8, trx: bool, ttx: bool)
    requires
        c.wf(),
        rx < 4,
        tx < 4,
    ensures
        c.written(w.to_stat_rx(c, rx)).statrx == rx,
        c.written(w.to_stat_tx(c, tx)).stattx == tx,
        c.written(w.to_dtogrx(c, trx)).dtogrx == trx,
        c.written(w.to_dtogtx(c, ttx)).dtogtx == ttx,
{
    lemma_stat_xor(c.statrx, rx);
    lemma_stat_xor(c.stattx, tx);
}

/// A write leaves alone the status and toggle fields that it holds no
/// difference for, and the completion flags that it holds a 1 for.
pub proof fn lemma_write_keeps(c: CheprR, w: CheprW)
    requires
        c.wf(),
    ensures
        w.statrx == 0 ==> c.written(w).statrx == c.statrx,
        w.stattx == 0 ==> c.written(w).stattx == c.stattx,
        !w.dtogrx ==> c.written(w).dtogrx == c.dtogrx,
        !w.dtogtx ==> c.written(w).dtogtx == c.dtogtx,
        w.vtrx ==> c.written(w).vtrx == c.vtrx,
        w.vttx ==> c.written(w).vttx == c.vttx,
        !w.vtrx ==> !c.written(w).vtrx,
        !w.vttx ==> !c.written(w).vttx,
        c.written(w).setup == c.setup,
{
    lemma_stat_xor(c.statrx, 0);
    lemma_stat_xor(c.stattx, 0);
}

pub trait CheprWriter: Sized {
    /// The value that a write of `self` puts on the bus.
    spec fn value(&self) -> CheprW;

    /// Address the control endpoint.
    fn control(&mut self) -> (r: &mut Self)
        ensures
            r.value() == old(self).value().to_control(),
            *final(self) == *final(r),
    {
        self.endpoint(0, UTYPE_CONTROL)
    }

    /// Bring status and toggles of both directions to zero.
    fn init(&mut self, c: &CheprR) -> (r: &mut Self)
        ensures
            r.value() == old(self).value().to_init(*c),
            *final(self) == *final(r),
    {
        self.stat_rx(c, 0).stat_tx(c, 0).dtogrx(c, false).dtogtx(c, false)
    }

    fn rx_valid(&mut self, c: &CheprR) -> (r: &mut Self)
        ensures
            r.value() == old(self).value().to_rx_valid(*c),
            *final(self) == *final(r),
    {
        self.stat_rx(c, STAT_VALID)
    }

    fn tx_valid(&mut self, c: &CheprR) -> (r: &mut Self)
        ensures
            r.value() == old(self).value().to_tx_valid(*c),
            *final(self) == *final(r),
    {
        self.stat_tx(c, STAT_VALID)
    }

    fn tx_nak(&mut self, c: &CheprR) -> (r: &mut Self)
        ensures
            r.value() == old(self).value().to_tx_nak(*c),
            *final(self) == *final(r),
    {
        self.stat_tx(c, STAT_NAK)
    }

    /// Set address and type, and leave both completion flags alone.
    fn endpoint(&mut self, ea: u8, utype: u8) -> (r: &mut Self)
        ensures
            r.value() == old(self).value().to_endpoint(ea, utype),
            *final(self) == *final(r),
    ;

    /// Bring the RX status from what `c` shows to `s`.  Of `s` the two low
    /// bits count.
    fn stat_rx(&mut self, c: &CheprR, s: u8) -> (r: &mut Self)
        ensures
            r.value() == old(self).value().to_stat_rx(*c, s),
            *final(self) == *final(r),
    ;

    /// Bring the TX status from what `c` shows to `s`.  Of `s` the two low
    /// bits count.
    fn stat_tx(&mut self, c: &CheprR, s: u8) -> (r: &mut Self)
        ensures
            r.value() == old(self).value().to_stat_tx(*c, s),
            *final(self) == *final(r),
    ;

    /// Bring the RX data toggle from what `c` shows to `t`.
    fn dtogrx(&mut self, c: &CheprR, t: bool) -> (r: &mut Self)
        ensures
            r.value() == old(self).value().to_dtogrx(*c, t),
            *final(self) == *final(r),
    ;

    /// Bring the TX data toggle from what `c` shows to `t`.
    fn dtogtx(&mut self, c: &CheprR, t: bool) -> (r: &mut Self)
        ensures
            r.value() == old(self).value().to_dtogtx(*c, t),
            *final(self) == *final(r),
    ;
}

impl CheprWriter for CheprW {
    open spec fn value(&self) -> CheprW {
        *self
    }

    fn stat_rx(&mut self, c: &CheprR, v: u8) -> (r: &mut Self) {
        self.statrx = (c.statrx ^ v) & 3;
        self
    }

    fn stat_tx(&mut self, c: &CheprR, v: u8) -> (r: &mut Self) {
        self.stattx = (c.stattx ^ v) & 3;
        self
    }

    fn dtogrx(&mut self, c: &CheprR, v: bool) -> (r: &mut Self) {
        self.dtogrx = c.dtogrx != v;
        self
    }

    fn dtogtx(&mut self, c: &CheprR, v: bool) -> (r: &mut Self) {
        self.dtogtx = c.dtogtx != v;
        self
    }

    fn endpoint(&mut self, ea: u8, utype: u8) -> (r: &mut Self) {
        self.utype = utype;
        self.ea = ea;
        self.vttx = true;
        self.vtrx = true;
        self
    }
}

pub trait CheprReader {
    /// The register value that `self` stands for.
    spec fn value(&self) -> CheprR;

    fn rx_disabled(&self) -> (b: bool)
        ensures
            b == (self.value().statrx == STAT_DISABLED),
    {
        self.stat_rx() == STAT_DISABLED
    }

    fn rx_nakking(&self) -> (b: bool)
        ensures
            b == (self.value().statrx == STAT_NAK),
    {
        self.stat_rx() == STAT_NAK
    }

    fn tx_nakking(&self) -> (b: bool)
        ensures
            b == (self.value().stattx == STAT_NAK),
    {
        self.stat_tx() == STAT_NAK
    }

    fn tx_active(&self) -> (b: bool)
        ensures
            b == (self.value().stattx == STAT_VALID),
    {
        self.stat_tx() == STAT_VALID
    }

    fn stat_rx(&self) -> (s: u8)
        ensures
            s == self.value().statrx,
    ;

    fn stat_tx(&self) -> (s: u8)
        ensures
            s == self.value().stattx,
    ;
}

impl CheprReader for CheprR {
    open spec fn value(&self) -> CheprR {
        *self
    }

    fn stat_rx(&self) -> (s: u8) {
        self.statrx
    }

    fn stat_tx(&self) -> (s: u8) {
        self.stattx
    }
}

/// Where the buffer memory of the controller starts.
pub const USB_SRAM_BASE: usize = 0x4001_6400;

/// Size of the buffer memory in bytes.
pub const USB_SRAM_SIZE: usize = 2048;

/// Offset of the control endpoint's RX buffer in the buffer memory.
pub const CTRL_RX_OFFSET: usize = 0xc0;

/// Offset of the control endpoint's TX buffer in the buffer memory.
pub const CTRL_TX_OFFSET: usize = 0x80;

/// Address of the control endpoint's RX buffer.
pub const CTRL_RX_BUF: usize = USB_SRAM_BASE + CTRL_RX_OFFSET;

/// Address of the control endpoint's TX buffer.
pub const CTRL_TX_BUF: usize = USB_SRAM_BASE + CTRL_TX_OFFSET;

/// Largest packet of the control endpoint.
pub const CTRL_PACKET_SIZE: usize = 64;

/// The TX descriptor for `len` bytes at `offset`: the offset in the low half,
/// the count in the high half.
pub open spec fn bd_tx(offset: int, len: int) -> int {
    offset + len * 0x1_0000
}

/// The byte count that a descriptor holds: ten bits above the low half.
pub open spec fn bd_len(bd: u32) -> int {
    (bd / 0x1_0000 % 0x400) as int
}

/// The address of the buffer that a descriptor names.
pub open spec fn bd_ptr(bd: u32) -> int {
    USB_SRAM_BASE + bd % 0x1_0000
}

/// The sizes that an RX buffer can have: 1023, a multiple of 32 up to 1024,
/// or an even number below 64.
pub open spec fn block_size_ok(size: int) -> bool {
    size == 1023 || (size % 32 == 0 && 0 < size <= 1024) || (size % 2 == 0 && 0 <= size < 64)
}

/// The six bits that stand for an RX buffer size.
pub open spec fn block_code(size: int) -> int {
    if size == 1023 {
        63
    } else if size % 32 == 0 && 0 < size <= 1024 {
        size / 32 + 31
    } else {
        size / 2
    }
}

/// The RX descriptor for a buffer of `size` bytes at `offset`: the size code
/// in the six high bits, the offset below.
pub open spec fn bd_rx(offset: int, size: int) -> int {
    block_code(size) * 0x400_0000 + offset
}

/// A pair of buffer descriptors, as the table in the buffer memory holds one
/// for each endpoint.
#[derive(Clone, Copy, PartialEq, Eq, Structural, Debug)]
pub struct BD {
    pub tx: u32,
    pub rx: u32,
}

impl BD {
    /// Point the TX descriptor at `len` bytes at address `ptr`.
    pub fn tx_set(&mut self, ptr: usize, len: usize)
        requires
            ptr >= USB_SRAM_BASE,
            bd_tx(ptr - USB_SRAM_BASE, len as int) <= u32::MAX,
        ensures
            final(self).tx == bd_tx(ptr - USB_SRAM_BASE, len as int),
            final(self).rx == old(self).rx,
    {
        let offset = ptr - USB_SRAM_BASE;
        self.tx = (len * 65536 + offset) as u32;
    }

    /// Point the RX descriptor at a buffer of `BLK_SIZE` bytes at address
    /// `ptr`.
    pub fn rx_set<const BLK_SIZE: usize>(&mut self, ptr: usize)
        requires
            ptr >= USB_SRAM_BASE,
            block_size_ok(BLK_SIZE as int),
            ptr - USB_SRAM_BASE + BLK_SIZE <= USB_SRAM_SIZE,
        ensures
            final(self).rx == bd_rx(ptr - USB_SRAM_BASE, BLK_SIZE as int),
            final(self).tx == old(self).tx,
    {
        self.rx = chep_block::<BLK_SIZE>(ptr - USB_SRAM_BASE);
    }
}

/// The descriptor pair of the control endpoint: the first of the table.
pub fn bd_control(table: &[BD; 8]) -> (bd: &BD)
    ensures
        *bd == table[0],
{
    &table[0]
}

/// Return a Buffer Descriptor value for a RX block.
pub fn chep_block<const BLK_SIZE: usize>(offset: usize) -> (bd: u32)
    requires
        block_size_ok(BLK_SIZE as int),
        offset + BLK_SIZE <= USB_SRAM_SIZE,
    ensures
        bd == bd_rx(offset as int, BLK_SIZE as int),
        bd_ptr(bd) == USB_SRAM_BASE + offset,
{
    let code: u32 = if BLK_SIZE == 1023 {
        63
    } else if BLK_SIZE % 32 == 0 && BLK_SIZE > 0 && BLK_SIZE <= 1024 {
        (BLK_SIZE / 32 + 31) as u32
    } else {
        (BLK_SIZE / 2) as u32
    };
    let low: u32 = offset as u32;
    assert(code < 64 && low <= 2048 ==> code << 26 == code * 0x400_0000 && (code << 26) + low
        <= 0xffff_ffff && ((code << 26) + low) % 0x1_0000 == low) by (bit_vector);
    (code << 26) + low
}

/// Create a Buffer Descriptor value for TX.
pub fn chep_bd_tx(offset: usize, len: usize) -> (bd: u32)
    requires
        bd_tx(offset as int, len as int) <= u32::MAX,
    ensures
        bd == bd_tx(offset as int, len as int),
{
    offset as u32 + len as u32 * 65536
}

/// Return the byte count from a Buffer Descriptor value.
pub fn chep_bd_len(bd: u32) -> (len: usize)
    ensures
        len == bd_len(bd),
{
    assert(bd >> 16 & 0x3ff == bd / 0x1_0000 % 0x400) by (bit_vector);
    (bd >> 16 & 0x3ff) as usize
}

/// Return the address of the buffer for a Buffer Descriptor.
pub fn chep_bd_ptr(bd: u32) -> (ptr: usize)
    ensures
        ptr == bd_ptr(bd),
{
    assert(bd & 0xffff == bd % 0x1_0000) by (bit_vector);
    USB_SRAM_BASE + (bd & 0xffff) as usize
}

/// A TX descriptor gives back the offset and the count that it was made of.
pub proof fn lemma_bd_tx_round_trip(offset: int, len: int)
    requires
        0 <= offset < 0x1_0000,
        0 <= len < 0x400,
    ensures
        0 <= bd_tx(offset, len) <= u32::MAX,
        bd_len(bd_tx(offset, len) as u32) == len,
        bd_ptr(bd_tx(offset, len) as u32) == USB_SRAM_BASE + offset,
{
}

/// An RX descriptor gives back the offset that it was made of, for every
/// buffer size there is.
pub proof fn lemma_bd_rx_offset(offset: int, size: int)
    requires
        0 <= offset < 0x1_0000,
        block_size_ok(size),
    ensures
        0 <= block_code(size) < 64,
        0 <= bd_rx(offset, size) <= u32::MAX,
        bd_ptr(bd_rx(offset, size) as u32) == USB_SRAM_BASE + offset,
{
    let code = block_code(size);
    assert(0 <= code < 64);
    assert((code * 0x400_0000 + offset) % 0x1_0000 == offset) by (nonlinear_arith)
        requires
            0 <= code < 64,
            0 <= offset < 0x1_0000,
    ;
}

/// The interrupt flags that a handler acknowledges when it has seen them.
pub const ISTR_FLAGS: u32 = 0x37fc0;

/// The interrupt status register as read.
#[derive(Clone, Copy, PartialEq, Eq, Structural, Debug)]
pub struct IstrR {
    /// The whole register.  Its five low bits name the transfer that
    /// completed: 0 to 7 for a transmission of endpoint 0 to 7, 16 to 23 for
    /// a reception.
    pub bits: u32,
    /// A transfer has completed.
    pub ctr: bool,
    /// The bus was reset.
    pub rst_dcon: bool,
    /// A frame has started.
    pub sof: bool,
    /// The transfer that completed was a reception.
    pub dir: bool,
}

/// What the control endpoint has received: its RX descriptor, and the first
/// eight bytes of its RX buffer.
#[derive(Clone, Copy, Debug)]
pub struct ControlRx {
    pub bd: u32,
    pub setup: [u8; 8],
}

/// One operation on the hardware.  A handler returns the operations that its
/// caller has to carry out, in their order.
#[derive(Clone, Copy, Debug)]
pub enum Action {
    /// Acknowledge these flags of the interrupt status register, and no
    /// others.
    Acknowledge(u32),
    /// Take the controller out of power-down and reset, with the interrupts
    /// for bus reset, transfer complete and start of frame enabled.
    EnableController,
    /// Enable the function under this address.
    SetAddress(u8),
    /// Copy these bytes, at most 64, to the control endpoint's TX buffer.
    LoadTx(&'static [u8]),
    /// Write the control endpoint's TX descriptor.
    WriteTxBd(u32),
    /// Write the control endpoint's RX descriptor.
    WriteRxBd(u32),
    /// Write the control endpoint's register.
    WriteChep(CheprW),
    /// Initialize the hardware of all seven endpoint pairs.
    InitializeEndpoints,
    /// Run routine `Handler(n)` of the handler that answered the request with
    /// this header.
    Callback(u32, SetupHeader),
}

/// An `Action` with its bytes as a sequence.
pub ghost enum ActionView {
    Acknowledge(u32),
    EnableController,
    SetAddress(u8),
    LoadTx(Seq<u8>),
    WriteTxBd(u32),
    WriteRxBd(u32),
    WriteChep(CheprW),
    InitializeEndpoints,
    Callback(u32, SetupHeader),
}

impl View for Action {
    type V = ActionView;

    open spec fn view(&self) -> ActionView {
        match *self {
            Action::Acknowledge(flags) => ActionView::Acknowledge(flags),
            Action::EnableController => ActionView::EnableController,
            Action::SetAddress(a) => ActionView::SetAddress(a),
            Action::LoadTx(data) => ActionView::LoadTx(data@),
            Action::WriteTxBd(bd) => ActionView::WriteTxBd(bd),
            Action::WriteRxBd(bd) => ActionView::WriteRxBd(bd),
            Action::WriteChep(w) => ActionView::WriteChep(w),
            Action::InitializeEndpoints => ActionView::InitializeEndpoints,
            Action::Callback(n, h) => ActionView::Callback(n, h),
        }
    }
}

impl DeepView for Action {
    type V = ActionView;

    open spec fn deep_view(&self) -> ActionView {
        self@
    }
}

/// Appends one operation to a list of operations.
pub fn emit(actions: &mut Vec<Action>, a: Action)
    ensures
        final(actions).deep_view() == old(actions).deep_view().push(a@),
{
    actions.push(a);
    assert(actions.deep_view() =~= old(actions).deep_view().push(a@));
}

} // verus!
