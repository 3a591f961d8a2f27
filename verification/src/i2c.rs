//! I2C master transactions over DMA: what to program for each kind of
//! transaction, and what the interrupt handler does with the status of the
//! controller.
//!
//! A transaction is started, runs on its own, and is over when nothing is
//! outstanding any more.  The interrupt handler is what moves it on.

use vstd::prelude::*;

verus! {

/// Outstanding: the stop condition of the I2C transaction.
pub const F_I2C: u8 = 1;

/// Outstanding: the DMA transfer from the controller.
pub const F_DMA_RX: u8 = 2;

/// Outstanding: the DMA transfer to the controller.
pub const F_DMA_TX: u8 = 4;

/// The state of the transaction in hand.
#[derive(Clone, Copy, PartialEq, Eq, Structural, Debug)]
pub struct I2cContext {
    /// What the transaction still waits for: flags `F_I2C`, `F_DMA_RX`,
    /// `F_DMA_TX`.  Zero when it is over.
    pub outstanding: u8,
    /// Nonzero when the transaction has failed.
    pub error: u8,
    /// The number of bytes to read once the bytes to write have gone out;
    /// zero where no read follows a write.
    pub pending_len: usize,
}

/// The flags of the status register that the interrupt handler goes by.
#[derive(Clone, Copy, PartialEq, Eq, Structural, Debug)]
pub struct I2cStatus {
    /// Transfer complete.
    pub tc: bool,
    /// A stop condition was seen.
    pub stopf: bool,
    /// Arbitration was lost.
    pub arlo: bool,
    /// Bus error.
    pub berr: bool,
    /// The slave did not acknowledge.
    pub nackf: bool,
}

/// A value for the second control register, which starts a transfer.  The
/// fields that are not named here are written as zero.
#[derive(Clone, Copy, PartialEq, Eq, Structural, Debug)]
pub struct Cr2 {
    /// Send a start condition.
    pub start: bool,
    /// Send a stop condition when the bytes are through.
    pub autoend: bool,
    /// Read from the slave.
    pub rd_wrn: bool,
    /// The address of the slave.
    pub sadd: u16,
    /// The number of bytes to transfer.
    pub nbytes: u8,
}

/// One operation on the I2C controller or on its DMA channels.  A handler
/// returns the operations that its caller has to carry out, in their order.
#[derive(Clone, Copy, PartialEq, Eq, Structural, Debug)]
pub enum I2cAction {
    /// Write the second control register.
    Start(Cr2),
    /// Write a byte to the transmit data register.
    Send(u8),
    /// Let the RX channel take `len` bytes to address `data`.
    DmaRead { data: usize, len: usize },
    /// Let the TX channel send `len` bytes from address `data`.
    DmaWrite { data: usize, len: usize },
    /// Clear the stop flag.
    ClearStop,
    /// Clear the flags for lost arbitration, bus error and missing
    /// acknowledge.
    ClearErrors,
    /// Read the status register once more, so that the interrupt is not
    /// taken again before the controller has caught up.
    Settle,
    /// Switch the controller off.
    Disable,
    /// Stop the TX channel.
    AbortTx,
    /// Stop the RX channel.
    AbortRx,
    /// Point the RX channel at the receive data register.
    RouteRx,
    /// Point the TX channel at the transmit data register.
    RouteTx,
    /// Switch the controller on, with DMA in both directions and the
    /// interrupts for missing acknowledge, errors, transfer complete and
    /// stop.
    Enable,
}

/// The number of bytes of a transfer as the controller counts them: in
/// eight bits.
pub open spec fn nbytes(len: usize) -> u8 {
    (len % 256) as u8
}

/// What the interrupt handler does on the status `status`, where the
/// address of the slave is `sadd`: the state after it and the operations, or
/// `None` where the status shows nothing that the handler knows of.
pub open spec fn isr_step(c: I2cContext, status: I2cStatus, sadd: u16) -> Option<
    (I2cContext, Seq<I2cAction>),
> {
    let seen = I2cContext { pending_len: 0, ..c };
    if c.pending_len != 0 && status.tc {
        Some(
            (
                seen,
                seq![
                    I2cAction::Start(
                        Cr2 {
                            start: true,
                            autoend: true,
                            rd_wrn: true,
                            sadd,
                            nbytes: nbytes(c.pending_len),
                        },
                    ),
                    I2cAction::Settle,
                ],
            ),
        )
    } else if status.stopf {
        Some(
            (
                I2cContext { outstanding: c.outstanding & !F_I2C, ..seen },
                seq![I2cAction::ClearStop, I2cAction::Settle],
            ),
        )
    } else if status.arlo || status.berr || status.nackf {
        Some(
            (
                I2cContext { outstanding: 0, error: 1, ..seen },
                seq![I2cAction::ClearErrors, I2cAction::Settle],
            ),
        )
    } else {
        None
    }
}

/// The operations that bring controller and DMA channels back after a
/// failed transaction.
pub open spec fn cleanup_actions() -> Seq<I2cAction> {
    seq![
        I2cAction::Disable,
        I2cAction::AbortTx,
        I2cAction::AbortRx,
        I2cAction::RouteRx,
        I2cAction::RouteTx,
        I2cAction::Enable,
    ]
}

/// What a caller that waits for a transaction has to do next.
#[derive(Debug)]
pub enum WaitStep {
    /// Something is outstanding: sleep until the next event and ask again.
    Sleep,
    /// The transaction is over and has gone well.
    Finished,
    /// The transaction is over and has failed.  These operations clean up
    /// after it.
    Failed(Vec<I2cAction>),
}

impl I2cContext {
    /// No transaction in hand.
    pub fn new() -> (c: I2cContext)
        ensures
            c == (I2cContext { outstanding: 0, error: 0, pending_len: 0 }),
    {
        I2cContext { outstanding: 0, error: 0, pending_len: 0 }
    }

    /// Starts to read `len` bytes to `data` from register `reg` of the slave
    /// at `addr`: the register number is written first, and the interrupt
    /// handler starts the read when that is through.
    pub fn read_reg_start(&mut self, addr: u8, reg: u8, data: usize, len: usize) -> (actions: Vec<
        I2cAction,
    >)
        ensures
            *final(self) == (I2cContext {
                outstanding: F_I2C | F_DMA_RX,
                error: 0,
                pending_len: len,
            }),
            actions@ == seq![
                I2cAction::Start(
                    Cr2 {
                        start: true,
                        autoend: false,
                        rd_wrn: false,
                        sadd: addr as u16,
                        nbytes: 1,
                    },
                ),
                I2cAction::Send(reg),
                I2cAction::DmaRead { data, len },
            ],
    {
        self.arm(F_I2C | F_DMA_RX);
        self.pending_len = len;
        let mut actions: Vec<I2cAction> = Vec::new();
        actions.push(
            I2cAction::Start(
                Cr2 { start: true, autoend: false, rd_wrn: false, sadd: addr as u16, nbytes: 1 },
            ),
        );
        actions.push(I2cAction::Send(reg));
        actions.push(I2cAction::DmaRead { data, len });
        actions
    }

    /// Starts to read `len` bytes to `data` from the slave at `addr`.
    pub fn read_start(&mut self, addr: u8, data: usize, len: usize) -> (actions: Vec<I2cAction>)
        ensures
            *final(self) == (I2cContext {
                outstanding: F_I2C | F_DMA_RX,
                error: 0,
                ..*old(self)
            }),
            actions@ == seq![
                I2cAction::DmaRead { data, len },
                I2cAction::Start(
                    Cr2 {
                        start: true,
                        autoend: true,
                        rd_wrn: true,
                        sadd: addr as u16,
                        nbytes: nbytes(len),
                    },
                ),
            ],
    {
        let mut actions: Vec<I2cAction> = Vec::new();
        actions.push(I2cAction::DmaRead { data, len });
        self.arm(F_I2C | F_DMA_RX);
        actions.push(
            I2cAction::Start(
                Cr2 {
                    start: true,
                    autoend: true,
                    rd_wrn: true,
                    sadd: addr as u16,
                    nbytes: low_byte(len),
                },
            ),
        );
        actions
    }

    /// Starts to write the `len` bytes at `data` to register `reg` of the
    /// slave at `addr`.  The register number counts as one byte more, so
    /// there is room for 254 bytes at most.
    pub fn write_reg_start(&mut self, addr: u8, reg: u8, data: usize, len: usize) -> (actions: Vec<
        I2cAction,
    >)
        requires
            nbytes(len) < 255,
        ensures
            *final(self) == (I2cContext {
                outstanding: F_I2C | F_DMA_TX,
                error: 0,
                ..*old(self)
            }),
            actions@ == seq![
                I2cAction::Start(
                    Cr2 {
                        start: true,
                        autoend: true,
                        rd_wrn: false,
                        sadd: addr as u16,
                        nbytes: (nbytes(len) + 1) as u8,
                    },
                ),
                I2cAction::Send(reg),
                I2cAction::DmaWrite { data, len },
            ],
    {
        self.arm(F_I2C | F_DMA_TX);
        let mut actions: Vec<I2cAction> = Vec::new();
        actions.push(
            I2cAction::Start(
                Cr2 {
                    start: true,
                    autoend: true,
                    rd_wrn: false,
                    sadd: addr as u16,
                    nbytes: low_byte(len) + 1,
                },
            ),
        );
        actions.push(I2cAction::Send(reg));
        actions.push(I2cAction::DmaWrite { data, len });
        actions
    }

    /// Starts to write the `len` bytes at `data` to the slave at `addr`,
    /// with a stop condition behind them if they are the `last`.
    pub fn write_start(&mut self, addr: u8, data: usize, len: usize, last: bool) -> (actions: Vec<
        I2cAction,
    >)
        ensures
            *final(self) == (I2cContext {
                outstanding: F_I2C | F_DMA_TX,
                error: 0,
                ..*old(self)
            }),
            actions@ == seq![
                I2cAction::Start(
                    Cr2 {
                        start: true,
                        autoend: last,
                        rd_wrn: false,
                        sadd: addr as u16,
                        nbytes: nbytes(len),
                    },
                ),
                I2cAction::DmaWrite { data, len },
            ],
    {
        self.arm(F_I2C | F_DMA_TX);
        let mut actions: Vec<I2cAction> = Vec::new();
        actions.push(
            I2cAction::Start(
                Cr2 {
                    start: true,
                    autoend: last,
                    rd_wrn: false,
                    sadd: addr as u16,
                    nbytes: low_byte(len),
                },
            ),
        );
        actions.push(I2cAction::DmaWrite { data, len });
        actions
    }

    /// Starts to write the `wlen` bytes at `wdata` to the slave at `addr`
    /// and then to read `rlen` bytes from it to `rdata`.  The interrupt
    /// handler starts the read when the write is through.
    pub fn write_read_start(
        &mut self,
        addr: u8,
        wdata: usize,
        wlen: usize,
        rdata: usize,
        rlen: usize,
    ) -> (actions: Vec<I2cAction>)
        ensures
            *final(self) == (I2cContext {
                outstanding: F_I2C | F_DMA_TX | F_DMA_RX,
                error: 0,
                pending_len: rlen,
            }),
            actions@ == seq![
                I2cAction::DmaWrite { data: wdata, len: wlen },
                I2cAction::DmaRead { data: rdata, len: rlen },
                I2cAction::Start(
                    Cr2 {
                        start: true,
                        autoend: false,
                        rd_wrn: false,
                        sadd: addr as u16,
                        nbytes: nbytes(wlen),
                    },
                ),
            ],
    {
        let mut actions: Vec<I2cAction> = Vec::new();
        actions.push(I2cAction::DmaWrite { data: wdata, len: wlen });
        actions.push(I2cAction::DmaRead { data: rdata, len: rlen });
        self.pending_len = rlen;
        self.arm(F_I2C | F_DMA_TX | F_DMA_RX);
        actions.push(
            I2cAction::Start(
                Cr2 {
                    start: true,
                    autoend: false,
                    rd_wrn: false,
                    sadd: addr as u16,
                    nbytes: low_byte(wlen),
                },
            ),
        );
        actions
    }

    /// A transaction begins: no error yet, and these `flags` outstanding.
    pub fn arm(&mut self, flags: u8)
        ensures
            *final(self) == (I2cContext { outstanding: flags, error: 0, ..*old(self) }),
    {
        self.error = 0;
        self.outstanding = flags;
    }

    /// Is the transaction over?
    pub fn done(&self) -> (b: bool)
        ensures
            b == (self.outstanding == 0),
    {
        self.outstanding == 0
    }

    /// One turn of waiting for the transaction.
    pub fn wait(&self) -> (step: WaitStep)
        ensures
            self.outstanding != 0 ==> step is Sleep,
            self.outstanding == 0 && self.error == 0 ==> step is Finished,
            self.outstanding == 0 && self.error != 0 ==> (step matches WaitStep::Failed(actions)
                && actions@ == cleanup_actions()),
    {
        if !self.done() {
            WaitStep::Sleep
        } else if self.error != 0 {
            WaitStep::Failed(self.error_cleanup())
        } else {
            WaitStep::Finished
        }
    }

    /// Clean-up the DMA and reset the I2C.
    pub fn error_cleanup(&self) -> (actions: Vec<I2cAction>)
        ensures
            actions@ == cleanup_actions(),
    {
        let mut actions: Vec<I2cAction> = Vec::new();
        actions.push(I2cAction::Disable);
        actions.push(I2cAction::AbortTx);
        actions.push(I2cAction::AbortRx);
        actions.push(I2cAction::RouteRx);
        actions.push(I2cAction::RouteTx);
        actions.push(I2cAction::Enable);
        actions
    }

    /// Whether the transaction has gone well, once it is over.
    pub fn result(&self) -> (r: Result<(), ()>)
        ensures
            r is Ok <==> self.error == 0,
    {
        if self.error == 0 {
            Ok(())
        } else {
            Err(())
        }
    }
}

/// The low eight bits of a length.
pub fn low_byte(len: usize) -> (b: u8)
    ensures
        b == nbytes(len),
{
    assert(len & 0xff == len % 256) by (bit_vector);
    (len & 0xff) as u8
}

/// The interrupt handler, for the status `status`; `sadd` is the address of
/// the slave as the second control register holds it.
///
/// When the bytes to write are through and a read waits, the read is
/// started.  A stop condition ends the I2C part of the transaction.  An
/// error ends all of it.  A status that shows none of these is not for this
/// handler: it returns `None` and changes nothing.
pub fn i2c_isr(context: &mut I2cContext, status: &I2cStatus, sadd: u16) -> (r: Option<
    Vec<I2cAction>,
>)
    ensures
        match isr_step(*old(context), *status, sadd) {
            Some((after, actions)) => *final(context) == after && (r matches Some(a) && a@
                == actions),
            None => *final(context) == *old(context) && r is None,
        },
{
    let pending = context.pending_len;
    let mut actions: Vec<I2cAction> = Vec::new();

    if pending != 0 && status.tc {
        // Assume write -> read transition.
        context.pending_len = 0;
        actions.push(
            I2cAction::Start(
                Cr2 { start: true, autoend: true, rd_wrn: true, sadd, nbytes: low_byte(pending) },
            ),
        );
    } else if status.stopf {
        context.pending_len = 0;
        actions.push(I2cAction::ClearStop);
        context.outstanding = context.outstanding & !F_I2C;
    } else if status.arlo || status.berr || status.nackf {
        context.pending_len = 0;
        actions.push(I2cAction::ClearErrors);
        context.outstanding = 0;
        context.error = 1;
    } else {
        return None;
    }
    // Stop the ISR from prematurely retriggering.
    actions.push(I2cAction::Settle);
    Some(actions)
}

/// The address byte of a slave for a write: its lowest bit clear.
pub fn write_address(addr: u8) -> (a: u8)
    ensures
        a == addr - addr % 2,
{
    assert(addr & !1u8 == addr - addr % 2) by (bit_vector);
    addr & !1
}

/// The address byte of a slave for a read: its lowest bit set.
pub fn read_address(addr: u8) -> (a: u8)
    ensures
        a == addr - addr % 2 + 1,
{
    assert(addr | 1u8 == addr - addr % 2 + 1) by (bit_vector);
    addr | 1
}

/// Starts to write the `len` bytes at `data` to the slave at `addr`.
pub fn write(context: &mut I2cContext, addr: u8, data: usize, len: usize) -> (actions: Vec<
    I2cAction,
>)
    ensures
        *final(context) == (I2cContext {
            outstanding: F_I2C | F_DMA_TX,
            error: 0,
            ..*old(context)
        }),
        actions@ == seq![
            I2cAction::Start(
                Cr2 {
                    start: true,
                    autoend: true,
                    rd_wrn: false,
                    sadd: (addr - addr % 2) as u16,
                    nbytes: nbytes(len),
                },
            ),
            I2cAction::DmaWrite { data, len },
        ],
{
    context.write_start(write_address(addr), data, len, true)
}

/// Starts to write the `len` bytes at `data` to register `reg` of the slave
/// at `addr`.
pub fn write_reg(context: &mut I2cContext, addr: u8, reg: u8, data: usize, len: usize) -> (actions:
    Vec<I2cAction>)
    requires
        nbytes(len) < 255,
    ensures
        *final(context) == (I2cContext {
            outstanding: F_I2C | F_DMA_TX,
            error: 0,
            ..*old(context)
        }),
        actions@ == seq![
            I2cAction::Start(
                Cr2 {
                    start: true,
                    autoend: true,
                    rd_wrn: false,
                    sadd: (addr - addr % 2) as u16,
                    nbytes: (nbytes(len) + 1) as u8,
                },
            ),
            I2cAction::Send(reg),
            I2cAction::DmaWrite { data, len },
        ],
{
    context.write_reg_start(write_address(addr), reg, data, len)
}

/// Starts to read `len` bytes to `data` from the slave at `addr`.
pub fn read(context: &mut I2cContext, addr: u8, data: usize, len: usize) -> (actions: Vec<
    I2cAction,
>)
    ensures
        *final(context) == (I2cContext {
            outstanding: F_I2C | F_DMA_RX,
            error: 0,
            ..*old(context)
        }),
        actions@ == seq![
            I2cAction::DmaRead { data, len },
            I2cAction::Start(
                Cr2 {
                    start: true,
                    autoend: true,
                    rd_wrn: true,
                    sadd: (addr - addr % 2 + 1) as u16,
                    nbytes: nbytes(len),
                },
            ),
        ],
{
    context.read_start(read_address(addr), data, len)
}

/// Starts to read `len` bytes to `data` from register `reg` of the slave at
/// `addr`.
pub fn read_reg(context: &mut I2cContext, addr: u8, reg: u8, data: usize, len: usize) -> (actions:
    Vec<I2cAction>)
    ensures
        *final(context) == (I2cContext {
            outstanding: F_I2C | F_DMA_RX,
            error: 0,
            pending_len: len,
        }),
        actions@ == seq![
            I2cAction::Start(
                Cr2 {
                    start: true,
                    autoend: false,
                    rd_wrn: false,
                    sadd: (addr - addr % 2 + 1) as u16,
                    nbytes: 1,
                },
            ),
            I2cAction::Send(reg),
            I2cAction::DmaRead { data, len },
        ],
{
    context.read_reg_start(read_address(addr), reg, data, len)
}

/// Starts to write the `wlen` bytes at `wdata` to the slave at `addr` and
/// then to read `rlen` bytes from it to `rdata`.  The address is taken as it
/// is.
pub fn write_read(
    context: &mut I2cContext,
    addr: u8,
    wdata: usize,
    wlen: usize,
    rdata: usize,
    rlen: usize,
) -> (actions: Vec<I2cAction>)
    ensures
        *final(context) == (I2cContext {
            outstanding: F_I2C | F_DMA_TX | F_DMA_RX,
            error: 0,
            pending_len: rlen,
        }),
        actions@ == seq![
            I2cAction::DmaWrite { data: wdata, len: wlen },
            I2cAction::DmaRead { data: rdata, len: rlen },
            I2cAction::Start(
                Cr2 {
                    start: true,
                    autoend: false,
                    rd_wrn: false,
                    sadd: addr as u16,
                    nbytes: nbytes(wlen),
                },
            ),
        ],
{
    context.write_read_start(addr, wdata, wlen, rdata, rlen)
}

/// Once the stop condition is in and both DMA flags are clear, the
/// transaction is over: the handler leaves nothing outstanding.
pub proof fn lemma_stop_ends(c: I2cContext, status: I2cStatus, sadd: u16)
    requires
        c.outstanding == F_I2C,
        c.pending_len == 0,
        status.stopf,
    ensures
        isr_step(c, status, sadd) matches Some((after, actions)) && after.outstanding == 0
            && after.error == c.error,
{
    assert(1u8 & !1u8 == 0) by (bit_vector);
}

} // verus!
