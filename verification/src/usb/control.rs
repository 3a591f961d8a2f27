//! The control-transfer engine: what the control endpoint does on a SETUP
//! packet, on OUT data, and when a packet of its own has gone out.
//!
//! The engine never waits.  What is left to do when a handler returns is kept
//! in `ControlState`, and the next interrupt goes on from there.

use super::hardware::{
    bd_len, bd_tx, chep_bd_len, chep_bd_tx, emit, lemma_write_reaches, Action, ActionView, CheprR,
    CheprW, CheprWriter, ControlRx, CTRL_TX_OFFSET, STAT_NAK, STAT_STALL, STAT_VALID,
};
use super::types::{SetupHeader, SetupResult, SetupResultView, SetupRxCallback, SetupTxCallback};
use super::{DataEndPoints, EndpointPair, USBTypes};
use vstd::prelude::*;
use vstd::slice::slice_subrange;

verus! {

/// The state of the control endpoint between two interrupts.
pub struct ControlState<UT: USBTypes> {
    /// Meta-data: descriptors etc.
    meta: UT,
    /// Last set-up received, while we are processing it.
    setup: SetupHeader,
    /// Set-up data to send.  On TX ACK we send the next block.
    setup_data: SetupResult,
    /// If set, the TX setup data is shorter than the requested data and we
    /// must end with a zero-length packet if needed.
    setup_short: bool,
    /// Address received in a SET ADDRESS.  On TX ACK, we apply this.
    pending_address: Option<u8>,
    /// Are we configured?
    configured: bool,
    /// Predicate for post-setup OUT data.  We only support single packets!
    pending_rx_cb: Option<SetupRxCallback>,
    /// What to run when the STATUS stage of the transfer in hand is through.
    pending_tx_cb: Option<SetupTxCallback>,
}

/// The state of the control endpoint, without the descriptors.
pub ghost struct ControlView {
    pub setup: SetupHeader,
    pub setup_data: SetupResultView,
    pub setup_short: bool,
    pub pending_address: Option<u8>,
    pub configured: bool,
    pub pending_rx_cb: Option<SetupRxCallback>,
    pub pending_tx_cb: Option<SetupTxCallback>,
}

/// The register write that every handler of the control endpoint starts
/// from: the control endpoint addressed, both completion flags left alone.
pub open spec fn control_write() -> CheprW {
    CheprW::zero().to_control()
}

/// The length of the next packet for `total` bytes that are left to send.
pub open spec fn packet_len(total: int) -> int {
    if total < 64 {
        total
    } else {
        64
    }
}

/// Whether another packet follows the one that takes the first of `total`
/// bytes: it does while bytes are left, and also after a full last packet
/// where the host asked for more than there is, which an empty packet has to
/// end.
pub open spec fn packet_follows(total: int, short: bool) -> bool {
    total > 64 || (total == 64 && short)
}

impl ControlView {
    /// The state after a bus reset.
    pub open spec fn idle() -> ControlView {
        ControlView {
            setup: SetupHeader::empty(),
            setup_data: SetupResultView::error(),
            setup_short: false,
            pending_address: None,
            configured: false,
            pending_rx_cb: None,
            pending_tx_cb: None,
        }
    }

    /// Puts the next packet of `data` up for transmission, and keeps what is
    /// left of `data` for the packet after it.
    pub open spec fn next_data(self, data: Seq<u8>, cb: Option<SetupTxCallback>) -> (
        ControlView,
        Seq<ActionView>,
    ) {
        let len = packet_len(data.len() as int);
        let state = if packet_follows(data.len() as int, self.setup_short) {
            ControlView {
                setup_data: SetupResultView::Tx(data.subrange(len, data.len() as int), cb),
                ..self
            }
        } else {
            ControlView { setup_data: SetupResultView::error(), pending_tx_cb: cb, ..self }
        };
        (
            state,
            seq![
                ActionView::LoadTx(data.subrange(0, len)),
                ActionView::WriteTxBd(bd_tx(CTRL_TX_OFFSET as int, len) as u32),
            ],
        )
    }

    /// Starts the answer to `setup` with `data`: no more of it than the host
    /// asked for.
    pub open spec fn send_data(
        self,
        setup: SetupHeader,
        data: Seq<u8>,
        cb: Option<SetupTxCallback>,
        chep: CheprR,
    ) -> (ControlView, Seq<ActionView>) {
        let short = data.len() < setup.length;
        let len = if short {
            data.len() as int
        } else {
            setup.length as int
        };
        let (state, actions) = (ControlView { setup_short: short, ..self }).next_data(
            data.subrange(0, len),
            cb,
        );
        (
            state,
            actions.push(ActionView::WriteChep(control_write().to_clear_vtrx().to_tx_valid(chep))),
        )
    }

    /// What the end of the STATUS stage sets off.
    pub open spec fn completion(self) -> Seq<ActionView> {
        match self.pending_tx_cb {
            Some(SetupTxCallback::SetAddress) => match self.pending_address {
                Some(a) => seq![ActionView::SetAddress(a)],
                None => Seq::empty(),
            },
            Some(SetupTxCallback::Handler(n)) => seq![ActionView::Callback(n, self.setup)],
            None => Seq::empty(),
        }
    }

    /// A packet of the control endpoint has gone out.
    pub open spec fn tx_done(self, chep: CheprR) -> (ControlView, Seq<ActionView>) {
        if !chep.vttx {
            (self, Seq::empty())
        } else if let SetupResultView::Tx(data, cb) = self.setup_data {
            let (state, actions) = self.next_data(data, cb);
            (
                state,
                actions.push(
                    ActionView::WriteChep(control_write().to_clear_vttx().to_tx_valid(chep)),
                ),
            )
        } else {
            let state = if self.pending_tx_cb is Some {
                ControlView {
                    pending_tx_cb: None,
                    pending_address: if self.pending_tx_cb == Some(SetupTxCallback::SetAddress) {
                        None
                    } else {
                        self.pending_address
                    },
                    setup: SetupHeader::empty(),
                    ..self
                }
            } else {
                self
            };
            (
                state,
                self.completion().push(
                    ActionView::WriteChep(
                        control_write().to_clear_vttx().to_rx_valid(chep).to_dtogrx(chep, false),
                    ),
                ),
            )
        }
    }
}

impl ControlView {
    /// OUT data has come in and has been judged: an empty packet
    /// acknowledges it, or a stall turns it down.
    pub open spec fn out_data_done(self, chep: CheprR, ok: bool) -> (ControlView, Seq<ActionView>) {
        (
            ControlView { setup: SetupHeader::empty(), ..self },
            seq![
                ActionView::WriteTxBd(bd_tx(CTRL_TX_OFFSET as int, 0) as u32),
                ActionView::WriteChep(
                    control_write().to_clear_vtrx().to_stat_tx(
                        chep,
                        if ok {
                            STAT_VALID
                        } else {
                            STAT_STALL
                        },
                    ).to_rx_valid(chep),
                ),
            ],
        )
    }

    /// A packet that is no SETUP has come in.  Where the transfer in hand
    /// has no data stage, it is the acknowledgement of what was sent, or
    /// nothing that was asked for, and is dropped.  Where OUT data was asked
    /// for, its predicate is due; without a predicate the data is turned
    /// down.
    pub open spec fn out_received(self, chep: CheprR) -> (ControlView, RxOutcomeView) {
        if self.setup.length == 0 {
            (
                ControlView { setup_data: SetupResultView::error(), ..self },
                RxOutcomeView::Done(
                    seq![
                        ActionView::WriteChep(
                            control_write().to_clear_vtrx().to_rx_valid(chep).to_stat_tx(
                                chep,
                                STAT_NAK,
                            ),
                        ),
                    ],
                ),
            )
        } else {
            match self.pending_rx_cb {
                Some(cb) => (
                    ControlView { pending_rx_cb: None, ..self },
                    RxOutcomeView::Predicate(cb),
                ),
                None => {
                    let (state, actions) = self.out_data_done(chep, false);
                    (state, RxOutcomeView::Done(actions))
                },
            }
        }
    }

    /// A SETUP has come in: whatever was left of the transfer before it is
    /// dropped.
    pub open spec fn setup_begun(self) -> ControlView {
        ControlView {
            pending_address: None,
            setup_data: SetupResultView::error(),
            pending_rx_cb: None,
            ..self
        }
    }

    /// SET_ADDRESS: the address waits for the end of the STATUS stage.
    pub open spec fn set_address(self, header: SetupHeader) -> (ControlView, SetupResultView) {
        (
            ControlView { pending_address: Some(header.value_lo), ..self },
            SetupResultView::Tx(Seq::empty(), Some(SetupTxCallback::SetAddress)),
        )
    }

    /// SET_CONFIGURATION: 0 is taken and changes nothing, 1 brings up the
    /// endpoints, and there is no other configuration.
    pub open spec fn set_configuration(self, config: u8) -> (
        ControlView,
        SetupResultView,
        Seq<ActionView>,
    ) {
        if config == 0 {
            (self, SetupResultView::no_data(), Seq::empty())
        } else if config != 1 {
            (self, SetupResultView::error(), Seq::empty())
        } else {
            (
                ControlView { configured: true, ..self },
                SetupResultView::no_data(),
                seq![ActionView::InitializeEndpoints],
            )
        }
    }

    /// Acts on the answer `result` to the request `setup`.  Data is sent;
    /// OUT data is awaited where the answer expects as much of it as the host
    /// has announced, and not nothing; everything else is an error, and both
    /// directions stall.
    pub open spec fn respond(self, setup: SetupHeader, result: SetupResultView, chep: CheprR) -> (
        ControlView,
        Seq<ActionView>,
    ) {
        match result {
            SetupResultView::Tx(data, cb) => self.send_data(setup, data, cb, chep),
            SetupResultView::Rx(len, cb) => if len == setup.length && len != 0 {
                (
                    ControlView { pending_rx_cb: cb, ..self },
                    seq![
                        ActionView::WriteChep(
                            control_write().to_clear_vtrx().to_rx_valid(chep).to_dtogrx(chep, true),
                        ),
                    ],
                )
            } else {
                (
                    ControlView { setup: SetupHeader::empty(), ..self },
                    seq![
                        ActionView::WriteChep(
                            control_write().to_clear_vtrx().to_stat_rx(chep, STAT_STALL).to_stat_tx(
                                chep,
                                STAT_STALL,
                            ),
                        ),
                    ],
                )
            },
        }
    }
}

/// What a handler of received packets leaves to its caller.
#[derive(Debug)]
pub enum RxOutcome {
    /// These operations, and nothing else.
    Done(Vec<Action>),
    /// OUT data has come in.  The caller runs this predicate on it and hands
    /// the verdict to `rx_data_done`.
    Predicate(SetupRxCallback),
}

/// An `RxOutcome` with its operations as a sequence.
pub ghost enum RxOutcomeView {
    Done(Seq<ActionView>),
    Predicate(SetupRxCallback),
}

impl View for RxOutcome {
    type V = RxOutcomeView;

    open spec fn view(&self) -> RxOutcomeView {
        match *self {
            RxOutcome::Done(actions) => RxOutcomeView::Done(actions.deep_view()),
            RxOutcome::Predicate(cb) => RxOutcomeView::Predicate(cb),
        }
    }
}

/// The kinds of request that the engine tells apart.
#[derive(Clone, Copy, PartialEq, Eq, Structural, Debug)]
pub enum Request {
    /// Fewer than the eight bytes of a header have come in.
    Short,
    GetStatus,
    SetAddress,
    DeviceDescriptor,
    ConfigDescriptor,
    StringDescriptor,
    /// GET_DESCRIPTOR for a type of descriptor that the engine knows nothing
    /// of.
    OtherDescriptor,
    SetConfiguration,
    SetInterface,
    /// Any other request: one for the handlers of the endpoint pairs.
    Other,
}

/// The kind of the request `setup`, of which `len` bytes have come in.
pub open spec fn request_kind(setup: SetupHeader, len: int) -> Request {
    if len < 8 {
        Request::Short
    } else if setup.request_type == 0x80 && setup.request == 0x00 {
        Request::GetStatus
    } else if setup.request_type == 0x00 && setup.request == 0x05 {
        Request::SetAddress
    } else if setup.request_type == 0x80 && setup.request == 0x06 {
        if setup.value_hi == 1 {
            Request::DeviceDescriptor
        } else if setup.value_hi == 2 {
            Request::ConfigDescriptor
        } else if setup.value_hi == 3 {
            Request::StringDescriptor
        } else {
            Request::OtherDescriptor
        }
    } else if setup.request_type == 0x00 && setup.request == 0x09 {
        Request::SetConfiguration
    } else if setup.request_type == 0x01 && setup.request == 0x0b {
        Request::SetInterface
    } else {
        Request::Other
    }
}

/// Tells the kind of a request from its header and the number of bytes that
/// have come in.
pub fn classify(setup: &SetupHeader, len: usize) -> (kind: Request)
    ensures
        kind == request_kind(*setup, len as int),
{
    if len < 8 {
        return Request::Short;
    }
    match (setup.request_type, setup.request) {
        (0x80, 0x00) => Request::GetStatus,
        (0x00, 0x05) => Request::SetAddress,
        (0x80, 0x06) => match setup.value_hi {
            1 => Request::DeviceDescriptor,
            2 => Request::ConfigDescriptor,
            3 => Request::StringDescriptor,
            _ => Request::OtherDescriptor,
        },
        (0x00, 0x09) => Request::SetConfiguration,
        (0x01, 0x0b) => Request::SetInterface,
        _ => Request::Other,
    }
}

/// What the engine does with the request `setup` of which `len` bytes have
/// come in, from the state `before` (with what was left of an earlier
/// transfer dropped already) to the state `after`, with the answer `r` and
/// the operations `actions`.
///
/// The requests that are the engine's own have one outcome each.  A request
/// for a descriptor is answered by the one method of `meta` that is there for
/// it, and any other request by the first handler that wants it, or with the
/// error value where none does.
pub open spec fn setup_handled<UT: USBTypes>(
    before: ControlView,
    meta: UT,
    eps: DataEndPoints<UT>,
    setup: SetupHeader,
    len: int,
    after: ControlView,
    meta_after: UT,
    eps_after: DataEndPoints<UT>,
    r: SetupResult,
    actions: Seq<ActionView>,
) -> bool {
    match request_kind(setup, len) {
        Request::Short | Request::OtherDescriptor => {
            &&& after == before
            &&& meta_after == meta
            &&& eps_after == eps
            &&& r@ == SetupResultView::error()
            &&& actions == Seq::<ActionView>::empty()
        },
        Request::GetStatus => {
            &&& after == before
            &&& meta_after == meta
            &&& eps_after == eps
            &&& r@ == SetupResultView::Tx(seq![0u8, 0u8], None)
            &&& actions == Seq::<ActionView>::empty()
        },
        Request::SetAddress => {
            &&& after == before.set_address(setup).0
            &&& meta_after == meta
            &&& eps_after == eps
            &&& r@ == before.set_address(setup).1
            &&& actions == Seq::<ActionView>::empty()
        },
        Request::DeviceDescriptor => {
            &&& after == before
            &&& meta.device_descriptor(meta_after, r)
            &&& eps_after == eps
            &&& actions == Seq::<ActionView>::empty()
        },
        Request::ConfigDescriptor => {
            &&& after == before
            &&& meta.config_descriptor(setup, meta_after, r)
            &&& eps_after == eps
            &&& actions == Seq::<ActionView>::empty()
        },
        Request::StringDescriptor => {
            &&& after == before
            &&& meta.string_descriptor(setup.value_lo, meta_after, r)
            &&& eps_after == eps
            &&& actions == Seq::<ActionView>::empty()
        },
        Request::SetConfiguration => {
            &&& after == before.set_configuration(setup.value_lo).0
            &&& meta_after == meta
            &&& eps_after == eps
            &&& r@ == before.set_configuration(setup.value_lo).1
            &&& actions == before.set_configuration(setup.value_lo).2
        },
        Request::SetInterface => {
            &&& after == before
            &&& meta_after == meta
            &&& eps_after == eps
            &&& r@ == SetupResultView::no_data()
            &&& actions == Seq::<ActionView>::empty()
        },
        Request::Other => {
            &&& after == before
            &&& meta_after == meta
            &&& actions == Seq::<ActionView>::empty()
            &&& eps.claims(setup, eps_after, Some(r)) || (eps.claims(setup, eps_after, None) && r@
                == SetupResultView::error())
        },
    }
}

/// What the engine comes to on a SETUP with a request that is none of its
/// own, where handler `k` has answered it with `x`, or where no handler has
/// wanted it, which `k` above 7 stands for: it keeps the header, drops what
/// was left of the transfer before, and acts on the answer, or on the error
/// value.
pub open spec fn answered_state(
    before: ControlView,
    setup: SetupHeader,
    k: int,
    x: SetupResultView,
    chep: CheprR,
) -> (ControlView, Seq<ActionView>) {
    (ControlView { setup, ..before }).setup_begun().respond(
        setup,
        if k <= 7 {
            x
        } else {
            SetupResultView::error()
        },
        chep,
    )
}

/// A SETUP with the header `setup`, of which `len` bytes have come in, has
/// been handled: the header is kept, the answer is found as `setup_handled`
/// says, and the answer is acted upon as `respond` says.
pub open spec fn setup_received<UT: USBTypes>(
    before: ControlView,
    meta: UT,
    eps: DataEndPoints<UT>,
    setup: SetupHeader,
    len: int,
    chep: CheprR,
    after: ControlView,
    meta_after: UT,
    eps_after: DataEndPoints<UT>,
    actions: Seq<ActionView>,
) -> bool {
    exists|r: SetupResult, found: ControlView, first: Seq<ActionView>|
        {
            &&& #[trigger] setup_handled(
                (ControlView { setup, ..before }).setup_begun(),
                meta,
                eps,
                setup,
                len,
                found,
                meta_after,
                eps_after,
                r,
                first,
            )
            &&& after == found.respond(setup, r@, chep).0
            &&& actions == first + found.respond(setup, r@, chep).1
        }
}

impl<UT: USBTypes> View for ControlState<UT> {
    type V = ControlView;

    closed spec fn view(&self) -> ControlView {
        ControlView {
            setup: self.setup,
            setup_data: self.setup_data@,
            setup_short: self.setup_short,
            pending_address: self.pending_address,
            configured: self.configured,
            pending_rx_cb: self.pending_rx_cb,
            pending_tx_cb: self.pending_tx_cb,
        }
    }
}

impl<UT: USBTypes> ControlState<UT> {
    /// The descriptors of the device.
    pub closed spec fn meta(&self) -> UT {
        self.meta
    }

    /// The engine after a bus reset, around the descriptors `meta`.
    pub fn new(meta: UT) -> (s: Self)
        ensures
            s@ == ControlView::idle(),
            s.meta() == meta,
    {
        ControlState {
            meta,
            setup: SetupHeader::default(),
            setup_data: SetupResult::default(),
            setup_short: false,
            pending_address: None,
            configured: false,
            pending_rx_cb: None,
            pending_tx_cb: None,
        }
    }

    /// Send the next data from the control state.
    pub fn setup_next_data(
        &mut self,
        data: &'static [u8],
        cb: Option<SetupTxCallback>,
        actions: &mut Vec<Action>,
    )
        ensures
            final(self)@ == old(self)@.next_data(data@, cb).0,
            final(self).meta() == old(self).meta(),
            final(actions).deep_view() == old(actions).deep_view() + old(self)@.next_data(
                data@,
                cb,
            ).1,
    {
        let total = data.len();
        let is_short = total < 64;
        let len = if is_short {
            total
        } else {
            64
        };
        // The data goes into the control TX buffer.
        emit(actions, Action::LoadTx(slice_subrange(data, 0, len)));

        if len != total || !is_short && self.setup_short {
            self.setup_data = SetupResult::Tx(slice_subrange(data, len, total), cb);
        } else {
            self.setup_data = SetupResult::default();
            self.pending_tx_cb = cb;
        }
        // If the length is zero, then we are sending an ack.  If the length
        // is non-zero, then we are sending data and expect an ack.
        emit(actions, Action::WriteTxBd(chep_bd_tx(CTRL_TX_OFFSET, len)));
        assert(actions.deep_view() =~= old(actions).deep_view() + old(self)@.next_data(
            data@,
            cb,
        ).1);
    }

    /// Start the answer to `setup`.  Note that data should be a tx_data or
    /// no_data.
    pub fn setup_send_data(
        &mut self,
        setup: &SetupHeader,
        data: &'static [u8],
        cb: Option<SetupTxCallback>,
        chep: &CheprR,
        actions: &mut Vec<Action>,
    )
        ensures
            final(self)@ == old(self)@.send_data(*setup, data@, cb, *chep).0,
            final(self).meta() == old(self).meta(),
            final(actions).deep_view() == old(actions).deep_view() + old(self)@.send_data(
                *setup,
                data@,
                cb,
                *chep,
            ).1,
    {
        self.setup_short = data.len() < setup.length as usize;
        let len = if self.setup_short {
            data.len()
        } else {
            setup.length as usize
        };
        self.setup_next_data(slice_subrange(data, 0, len), cb, actions);

        let mut w = CheprW::new();
        w.control().clear_vtrx().tx_valid(chep);
        emit(actions, Action::WriteChep(w));
        assert(actions.deep_view() =~= old(actions).deep_view() + old(self)@.send_data(
            *setup,
            data@,
            cb,
            *chep,
        ).1);
    }

    /// Handler for the end of a transmission of the control endpoint.
    ///
    /// While data is left, the next packet goes out.  After the last one the
    /// STATUS stage is through: what waited for that is set off, and the
    /// endpoint is made ready for the next SETUP.
    pub fn tx_handler(&mut self, chep: &CheprR, _eps: &mut DataEndPoints<UT>) -> (actions: Vec<
        Action,
    >)
        ensures
            final(self)@ == old(self)@.tx_done(*chep).0,
            final(self).meta() == old(self).meta(),
            *final(_eps) == *old(_eps),
            actions.deep_view() == old(self)@.tx_done(*chep).1,
    {
        let mut actions: Vec<Action> = Vec::new();
        assert(actions.deep_view() =~= Seq::<ActionView>::empty());
        if !chep.vttx {
            return actions;
        }
        if let SetupResult::Tx(data, cb) = self.setup_data {
            self.setup_next_data(data, cb, &mut actions);
            let mut w = CheprW::new();
            w.control().clear_vttx().tx_valid(chep);
            emit(&mut actions, Action::WriteChep(w));
            assert(actions.deep_view() =~= old(self)@.tx_done(*chep).1);
            return actions;
        }
        if let Some(cb) = self.pending_tx_cb {
            self.pending_tx_cb = None;
            match cb {
                SetupTxCallback::SetAddress => {
                    if let Some(a) = self.pending_address {
                        emit(&mut actions, Action::SetAddress(a));
                    }
                    self.pending_address = None;
                },
                SetupTxCallback::Handler(n) => {
                    emit(&mut actions, Action::Callback(n, self.setup));
                },
            }
            self.setup = SetupHeader::default();
        }
        let mut w = CheprW::new();
        w.control().clear_vttx().rx_valid(chep).dtogrx(chep, false);
        emit(&mut actions, Action::WriteChep(w));
        assert(actions.deep_view() =~= old(self)@.tx_done(*chep).1);
        actions
    }

    /// Takes the predicate that waits for OUT data, if there is one.
    pub fn setup_rx_data(&mut self) -> (cb: Option<SetupRxCallback>)
        ensures
            cb == old(self)@.pending_rx_cb,
            final(self)@ == (ControlView { pending_rx_cb: None, ..old(self)@ }),
            final(self).meta() == old(self).meta(),
    {
        let cb = self.pending_rx_cb;
        self.pending_rx_cb = None;
        cb
    }

    /// Ends the data stage of an OUT transfer with the verdict on the data:
    /// a zero-length ACK or an error stall.
    pub fn rx_data_done(&mut self, chep: &CheprR, ok: bool) -> (actions: Vec<Action>)
        ensures
            final(self)@ == old(self)@.out_data_done(*chep, ok).0,
            final(self).meta() == old(self).meta(),
            actions.deep_view() == old(self)@.out_data_done(*chep, ok).1,
    {
        let mut actions: Vec<Action> = Vec::new();
        assert(actions.deep_view() =~= Seq::<ActionView>::empty());
        self.setup = SetupHeader::default();
        emit(&mut actions, Action::WriteTxBd(chep_bd_tx(CTRL_TX_OFFSET, 0)));
        let mut w = CheprW::new();
        w.control().clear_vtrx().stat_tx(
            chep,
            if ok {
                STAT_VALID
            } else {
                STAT_STALL
            },
        ).rx_valid(chep);
        emit(&mut actions, Action::WriteChep(w));
        assert(actions.deep_view() =~= old(self)@.out_data_done(*chep, ok).1);
        actions
    }

    /// SET_ADDRESS: keeps the address until the STATUS stage is through.
    pub fn set_address(&mut self, header: &SetupHeader) -> (r: SetupResult)
        ensures
            final(self)@ == old(self)@.set_address(*header).0,
            final(self).meta() == old(self).meta(),
            r@ == old(self)@.set_address(*header).1,
    {
        self.pending_address = Some(header.value_lo);
        SetupResult::no_data_cb(SetupTxCallback::SetAddress)
    }

    /// SET_CONFIGURATION.
    pub fn set_configuration(&mut self, config: u8, actions: &mut Vec<Action>) -> (r: SetupResult)
        ensures
            final(self)@ == old(self)@.set_configuration(config).0,
            final(self).meta() == old(self).meta(),
            r@ == old(self)@.set_configuration(config).1,
            final(actions).deep_view() == old(actions).deep_view() + old(self)@.set_configuration(
                config,
            ).2,
    {
        if config == 0 {
            // Nothing to do.
        } else if config != 1 {
            assert(actions.deep_view() =~= old(actions).deep_view() + Seq::<ActionView>::empty());
            return SetupResult::error();
        } else {
            emit(actions, Action::InitializeEndpoints);
            self.configured = true;
        }
        assert(actions.deep_view() =~= old(actions).deep_view() + old(self)@.set_configuration(
            config,
        ).2);
        SetupResult::no_data()
    }

    /// Finds the answer to a SETUP, of which `rx_bd` tells how many bytes
    /// have come in.
    pub fn setup_rx_handler(
        &mut self,
        setup: &SetupHeader,
        rx_bd: u32,
        eps: &mut DataEndPoints<UT>,
        actions: &mut Vec<Action>,
    ) -> (r: SetupResult)
        ensures
            exists|added: Seq<ActionView>|
                final(actions).deep_view() == old(actions).deep_view() + added
                    && #[trigger] setup_handled(
                    old(self)@.setup_begun(),
                    old(self).meta(),
                    *old(eps),
                    *setup,
                    bd_len(rx_bd),
                    final(self)@,
                    final(self).meta(),
                    *final(eps),
                    r,
                    added,
                ),
            // The calls that are made for a request that is none of the
            // engine's own, with `k` the number of the handler that wants
            // it, or 8 where none does.  `setup_wanted` of each handler
            // before `k` is called and answers no.  `setup_wanted` of
            // handler `k` is called and answers yes, `setup_handler` of it
            // is called on the handler as `setup_wanted` has left it, and
            // `r` is what it returns.  The handlers after `k` are as they
            // were.  Where no handler wants the request, `r` is the error
            // value.
            request_kind(*setup, bd_len(rx_bd)) == Request::Other ==> exists|k: int|
                {
                    &&& 1 <= k <= 8
                    &&& #[trigger] old(eps).untouched_above(*final(eps), k)
                    &&& k == 8 ==> r@ == SetupResultView::error()
                    &&& 1 < k ==> (exists|m: &mut UT::EP1|
                        *m == old(eps).ep1 && *final(m) == final(eps).ep1
                            && #[trigger] call_ensures(
                            <UT::EP1 as EndpointPair>::setup_wanted,
                            (m, setup),
                            false,
                        ))
                    &&& 1 == k ==> (exists|m: &mut UT::EP1, n: &mut UT::EP1|
                        *m == old(eps).ep1 && *final(m) == *n && *final(n) == final(eps).ep1
                            && #[trigger] call_ensures(
                            <UT::EP1 as EndpointPair>::setup_wanted,
                            (m, setup),
                            true,
                        ) && #[trigger] call_ensures(
                            <UT::EP1 as EndpointPair>::setup_handler,
                            (n, setup),
                            r,
                        ))
                    &&& 2 < k ==> (exists|m: &mut UT::EP2|
                        *m == old(eps).ep2 && *final(m) == final(eps).ep2
                            && #[trigger] call_ensures(
                            <UT::EP2 as EndpointPair>::setup_wanted,
                            (m, setup),
                            false,
                        ))
                    &&& 2 == k ==> (exists|m: &mut UT::EP2, n: &mut UT::EP2|
                        *m == old(eps).ep2 && *final(m) == *n && *final(n) == final(eps).ep2
                            && #[trigger] call_ensures(
                            <UT::EP2 as EndpointPair>::setup_wanted,
                            (m, setup),
                            true,
                        ) && #[trigger] call_ensures(
                            <UT::EP2 as EndpointPair>::setup_handler,
                            (n, setup),
                            r,
                        ))
                    &&& 3 < k ==> (exists|m: &mut UT::EP3|
                        *m == old(eps).ep3 && *final(m) == final(eps).ep3
                            && #[trigger] call_ensures(
                            <UT::EP3 as EndpointPair>::setup_wanted,
                            (m, setup),
                            false,
                        ))
                    &&& 3 == k ==> (exists|m: &mut UT::EP3, n: &mut UT::EP3|
                        *m == old(eps).ep3 && *final(m) == *n && *final(n) == final(eps).ep3
                            && #[trigger] call_ensures(
                            <UT::EP3 as EndpointPair>::setup_wanted,
                            (m, setup),
                            true,
                        ) && #[trigger] call_ensures(
                            <UT::EP3 as EndpointPair>::setup_handler,
                            (n, setup),
                            r,
                        ))
                    &&& 4 < k ==> (exists|m: &mut UT::EP4|
                        *m == old(eps).ep4 && *final(m) == final(eps).ep4
                            && #[trigger] call_ensures(
                            <UT::EP4 as EndpointPair>::setup_wanted,
                            (m, setup),
                            false,
                        ))
                    &&& 4 == k ==> (exists|m: &mut UT::EP4, n: &mut UT::EP4|
                        *m == old(eps).ep4 && *final(m) == *n && *final(n) == final(eps).ep4
                            && #[trigger] call_ensures(
                            <UT::EP4 as EndpointPair>::setup_wanted,
                            (m, setup),
                            true,
                        ) && #[trigger] call_ensures(
                            <UT::EP4 as EndpointPair>::setup_handler,
                            (n, setup),
                            r,
                        ))
                    &&& 5 < k ==> (exists|m: &mut UT::EP5|
                        *m == old(eps).ep5 && *final(m) == final(eps).ep5
                            && #[trigger] call_ensures(
                            <UT::EP5 as EndpointPair>::setup_wanted,
                            (m, setup),
                            false,
                        ))
                    &&& 5 == k ==> (exists|m: &mut UT::EP5, n: &mut UT::EP5|
                        *m == old(eps).ep5 && *final(m) == *n && *final(n) == final(eps).ep5
                            && #[trigger] call_ensures(
                            <UT::EP5 as EndpointPair>::setup_wanted,
                            (m, setup),
                            true,
                        ) && #[trigger] call_ensures(
                            <UT::EP5 as EndpointPair>::setup_handler,
                            (n, setup),
                            r,
                        ))
                    &&& 6 < k ==> (exists|m: &mut UT::EP6|
                        *m == old(eps).ep6 && *final(m) == final(eps).ep6
                            && #[trigger] call_ensures(
                            <UT::EP6 as EndpointPair>::setup_wanted,
                            (m, setup),
                            false,
                        ))
                    &&& 6 == k ==> (exists|m: &mut UT::EP6, n: &mut UT::EP6|
                        *m == old(eps).ep6 && *final(m) == *n && *final(n) == final(eps).ep6
                            && #[trigger] call_ensures(
                            <UT::EP6 as EndpointPair>::setup_wanted,
                            (m, setup),
                            true,
                        ) && #[trigger] call_ensures(
                            <UT::EP6 as EndpointPair>::setup_handler,
                            (n, setup),
                            r,
                        ))
                    &&& 7 < k ==> (exists|m: &mut UT::EP7|
                        *m == old(eps).ep7 && *final(m) == final(eps).ep7
                            && #[trigger] call_ensures(
                            <UT::EP7 as EndpointPair>::setup_wanted,
                            (m, setup),
                            false,
                        ))
                    &&& 7 == k ==> (exists|m: &mut UT::EP7, n: &mut UT::EP7|
                        *m == old(eps).ep7 && *final(m) == *n && *final(n) == final(eps).ep7
                            && #[trigger] call_ensures(
                            <UT::EP7 as EndpointPair>::setup_wanted,
                            (m, setup),
                            true,
                        ) && #[trigger] call_ensures(
                            <UT::EP7 as EndpointPair>::setup_handler,
                            (n, setup),
                            r,
                        ))
                },
            // For any other request no handler is called.
            request_kind(*setup, bd_len(rx_bd)) != Request::Other ==> *final(eps) == *old(eps),
    {
        // Cancel any pending set-address and set-up data.
        self.pending_address = None;
        self.setup_data = SetupResult::default();
        self.pending_rx_cb = None;

        let ghost begun = self@;
        let ghost none = Seq::<ActionView>::empty();
        assert(actions.deep_view() =~= old(actions).deep_view() + none);
        let len = chep_bd_len(rx_bd);
        let r = match classify(setup, len) {
            Request::Short => SetupResult::error(),
            Request::GetStatus => {
                let status: &'static [u8; 2] = &[0u8, 0u8];
                assert(status@ =~= seq![0u8, 0u8]);
                SetupResult::tx_data(status)
            },
            Request::SetAddress => self.set_address(setup),
            Request::DeviceDescriptor => self.meta.get_device_descriptor(),
            Request::ConfigDescriptor => self.meta.get_config_descriptor(setup),
            Request::StringDescriptor => self.meta.get_string_descriptor(setup.value_lo),
            Request::OtherDescriptor => SetupResult::error(),
            Request::SetConfiguration => {
                let r = self.set_configuration(setup.value_lo, actions);
                assert(setup_handled(
                    begun,
                    old(self).meta(),
                    *old(eps),
                    *setup,
                    bd_len(rx_bd),
                    self@,
                    self.meta(),
                    *eps,
                    r,
                    begun.set_configuration(setup.value_lo).2,
                ));
                return r;
            },
            // We enable our only config when we get an address, so we can
            // just ACK the set interface message.
            Request::SetInterface => SetupResult::no_data(),
            Request::Other => {
                match eps.setup(setup) {
                    Some(x) => x,
                    None => SetupResult::error(),
                }
            },
        };
        assert(setup_handled(
            begun,
            old(self).meta(),
            *old(eps),
            *setup,
            bd_len(rx_bd),
            self@,
            self.meta(),
            *eps,
            r,
            none,
        ));
        r
    }

    /// Acts on the answer `result` to the request `setup`.
    pub fn respond(
        &mut self,
        setup: &SetupHeader,
        result: SetupResult,
        chep: &CheprR,
        actions: &mut Vec<Action>,
    )
        ensures
            final(self)@ == old(self)@.respond(*setup, result@, *chep).0,
            final(self).meta() == old(self).meta(),
            final(actions).deep_view() == old(actions).deep_view() + old(self)@.respond(
                *setup,
                result@,
                *chep,
            ).1,
    {
        match result {
            SetupResult::Tx(data, cb) => self.setup_send_data(setup, data, cb, chep, actions),
            SetupResult::Rx(len, cb) => {
                if len == setup.length as usize && len != 0 {
                    // Receive some data.
                    self.pending_rx_cb = cb;
                    let mut w = CheprW::new();
                    w.control().clear_vtrx().rx_valid(chep).dtogrx(chep, true);
                    emit(actions, Action::WriteChep(w));
                } else {
                    self.setup = SetupHeader::default();
                    let mut w = CheprW::new();
                    w.control().clear_vtrx().stat_rx(chep, STAT_STALL).stat_tx(chep, STAT_STALL);
                    emit(actions, Action::WriteChep(w));
                }
                assert(actions.deep_view() =~= old(actions).deep_view() + old(self)@.respond(
                    *setup,
                    result@,
                    *chep,
                ).1);
            },
        }
    }

    /// Handler for the end of a reception of the control endpoint.
    ///
    /// `rx` is read only where `chep` shows a SETUP.
    pub fn rx_handler(
        &mut self,
        chep: &CheprR,
        rx: &ControlRx,
        eps: &mut DataEndPoints<UT>,
    ) -> (outcome: RxOutcome)
        ensures
            !chep.vtrx ==> {
                &&& final(self)@ == old(self)@
                &&& final(self).meta() == old(self).meta()
                &&& *final(eps) == *old(eps)
                &&& outcome@ == RxOutcomeView::Done(Seq::empty())
            },
            chep.vtrx && !chep.setup ==> {
                &&& final(self)@ == old(self)@.out_received(*chep).0
                &&& final(self).meta() == old(self).meta()
                &&& *final(eps) == *old(eps)
                &&& outcome@ == old(self)@.out_received(*chep).1
            },
            chep.vtrx && chep.setup ==> {
                &&& outcome@ is Done
                &&& setup_received(
                    old(self)@,
                    old(self).meta(),
                    *old(eps),
                    SetupHeader::parse(rx.setup@),
                    bd_len(rx.bd),
                    *chep,
                    final(self)@,
                    final(self).meta(),
                    *final(eps),
                    outcome@->Done_0,
                )
            },
            // The calls that are made for a SETUP with a request that is
            // none of the engine's own, with `k` the number of the handler
            // that wants it, or 8 where none does.  `setup_wanted` of each
            // handler before `k` is called and answers no.  `setup_wanted`
            // of handler `k` is called and answers yes, `setup_handler` of
            // it is called on the handler as `setup_wanted` has left it, and
            // returns `x`.  The handlers after `k` are as they were.  The
            // engine acts on `x`, or on the error value where no handler
            // wants the request.
            chep.vtrx && chep.setup && request_kind(SetupHeader::parse(rx.setup@), bd_len(rx.bd))
                == Request::Other ==> exists|k: int, x: SetupResult|
                #![trigger old(eps).untouched_above(*final(eps), k), x@]
                {
                    &&& 1 <= k <= 8
                    &&& old(eps).untouched_above(*final(eps), k)
                    &&& final(self).meta() == old(self).meta()
                    &&& final(self)@ == answered_state(
                        old(self)@,
                        SetupHeader::parse(rx.setup@),
                        k,
                        x@,
                        *chep,
                    ).0
                    &&& outcome@ == RxOutcomeView::Done(
                        answered_state(
                            old(self)@,
                            SetupHeader::parse(rx.setup@),
                            k,
                            x@,
                            *chep,
                        ).1,
                    )
                    &&& 1 < k ==> (exists|m: &mut UT::EP1|
                        *m == old(eps).ep1 && *final(m) == final(eps).ep1
                            && #[trigger] call_ensures(
                            <UT::EP1 as EndpointPair>::setup_wanted,
                            (m, &SetupHeader::parse(rx.setup@)),
                            false,
                        ))
                    &&& 1 == k ==> (exists|m: &mut UT::EP1, n: &mut UT::EP1|
                        *m == old(eps).ep1 && *final(m) == *n && *final(n) == final(eps).ep1
                            && #[trigger] call_ensures(
                            <UT::EP1 as EndpointPair>::setup_wanted,
                            (m, &SetupHeader::parse(rx.setup@)),
                            true,
                        ) && #[trigger] call_ensures(
                            <UT::EP1 as EndpointPair>::setup_handler,
                            (n, &SetupHeader::parse(rx.setup@)),
                            x,
                        ))
                    &&& 2 < k ==> (exists|m: &mut UT::EP2|
                        *m == old(eps).ep2 && *final(m) == final(eps).ep2
                            && #[trigger] call_ensures(
                            <UT::EP2 as EndpointPair>::setup_wanted,
                            (m, &SetupHeader::parse(rx.setup@)),
                            false,
                        ))
                    &&& 2 == k ==> (exists|m: &mut UT::EP2, n: &mut UT::EP2|
                        *m == old(eps).ep2 && *final(m) == *n && *final(n) == final(eps).ep2
                            && #[trigger] call_ensures(
                            <UT::EP2 as EndpointPair>::setup_wanted,
                            (m, &SetupHeader::parse(rx.setup@)),
                            true,
                        ) && #[trigger] call_ensures(
                            <UT::EP2 as EndpointPair>::setup_handler,
                            (n, &SetupHeader::parse(rx.setup@)),
                            x,
                        ))
                    &&& 3 < k ==> (exists|m: &mut UT::EP3|
                        *m == old(eps).ep3 && *final(m) == final(eps).ep3
                            && #[trigger] call_ensures(
                            <UT::EP3 as EndpointPair>::setup_wanted,
                            (m, &SetupHeader::parse(rx.setup@)),
                            false,
                        ))
                    &&& 3 == k ==> (exists|m: &mut UT::EP3, n: &mut UT::EP3|
                        *m == old(eps).ep3 && *final(m) == *n && *final(n) == final(eps).ep3
                            && #[trigger] call_ensures(
                            <UT::EP3 as EndpointPair>::setup_wanted,
                            (m, &SetupHeader::parse(rx.setup@)),
                            true,
                        ) && #[trigger] call_ensures(
                            <UT::EP3 as EndpointPair>::setup_handler,
                            (n, &SetupHeader::parse(rx.setup@)),
                            x,
                        ))
                    &&& 4 < k ==> (exists|m: &mut UT::EP4|
                        *m == old(eps).ep4 && *final(m) == final(eps).ep4
                            && #[trigger] call_ensures(
                            <UT::EP4 as EndpointPair>::setup_wanted,
                            (m, &SetupHeader::parse(rx.setup@)),
                            false,
                        ))
                    &&& 4 == k ==> (exists|m: &mut UT::EP4, n: &mut UT::EP4|
                        *m == old(eps).ep4 && *final(m) == *n && *final(n) == final(eps).ep4
                            && #[trigger] call_ensures(
                            <UT::EP4 as EndpointPair>::setup_wanted,
                            (m, &SetupHeader::parse(rx.setup@)),
                            true,
                        ) && #[trigger] call_ensures(
                            <UT::EP4 as EndpointPair>::setup_handler,
                            (n, &SetupHeader::parse(rx.setup@)),
                            x,
                        ))
                    &&& 5 < k ==> (exists|m: &mut UT::EP5|
                        *m == old(eps).ep5 && *final(m) == final(eps).ep5
                            && #[trigger] call_ensures(
                            <UT::EP5 as EndpointPair>::setup_wanted,
                            (m, &SetupHeader::parse(rx.setup@)),
                            false,
                        ))
                    &&& 5 == k ==> (exists|m: &mut UT::EP5, n: &mut UT::EP5|
                        *m == old(eps).ep5 && *final(m) == *n && *final(n) == final(eps).ep5
                            && #[trigger] call_ensures(
                            <UT::EP5 as EndpointPair>::setup_wanted,
                            (m, &SetupHeader::parse(rx.setup@)),
                            true,
                        ) && #[trigger] call_ensures(
                            <UT::EP5 as EndpointPair>::setup_handler,
                            (n, &SetupHeader::parse(rx.setup@)),
                            x,
                        ))
                    &&& 6 < k ==> (exists|m: &mut UT::EP6|
                        *m == old(eps).ep6 && *final(m) == final(eps).ep6
                            && #[trigger] call_ensures(
                            <UT::EP6 as EndpointPair>::setup_wanted,
                            (m, &SetupHeader::parse(rx.setup@)),
                            false,
                        ))
                    &&& 6 == k ==> (exists|m: &mut UT::EP6, n: &mut UT::EP6|
                        *m == old(eps).ep6 && *final(m) == *n && *final(n) == final(eps).ep6
                            && #[trigger] call_ensures(
                            <UT::EP6 as EndpointPair>::setup_wanted,
                            (m, &SetupHeader::parse(rx.setup@)),
                            true,
                        ) && #[trigger] call_ensures(
                            <UT::EP6 as EndpointPair>::setup_handler,
                            (n, &SetupHeader::parse(rx.setup@)),
                            x,
                        ))
                    &&& 7 < k ==> (exists|m: &mut UT::EP7|
                        *m == old(eps).ep7 && *final(m) == final(eps).ep7
                            && #[trigger] call_ensures(
                            <UT::EP7 as EndpointPair>::setup_wanted,
                            (m, &SetupHeader::parse(rx.setup@)),
                            false,
                        ))
                    &&& 7 == k ==> (exists|m: &mut UT::EP7, n: &mut UT::EP7|
                        *m == old(eps).ep7 && *final(m) == *n && *final(n) == final(eps).ep7
                            && #[trigger] call_ensures(
                            <UT::EP7 as EndpointPair>::setup_wanted,
                            (m, &SetupHeader::parse(rx.setup@)),
                            true,
                        ) && #[trigger] call_ensures(
                            <UT::EP7 as EndpointPair>::setup_handler,
                            (n, &SetupHeader::parse(rx.setup@)),
                            x,
                        ))
                },
            // For a SETUP with any other request, and for anything that is
            // no SETUP, no handler is called.
            !(chep.vtrx && chep.setup && request_kind(
                SetupHeader::parse(rx.setup@),
                bd_len(rx.bd),
            ) == Request::Other) ==> *final(eps) == *old(eps),
    {
        let mut actions: Vec<Action> = Vec::new();
        assert(actions.deep_view() =~= Seq::<ActionView>::empty());
        if !chep.vtrx {
            return RxOutcome::Done(actions);
        }
        if !chep.setup {
            if self.setup.length == 0 {
                // Either it's an ACK to our data, or we weren't expecting
                // this.  Just drop it and flush any outgoing data.
                self.setup_data = SetupResult::default();
                let mut w = CheprW::new();
                w.control().clear_vtrx().rx_valid(chep).stat_tx(chep, STAT_NAK);
                emit(&mut actions, Action::WriteChep(w));
                assert(actions.deep_view() =~= old(self)@.out_received(*chep).1->Done_0);
                return RxOutcome::Done(actions);
            }
            // First check that we really were expecting data.
            return match self.setup_rx_data() {
                Some(cb) => RxOutcome::Predicate(cb),
                None => RxOutcome::Done(self.rx_data_done(chep, false)),
            };
        }
        // The set-up packet is taken from the buffer as it stands there.
        let setup = SetupHeader::from_ptr(&rx.setup);
        self.setup = setup;

        let ghost begun = self@.setup_begun();
        let result = self.setup_rx_handler(&setup, rx.bd, eps, &mut actions);
        let ghost found = self@;
        let ghost first = actions.deep_view();
        self.respond(&setup, result, chep, &mut actions);
        assert(setup_handled(
            begun,
            old(self).meta(),
            *old(eps),
            setup,
            bd_len(rx.bd),
            found,
            self.meta(),
            *eps,
            result,
            first,
        )) by {
            let added = choose|added: Seq<ActionView>|
                first == Seq::<ActionView>::empty() + added && #[trigger] setup_handled(
                    begun,
                    old(self).meta(),
                    *old(eps),
                    setup,
                    bd_len(rx.bd),
                    found,
                    self.meta(),
                    *eps,
                    result,
                    added,
                );
            assert(first =~= added);
        }
        RxOutcome::Done(actions)
    }

    /// Bus reset: everything goes back to where it started, the descriptors
    /// too.
    pub fn usb_initialize(&mut self)
        ensures
            final(self)@ == ControlView::idle(),
            call_ensures(<UT as Default>::default, (), final(self).meta()),
    {
        *self = Self::default();
    }

    /// The control endpoint has nothing to do at the start of a frame.
    pub fn start_of_frame(&mut self)
        ensures
            *final(self) == *old(self),
    {
    }

    /// The header of the transfer in hand; all zero between transfers.
    pub fn setup(&self) -> (h: SetupHeader)
        ensures
            h == self@.setup,
    {
        self.setup
    }

    /// Whether the answer in hand is shorter than what the host asked for.
    pub fn is_short(&self) -> (b: bool)
        ensures
            b == self@.setup_short,
    {
        self.setup_short
    }

    /// Whether the host has selected the configuration.
    pub fn is_configured(&self) -> (b: bool)
        ensures
            b == self@.configured,
    {
        self.configured
    }

    /// The address that waits for the end of the STATUS stage.
    pub fn pending_address(&self) -> (a: Option<u8>)
        ensures
            a == self@.pending_address,
    {
        self.pending_address
    }

    /// The number of bytes that are left to send after the packet that is
    /// out; `None` where no packet follows.
    pub fn pending_data(&self) -> (n: Option<usize>)
        ensures
            n == match self@.setup_data {
                SetupResultView::Tx(data, _) => Some(data.len() as usize),
                SetupResultView::Rx(_, _) => None,
            },
    {
        match self.setup_data {
            SetupResult::Tx(data, _) => Some(data.len()),
            SetupResult::Rx(_, _) => None,
        }
    }

    /// The descriptors of the device.
    pub fn meta_ref(&self) -> (m: &UT)
        ensures
            *m == self.meta(),
    {
        &self.meta
    }
}

impl<UT: USBTypes> Default for ControlState<UT> {
    fn default() -> (s: Self)
        ensures
            s@ == ControlView::idle(),
            call_ensures(<UT as Default>::default, (), s.meta()),
    {
        ControlState::new(UT::default())
    }
}

/// The packets of a data stage in the order that they go out: the first when
/// the answer is started, each further one when the one before it has gone
/// out.
pub open spec fn packets(s: ControlView, data: Seq<u8>, cb: Option<SetupTxCallback>) -> Seq<
    Seq<u8>,
>
    decreases data.len(),
{
    let first = data.subrange(0, packet_len(data.len() as int));
    if packet_follows(data.len() as int, s.setup_short) {
        seq![first] + packets(s.next_data(data, cb).0, data.subrange(64, data.len() as int), cb)
    } else {
        seq![first]
    }
}

/// `total` bytes in pieces of 64: the full pieces, then what is left over.
/// Nothing at all goes out as one empty packet.  An empty packet is added
/// behind full pieces where `trailing` asks for it.
pub open spec fn pieces(total: int, trailing: bool) -> Seq<int> {
    Seq::new((total / 64) as nat, |i: int| 64int) + (if total % 64 != 0 || total == 0 {
        seq![total % 64]
    } else {
        Seq::empty()
    }) + (if trailing && total % 64 == 0 && total > 0 {
        seq![0int]
    } else {
        Seq::empty()
    })
}

/// Where another packet follows the first, the pieces are one piece of 64
/// and then the pieces of what is left.
pub proof fn lemma_pieces_step(total: int, trailing: bool)
    requires
        packet_follows(total, trailing),
    ensures
        pieces(total, trailing) == seq![64int] + pieces(total - 64, trailing),
{
    let rest = total - 64;
    assert(rest / 64 == total / 64 - 1 && rest % 64 == total % 64);
    let a = pieces(total, trailing);
    let b = seq![64int] + pieces(rest, trailing);
    assert(a.len() == b.len());
    assert forall|i: int| 0 <= i < a.len() implies a[i] == b[i] by {
        if i < total / 64 {
        } else {
        }
    }
    assert(a =~= b);
}

/// The lengths of packets.
pub open spec fn lengths(p: Seq<Seq<u8>>) -> Seq<int> {
    Seq::new(p.len(), |i: int| p[i].len() as int)
}

/// The bytes of packets, on end.
pub open spec fn joined(p: Seq<Seq<u8>>) -> Seq<u8>
    decreases p.len(),
{
    if p.len() == 0 {
        Seq::empty()
    } else {
        p[0] + joined(p.drop_first())
    }
}

/// The packets that go out for `data` are `data` in pieces of 64 bytes, with
/// an empty packet behind full pieces where the answer is short of what the
/// host asked for.  Each packet but the first goes out on the completion of
/// the one before it, and when all are out no data is left pending.
pub proof fn lemma_packets(s: ControlView, data: Seq<u8>, cb: Option<SetupTxCallback>)
    ensures
        lengths(packets(s, data, cb)) == pieces(data.len() as int, s.setup_short),
        joined(packets(s, data, cb)) == data,
        s.next_data(data, cb).1[0] == ActionView::LoadTx(packets(s, data, cb)[0]),
        packet_follows(data.len() as int, s.setup_short) ==> forall|chep: CheprR|
            chep.vttx ==> #[trigger] s.next_data(data, cb).0.tx_done(chep).0 == s.next_data(
                data,
                cb,
            ).0.next_data(data.subrange(64, data.len() as int), cb).0,
    decreases data.len(),
{
    let total = data.len() as int;
    let first = data.subrange(0, packet_len(total));
    if packet_follows(total, s.setup_short) {
        let rest = data.subrange(64, total);
        let next = s.next_data(data, cb).0;
        lemma_packets(next, rest, cb);
        let tail = packets(next, rest, cb);
        assert(packets(s, data, cb) == seq![first] + tail);
        assert((seq![first] + tail).drop_first() =~= tail);
        assert(joined(packets(s, data, cb)) =~= first + joined(tail));
        assert(first + rest =~= data);
        lemma_pieces_step(total, s.setup_short);
        assert(lengths(seq![first] + tail) =~= seq![64int] + lengths(tail));
        assert(lengths(packets(s, data, cb)) =~= pieces(total, s.setup_short));
    } else {
        assert(packets(s, data, cb) == seq![first]);
        assert(seq![first].drop_first() =~= Seq::<Seq<u8>>::empty());
        assert(joined(seq![first]) =~= first + joined(Seq::<Seq<u8>>::empty()));
        assert(first =~= data);
        assert(joined(packets(s, data, cb)) =~= data);
        assert(lengths(packets(s, data, cb)) =~= pieces(total, s.setup_short));
    }
}

/// For an answer of `data` to a request that asks for `setup.length` bytes,
/// the packets that go out hold the first `min` of the two lengths in pieces
/// of 64 bytes, and an empty packet follows if and only if that many bytes
/// are a positive multiple of 64 and the answer is shorter than what was
/// asked for.
pub proof fn lemma_answer_lengths(
    s: ControlView,
    setup: SetupHeader,
    data: Seq<u8>,
    cb: Option<SetupTxCallback>,
    chep: CheprR,
)
    ensures
        ({
            let short = data.len() < setup.length;
            let sent = if short {
                data.len() as int
            } else {
                setup.length as int
            };
            let begun = ControlView { setup_short: short, ..s };
            &&& s.send_data(setup, data, cb, chep).0 == begun.next_data(
                data.subrange(0, sent),
                cb,
            ).0
            &&& s.send_data(setup, data, cb, chep).0.setup_short == short
            &&& lengths(packets(begun, data.subrange(0, sent), cb)) == pieces(sent, short)
            &&& joined(packets(begun, data.subrange(0, sent), cb)) == data.subrange(0, sent)
        }),
{
    let short = data.len() < setup.length;
    let sent = if short {
        data.len() as int
    } else {
        setup.length as int
    };
    lemma_packets(ControlView { setup_short: short, ..s }, data.subrange(0, sent), cb);
}

/// No operation of the list sets the device address.
pub open spec fn no_address(actions: Seq<ActionView>) -> bool {
    forall|i: int| 0 <= i < actions.len() ==> !(#[trigger] actions[i] is SetAddress)
}

/// SET_ADDRESS takes effect once, and only when the STATUS stage is through.
///
/// In whatever state the SETUP with the address `setup.value_lo` comes in, it
/// is answered with an empty packet and no write of the address.  The
/// completion of that packet writes the address, and a completion after that
/// does not write it again.
pub proof fn lemma_set_address<UT: USBTypes>(
    before: ControlView,
    meta: UT,
    eps: DataEndPoints<UT>,
    setup: SetupHeader,
    len: int,
    chep: CheprR,
    after: ControlView,
    meta_after: UT,
    eps_after: DataEndPoints<UT>,
    actions: Seq<ActionView>,
    done: CheprR,
    later: CheprR,
)
    requires
        request_kind(setup, len) == Request::SetAddress,
        setup_received(before, meta, eps, setup, len, chep, after, meta_after, eps_after, actions),
        done.vttx,
    ensures
        actions == seq![
            ActionView::LoadTx(Seq::empty()),
            ActionView::WriteTxBd(bd_tx(CTRL_TX_OFFSET as int, 0) as u32),
            ActionView::WriteChep(control_write().to_clear_vtrx().to_tx_valid(chep)),
        ],
        no_address(actions),
        after.tx_done(done).1 == seq![
            ActionView::SetAddress(setup.value_lo),
            ActionView::WriteChep(
                control_write().to_clear_vttx().to_rx_valid(done).to_dtogrx(done, false),
            ),
        ],
        after.tx_done(done).0.pending_address is None,
        after.tx_done(done).0.pending_tx_cb is None,
        no_address(after.tx_done(done).0.tx_done(later).1),
{
    let begun = (ControlView { setup, ..before }).setup_begun();
    let (r, found, first) = choose|r: SetupResult, found: ControlView, first: Seq<ActionView>|
        {
            &&& #[trigger] setup_handled(
                begun,
                meta,
                eps,
                setup,
                len,
                found,
                meta_after,
                eps_after,
                r,
                first,
            )
            &&& after == found.respond(setup, r@, chep).0
            &&& actions == first + found.respond(setup, r@, chep).1
        };
    let empty = Seq::<u8>::empty();
    assert(empty.subrange(0, 0) =~= empty);
    assert(actions =~= seq![
        ActionView::LoadTx(Seq::empty()),
        ActionView::WriteTxBd(bd_tx(CTRL_TX_OFFSET as int, 0) as u32),
        ActionView::WriteChep(control_write().to_clear_vtrx().to_tx_valid(chep)),
    ]);
    assert(after.setup_data == SetupResultView::error());
    assert(after.pending_tx_cb == Some(SetupTxCallback::SetAddress));
    assert(after.completion() =~= seq![ActionView::SetAddress(setup.value_lo)]);
    assert(after.tx_done(done).1 =~= seq![
        ActionView::SetAddress(setup.value_lo),
        ActionView::WriteChep(
            control_write().to_clear_vttx().to_rx_valid(done).to_dtogrx(done, false),
        ),
    ]);
    assert(after.tx_done(done).0.completion() =~= Seq::<ActionView>::empty());
}

impl ControlView {
    /// While the header in hand is that of a SET_ADDRESS, the address that
    /// waits is the one that the header carries, the routine that applies
    /// it is due at the end of the STATUS stage, and no data is left to
    /// send.
    pub open spec fn address_kept(self) -> bool {
        self.setup.request_type == 0x00 && self.setup.request == 0x05 ==> {
            &&& self.pending_address == Some(self.setup.value_lo)
            &&& self.pending_tx_cb == Some(SetupTxCallback::SetAddress)
            &&& self.setup_data == SetupResultView::error()
        }
    }
}

/// `address_kept` holds after a bus reset and after a SETUP, whatever the
/// state before it, and every other step of the engine keeps it.
pub proof fn lemma_address_kept<UT: USBTypes>(
    before: ControlView,
    meta: UT,
    eps: DataEndPoints<UT>,
    setup: SetupHeader,
    len: int,
    chep: CheprR,
    after: ControlView,
    meta_after: UT,
    eps_after: DataEndPoints<UT>,
    actions: Seq<ActionView>,
    s: ControlView,
    ok: bool,
)
    requires
        setup_received(before, meta, eps, setup, len, chep, after, meta_after, eps_after, actions),
        s.address_kept(),
    ensures
        ControlView::idle().address_kept(),
        after.address_kept(),
        s.tx_done(chep).0.address_kept(),
        s.out_received(chep).0.address_kept(),
        s.out_data_done(chep, ok).0.address_kept(),
{
    let begun = (ControlView { setup, ..before }).setup_begun();
    let (r, found, first) = choose|r: SetupResult, found: ControlView, first: Seq<ActionView>|
        {
            &&& #[trigger] setup_handled(
                begun,
                meta,
                eps,
                setup,
                len,
                found,
                meta_after,
                eps_after,
                r,
                first,
            )
            &&& after == found.respond(setup, r@, chep).0
            &&& actions == first + found.respond(setup, r@, chep).1
        };
    if request_kind(setup, len) == Request::SetAddress {
        let empty = Seq::<u8>::empty();
        assert(empty.subrange(0, 0) =~= empty);
    }
}

/// The address that SET_ADDRESS brings is the one that is applied: where
/// the header in hand is that of a SET_ADDRESS, the completion of the empty
/// packet enables the function under the address of that header, and drops
/// the header.  A completion after that applies nothing.
pub proof fn lemma_address_of_header(s: ControlView, chep: CheprR, later: CheprR)
    requires
        s.address_kept(),
        s.setup.request_type == 0x00 && s.setup.request == 0x05,
        chep.vttx,
    ensures
        s.tx_done(chep).1 == seq![
            ActionView::SetAddress(s.setup.value_lo),
            ActionView::WriteChep(
                control_write().to_clear_vttx().to_rx_valid(chep).to_dtogrx(chep, false),
            ),
        ],
        s.tx_done(chep).0.setup == SetupHeader::empty(),
        s.tx_done(chep).0.pending_address is None,
        s.tx_done(chep).0.pending_tx_cb is None,
        no_address(s.tx_done(chep).0.tx_done(later).1),
{
    assert(s.completion() =~= seq![ActionView::SetAddress(s.setup.value_lo)]);
    assert(s.tx_done(chep).1 =~= seq![
        ActionView::SetAddress(s.setup.value_lo),
        ActionView::WriteChep(
            control_write().to_clear_vttx().to_rx_valid(chep).to_dtogrx(chep, false),
        ),
    ]);
    assert(s.tx_done(chep).0.completion() =~= Seq::<ActionView>::empty());
}

/// No operation of the list runs a routine of a handler.
pub open spec fn no_callback(actions: Seq<ActionView>) -> bool {
    forall|i: int| 0 <= i < actions.len() ==> !(#[trigger] actions[i] is Callback)
}

/// The routine of a handler that waits for the end of the STATUS stage is
/// run once, with the header of its transfer: when the last packet has gone
/// out, and not again on a completion after that.  Nothing else runs such a
/// routine.
pub proof fn lemma_completion_once(
    s: ControlView,
    n: u32,
    setup: SetupHeader,
    result: SetupResultView,
    chep: CheprR,
    later: CheprR,
    ok: bool,
)
    ensures
        chep.vttx && !(s.setup_data is Tx) && s.pending_tx_cb == Some(SetupTxCallback::Handler(n))
            ==> {
            &&& s.tx_done(chep).1 == seq![
                ActionView::Callback(n, s.setup),
                ActionView::WriteChep(
                    control_write().to_clear_vttx().to_rx_valid(chep).to_dtogrx(chep, false),
                ),
            ]
            &&& s.tx_done(chep).0.pending_tx_cb is None
            &&& s.tx_done(chep).0.setup == SetupHeader::empty()
            &&& no_callback(s.tx_done(chep).0.tx_done(later).1)
        },
        !chep.vttx || s.setup_data is Tx || s.pending_tx_cb is None ==> no_callback(
            s.tx_done(chep).1,
        ),
        no_callback(s.respond(setup, result, chep).1),
        no_callback(s.out_data_done(chep, ok).1),
        s.out_received(chep).1 matches RxOutcomeView::Done(actions) ==> no_callback(actions),
{
    if chep.vttx && !(s.setup_data is Tx) && s.pending_tx_cb == Some(SetupTxCallback::Handler(n)) {
        assert(s.completion() =~= seq![ActionView::Callback(n, s.setup)]);
        assert(s.tx_done(chep).1 =~= seq![
            ActionView::Callback(n, s.setup),
            ActionView::WriteChep(
                control_write().to_clear_vttx().to_rx_valid(chep).to_dtogrx(chep, false),
            ),
        ]);
        assert(s.tx_done(chep).0.completion() =~= Seq::<ActionView>::empty());
    }
}

/// The device address is written by nothing but the completion of a
/// transmission, and by that only where SET_ADDRESS has left an address to
/// wait for it.
pub proof fn lemma_address_waits(
    s: ControlView,
    setup: SetupHeader,
    result: SetupResultView,
    chep: CheprR,
    ok: bool,
)
    ensures
        no_address(s.respond(setup, result, chep).1),
        no_address(s.out_data_done(chep, ok).1),
        s.out_received(chep).1 matches RxOutcomeView::Done(actions) ==> no_address(actions),
        no_address(s.set_configuration(setup.value_lo).2),
        !no_address(s.tx_done(chep).1) ==> {
            &&& chep.vttx
            &&& !(s.setup_data is Tx)
            &&& s.pending_tx_cb == Some(SetupTxCallback::SetAddress)
            &&& s.pending_address is Some
            &&& s.tx_done(chep).1[0] == ActionView::SetAddress(s.pending_address->0)
            &&& s.tx_done(chep).0.pending_address is None
        },
{
}

/// SET_CONFIGURATION with value 1 initializes the endpoints once and marks
/// the device configured; with value 0 it changes nothing; both are
/// acknowledged.  Any other value changes nothing and is an error.
pub proof fn lemma_set_configuration(s: ControlView, config: u8)
    ensures
        config == 1 ==> s.set_configuration(config) == (
            ControlView { configured: true, ..s },
            SetupResultView::no_data(),
            seq![ActionView::InitializeEndpoints],
        ),
        config == 0 ==> s.set_configuration(config) == (
            s,
            SetupResultView::no_data(),
            Seq::<ActionView>::empty(),
        ),
        config > 1 ==> s.set_configuration(config) == (
            s,
            SetupResultView::error(),
            Seq::<ActionView>::empty(),
        ),
{
}

/// What a SETUP with SET_CONFIGURATION comes to.  Value 1: the endpoints
/// are initialized, once, the device is configured, and the request is
/// acknowledged with an empty packet.  Value 0: the request is acknowledged
/// and nothing else happens.  Any other value: both directions stall, and
/// whether the device is configured stays as it was.
pub proof fn lemma_set_configuration_received<UT: USBTypes>(
    before: ControlView,
    meta: UT,
    eps: DataEndPoints<UT>,
    setup: SetupHeader,
    len: int,
    chep: CheprR,
    after: ControlView,
    meta_after: UT,
    eps_after: DataEndPoints<UT>,
    actions: Seq<ActionView>,
)
    requires
        chep.wf(),
        request_kind(setup, len) == Request::SetConfiguration,
        setup_received(before, meta, eps, setup, len, chep, after, meta_after, eps_after, actions),
    ensures
        ({
            let ack = seq![
                ActionView::LoadTx(Seq::empty()),
                ActionView::WriteTxBd(bd_tx(CTRL_TX_OFFSET as int, 0) as u32),
                ActionView::WriteChep(control_write().to_clear_vtrx().to_tx_valid(chep)),
            ];
            &&& setup.value_lo == 1 ==> after.configured && actions == seq![
                ActionView::InitializeEndpoints,
            ] + ack
            &&& setup.value_lo == 0 ==> after.configured == before.configured && actions == ack
            &&& setup.value_lo > 1 ==> {
                &&& after.configured == before.configured
                &&& actions.len() == 1
                &&& actions[0] matches ActionView::WriteChep(w) && {
                    &&& chep.written(w).statrx == STAT_STALL
                    &&& chep.written(w).stattx == STAT_STALL
                }
            }
            &&& meta_after == meta
            &&& eps_after == eps
        }),
{
    let begun = (ControlView { setup, ..before }).setup_begun();
    let (r, found, first) = choose|r: SetupResult, found: ControlView, first: Seq<ActionView>|
        {
            &&& #[trigger] setup_handled(
                begun,
                meta,
                eps,
                setup,
                len,
                found,
                meta_after,
                eps_after,
                r,
                first,
            )
            &&& after == found.respond(setup, r@, chep).0
            &&& actions == first + found.respond(setup, r@, chep).1
        };
    let ack = seq![
        ActionView::LoadTx(Seq::empty()),
        ActionView::WriteTxBd(bd_tx(CTRL_TX_OFFSET as int, 0) as u32),
        ActionView::WriteChep(control_write().to_clear_vtrx().to_tx_valid(chep)),
    ];
    let empty = Seq::<u8>::empty();
    assert(empty.subrange(0, 0) =~= empty);
    if setup.value_lo <= 1 {
        assert(found.respond(setup, r@, chep).1 =~= ack);
        if setup.value_lo == 1 {
            assert(actions =~= seq![ActionView::InitializeEndpoints] + ack);
        } else {
            assert(actions =~= ack);
        }
    } else {
        lemma_mismatch_stalls(ControlView { setup, ..before }, setup, 0, None, chep, chep);
        assert(found == begun);
        assert(actions =~= found.respond(setup, r@, chep).1);
    }
}

/// An answer to a SETUP that is no data to send, and that does not expect
/// exactly as many bytes of OUT data as the host has announced, or expects
/// none, ends in a stall of both directions: the error value among them.
/// Its predicate is not kept, so that no packet that comes in after it has a
/// predicate run.
pub proof fn lemma_mismatch_stalls(
    s: ControlView,
    setup: SetupHeader,
    len: usize,
    cb: Option<SetupRxCallback>,
    chep: CheprR,
    next: CheprR,
)
    requires
        chep.wf(),
        len != setup.length || len == 0,
    ensures
        ({
            let (after, actions) = s.setup_begun().respond(
                setup,
                SetupResultView::Rx(len, cb),
                chep,
            );
            &&& actions.len() == 1
            &&& actions[0] matches ActionView::WriteChep(w) && {
                &&& chep.written(w).statrx == STAT_STALL
                &&& chep.written(w).stattx == STAT_STALL
                &&& !chep.written(w).vtrx
            }
            &&& after.pending_rx_cb is None
            &&& after.out_received(next).1 is Done
            &&& after.out_received(next).0.pending_rx_cb is None
        }),
{
    let w0 = control_write().to_clear_vtrx();
    lemma_write_reaches(chep, w0, STAT_STALL, STAT_STALL, false, false);
    let w1 = w0.to_stat_rx(chep, STAT_STALL);
    lemma_write_reaches(chep, w1, STAT_STALL, STAT_STALL, false, false);
    let w = w1.to_stat_tx(chep, STAT_STALL);
    assert(chep.written(w).statrx == chep.written(w1).statrx);
}

/// A request that is none of the engine's own and that no handler wants
/// ends in a stall of both directions.
pub proof fn lemma_unclaimed_stalls<UT: USBTypes>(
    before: ControlView,
    meta: UT,
    eps: DataEndPoints<UT>,
    setup: SetupHeader,
    len: int,
    chep: CheprR,
    after: ControlView,
    meta_after: UT,
    eps_after: DataEndPoints<UT>,
    actions: Seq<ActionView>,
)
    requires
        chep.wf(),
        request_kind(setup, len) == Request::Other,
        setup_received(before, meta, eps, setup, len, chep, after, meta_after, eps_after, actions),
        !exists|r: SetupResult| eps.claims(setup, eps_after, Some(r)),
    ensures
        eps.claims(setup, eps_after, None),
        actions.len() == 1,
        actions[0] matches ActionView::WriteChep(w) && {
            &&& chep.written(w).statrx == STAT_STALL
            &&& chep.written(w).stattx == STAT_STALL
            &&& !chep.written(w).vtrx
        },
        after.setup == SetupHeader::empty(),
        after.pending_rx_cb is None,
{
    let begun = (ControlView { setup, ..before }).setup_begun();
    let (r, found, first) = choose|r: SetupResult, found: ControlView, first: Seq<ActionView>|
        {
            &&& #[trigger] setup_handled(
                begun,
                meta,
                eps,
                setup,
                len,
                found,
                meta_after,
                eps_after,
                r,
                first,
            )
            &&& after == found.respond(setup, r@, chep).0
            &&& actions == first + found.respond(setup, r@, chep).1
        };
    assert(!eps.claims(setup, eps_after, Some(r)));
    assert(r@ == SetupResultView::error());
    lemma_mismatch_stalls(ControlView { setup, ..before }, setup, 0, None, chep, chep);
    assert(found == begun);
    assert(actions =~= found.respond(setup, r@, chep).1);
}

/// A predicate for OUT data is run only where it has been kept, and it has
/// been kept only by an answer that expects exactly as many bytes as the
/// host has announced.  It is run once: when it is due, it is kept no
/// longer.
pub proof fn lemma_predicate_due(s: ControlView, chep: CheprR)
    ensures
        s.out_received(chep).1 matches RxOutcomeView::Predicate(cb) ==> {
            &&& s.pending_rx_cb == Some(cb)
            &&& s.setup.length != 0
            &&& s.out_received(chep).0.pending_rx_cb is None
        },
{
}

/// The verdict on OUT data decides the STATUS stage: an empty packet goes
/// out after a good verdict, a stall after a bad one.  Either way the
/// transfer is over and the endpoint takes the next SETUP.
pub proof fn lemma_verdict(s: ControlView, chep: CheprR, ok: bool)
    requires
        chep.wf(),
    ensures
        ({
            let (after, actions) = s.out_data_done(chep, ok);
            &&& after.setup == SetupHeader::empty()
            &&& actions.len() == 2
            &&& actions[0] == ActionView::WriteTxBd(bd_tx(CTRL_TX_OFFSET as int, 0) as u32)
            &&& actions[1] matches ActionView::WriteChep(w) && {
                &&& chep.written(w).stattx == (if ok {
                    STAT_VALID
                } else {
                    STAT_STALL
                })
                &&& chep.written(w).statrx == STAT_VALID
                &&& !chep.written(w).vtrx
            }
        }),
{
    let w0 = control_write().to_clear_vtrx();
    let tx = if ok {
        STAT_VALID
    } else {
        STAT_STALL
    };
    lemma_write_reaches(chep, w0, STAT_VALID, tx, false, false);
    lemma_write_reaches(chep, w0.to_stat_tx(chep, tx), STAT_VALID, tx, false, false);
    let w = w0.to_stat_tx(chep, tx).to_rx_valid(chep);
    assert(chep.written(w).stattx == chep.written(w0.to_stat_tx(chep, tx)).stattx);
}

/// GET_STATUS is answered with two bytes of zero, whatever the state: the
/// engine acts as `respond` does on that answer, and asks nobody.
pub proof fn lemma_get_status<UT: USBTypes>(
    before: ControlView,
    meta: UT,
    eps: DataEndPoints<UT>,
    setup: SetupHeader,
    len: int,
    chep: CheprR,
    after: ControlView,
    meta_after: UT,
    eps_after: DataEndPoints<UT>,
    actions: Seq<ActionView>,
)
    requires
        request_kind(setup, len) == Request::GetStatus,
        setup_received(before, meta, eps, setup, len, chep, after, meta_after, eps_after, actions),
    ensures
        ({
            let begun = (ControlView { setup, ..before }).setup_begun();
            let answer = SetupResultView::Tx(seq![0u8, 0u8], None);
            &&& after == begun.respond(setup, answer, chep).0
            &&& actions == begun.respond(setup, answer, chep).1
            &&& meta_after == meta
            &&& eps_after == eps
            &&& setup.length >= 2 ==> actions[0] == ActionView::LoadTx(seq![0u8, 0u8])
        }),
{
    let begun = (ControlView { setup, ..before }).setup_begun();
    let (r, found, first) = choose|r: SetupResult, found: ControlView, first: Seq<ActionView>|
        {
            &&& #[trigger] setup_handled(
                begun,
                meta,
                eps,
                setup,
                len,
                found,
                meta_after,
                eps_after,
                r,
                first,
            )
            &&& after == found.respond(setup, r@, chep).0
            &&& actions == first + found.respond(setup, r@, chep).1
        };
    assert(actions =~= found.respond(setup, r@, chep).1);
    let zeros = seq![0u8, 0u8];
    if setup.length >= 2 {
        assert(zeros.subrange(0, 2) =~= zeros);
        assert(zeros.subrange(0, 2).subrange(0, 2) =~= zeros);
    }
}

} // verus!
