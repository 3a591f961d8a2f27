use std::sync::atomic::{AtomicU32, Ordering};

use stm_common::usb::control::{classify, ControlState, Request, RxOutcome};
use stm_common::usb::hardware::{
    chep_bd_tx, Action, CheprR, CheprW, ControlRx, CTRL_TX_OFFSET, STAT_NAK, STAT_STALL,
    STAT_VALID,
};
use stm_common::usb::types::{SetupHeader, SetupResult, SetupRxCallback, SetupTxCallback};
use stm_common::usb::{DataEndPoints, DummyEndPoint, EndpointPair, USBTypes, USB_State};

static DEVICE_DESC: [u8; 18] = [18, 1, 0, 2, 0, 0, 0, 64, 0x34, 0x12, 0x78, 0x56, 0, 1, 1, 2, 3, 1];

static LONG: [u8; 200] = {
    let mut a = [0u8; 200];
    let mut i = 0;
    while i < 200 {
        a[i] = i as u8;
        i += 1;
    }
    a
};

/// A vendor request handler: it wants requests of type 0x40 and answers by
/// the request code.
#[derive(Default)]
struct Vendor {
    asked: u32,
}

impl EndpointPair for Vendor {
    fn setup_wanted(&mut self, h: &SetupHeader) -> bool {
        self.asked += 1;
        h.request_type == 0x40 || h.request_type == 0xc0
    }
    fn setup_handler(&mut self, h: &SetupHeader) -> SetupResult {
        match h.request {
            1 => SetupResult::rx_data_cb(h.length as usize, SetupRxCallback { id: 7 }),
            2 => SetupResult::rx_data_cb(4, SetupRxCallback { id: 8 }),
            3 => SetupResult::tx_data_cb(&LONG[..h.value_lo as usize], SetupTxCallback::Handler(5)),
            4 => SetupResult::tx_data(&LONG[..128]),
            5 => SetupResult::rx_data(h.length as usize),
            _ => SetupResult::no_data(),
        }
    }
}

/// A handler that wants everything, to show that it is asked last.
#[derive(Default)]
struct Greedy {
    asked: u32,
}

impl EndpointPair for Greedy {
    fn setup_wanted(&mut self, _h: &SetupHeader) -> bool {
        self.asked += 1;
        true
    }
    fn setup_handler(&mut self, _h: &SetupHeader) -> SetupResult {
        SetupResult::tx_data(&LONG[..1])
    }
}

#[derive(Default)]
struct Plain;

impl USBTypes for Plain {
    fn get_device_descriptor(&mut self) -> SetupResult {
        SetupResult::tx_data(&DEVICE_DESC)
    }
    fn get_config_descriptor(&mut self, setup: &SetupHeader) -> SetupResult {
        SetupResult::tx_data(&LONG[..setup.value_lo as usize])
    }
    fn get_string_descriptor(&mut self, idx: u8) -> SetupResult {
        if idx < 3 {
            SetupResult::tx_data(&LONG[idx as usize..idx as usize + 4])
        } else {
            SetupResult::error()
        }
    }
    type EP1 = DummyEndPoint;
    type EP2 = DummyEndPoint;
    type EP3 = Vendor;
    type EP4 = DummyEndPoint;
    type EP5 = Greedy;
    type EP6 = DummyEndPoint;
    type EP7 = DummyEndPoint;
    const CPU_FREQ: u32 = 250_000_000;
}

/// A device without any handler of its own.
#[derive(Default)]
struct Bare;

impl USBTypes for Bare {
    fn get_device_descriptor(&mut self) -> SetupResult {
        SetupResult::tx_data(&DEVICE_DESC)
    }
    fn get_config_descriptor(&mut self, _setup: &SetupHeader) -> SetupResult {
        SetupResult::error()
    }
    fn get_string_descriptor(&mut self, _idx: u8) -> SetupResult {
        SetupResult::error()
    }
    type EP1 = DummyEndPoint;
    type EP2 = DummyEndPoint;
    type EP3 = DummyEndPoint;
    type EP4 = DummyEndPoint;
    type EP5 = DummyEndPoint;
    type EP6 = DummyEndPoint;
    type EP7 = DummyEndPoint;
    const CPU_FREQ: u32 = 48_000_000;
}

fn idle_chep() -> CheprR {
    CheprR {
        ea: 0,
        stattx: STAT_NAK,
        dtogtx: false,
        vttx: false,
        utype: 1,
        setup: false,
        statrx: STAT_VALID,
        dtogrx: false,
        vtrx: false,
    }
}

fn setup_chep() -> CheprR {
    CheprR { setup: true, vtrx: true, statrx: STAT_NAK, ..idle_chep() }
}

fn out_chep() -> CheprR {
    CheprR { setup: false, vtrx: true, statrx: STAT_NAK, dtogrx: true, ..idle_chep() }
}

fn sent_chep() -> CheprR {
    CheprR { vttx: true, stattx: STAT_NAK, statrx: STAT_NAK, ..idle_chep() }
}

fn rx(bytes: [u8; 8]) -> ControlRx {
    ControlRx { bd: 8 << 16, setup: bytes }
}

fn done(out: RxOutcome) -> Vec<Action> {
    match out {
        RxOutcome::Done(a) => a,
        other => panic!("{:?}", other),
    }
}

fn last_chep(actions: &[Action]) -> CheprW {
    match actions.last() {
        Some(Action::WriteChep(w)) => *w,
        other => panic!("no register write at the end: {:?}", other),
    }
}

fn loaded(actions: &[Action]) -> Vec<&'static [u8]> {
    let mut v = Vec::new();
    for a in actions {
        if let Action::LoadTx(data) = a {
            v.push(*data);
        }
    }
    v
}

fn addresses(actions: &[Action]) -> Vec<u8> {
    let mut v = Vec::new();
    for a in actions {
        if let Action::SetAddress(x) = a {
            v.push(*x);
        }
    }
    v
}

/// Runs a whole IN data stage and returns the packets in their order.
fn run_in<UT: USBTypes>(
    state: &mut ControlState<UT>,
    eps: &mut DataEndPoints<UT>,
    setup: [u8; 8],
) -> Vec<&'static [u8]> {
    let chep = setup_chep();
    let actions = done(state.rx_handler(&chep, &rx(setup), eps));
    let mut packets = loaded(&actions);
    assert_eq!(packets.len(), 1);
    assert_eq!(chep.after_write(&last_chep(&actions)).stattx, STAT_VALID);
    let mut turns = 0;
    while state.pending_data().is_some() {
        let chep = sent_chep();
        let actions = state.tx_handler(&chep, eps);
        let more = loaded(&actions);
        assert_eq!(more.len(), 1);
        match actions[1] {
            Action::WriteTxBd(bd) => assert_eq!(bd, chep_bd_tx(CTRL_TX_OFFSET, more[0].len())),
            other => panic!("{:?}", other),
        }
        let after = chep.after_write(&last_chep(&actions));
        assert_eq!(after.stattx, STAT_VALID);
        assert!(!after.vttx);
        packets.extend(more);
        turns += 1;
        assert!(turns < 10);
    }
    packets
}

fn lens(packets: &[&'static [u8]]) -> Vec<usize> {
    packets.iter().map(|p| p.len()).collect()
}

#[test]
fn get_descriptor_of_the_length_asked_for() {
    let mut state = ControlState::new(Plain);
    let mut eps: DataEndPoints<Plain> = Default::default();
    let chep = setup_chep();
    let actions =
        done(state.rx_handler(&chep, &rx([0x80, 0x06, 0x01, 0x01, 0, 0, 18, 0]), &mut eps));
    assert_eq!(actions.len(), 3);
    match actions[0] {
        Action::LoadTx(data) => assert_eq!(data, &DEVICE_DESC[..]),
        other => panic!("{:?}", other),
    }
    match actions[1] {
        Action::WriteTxBd(bd) => assert_eq!(bd, chep_bd_tx(CTRL_TX_OFFSET, 18)),
        other => panic!("{:?}", other),
    }
    let after = chep.after_write(&last_chep(&actions));
    assert_eq!(after.stattx, STAT_VALID);
    assert!(!after.vtrx);
    assert!(!state.is_short());
    assert_eq!(state.pending_data(), None);

    // The packet has gone out: nothing follows, and reception is enabled
    // again for the host's empty packet of the STATUS stage.
    let chep = sent_chep();
    let actions = state.tx_handler(&chep, &mut eps);
    assert_eq!(actions.len(), 1);
    assert!(loaded(&actions).is_empty());
    let after = chep.after_write(&last_chep(&actions));
    assert_eq!(after.statrx, STAT_VALID);
    assert!(!after.dtogrx);
    assert!(!after.vttx);
}

#[test]
fn get_descriptor_cut_to_the_length_asked_for() {
    let mut state = ControlState::new(Plain);
    let mut eps: DataEndPoints<Plain> = Default::default();
    let packets = run_in(&mut state, &mut eps, [0x80, 0x06, 0x01, 0x01, 0, 0, 8, 0]);
    assert_eq!(packets.len(), 1);
    assert_eq!(packets[0], &DEVICE_DESC[..8]);
    assert!(!state.is_short());

    let chep = sent_chep();
    let actions = state.tx_handler(&chep, &mut eps);
    assert!(loaded(&actions).is_empty());
    assert_eq!(chep.after_write(&last_chep(&actions)).statrx, STAT_VALID);
}

#[test]
fn get_descriptor_shorter_than_asked_for_is_short() {
    let mut state = ControlState::new(Plain);
    let mut eps: DataEndPoints<Plain> = Default::default();
    let packets = run_in(&mut state, &mut eps, [0x80, 0x06, 0x01, 0x01, 0, 0, 64, 0]);
    assert_eq!(lens(&packets), vec![18]);
    assert!(state.is_short());
}

#[test]
fn unknown_request_stalls_both_directions() {
    let mut state = ControlState::new(Bare);
    let mut eps: DataEndPoints<Bare> = Default::default();
    let chep = setup_chep();
    let actions =
        done(state.rx_handler(&chep, &rx([0x40, 0x99, 1, 2, 3, 4, 5, 0]), &mut eps));
    assert_eq!(actions.len(), 1);
    let after = chep.after_write(&last_chep(&actions));
    assert_eq!(after.statrx, STAT_STALL);
    assert_eq!(after.stattx, STAT_STALL);
    assert!(!after.vtrx);
    assert_eq!(state.setup(), SetupHeader::default());
}

#[test]
fn get_status_is_two_zero_bytes_in_any_state() {
    let mut state = ControlState::new(Plain);
    let mut eps: DataEndPoints<Plain> = Default::default();
    // Leave a transfer half done first.
    let chep = setup_chep();
    let _ = done(state.rx_handler(&chep, &rx([0xc0, 4, 0, 0, 0, 0, 200, 0]), &mut eps));
    assert_eq!(state.pending_data(), Some(64));

    let packets = run_in(&mut state, &mut eps, [0x80, 0x00, 9, 9, 9, 9, 2, 0]);
    assert_eq!(packets.len(), 1);
    assert_eq!(packets[0], &[0u8, 0u8][..]);
    assert_eq!(state.pending_data(), None);
}

#[test]
fn short_setup_is_an_error() {
    let mut state = ControlState::new(Plain);
    let mut eps: DataEndPoints<Plain> = Default::default();
    let chep = setup_chep();
    let packet = ControlRx { bd: 7 << 16, setup: [0x80, 0x00, 0, 0, 0, 0, 2, 0] };
    let actions = done(state.rx_handler(&chep, &packet, &mut eps));
    assert_eq!(actions.len(), 1);
    let after = chep.after_write(&last_chep(&actions));
    assert_eq!(after.statrx, STAT_STALL);
    assert_eq!(after.stattx, STAT_STALL);
}

#[test]
fn unsupported_descriptor_type_is_an_error() {
    let mut state = ControlState::new(Plain);
    let mut eps: DataEndPoints<Plain> = Default::default();
    let chep = setup_chep();
    let actions =
        done(state.rx_handler(&chep, &rx([0x80, 0x06, 0, 6, 0, 0, 10, 0]), &mut eps));
    let after = chep.after_write(&last_chep(&actions));
    assert_eq!(after.statrx, STAT_STALL);
    assert_eq!(after.stattx, STAT_STALL);
    // No handler has been asked.
    assert_eq!(eps.ep3.asked, 0);
    assert_eq!(eps.ep5.asked, 0);
}

#[test]
fn descriptors_come_from_the_provider() {
    let mut state = ControlState::new(Plain);
    let mut eps: DataEndPoints<Plain> = Default::default();
    let packets = run_in(&mut state, &mut eps, [0x80, 0x06, 30, 2, 0, 0, 255, 0]);
    assert_eq!(packets.len(), 1);
    assert_eq!(packets[0], &LONG[..30]);
    let packets = run_in(&mut state, &mut eps, [0x80, 0x06, 2, 3, 0, 0, 255, 0]);
    assert_eq!(packets[0], &LONG[2..6]);
}

#[test]
fn packet_lengths_follow_the_rule() {
    // (bytes offered, bytes asked for, lengths expected)
    let cases: Vec<(u8, u16, Vec<usize>)> = vec![
        (0, 0, vec![0]),
        (0, 10, vec![0]),
        (18, 18, vec![18]),
        (18, 8, vec![8]),
        (18, 64, vec![18]),
        (63, 100, vec![63]),
        (64, 64, vec![64]),
        (64, 65, vec![64, 0]),
        (64, 10, vec![10]),
        (65, 200, vec![64, 1]),
        (100, 64, vec![64]),
        (128, 128, vec![64, 64]),
        (128, 129, vec![64, 64, 0]),
        (128, 127, vec![64, 63]),
        (192, 255, vec![64, 64, 64, 0]),
        (200, 255, vec![64, 64, 64, 8]),
        (200, 130, vec![64, 64, 2]),
    ];
    for (offered, asked, expected) in cases {
        let mut state = ControlState::new(Plain);
        let mut eps: DataEndPoints<Plain> = Default::default();
        let packets = run_in(
            &mut state,
            &mut eps,
            [0x80, 0x06, offered, 2, 0, 0, (asked & 0xff) as u8, (asked >> 8) as u8],
        );
        assert_eq!(lens(&packets), expected, "{} offered, {} asked for", offered, asked);
        let sent: Vec<u8> = packets.iter().flat_map(|p| p.iter().copied()).collect();
        let total = std::cmp::min(offered as usize, asked as usize);
        assert_eq!(sent, &LONG[..total]);
        assert_eq!(state.is_short(), (offered as u16) < asked);
    }
}

#[test]
fn set_address_waits_for_the_status_stage() {
    let mut usb: USB_State<Plain> = Default::default();
    let chep = setup_chep();
    let actions =
        done(usb.control.rx_handler(&chep, &rx([0x00, 0x05, 42, 0, 0, 0, 0, 0]), &mut usb.eps));
    assert!(addresses(&actions).is_empty());
    assert_eq!(lens(&loaded(&actions)), vec![0]);
    assert_eq!(chep.after_write(&last_chep(&actions)).stattx, STAT_VALID);
    assert_eq!(usb.control.pending_address(), Some(42));

    // The empty packet has gone out: now the address is written, once.
    let chep = sent_chep();
    let actions = usb.control.tx_handler(&chep, &mut usb.eps);
    assert_eq!(addresses(&actions), vec![42]);
    assert_eq!(actions.len(), 2);
    assert_eq!(chep.after_write(&last_chep(&actions)).statrx, STAT_VALID);
    assert_eq!(usb.control.pending_address(), None);
    assert_eq!(usb.control.setup(), SetupHeader::default());

    let actions = usb.control.tx_handler(&chep, &mut usb.eps);
    assert!(addresses(&actions).is_empty());
}

#[test]
fn set_address_is_dropped_by_the_next_setup() {
    let mut state = ControlState::new(Plain);
    let mut eps: DataEndPoints<Plain> = Default::default();
    let _ = done(state.rx_handler(&setup_chep(), &rx([0x00, 0x05, 42, 0, 0, 0, 0, 0]), &mut eps));
    let _ = done(state.rx_handler(&setup_chep(), &rx([0xc0, 5, 0, 0, 0, 0, 3, 0]), &mut eps));
    assert_eq!(state.pending_address(), None);
    let actions = state.tx_handler(&sent_chep(), &mut eps);
    assert!(addresses(&actions).is_empty());
}

static INITS: [AtomicU32; 7] = [
    AtomicU32::new(0),
    AtomicU32::new(0),
    AtomicU32::new(0),
    AtomicU32::new(0),
    AtomicU32::new(0),
    AtomicU32::new(0),
    AtomicU32::new(0),
];

#[derive(Default)]
struct C1;
#[derive(Default)]
struct C2;
#[derive(Default)]
struct C3;
#[derive(Default)]
struct C4;
#[derive(Default)]
struct C5;
#[derive(Default)]
struct C6;
#[derive(Default)]
struct C7;

impl EndpointPair for C1 {
    fn initialize() {
        INITS[0].fetch_add(1, Ordering::SeqCst);
    }
}
impl EndpointPair for C2 {
    fn initialize() {
        INITS[1].fetch_add(1, Ordering::SeqCst);
    }
}
impl EndpointPair for C3 {
    fn initialize() {
        INITS[2].fetch_add(1, Ordering::SeqCst);
    }
}
impl EndpointPair for C4 {
    fn initialize() {
        INITS[3].fetch_add(1, Ordering::SeqCst);
    }
}
impl EndpointPair for C5 {
    fn initialize() {
        INITS[4].fetch_add(1, Ordering::SeqCst);
    }
}
impl EndpointPair for C6 {
    fn initialize() {
        INITS[5].fetch_add(1, Ordering::SeqCst);
    }
}
impl EndpointPair for C7 {
    fn initialize() {
        INITS[6].fetch_add(1, Ordering::SeqCst);
    }
}

#[derive(Default)]
struct Counting;

impl USBTypes for Counting {
    fn get_device_descriptor(&mut self) -> SetupResult {
        SetupResult::error()
    }
    fn get_config_descriptor(&mut self, _setup: &SetupHeader) -> SetupResult {
        SetupResult::error()
    }
    fn get_string_descriptor(&mut self, _idx: u8) -> SetupResult {
        SetupResult::error()
    }
    type EP1 = C1;
    type EP2 = C2;
    type EP3 = C3;
    type EP4 = C4;
    type EP5 = C5;
    type EP6 = C6;
    type EP7 = C7;
    const CPU_FREQ: u32 = 64_000_000;
}

fn perform<UT: USBTypes>(actions: &[Action]) {
    for a in actions {
        if let Action::InitializeEndpoints = a {
            USB_State::<UT>::ep_initialize();
        }
    }
}

#[test]
fn set_configuration_one_initializes_each_endpoint_once() {
    let mut state = ControlState::new(Counting);
    let mut eps: DataEndPoints<Counting> = Default::default();
    let chep = setup_chep();

    // Configuration 0: acknowledged, nothing else.
    let actions = done(state.rx_handler(&chep, &rx([0x00, 0x09, 0, 0, 0, 0, 0, 0]), &mut eps));
    perform::<Counting>(&actions);
    assert!(!state.is_configured());
    assert_eq!(lens(&loaded(&actions)), vec![0]);
    assert_eq!(chep.after_write(&last_chep(&actions)).stattx, STAT_VALID);
    for c in INITS.iter() {
        assert_eq!(c.load(Ordering::SeqCst), 0);
    }

    // Configuration 2: there is none.
    let actions = done(state.rx_handler(&chep, &rx([0x00, 0x09, 2, 0, 0, 0, 0, 0]), &mut eps));
    perform::<Counting>(&actions);
    assert!(!state.is_configured());
    assert_eq!(actions.len(), 1);
    let after = chep.after_write(&last_chep(&actions));
    assert_eq!(after.statrx, STAT_STALL);
    assert_eq!(after.stattx, STAT_STALL);
    for c in INITS.iter() {
        assert_eq!(c.load(Ordering::SeqCst), 0);
    }

    // Configuration 1.
    let actions = done(state.rx_handler(&chep, &rx([0x00, 0x09, 1, 0, 0, 0, 0, 0]), &mut eps));
    assert!(matches!(actions[0], Action::InitializeEndpoints));
    assert_eq!(
        actions.iter().filter(|a| matches!(a, Action::InitializeEndpoints)).count(),
        1
    );
    perform::<Counting>(&actions);
    assert!(state.is_configured());
    assert_eq!(lens(&loaded(&actions)), vec![0]);
    for c in INITS.iter() {
        assert_eq!(c.load(Ordering::SeqCst), 1);
    }

    // Configuration 0 after that leaves the device configured.
    let _ = done(state.rx_handler(&chep, &rx([0x00, 0x09, 0, 0, 0, 0, 0, 0]), &mut eps));
    assert!(state.is_configured());
    // And so does an error.
    let _ = done(state.rx_handler(&chep, &rx([0x00, 0x09, 9, 0, 0, 0, 0, 0]), &mut eps));
    assert!(state.is_configured());
}

#[test]
fn set_interface_is_acknowledged() {
    let mut state = ControlState::new(Plain);
    let mut eps: DataEndPoints<Plain> = Default::default();
    let packets = run_in(&mut state, &mut eps, [0x01, 0x0b, 0, 0, 1, 0, 0, 0]);
    assert_eq!(lens(&packets), vec![0]);
}

#[test]
fn handlers_are_asked_in_their_order() {
    let mut state = ControlState::new(Plain);
    let mut eps: DataEndPoints<Plain> = Default::default();
    // Handler 3 wants it: handler 5 is not asked.
    let packets = run_in(&mut state, &mut eps, [0xc0, 3, 20, 0, 0, 0, 20, 0]);
    assert_eq!(packets[0], &LONG[..20]);
    assert_eq!(eps.ep3.asked, 1);
    assert_eq!(eps.ep5.asked, 0);
    // Handler 3 declines: handler 5 answers.
    let packets = run_in(&mut state, &mut eps, [0x21, 3, 20, 0, 0, 0, 20, 0]);
    assert_eq!(packets[0], &LONG[..1]);
    assert_eq!(eps.ep3.asked, 2);
    assert_eq!(eps.ep5.asked, 1);
}

#[test]
fn completion_of_a_handler_runs_after_the_status_stage() {
    let mut state = ControlState::new(Plain);
    let mut eps: DataEndPoints<Plain> = Default::default();
    let setup = [0xc0, 3, 100, 0, 0x34, 0x12, 100, 0];
    let chep = setup_chep();
    let actions = done(state.rx_handler(&chep, &rx(setup), &mut eps));
    assert!(!actions.iter().any(|a| matches!(a, Action::Callback(_, _))));
    // Second packet.
    let actions = state.tx_handler(&sent_chep(), &mut eps);
    assert_eq!(lens(&loaded(&actions)), vec![36]);
    assert!(!actions.iter().any(|a| matches!(a, Action::Callback(_, _))));
    // All data is out.
    let actions = state.tx_handler(&sent_chep(), &mut eps);
    assert_eq!(actions.len(), 2);
    match actions[0] {
        Action::Callback(n, h) => {
            assert_eq!(n, 5);
            assert_eq!(h, SetupHeader::from_ptr(&setup));
        }
        other => panic!("{:?}", other),
    }
    assert_eq!(state.setup(), SetupHeader::default());
    // Not again.
    let actions = state.tx_handler(&sent_chep(), &mut eps);
    assert_eq!(actions.len(), 1);
}

#[test]
fn out_data_is_judged_by_the_predicate() {
    for ok in [true, false] {
        let mut state = ControlState::new(Plain);
        let mut eps: DataEndPoints<Plain> = Default::default();
        let chep = setup_chep();
        let actions = done(state.rx_handler(&chep, &rx([0x40, 1, 0, 0, 0, 0, 7, 0]), &mut eps));
        assert_eq!(actions.len(), 1);
        let after = chep.after_write(&last_chep(&actions));
        assert_eq!(after.statrx, STAT_VALID);
        assert!(after.dtogrx);
        assert!(!after.vtrx);

        let chep = out_chep();
        match state.rx_handler(&chep, &rx([0; 8]), &mut eps) {
            RxOutcome::Predicate(cb) => assert_eq!(cb, SetupRxCallback { id: 7 }),
            other => panic!("{:?}", other),
        }
        let actions = state.rx_data_done(&chep, ok);
        assert_eq!(actions.len(), 2);
        match actions[0] {
            Action::WriteTxBd(bd) => assert_eq!(bd, chep_bd_tx(CTRL_TX_OFFSET, 0)),
            other => panic!("{:?}", other),
        }
        let after = chep.after_write(&last_chep(&actions));
        assert_eq!(after.stattx, if ok { STAT_VALID } else { STAT_STALL });
        assert_eq!(after.statrx, STAT_VALID);
        assert_eq!(state.setup(), SetupHeader::default());

        // The predicate is gone: a further packet is dropped.
        let actions = done(state.rx_handler(&chep, &rx([0; 8]), &mut eps));
        assert_eq!(actions.len(), 1);
        let after = chep.after_write(&last_chep(&actions));
        assert_eq!(after.stattx, STAT_NAK);
        assert_eq!(after.statrx, STAT_VALID);
    }
}

#[test]
fn out_data_of_another_length_stalls_and_runs_no_predicate() {
    let mut state = ControlState::new(Plain);
    let mut eps: DataEndPoints<Plain> = Default::default();
    let chep = setup_chep();
    // The handler expects 4 bytes, the host announces 7.
    let actions = done(state.rx_handler(&chep, &rx([0x40, 2, 0, 0, 0, 0, 7, 0]), &mut eps));
    assert_eq!(actions.len(), 1);
    let after = chep.after_write(&last_chep(&actions));
    assert_eq!(after.statrx, STAT_STALL);
    assert_eq!(after.stattx, STAT_STALL);
    // Whatever comes in now, no predicate is run.
    match state.rx_handler(&out_chep(), &rx([0; 8]), &mut eps) {
        RxOutcome::Done(_) => {}
        other => panic!("{:?}", other),
    }
}

#[test]
fn out_data_without_a_predicate_is_turned_down() {
    let mut state = ControlState::new(Plain);
    let mut eps: DataEndPoints<Plain> = Default::default();
    let _ = done(state.rx_handler(&setup_chep(), &rx([0x40, 5, 0, 0, 0, 0, 3, 0]), &mut eps));
    let chep = out_chep();
    let actions = done(state.rx_handler(&chep, &rx([0; 8]), &mut eps));
    assert_eq!(actions.len(), 2);
    let after = chep.after_write(&last_chep(&actions));
    assert_eq!(after.stattx, STAT_STALL);
    assert_eq!(after.statrx, STAT_VALID);
}

#[test]
fn zero_length_out_data_is_an_error() {
    let mut state = ControlState::new(Plain);
    let mut eps: DataEndPoints<Plain> = Default::default();
    let chep = setup_chep();
    let actions = done(state.rx_handler(&chep, &rx([0x40, 1, 0, 0, 0, 0, 0, 0]), &mut eps));
    let after = chep.after_write(&last_chep(&actions));
    assert_eq!(after.statrx, STAT_STALL);
    assert_eq!(after.stattx, STAT_STALL);
}

#[test]
fn handlers_do_nothing_without_a_completion_flag() {
    let mut state = ControlState::new(Plain);
    let mut eps: DataEndPoints<Plain> = Default::default();
    assert!(state.tx_handler(&idle_chep(), &mut eps).is_empty());
    assert!(done(state.rx_handler(&idle_chep(), &rx([0; 8]), &mut eps)).is_empty());
}

#[test]
fn reset_brings_the_state_back() {
    let mut state = ControlState::new(Plain);
    let mut eps: DataEndPoints<Plain> = Default::default();
    let _ = done(state.rx_handler(&setup_chep(), &rx([0x00, 0x09, 1, 0, 0, 0, 0, 0]), &mut eps));
    let _ = done(state.rx_handler(&setup_chep(), &rx([0xc0, 4, 0, 0, 0, 0, 200, 0]), &mut eps));
    assert!(state.is_configured());
    assert!(state.pending_data().is_some());
    state.usb_initialize();
    assert!(!state.is_configured());
    assert!(!state.is_short());
    assert_eq!(state.pending_data(), None);
    assert_eq!(state.pending_address(), None);
    assert_eq!(state.setup(), SetupHeader::default());
    state.start_of_frame();
    assert_eq!(state.setup(), SetupHeader::default());
}

#[test]
fn requests_are_told_apart() {
    let h = |t: u8, r: u8, hi: u8| SetupHeader {
        request_type: t,
        request: r,
        value_lo: 0,
        value_hi: hi,
        index: 0,
        length: 0,
    };
    assert_eq!(classify(&h(0x80, 0, 0), 7), Request::Short);
    assert_eq!(classify(&h(0x80, 0, 0), 8), Request::GetStatus);
    assert_eq!(classify(&h(0x00, 5, 0), 8), Request::SetAddress);
    assert_eq!(classify(&h(0x80, 6, 1), 8), Request::DeviceDescriptor);
    assert_eq!(classify(&h(0x80, 6, 2), 8), Request::ConfigDescriptor);
    assert_eq!(classify(&h(0x80, 6, 3), 8), Request::StringDescriptor);
    assert_eq!(classify(&h(0x80, 6, 6), 8), Request::OtherDescriptor);
    assert_eq!(classify(&h(0x00, 9, 0), 8), Request::SetConfiguration);
    assert_eq!(classify(&h(0x01, 11, 0), 8), Request::SetInterface);
    assert_eq!(classify(&h(0x00, 6, 1), 8), Request::Other);
    assert_eq!(classify(&h(0x80, 5, 0), 8), Request::Other);
    assert_eq!(classify(&h(0x40, 0x99, 0), 64), Request::Other);
}
