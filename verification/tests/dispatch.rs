use std::sync::atomic::{AtomicU32, Ordering};
use std::sync::Mutex;

use stm_common::usb::hardware::{
    chep_block, Action, CheprR, ControlRx, IstrR, CTRL_RX_OFFSET, STAT_NAK, STAT_VALID,
};
use stm_common::usb::types::{SetupHeader, SetupResult, SetupRxCallback};
use stm_common::usb::{Completion, EndpointPair, USBTypes, USB_State};

/// Stamps the calls, so that their order shows across the handlers.
static CLOCK: AtomicU32 = AtomicU32::new(0);

/// The calls of `initialize`, which has no handler to keep them in.
static INITS: Mutex<Vec<String>> = Mutex::new(Vec::new());

/// A handler that keeps a record of its calls.
#[derive(Default)]
struct Ep<const N: u8> {
    log: Vec<(u32, String)>,
}

impl<const N: u8> Ep<N> {
    fn note(&mut self, what: &str) {
        self.log.push((CLOCK.fetch_add(1, Ordering::SeqCst), format!("{}{}", what, N)));
    }
}

impl<const N: u8> EndpointPair for Ep<N> {
    fn rx_handler(&mut self) {
        self.note("rx");
    }
    fn tx_handler(&mut self) {
        self.note("tx");
    }
    fn start_of_frame(&mut self) {
        self.note("sof");
    }
    fn setup_wanted(&mut self, h: &SetupHeader) -> bool {
        self.note("want");
        h.request == N
    }
    fn setup_handler(&mut self, h: &SetupHeader) -> SetupResult {
        self.note("setup");
        SetupResult::rx_data_cb(h.length as usize, SetupRxCallback { id: N as u32 })
    }
    fn initialize() {
        INITS.lock().unwrap().push(format!("init{}", N));
    }
}

/// The calls that the handlers have recorded since the last look, in their
/// order.
fn calls(usb: &mut USB_State<Dev>) -> Vec<String> {
    let mut all: Vec<(u32, String)> = Vec::new();
    all.append(&mut usb.eps.ep1.log);
    all.append(&mut usb.eps.ep2.log);
    all.append(&mut usb.eps.ep3.log);
    all.append(&mut usb.eps.ep4.log);
    all.append(&mut usb.eps.ep5.log);
    all.append(&mut usb.eps.ep6.log);
    all.append(&mut usb.eps.ep7.log);
    all.sort();
    all.into_iter().map(|(_, s)| s).collect()
}

#[derive(Default)]
struct Dev;

impl USBTypes for Dev {
    fn get_device_descriptor(&mut self) -> SetupResult {
        SetupResult::error()
    }
    fn get_config_descriptor(&mut self, _setup: &SetupHeader) -> SetupResult {
        SetupResult::error()
    }
    fn get_string_descriptor(&mut self, _idx: u8) -> SetupResult {
        SetupResult::error()
    }
    type EP1 = Ep<1>;
    type EP2 = Ep<2>;
    type EP3 = Ep<3>;
    type EP4 = Ep<4>;
    type EP5 = Ep<5>;
    type EP6 = Ep<6>;
    type EP7 = Ep<7>;
    const CPU_FREQ: u32 = 250_000_000;
}

fn chep() -> CheprR {
    CheprR {
        ea: 0,
        stattx: STAT_NAK,
        dtogtx: true,
        vttx: false,
        utype: 1,
        setup: false,
        statrx: STAT_NAK,
        dtogrx: true,
        vtrx: false,
    }
}

fn istr(bits: u32, ctr: bool, rst_dcon: bool, sof: bool) -> IstrR {
    IstrR { bits, ctr, rst_dcon, sof, dir: bits & 16 != 0 }
}

fn rx() -> ControlRx {
    ControlRx { bd: 8 << 16, setup: [0x40, 6, 0, 0, 0, 0, 3, 0] }
}

#[test]
fn start_of_frame_goes_to_all_handlers_in_order() {
    let mut usb: USB_State<Dev> = Default::default();
    let (actions, more) = usb.isr(&istr(0x200, false, false, true), &chep());
    assert!(!more);
    assert!(actions.is_empty());
    assert_eq!(calls(&mut usb), vec!["sof1", "sof2", "sof3", "sof4", "sof5", "sof6", "sof7"]);
    usb.start_of_frame();
    assert_eq!(calls(&mut usb).len(), 7);
}

#[test]
fn only_the_flags_seen_are_acknowledged() {
    let ack = |bits: u32| USB_State::<Dev>::acknowledge(&istr(bits, false, false, false));
    assert!(matches!(ack(0xffff_ffff), Action::Acknowledge(0x37fc0)));
    assert!(matches!(ack(0x0000_8415), Action::Acknowledge(0x400)));
    assert!(matches!(ack(0x200), Action::Acknowledge(0x200)));
    assert!(matches!(ack(0), Action::Acknowledge(0)));
    // Nothing else happens without a cause.
    let mut usb: USB_State<Dev> = Default::default();
    let (actions, more) = usb.isr(&istr(0, false, false, false), &chep());
    assert!(actions.is_empty());
    assert!(!more);
    assert!(calls(&mut usb).is_empty());
}

#[test]
fn bus_reset_starts_afresh() {
    let mut usb: USB_State<Dev> = Default::default();
    // Get the device configured first.
    let c = CheprR { vtrx: true, setup: true, ..chep() };
    let set = ControlRx { bd: 8 << 16, setup: [0, 9, 1, 0, 0, 0, 0, 0] };
    match usb.dispatch(&istr(0x8010, true, false, false), &c, &set) {
        Completion::Done(_) => {}
        other => panic!("{:?}", other),
    }
    assert!(usb.control.is_configured());
    calls(&mut usb);
    INITS.lock().unwrap().clear();

    let c = chep();
    let (actions, more) = usb.isr(&istr(0x400, false, true, false), &c);
    assert!(more);
    assert!(!usb.control.is_configured());
    assert_eq!(actions.len(), 5);
    assert!(matches!(actions[0], Action::EnableController));
    assert!(matches!(actions[1], Action::SetAddress(0)));
    match actions[2] {
        Action::WriteRxBd(bd) => {
            assert_eq!(bd, chep_block::<64>(CTRL_RX_OFFSET));
            assert_eq!(bd, 0x8400_00c0);
        }
        other => panic!("{:?}", other),
    }
    match actions[3] {
        Action::WriteChep(w) => {
            let after = c.after_write(&w);
            assert_eq!(after.statrx, STAT_VALID);
            assert_eq!(after.stattx, STAT_NAK);
            assert!(!after.dtogrx && !after.dtogtx);
            assert_eq!((after.ea, after.utype), (0, 1));
        }
        other => panic!("{:?}", other),
    }
    assert!(matches!(actions[4], Action::InitializeEndpoints));
    // No handler has been called yet: that is for the caller to do.
    assert!(calls(&mut usb).is_empty());
    assert!(INITS.lock().unwrap().is_empty());
    USB_State::<Dev>::ep_initialize();
    assert_eq!(
        *INITS.lock().unwrap(),
        vec!["init1", "init2", "init3", "init4", "init5", "init6", "init7"]
    );
}

#[test]
fn start_of_frame_comes_before_reset() {
    let mut usb: USB_State<Dev> = Default::default();
    let (actions, more) = usb.isr(&istr(0x8600, true, true, true), &chep());
    assert!(more);
    assert_eq!(actions.len(), 5);
    assert_eq!(
        calls(&mut usb),
        vec!["sof1", "sof2", "sof3", "sof4", "sof5", "sof6", "sof7"]
    );
}

#[test]
fn completions_go_to_their_handlers() {
    let mut usb: USB_State<Dev> = Default::default();
    for n in 1..8u32 {
        match usb.dispatch(&istr(0x8000 | n, true, false, false), &chep(), &rx()) {
            Completion::Done(a) => assert!(a.is_empty()),
            other => panic!("{:?}", other),
        }
        assert_eq!(calls(&mut usb), vec![format!("tx{}", n)]);
        match usb.dispatch(&istr(0x8010 | n, true, false, false), &chep(), &rx()) {
            Completion::Done(a) => assert!(a.is_empty()),
            other => panic!("{:?}", other),
        }
        assert_eq!(calls(&mut usb), vec![format!("rx{}", n)]);
    }
}

#[test]
fn no_completion_ends_the_loop() {
    let mut usb: USB_State<Dev> = Default::default();
    assert!(matches!(
        usb.dispatch(&istr(0x0011, false, false, false), &chep(), &rx()),
        Completion::Idle
    ));
    assert!(calls(&mut usb).is_empty());
}

#[test]
fn a_completion_without_a_handler_is_unexpected() {
    let mut usb: USB_State<Dev> = Default::default();
    for code in (8..16u32).chain(24..32) {
        assert!(matches!(
            usb.dispatch(&istr(0x8000 | code, true, false, false), &chep(), &rx()),
            Completion::Unexpected
        ));
    }
    assert!(calls(&mut usb).is_empty());
}

#[test]
fn control_completions_go_to_the_control_state() {
    let mut usb: USB_State<Dev> = Default::default();
    // A SETUP that handler 6 wants: those before it are asked, those after
    // it are not.
    let c = CheprR { vtrx: true, setup: true, ..chep() };
    let actions = match usb.dispatch(&istr(0x8010, true, false, false), &c, &rx()) {
        Completion::Done(a) => a,
        other => panic!("{:?}", other),
    };
    assert_eq!(
        calls(&mut usb),
        vec!["want1", "want2", "want3", "want4", "want5", "want6", "setup6"]
    );
    assert_eq!(actions.len(), 1);
    // The OUT data: the predicate of handler 6 is due.
    let c = CheprR { vtrx: true, setup: false, ..chep() };
    match usb.dispatch(&istr(0x8010, true, false, false), &c, &rx()) {
        Completion::Predicate(cb) => assert_eq!(cb.id, 6),
        other => panic!("{:?}", other),
    }
    let actions = usb.control.rx_data_done(&c, true);
    assert_eq!(actions.len(), 2);
    // The empty packet of the STATUS stage has gone out.
    let c = CheprR { vttx: true, ..chep() };
    match usb.dispatch(&istr(0x8000, true, false, false), &c, &rx()) {
        Completion::Done(a) => {
            assert_eq!(a.len(), 1);
            match a[0] {
                Action::WriteChep(w) => {
                    let after = c.after_write(&w);
                    assert_eq!(after.statrx, STAT_VALID);
                    assert!(!after.dtogrx);
                    assert!(!after.vttx);
                }
                other => panic!("{:?}", other),
            }
        }
        other => panic!("{:?}", other),
    }
    assert!(calls(&mut usb).is_empty());
}

#[test]
fn delay_only_before_a_reception() {
    assert!(USB_State::<Dev>::needs_delay(&istr(0x8010, true, false, false)));
    assert!(!USB_State::<Dev>::needs_delay(&istr(0x8000, true, false, false)));
    assert!(!USB_State::<Dev>::needs_delay(&istr(0x0010, false, false, false)));
}

#[test]
fn delays_by_the_clock() {
    assert_eq!(USB_State::<Dev>::errata_delay(), 100);
    assert_eq!(USB_State::<Dev>::startup_delay(), 125);
}
