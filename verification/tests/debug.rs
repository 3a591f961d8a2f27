use stm_common::debug::{debug_isr, flush, write_str, Meta, UartAction, UartStatus};

struct On {
    up: bool,
}

impl Meta for On {
    fn lazy_init(&self) {}
    fn is_init(&self) -> bool {
        self.up
    }
    fn interrupt(&self) -> u32 {
        37
    }
    const ENABLE: bool = true;
}

struct Off;

impl Meta for Off {
    fn lazy_init(&self) {
        panic!("no debug output, nothing to bring up");
    }
    fn is_init(&self) -> bool {
        true
    }
    fn interrupt(&self) -> u32 {
        0
    }
    const ENABLE: bool = false;
}

const EMPTY: UartStatus = UartStatus { tc: false, txfe: true };

fn sent(actions: &[UartAction]) -> Vec<u8> {
    let mut v = Vec::new();
    for a in actions {
        if let UartAction::Send(b) = a {
            v.push(*b);
        }
    }
    v
}

#[test]
fn bytes_come_out_in_order_eight_at_a_time() {
    let mut d = stm_common::debug::Debug::new(On { up: true });
    let text: Vec<u8> = (0..20u8).collect();
    assert_eq!(d.write_bytes(&text), 20);
    assert_eq!(d.w, 20);
    assert_eq!(d.r, 0);

    let a = d.isr(&EMPTY);
    assert_eq!(a.len(), 8);
    assert_eq!(sent(&a), (0..8u8).collect::<Vec<u8>>());
    let a = d.isr(&EMPTY);
    assert_eq!(sent(&a), (8..16u8).collect::<Vec<u8>>());
    assert_eq!(a.len(), 8);
    let a = d.isr(&EMPTY);
    assert_eq!(sent(&a), (16..20u8).collect::<Vec<u8>>());
    assert_eq!(a.len(), 5);
    assert_eq!(a[4], UartAction::ClearTxfeie);
    assert_eq!(d.r, 20);
    // Nothing left.
    assert_eq!(d.isr(&EMPTY), vec![UartAction::ClearTxfeie]);
}

#[test]
fn exactly_a_fifo_full_empties_the_ring() {
    let mut d = stm_common::debug::Debug::new(On { up: true });
    assert_eq!(d.write_bytes(b"12345678"), 8);
    let a = d.isr(&EMPTY);
    assert_eq!(a.len(), 9);
    assert_eq!(sent(&a), b"12345678".to_vec());
    assert_eq!(a[8], UartAction::ClearTxfeie);
}

#[test]
fn a_busy_fifo_is_left_alone() {
    let mut d = stm_common::debug::Debug::new(On { up: true });
    d.write_bytes(b"abc");
    assert_eq!(d.isr(&UartStatus { tc: false, txfe: false }), vec![]);
    assert_eq!(d.isr(&UartStatus { tc: true, txfe: false }), vec![UartAction::ClearTcie]);
    assert_eq!(d.r, 0);
    let a = d.isr(&UartStatus { tc: true, txfe: true });
    assert_eq!(
        a,
        vec![
            UartAction::ClearTcie,
            UartAction::Send(b'a'),
            UartAction::Send(b'b'),
            UartAction::Send(b'c'),
            UartAction::ClearTxfeie
        ]
    );
}

#[test]
fn the_ring_takes_255_bytes_and_wraps() {
    let mut d = stm_common::debug::Debug::new(On { up: true });
    let text: Vec<u8> = (0..600u32).map(|i| (i * 7) as u8).collect();
    let mut written = 0;
    let mut read: Vec<u8> = Vec::new();
    let n = d.write_bytes(&text);
    assert_eq!(n, 255);
    written += n;
    // Full: nothing more goes in.
    assert_eq!(d.write_bytes(&text[written..]), 0);
    let mut turns = 0;
    while read.len() < text.len() {
        let a = d.isr(&EMPTY);
        read.extend(sent(&a));
        let n = d.write_bytes(&text[written..]);
        assert!(n <= 8);
        written += n;
        turns += 1;
        assert!(turns < 200);
    }
    assert_eq!(read, text);
    assert_eq!(written, 600);
    assert_eq!(d.r, d.w);
}

#[test]
fn strings_go_in_as_their_bytes() {
    let mut d = stm_common::debug::Debug::new(On { up: true });
    assert_eq!(write_str(&mut d, "héllo"), 6);
    let a = debug_isr(&mut d, &EMPTY);
    assert_eq!(sent(&a), "héllo".as_bytes().to_vec());
}

#[test]
fn nothing_happens_without_debug_output() {
    let mut d = stm_common::debug::Debug::new(Off);
    assert_eq!(d.write_bytes(b"hello"), 5);
    assert_eq!(write_str(&mut d, "hello"), 5);
    assert_eq!((d.w, d.r), (0, 0));
    d.w = 3;
    assert_eq!(d.isr(&UartStatus { tc: true, txfe: true }), vec![]);
    assert_eq!(debug_isr(&mut d, &UartStatus { tc: true, txfe: true }), vec![]);
    assert_eq!((d.w, d.r), (3, 0));
    assert!(!flush(&d, &EMPTY));
}

#[test]
fn flush_waits_for_the_last_byte() {
    let mut d = stm_common::debug::Debug::new(On { up: true });
    let all = UartStatus { tc: true, txfe: true };
    assert!(!flush(&d, &all));
    assert!(flush(&d, &UartStatus { tc: false, txfe: true }));
    assert!(flush(&d, &UartStatus { tc: true, txfe: false }));
    d.write_bytes(b"x");
    assert!(flush(&d, &all));
    assert!(d.busy(&all));
    d.isr(&all);
    assert!(!flush(&d, &all));
    assert!(!d.busy(&all));
    // Before the UART is up there is nothing to wait for.
    let mut d = stm_common::debug::Debug::new(On { up: false });
    d.w = 4;
    assert!(!flush(&d, &UartStatus { tc: false, txfe: false }));
}

#[test]
fn the_interrupt_handler_moves_the_read_index_only() {
    let mut d = stm_common::debug::Debug::new(On { up: true });
    d.w = 250;
    d.r = 250;
    let text: Vec<u8> = (1..=12u8).collect();
    assert_eq!(d.write_bytes(&text), 12);
    assert_eq!(d.w, 6);
    let buf = d.buf;
    assert_eq!(d.isr(&UartStatus { tc: false, txfe: false }), vec![]);
    assert_eq!((d.r, d.w), (250, 6));
    let a = d.isr(&EMPTY);
    assert_eq!(sent(&a), (1..=8u8).collect::<Vec<u8>>());
    assert_eq!((d.r, d.w), (2, 6));
    assert_eq!(d.buf, buf);
    let a = d.isr(&EMPTY);
    assert_eq!(sent(&a), (9..=12u8).collect::<Vec<u8>>());
    assert_eq!((d.r, d.w), (6, 6));
    assert_eq!(d.buf, buf);
}
