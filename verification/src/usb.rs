//! USB Full-Speed device support: the control-transfer engine and the
//! interrupt dispatcher around it.

pub mod control;
pub mod hardware;
pub mod string;
pub mod types;

use crate::usb::control::{
    answered_state, request_kind, setup_received, ControlState, ControlView, Request, RxOutcome,
    RxOutcomeView,
};
use crate::usb::hardware::{
    bd_len, bd_rx, chep_block, emit, Action, ActionView, CheprR, CheprW, CheprWriter, ControlRx,
    IstrR, CTRL_RX_OFFSET, ISTR_FLAGS,
};
use crate::usb::types::{SetupHeader, SetupResult, SetupResultView, SetupRxCallback};
use vstd::prelude::*;

verus! {

/// The handler of one pair of endpoints, for data in both directions.
///
/// Each method comes with a relation that says what a call may do and
/// return, beside what the method does where it is left as it is here.  The
/// relations are there for the contracts of the callers to name the calls
/// that they make; an implementation that says nothing of itself leaves them
/// at `true`.
pub trait EndpointPair: Default + Sized {
    /// What `rx_handler` may turn `self` into.
    open spec fn rx_handled(self, after: Self) -> bool {
        true
    }

    /// Handler for RX done notifications.
    fn rx_handler(&mut self)
        ensures
            old(self).rx_handled(*final(self)) || *final(self) == *old(self),
    {
    }

    /// What `tx_handler` may turn `self` into.
    open spec fn tx_handled(self, after: Self) -> bool {
        true
    }

    /// Handler for TX done notifications.
    fn tx_handler(&mut self)
        ensures
            old(self).tx_handled(*final(self)) || *final(self) == *old(self),
    {
    }

    /// What `start_of_frame` may turn `self` into.
    open spec fn frame_started(self, after: Self) -> bool {
        true
    }

    /// Start-of-frame handler.
    fn start_of_frame(&mut self)
        ensures
            old(self).frame_started(*final(self)) || *final(self) == *old(self),
    {
    }

    /// What `setup_wanted` may answer on `h`, and turn `self` into.
    open spec fn wants(self, h: SetupHeader, after: Self, wanted: bool) -> bool {
        true
    }

    /// Do we want to handle a setup request?
    fn setup_wanted(&mut self, h: &SetupHeader) -> (wanted: bool)
        ensures
            old(self).wants(*h, *final(self), wanted) || (!wanted && *final(self) == *old(self)),
    {
        false
    }

    /// What `setup_handler` may answer on `h`, and turn `self` into.
    open spec fn handles(self, h: SetupHeader, after: Self, r: SetupResult) -> bool {
        true
    }

    /// Handler for set-up requests.
    fn setup_handler(&mut self, h: &SetupHeader) -> (r: SetupResult)
        ensures
            old(self).handles(*h, *final(self), r) || (*final(self) == *old(self) && r@
                == SetupResultView::error()),
    {
        SetupResult::error()
    }

    /// Hardware level initialization.
    fn initialize() {
    }
}

/// What a device is made of: its descriptors, the handlers of its seven
/// endpoint pairs, and the clock that it runs on.
pub trait USBTypes: Default + Sized {
    /// What `get_device_descriptor` may answer, and turn `self` into.
    open spec fn device_descriptor(self, after: Self, r: SetupResult) -> bool {
        true
    }

    fn get_device_descriptor(&mut self) -> (r: SetupResult)
        ensures
            old(self).device_descriptor(*final(self), r),
    ;

    /// What `get_config_descriptor` may answer on `setup`, and turn `self`
    /// into.
    open spec fn config_descriptor(self, setup: SetupHeader, after: Self, r: SetupResult) -> bool {
        true
    }

    fn get_config_descriptor(&mut self, setup: &SetupHeader) -> (r: SetupResult)
        ensures
            old(self).config_descriptor(*setup, *final(self), r),
    ;

    /// What `get_string_descriptor` may answer on `idx`, and turn `self` into.
    open spec fn string_descriptor(self, idx: u8, after: Self, r: SetupResult) -> bool {
        true
    }

    fn get_string_descriptor(&mut self, idx: u8) -> (r: SetupResult)
        ensures
            old(self).string_descriptor(idx, *final(self), r),
    ;

    type EP1: EndpointPair;

    type EP2: EndpointPair;

    type EP3: EndpointPair;

    type EP4: EndpointPair;

    type EP5: EndpointPair;

    type EP6: EndpointPair;

    type EP7: EndpointPair;

    /// CPU frequency, in HZ.
    const CPU_FREQ: u32;
}

/// An endpoint pair that is not in use: it wants no request and answers each
/// with the error value.
#[derive(Clone, Copy, PartialEq, Eq, Structural, Debug)]
pub struct DummyEndPoint;

impl Default for DummyEndPoint {
    fn default() -> (r: DummyEndPoint)
        ensures
            r == DummyEndPoint,
    {
        DummyEndPoint
    }
}

impl EndpointPair for DummyEndPoint {
    open spec fn rx_handled(self, after: Self) -> bool {
        false
    }

    open spec fn tx_handled(self, after: Self) -> bool {
        false
    }

    open spec fn frame_started(self, after: Self) -> bool {
        false
    }

    open spec fn wants(self, h: SetupHeader, after: Self, wanted: bool) -> bool {
        false
    }

    open spec fn handles(self, h: SetupHeader, after: Self, r: SetupResult) -> bool {
        false
    }
}

/// The handlers of the seven endpoint pairs beside the control endpoint.
pub struct DataEndPoints<UT: USBTypes> {
    pub ep1: UT::EP1,
    pub ep2: UT::EP2,
    pub ep3: UT::EP3,
    pub ep4: UT::EP4,
    pub ep5: UT::EP5,
    pub ep6: UT::EP6,
    pub ep7: UT::EP7,
}

impl<UT: USBTypes> Default for DataEndPoints<UT> {
    fn default() -> (r: Self)
        ensures
            call_ensures(<UT::EP1 as Default>::default, (), r.ep1),
            call_ensures(<UT::EP2 as Default>::default, (), r.ep2),
            call_ensures(<UT::EP3 as Default>::default, (), r.ep3),
            call_ensures(<UT::EP4 as Default>::default, (), r.ep4),
            call_ensures(<UT::EP5 as Default>::default, (), r.ep5),
            call_ensures(<UT::EP6 as Default>::default, (), r.ep6),
            call_ensures(<UT::EP7 as Default>::default, (), r.ep7),
    {
        Self {
            ep1: Default::default(),
            ep2: Default::default(),
            ep3: Default::default(),
            ep4: Default::default(),
            ep5: Default::default(),
            ep6: Default::default(),
            ep7: Default::default(),
        }
    }
}

/// What a handler that declines request `h` may be like afterwards: as its
/// relation for `setup_wanted` allows with the answer no, or as it was.  A
/// handler that nobody has asked is among these; that a handler was asked is
/// said where the call is made.
pub open spec fn declines<E: EndpointPair>(before: E, h: SetupHeader, after: E) -> bool {
    before.wants(h, after, false) || after == before
}

/// What a handler that wants request `h` and answers it with `r` may be
/// like afterwards, by its relations for `setup_wanted` and `setup_handler`.
pub open spec fn answers<E: EndpointPair>(before: E, h: SetupHeader, after: E, r: SetupResult)
    -> bool {
    exists|asked: E|
        #[trigger] before.wants(h, asked, true) && (asked.handles(h, after, r) || (r@
            == SetupResultView::error() && after == asked))
}

/// Asks one handler whether it wants `h`, and lets it answer if it does.
pub fn offer<E: EndpointPair>(ep: &mut E, h: &SetupHeader) -> (r: Option<SetupResult>)
    ensures
        match r {
            Some(x) => answers(*old(ep), *h, *final(ep), x),
            None => declines(*old(ep), *h, *final(ep)),
        },
        // `setup_wanted` is called on the handler as it comes in.  Where it
        // answers no, that is all; where it answers yes, `setup_handler` is
        // called on the handler as `setup_wanted` has left it, and `r` is
        // what it returns.
        match r {
            Some(x) => exists|m: &mut E, n: &mut E|
                *m == *old(ep) && *final(m) == *n && *final(n) == *final(ep)
                    && #[trigger] call_ensures(E::setup_wanted, (m, h), true)
                    && #[trigger] call_ensures(E::setup_handler, (n, h), x),
            None => exists|m: &mut E|
                *m == *old(ep) && *final(m) == *final(ep) && #[trigger] call_ensures(
                    E::setup_wanted,
                    (m, h),
                    false,
                ),
        },
{
    if ep.setup_wanted(h) {
        let ghost asked = *ep;
        let x = ep.setup_handler(h);
        assert(old(ep).wants(*h, asked, true));
        Some(x)
    } else {
        None
    }
}

impl<UT: USBTypes> DataEndPoints<UT> {
    /// The handlers numbered below `n` are as `declines` allows.
    pub open spec fn declined_below(self, h: SetupHeader, after: Self, n: int) -> bool {
        &&& 1 < n ==> declines(self.ep1, h, after.ep1)
        &&& 2 < n ==> declines(self.ep2, h, after.ep2)
        &&& 3 < n ==> declines(self.ep3, h, after.ep3)
        &&& 4 < n ==> declines(self.ep4, h, after.ep4)
        &&& 5 < n ==> declines(self.ep5, h, after.ep5)
        &&& 6 < n ==> declines(self.ep6, h, after.ep6)
        &&& 7 < n ==> declines(self.ep7, h, after.ep7)
    }

    /// Handler `n` is as `answers` allows, with the answer `r`.
    pub open spec fn answered_by(self, h: SetupHeader, after: Self, n: int, r: SetupResult)
        -> bool {
        &&& n == 1 ==> answers(self.ep1, h, after.ep1, r)
        &&& n == 2 ==> answers(self.ep2, h, after.ep2, r)
        &&& n == 3 ==> answers(self.ep3, h, after.ep3, r)
        &&& n == 4 ==> answers(self.ep4, h, after.ep4, r)
        &&& n == 5 ==> answers(self.ep5, h, after.ep5, r)
        &&& n == 6 ==> answers(self.ep6, h, after.ep6, r)
        &&& n == 7 ==> answers(self.ep7, h, after.ep7, r)
    }

    /// The handlers numbered above `n` are as they were.
    pub open spec fn untouched_above(self, after: Self, n: int) -> bool {
        &&& n < 1 ==> after.ep1 == self.ep1
        &&& n < 2 ==> after.ep2 == self.ep2
        &&& n < 3 ==> after.ep3 == self.ep3
        &&& n < 4 ==> after.ep4 == self.ep4
        &&& n < 5 ==> after.ep5 == self.ep5
        &&& n < 6 ==> after.ep6 == self.ep6
        &&& n < 7 ==> after.ep7 == self.ep7
    }

    /// What the handlers may be like when handler `n` is the first that wants
    /// `h`: those before it as `declines` allows, it as `answers` allows with
    /// the answer `r`, and those after it as they were.
    pub open spec fn claimed_by(self, h: SetupHeader, after: Self, n: int, r: SetupResult) -> bool {
        &&& 1 <= n <= 7
        &&& self.declined_below(h, after, n)
        &&& self.answered_by(h, after, n, r)
        &&& self.untouched_above(after, n)
    }

    /// What the handlers may be like when `h` has been offered to them in
    /// their order: for the answer `r` of one of them as `claimed_by` allows,
    /// and without an answer each as `declines` allows.  This bounds what the
    /// handlers have become; which calls were made is said where they are
    /// made.
    pub open spec fn claims(self, h: SetupHeader, after: Self, r: Option<SetupResult>) -> bool {
        match r {
            Some(x) => exists|n: int| #[trigger] self.claimed_by(h, after, n, x),
            None => self.declined_below(h, after, 8),
        }
    }

    /// Offers a request to the handlers, in their order, until one wants it.
    pub fn setup(&mut self, h: &SetupHeader) -> (r: Option<SetupResult>)
        ensures
            old(self).claims(*h, *final(self), r),
            // The calls that are made, with `k` the number of the handler
            // that wants `h`, or 8 where none does.  `setup_wanted` of each
            // handler before `k` is called and answers no.  `setup_wanted`
            // of handler `k` is called and answers yes, `setup_handler` of
            // it is called on the handler as `setup_wanted` has left it, and
            // `r` is what it returns.  The handlers after `k` are as they
            // were.
            exists|k: int|
                {
                    &&& 1 <= k <= 8
                    &&& #[trigger] old(self).untouched_above(*final(self), k)
                    &&& (r is Some) == (k <= 7)
                    &&& 1 < k ==> (exists|m: &mut UT::EP1|
                        *m == old(self).ep1 && *final(m) == final(self).ep1
                            && #[trigger] call_ensures(
                            <UT::EP1 as EndpointPair>::setup_wanted,
                            (m, h),
                            false,
                        ))
                    &&& 1 == k ==> (exists|m: &mut UT::EP1, n: &mut UT::EP1|
                        *m == old(self).ep1 && *final(m) == *n && *final(n) == final(self).ep1
                            && #[trigger] call_ensures(
                            <UT::EP1 as EndpointPair>::setup_wanted,
                            (m, h),
                            true,
                        ) && #[trigger] call_ensures(
                            <UT::EP1 as EndpointPair>::setup_handler,
                            (n, h),
                            r->0,
                        ))
                    &&& 2 < k ==> (exists|m: &mut UT::EP2|
                        *m == old(self).ep2 && *final(m) == final(self).ep2
                            && #[trigger] call_ensures(
                            <UT::EP2 as EndpointPair>::setup_wanted,
                            (m, h),
                            false,
                        ))
                    &&& 2 == k ==> (exists|m: &mut UT::EP2, n: &mut UT::EP2|
                        *m == old(self).ep2 && *final(m) == *n && *final(n) == final(self).ep2
                            && #[trigger] call_ensures(
                            <UT::EP2 as EndpointPair>::setup_wanted,
                            (m, h),
                            true,
                        ) && #[trigger] call_ensures(
                            <UT::EP2 as EndpointPair>::setup_handler,
                            (n, h),
                            r->0,
                        ))
                    &&& 3 < k ==> (exists|m: &mut UT::EP3|
                        *m == old(self).ep3 && *final(m) == final(self).ep3
                            && #[trigger] call_ensures(
                            <UT::EP3 as EndpointPair>::setup_wanted,
                            (m, h),
                            false,
                        ))
                    &&& 3 == k ==> (exists|m: &mut UT::EP3, n: &mut UT::EP3|
                        *m == old(self).ep3 && *final(m) == *n && *final(n) == final(self).ep3
                            && #[trigger] call_ensures(
                            <UT::EP3 as EndpointPair>::setup_wanted,
                            (m, h),
                            true,
                        ) && #[trigger] call_ensures(
                            <UT::EP3 as EndpointPair>::setup_handler,
                            (n, h),
                            r->0,
                        ))
                    &&& 4 < k ==> (exists|m: &mut UT::EP4|
                        *m == old(self).ep4 && *final(m) == final(self).ep4
                            && #[trigger] call_ensures(
                            <UT::EP4 as EndpointPair>::setup_wanted,
                            (m, h),
                            false,
                        ))
                    &&& 4 == k ==> (exists|m: &mut UT::EP4, n: &mut UT::EP4|
                        *m == old(self).ep4 && *final(m) == *n && *final(n) == final(self).ep4
                            && #[trigger] call_ensures(
                            <UT::EP4 as EndpointPair>::setup_wanted,
                            (m, h),
                            true,
                        ) && #[trigger] call_ensures(
                            <UT::EP4 as EndpointPair>::setup_handler,
                            (n, h),
                            r->0,
                        ))
                    &&& 5 < k ==> (exists|m: &mut UT::EP5|
                        *m == old(self).ep5 && *final(m) == final(self).ep5
                            && #[trigger] call_ensures(
                            <UT::EP5 as EndpointPair>::setup_wanted,
                            (m, h),
                            false,
                        ))
                    &&& 5 == k ==> (exists|m: &mut UT::EP5, n: &mut UT::EP5|
                        *m == old(self).ep5 && *final(m) == *n && *final(n) == final(self).ep5
                            && #[trigger] call_ensures(
                            <UT::EP5 as EndpointPair>::setup_wanted,
                            (m, h),
                            true,
                        ) && #[trigger] call_ensures(
                            <UT::EP5 as EndpointPair>::setup_handler,
                            (n, h),
                            r->0,
                        ))
                    &&& 6 < k ==> (exists|m: &mut UT::EP6|
                        *m == old(self).ep6 && *final(m) == final(self).ep6
                            && #[trigger] call_ensures(
                            <UT::EP6 as EndpointPair>::setup_wanted,
                            (m, h),
                            false,
                        ))
                    &&& 6 == k ==> (exists|m: &mut UT::EP6, n: &mut UT::EP6|
                        *m == old(self).ep6 && *final(m) == *n && *final(n) == final(self).ep6
                            && #[trigger] call_ensures(
                            <UT::EP6 as EndpointPair>::setup_wanted,
                            (m, h),
                            true,
                        ) && #[trigger] call_ensures(
                            <UT::EP6 as EndpointPair>::setup_handler,
                            (n, h),
                            r->0,
                        ))
                    &&& 7 < k ==> (exists|m: &mut UT::EP7|
                        *m == old(self).ep7 && *final(m) == final(self).ep7
                            && #[trigger] call_ensures(
                            <UT::EP7 as EndpointPair>::setup_wanted,
                            (m, h),
                            false,
                        ))
                    &&& 7 == k ==> (exists|m: &mut UT::EP7, n: &mut UT::EP7|
                        *m == old(self).ep7 && *final(m) == *n && *final(n) == final(self).ep7
                            && #[trigger] call_ensures(
                            <UT::EP7 as EndpointPair>::setup_wanted,
                            (m, h),
                            true,
                        ) && #[trigger] call_ensures(
                            <UT::EP7 as EndpointPair>::setup_handler,
                            (n, h),
                            r->0,
                        ))
                },
    {
        if let Some(x) = offer(&mut self.ep1, h) {
            assert(old(self).claimed_by(*h, *self, 1, x));
            assert(old(self).untouched_above(*self, 1));
            return Some(x);
        }
        if let Some(x) = offer(&mut self.ep2, h) {
            assert(old(self).claimed_by(*h, *self, 2, x));
            assert(old(self).untouched_above(*self, 2));
            return Some(x);
        }
        if let Some(x) = offer(&mut self.ep3, h) {
            assert(old(self).claimed_by(*h, *self, 3, x));
            assert(old(self).untouched_above(*self, 3));
            return Some(x);
        }
        if let Some(x) = offer(&mut self.ep4, h) {
            assert(old(self).claimed_by(*h, *self, 4, x));
            assert(old(self).untouched_above(*self, 4));
            return Some(x);
        }
        if let Some(x) = offer(&mut self.ep5, h) {
            assert(old(self).claimed_by(*h, *self, 5, x));
            assert(old(self).untouched_above(*self, 5));
            return Some(x);
        }
        if let Some(x) = offer(&mut self.ep6, h) {
            assert(old(self).claimed_by(*h, *self, 6, x));
            assert(old(self).untouched_above(*self, 6));
            return Some(x);
        }
        if let Some(x) = offer(&mut self.ep7, h) {
            assert(old(self).claimed_by(*h, *self, 7, x));
            assert(old(self).untouched_above(*self, 7));
            return Some(x);
        }
        assert(old(self).untouched_above(*self, 8));
        None
    }

    /// What the handlers may be like after the start of a frame: each as its
    /// relation for `start_of_frame` allows, or as it was.
    pub open spec fn frame_started(self, after: Self) -> bool {
        &&& self.ep1.frame_started(after.ep1) || after.ep1 == self.ep1
        &&& self.ep2.frame_started(after.ep2) || after.ep2 == self.ep2
        &&& self.ep3.frame_started(after.ep3) || after.ep3 == self.ep3
        &&& self.ep4.frame_started(after.ep4) || after.ep4 == self.ep4
        &&& self.ep5.frame_started(after.ep5) || after.ep5 == self.ep5
        &&& self.ep6.frame_started(after.ep6) || after.ep6 == self.ep6
        &&& self.ep7.frame_started(after.ep7) || after.ep7 == self.ep7
    }

    /// All handlers but number `n` are as they were.
    pub open spec fn only_touched(self, after: Self, n: int) -> bool {
        &&& n != 1 ==> after.ep1 == self.ep1
        &&& n != 2 ==> after.ep2 == self.ep2
        &&& n != 3 ==> after.ep3 == self.ep3
        &&& n != 4 ==> after.ep4 == self.ep4
        &&& n != 5 ==> after.ep5 == self.ep5
        &&& n != 6 ==> after.ep6 == self.ep6
        &&& n != 7 ==> after.ep7 == self.ep7
    }

    /// What the handlers may be like after a transmission of endpoint `n`:
    /// handler `n` as its relation for `tx_handler` allows, or as it was, and
    /// all others as they were.
    pub open spec fn tx_handled(self, after: Self, n: int) -> bool {
        &&& self.only_touched(after, n)
        &&& n == 1 ==> self.ep1.tx_handled(after.ep1) || after.ep1 == self.ep1
        &&& n == 2 ==> self.ep2.tx_handled(after.ep2) || after.ep2 == self.ep2
        &&& n == 3 ==> self.ep3.tx_handled(after.ep3) || after.ep3 == self.ep3
        &&& n == 4 ==> self.ep4.tx_handled(after.ep4) || after.ep4 == self.ep4
        &&& n == 5 ==> self.ep5.tx_handled(after.ep5) || after.ep5 == self.ep5
        &&& n == 6 ==> self.ep6.tx_handled(after.ep6) || after.ep6 == self.ep6
        &&& n == 7 ==> self.ep7.tx_handled(after.ep7) || after.ep7 == self.ep7
    }

    /// What the handlers may be like after a reception of endpoint `n`:
    /// handler `n` as its relation for `rx_handler` allows, or as it was, and
    /// all others as they were.
    pub open spec fn rx_handled(self, after: Self, n: int) -> bool {
        &&& self.only_touched(after, n)
        &&& n == 1 ==> self.ep1.rx_handled(after.ep1) || after.ep1 == self.ep1
        &&& n == 2 ==> self.ep2.rx_handled(after.ep2) || after.ep2 == self.ep2
        &&& n == 3 ==> self.ep3.rx_handled(after.ep3) || after.ep3 == self.ep3
        &&& n == 4 ==> self.ep4.rx_handled(after.ep4) || after.ep4 == self.ep4
        &&& n == 5 ==> self.ep5.rx_handled(after.ep5) || after.ep5 == self.ep5
        &&& n == 6 ==> self.ep6.rx_handled(after.ep6) || after.ep6 == self.ep6
        &&& n == 7 ==> self.ep7.rx_handled(after.ep7) || after.ep7 == self.ep7
    }

    /// Tells every handler that a frame has started.
    pub fn start_of_frame(&mut self)
        ensures
            old(self).frame_started(*final(self)),
            // `start_of_frame` of each handler is called, on the handler as it
            // comes in.
            exists|m: &mut UT::EP1|
                *m == old(self).ep1 && *final(m) == final(self).ep1
                    && #[trigger] call_ensures(
                    <UT::EP1 as EndpointPair>::start_of_frame,
                    (m,),
                    (),
                ),
            exists|m: &mut UT::EP2|
                *m == old(self).ep2 && *final(m) == final(self).ep2
                    && #[trigger] call_ensures(
                    <UT::EP2 as EndpointPair>::start_of_frame,
                    (m,),
                    (),
                ),
            exists|m: &mut UT::EP3|
                *m == old(self).ep3 && *final(m) == final(self).ep3
                    && #[trigger] call_ensures(
                    <UT::EP3 as EndpointPair>::start_of_frame,
                    (m,),
                    (),
                ),
            exists|m: &mut UT::EP4|
                *m == old(self).ep4 && *final(m) == final(self).ep4
                    && #[trigger] call_ensures(
                    <UT::EP4 as EndpointPair>::start_of_frame,
                    (m,),
                    (),
                ),
            exists|m: &mut UT::EP5|
                *m == old(self).ep5 && *final(m) == final(self).ep5
                    && #[trigger] call_ensures(
                    <UT::EP5 as EndpointPair>::start_of_frame,
                    (m,),
                    (),
                ),
            exists|m: &mut UT::EP6|
                *m == old(self).ep6 && *final(m) == final(self).ep6
                    && #[trigger] call_ensures(
                    <UT::EP6 as EndpointPair>::start_of_frame,
                    (m,),
                    (),
                ),
            exists|m: &mut UT::EP7|
                *m == old(self).ep7 && *final(m) == final(self).ep7
                    && #[trigger] call_ensures(
                    <UT::EP7 as EndpointPair>::start_of_frame,
                    (m,),
                    (),
                ),
    {
        self.ep1.start_of_frame();
        self.ep2.start_of_frame();
        self.ep3.start_of_frame();
        self.ep4.start_of_frame();
        self.ep5.start_of_frame();
        self.ep6.start_of_frame();
        self.ep7.start_of_frame();
    }

    /// Tells handler `n` that its transmission is done.  There are handlers
    /// 1 to 7; for another `n` nothing happens.
    pub fn tx_handler(&mut self, n: u8)
        ensures
            old(self).tx_handled(*final(self), n as int),
            // `tx_handler` of handler `n` is called, on the handler as it comes in.
            n == 1 ==> (
            exists|m: &mut UT::EP1|
                *m == old(self).ep1 && *final(m) == final(self).ep1
                    && #[trigger] call_ensures(
                    <UT::EP1 as EndpointPair>::tx_handler,
                    (m,),
                    (),
                )),
            n == 2 ==> (
            exists|m: &mut UT::EP2|
                *m == old(self).ep2 && *final(m) == final(self).ep2
                    && #[trigger] call_ensures(
                    <UT::EP2 as EndpointPair>::tx_handler,
                    (m,),
                    (),
                )),
            n == 3 ==> (
            exists|m: &mut UT::EP3|
                *m == old(self).ep3 && *final(m) == final(self).ep3
                    && #[trigger] call_ensures(
                    <UT::EP3 as EndpointPair>::tx_handler,
                    (m,),
                    (),
                )),
            n == 4 ==> (
            exists|m: &mut UT::EP4|
                *m == old(self).ep4 && *final(m) == final(self).ep4
                    && #[trigger] call_ensures(
                    <UT::EP4 as EndpointPair>::tx_handler,
                    (m,),
                    (),
                )),
            n == 5 ==> (
            exists|m: &mut UT::EP5|
                *m == old(self).ep5 && *final(m) == final(self).ep5
                    && #[trigger] call_ensures(
                    <UT::EP5 as EndpointPair>::tx_handler,
                    (m,),
                    (),
                )),
            n == 6 ==> (
            exists|m: &mut UT::EP6|
                *m == old(self).ep6 && *final(m) == final(self).ep6
                    && #[trigger] call_ensures(
                    <UT::EP6 as EndpointPair>::tx_handler,
                    (m,),
                    (),
                )),
            n == 7 ==> (
            exists|m: &mut UT::EP7|
                *m == old(self).ep7 && *final(m) == final(self).ep7
                    && #[trigger] call_ensures(
                    <UT::EP7 as EndpointPair>::tx_handler,
                    (m,),
                    (),
                )),
            !(1 <= n <= 7) ==> *final(self) == *old(self),
    {
        match n {
            1 => self.ep1.tx_handler(),
            2 => self.ep2.tx_handler(),
            3 => self.ep3.tx_handler(),
            4 => self.ep4.tx_handler(),
            5 => self.ep5.tx_handler(),
            6 => self.ep6.tx_handler(),
            7 => self.ep7.tx_handler(),
            _ => {},
        }
    }

    /// Tells handler `n` that its reception is done.  There are handlers 1
    /// to 7; for another `n` nothing happens.
    pub fn rx_handler(&mut self, n: u8)
        ensures
            old(self).rx_handled(*final(self), n as int),
            // `rx_handler` of handler `n` is called, on the handler as it comes in.
            n == 1 ==> (
            exists|m: &mut UT::EP1|
                *m == old(self).ep1 && *final(m) == final(self).ep1
                    && #[trigger] call_ensures(
                    <UT::EP1 as EndpointPair>::rx_handler,
                    (m,),
                    (),
                )),
            n == 2 ==> (
            exists|m: &mut UT::EP2|
                *m == old(self).ep2 && *final(m) == final(self).ep2
                    && #[trigger] call_ensures(
                    <UT::EP2 as EndpointPair>::rx_handler,
                    (m,),
                    (),
                )),
            n == 3 ==> (
            exists|m: &mut UT::EP3|
                *m == old(self).ep3 && *final(m) == final(self).ep3
                    && #[trigger] call_ensures(
                    <UT::EP3 as EndpointPair>::rx_handler,
                    (m,),
                    (),
                )),
            n == 4 ==> (
            exists|m: &mut UT::EP4|
                *m == old(self).ep4 && *final(m) == final(self).ep4
                    && #[trigger] call_ensures(
                    <UT::EP4 as EndpointPair>::rx_handler,
                    (m,),
                    (),
                )),
            n == 5 ==> (
            exists|m: &mut UT::EP5|
                *m == old(self).ep5 && *final(m) == final(self).ep5
                    && #[trigger] call_ensures(
                    <UT::EP5 as EndpointPair>::rx_handler,
                    (m,),
                    (),
                )),
            n == 6 ==> (
            exists|m: &mut UT::EP6|
                *m == old(self).ep6 && *final(m) == final(self).ep6
                    && #[trigger] call_ensures(
                    <UT::EP6 as EndpointPair>::rx_handler,
                    (m,),
                    (),
                )),
            n == 7 ==> (
            exists|m: &mut UT::EP7|
                *m == old(self).ep7 && *final(m) == final(self).ep7
                    && #[trigger] call_ensures(
                    <UT::EP7 as EndpointPair>::rx_handler,
                    (m,),
                    (),
                )),
            !(1 <= n <= 7) ==> *final(self) == *old(self),
    {
        match n {
            1 => self.ep1.rx_handler(),
            2 => self.ep2.rx_handler(),
            3 => self.ep3.rx_handler(),
            4 => self.ep4.rx_handler(),
            5 => self.ep5.rx_handler(),
            6 => self.ep6.rx_handler(),
            7 => self.ep7.rx_handler(),
            _ => {},
        }
    }
}

/// The operations that bring the controller up after a bus reset, from what
/// the control endpoint's register shows: interrupts on, address 0, the
/// control endpoint's RX buffer described, its toggles cleared and its
/// reception enabled, and then the other endpoints.
pub open spec fn reset_actions(chep: CheprR) -> Seq<ActionView> {
    seq![
        ActionView::EnableController,
        ActionView::SetAddress(0),
        ActionView::WriteRxBd(bd_rx(CTRL_RX_OFFSET as int, 64) as u32),
        ActionView::WriteChep(
            CheprW::zero().to_control().to_dtogrx(chep, false).to_dtogtx(chep, false).to_rx_valid(
                chep,
            ),
        ),
        ActionView::InitializeEndpoints,
    ]
}

/// What one turn of the transfer-complete loop of the interrupt handler
/// leaves to its caller.
#[derive(Debug)]
pub enum Completion {
    /// No transfer has completed: the loop ends.
    Idle,
    /// These operations; then the interrupt status is read again.
    Done(Vec<Action>),
    /// OUT data has come in on the control endpoint.  The caller runs this
    /// predicate on it, hands the verdict to `rx_data_done` of the control
    /// state, and reads the interrupt status again.
    Predicate(SetupRxCallback),
    /// The controller names a transfer that there is no handler for.  The
    /// loop ends, though the interrupt stays asserted: what else to do is
    /// not decided here.
    Unexpected,
}

/// A `Completion` with its operations as a sequence.
pub ghost enum CompletionView {
    Idle,
    Done(Seq<ActionView>),
    Predicate(SetupRxCallback),
    Unexpected,
}

impl View for Completion {
    type V = CompletionView;

    open spec fn view(&self) -> CompletionView {
        match *self {
            Completion::Idle => CompletionView::Idle,
            Completion::Done(actions) => CompletionView::Done(actions.deep_view()),
            Completion::Predicate(cb) => CompletionView::Predicate(cb),
            Completion::Unexpected => CompletionView::Unexpected,
        }
    }
}

/// The five low bits of the interrupt status: the transfer that completed.
pub open spec fn completion_code(bits: u32) -> int {
    (bits % 32) as int
}

/// The device: the control endpoint and the seven endpoint pairs beside it.
#[allow(non_camel_case_types)]
pub struct USB_State<UT: USBTypes> {
    pub control: ControlState<UT>,
    pub eps: DataEndPoints<UT>,
}

impl<UT: USBTypes> Default for USB_State<UT> {
    fn default() -> (s: Self)
        ensures
            s.control@ == ControlView::idle(),
            call_ensures(<UT as Default>::default, (), s.control.meta()),
            call_ensures(<DataEndPoints<UT> as Default>::default, (), s.eps),
    {
        USB_State { control: Default::default(), eps: Default::default() }
    }
}

impl<UT: USBTypes> USB_State<UT> {
    /// The first step of the interrupt handler, for the interrupt status
    /// `istr`: the flags that were seen are acknowledged, and no others.  The
    /// caller carries this out before anything else.
    pub fn acknowledge(istr: &IstrR) -> (a: Action)
        ensures
            a@ == ActionView::Acknowledge(istr.bits & ISTR_FLAGS),
    {
        Action::Acknowledge(istr.bits & ISTR_FLAGS)
    }

    /// The second step of the interrupt handler, for the interrupt status
    /// `istr`.  A start of frame is passed on to the seven handlers, and
    /// after that, on a bus reset, everything starts afresh.  The second
    /// result is whether there was more to the interrupt than a start of
    /// frame.
    ///
    /// The transfers that have completed are then taken one by one: see
    /// `dispatch`.
    pub fn isr(&mut self, istr: &IstrR, chep: &CheprR) -> (r: (Vec<Action>, bool))
        ensures
            r.1 == (istr.rst_dcon || istr.ctr),
            r.0.deep_view() == if istr.rst_dcon {
                reset_actions(*chep)
            } else {
                Seq::empty()
            },
            if istr.sof {
                old(self).eps.frame_started(final(self).eps)
            } else {
                final(self).eps == old(self).eps
            },
            // On a start of frame, `start_of_frame` of each handler is
            // called, on the handler as it comes in.
            istr.sof ==>
                (exists|m: &mut UT::EP1|
                    *m == old(self).eps.ep1 && *final(m) == final(self).eps.ep1
                        && #[trigger] call_ensures(
                        <UT::EP1 as EndpointPair>::start_of_frame,
                        (m,),
                        (),
                    )),
            istr.sof ==>
                (exists|m: &mut UT::EP2|
                    *m == old(self).eps.ep2 && *final(m) == final(self).eps.ep2
                        && #[trigger] call_ensures(
                        <UT::EP2 as EndpointPair>::start_of_frame,
                        (m,),
                        (),
                    )),
            istr.sof ==>
                (exists|m: &mut UT::EP3|
                    *m == old(self).eps.ep3 && *final(m) == final(self).eps.ep3
                        && #[trigger] call_ensures(
                        <UT::EP3 as EndpointPair>::start_of_frame,
                        (m,),
                        (),
                    )),
            istr.sof ==>
                (exists|m: &mut UT::EP4|
                    *m == old(self).eps.ep4 && *final(m) == final(self).eps.ep4
                        && #[trigger] call_ensures(
                        <UT::EP4 as EndpointPair>::start_of_frame,
                        (m,),
                        (),
                    )),
            istr.sof ==>
                (exists|m: &mut UT::EP5|
                    *m == old(self).eps.ep5 && *final(m) == final(self).eps.ep5
                        && #[trigger] call_ensures(
                        <UT::EP5 as EndpointPair>::start_of_frame,
                        (m,),
                        (),
                    )),
            istr.sof ==>
                (exists|m: &mut UT::EP6|
                    *m == old(self).eps.ep6 && *final(m) == final(self).eps.ep6
                        && #[trigger] call_ensures(
                        <UT::EP6 as EndpointPair>::start_of_frame,
                        (m,),
                        (),
                    )),
            istr.sof ==>
                (exists|m: &mut UT::EP7|
                    *m == old(self).eps.ep7 && *final(m) == final(self).eps.ep7
                        && #[trigger] call_ensures(
                        <UT::EP7 as EndpointPair>::start_of_frame,
                        (m,),
                        (),
                    )),
            if istr.rst_dcon {
                &&& final(self).control@ == ControlView::idle()
                &&& call_ensures(<UT as Default>::default, (), final(self).control.meta())
            } else {
                final(self).control == old(self).control
            },
    {
        let not_only_sof = istr.rst_dcon || istr.ctr;
        let mut actions: Vec<Action> = Vec::new();
        assert(actions.deep_view() =~= Seq::<ActionView>::empty());

        if istr.sof {
            self.start_of_frame();
        }
        if istr.rst_dcon {
            self.usb_initialize(chep, &mut actions);
            assert(actions.deep_view() =~= reset_actions(*chep));
        }
        (actions, not_only_sof)
    }

    /// Whether the buffer memory has to be left alone for a while before the
    /// transfer that `istr` shows is handled: after a reception the last
    /// bytes may still be on their way.  `errata_delay` tells for how long.
    pub fn needs_delay(istr: &IstrR) -> (b: bool)
        ensures
            b == (istr.ctr && istr.dir),
    {
        istr.ctr && istr.dir
    }

    /// One turn of the transfer-complete loop of the interrupt handler, for
    /// the interrupt status `istr`.  A transfer of the control endpoint goes
    /// to the control state, with `chep` and `rx` as they are read after the
    /// delay that `needs_delay` asks for; a transfer of endpoint 1 to 7 goes
    /// to its handler.
    pub fn dispatch(&mut self, istr: &IstrR, chep: &CheprR, rx: &ControlRx) -> (c: Completion)
        ensures
            !istr.ctr ==> c@ == CompletionView::Idle && *final(self) == *old(self),
            istr.ctr && completion_code(istr.bits) == 0 ==> {
                &&& c@ == CompletionView::Done(old(self).control@.tx_done(*chep).1)
                &&& final(self).control@ == old(self).control@.tx_done(*chep).0
                &&& final(self).control.meta() == old(self).control.meta()
                &&& final(self).eps == old(self).eps
            },
            istr.ctr && 1 <= completion_code(istr.bits) <= 7 ==> {
                &&& c@ == CompletionView::Done(Seq::empty())
                &&& final(self).control == old(self).control
                &&& old(self).eps.tx_handled(final(self).eps, completion_code(istr.bits))
            },
            // For the codes 1 to 7, `tx_handler` of the handler of that number
            // is called, on the handler as it comes in.
            istr.ctr && completion_code(istr.bits) == 1 ==>
                (exists|m: &mut UT::EP1|
                    *m == old(self).eps.ep1 && *final(m) == final(self).eps.ep1
                        && #[trigger] call_ensures(
                        <UT::EP1 as EndpointPair>::tx_handler,
                        (m,),
                        (),
                    )),
            istr.ctr && completion_code(istr.bits) == 2 ==>
                (exists|m: &mut UT::EP2|
                    *m == old(self).eps.ep2 && *final(m) == final(self).eps.ep2
                        && #[trigger] call_ensures(
                        <UT::EP2 as EndpointPair>::tx_handler,
                        (m,),
                        (),
                    )),
            istr.ctr && completion_code(istr.bits) == 3 ==>
                (exists|m: &mut UT::EP3|
                    *m == old(self).eps.ep3 && *final(m) == final(self).eps.ep3
                        && #[trigger] call_ensures(
                        <UT::EP3 as EndpointPair>::tx_handler,
                        (m,),
                        (),
                    )),
            istr.ctr && completion_code(istr.bits) == 4 ==>
                (exists|m: &mut UT::EP4|
                    *m == old(self).eps.ep4 && *final(m) == final(self).eps.ep4
                        && #[trigger] call_ensures(
                        <UT::EP4 as EndpointPair>::tx_handler,
                        (m,),
                        (),
                    )),
            istr.ctr && completion_code(istr.bits) == 5 ==>
                (exists|m: &mut UT::EP5|
                    *m == old(self).eps.ep5 && *final(m) == final(self).eps.ep5
                        && #[trigger] call_ensures(
                        <UT::EP5 as EndpointPair>::tx_handler,
                        (m,),
                        (),
                    )),
            istr.ctr && completion_code(istr.bits) == 6 ==>
                (exists|m: &mut UT::EP6|
                    *m == old(self).eps.ep6 && *final(m) == final(self).eps.ep6
                        && #[trigger] call_ensures(
                        <UT::EP6 as EndpointPair>::tx_handler,
                        (m,),
                        (),
                    )),
            istr.ctr && completion_code(istr.bits) == 7 ==>
                (exists|m: &mut UT::EP7|
                    *m == old(self).eps.ep7 && *final(m) == final(self).eps.ep7
                        && #[trigger] call_ensures(
                        <UT::EP7 as EndpointPair>::tx_handler,
                        (m,),
                        (),
                    )),
            istr.ctr && completion_code(istr.bits) == 16 ==> {
                &&& !chep.vtrx ==> {
                    &&& c@ == CompletionView::Done(Seq::empty())
                    &&& final(self).control@ == old(self).control@
                    &&& final(self).control.meta() == old(self).control.meta()
                    &&& final(self).eps == old(self).eps
                }
                &&& chep.vtrx && !chep.setup ==> {
                    &&& c@ == match old(self).control@.out_received(*chep).1 {
                        RxOutcomeView::Done(actions) => CompletionView::Done(actions),
                        RxOutcomeView::Predicate(cb) => CompletionView::Predicate(cb),
                    }
                    &&& final(self).control@ == old(self).control@.out_received(*chep).0
                    &&& final(self).control.meta() == old(self).control.meta()
                    &&& final(self).eps == old(self).eps
                }
                &&& chep.vtrx && chep.setup ==> {
                    &&& c@ is Done
                    &&& setup_received(
                        old(self).control@,
                        old(self).control.meta(),
                        old(self).eps,
                        SetupHeader::parse(rx.setup@),
                        bd_len(rx.bd),
                        *chep,
                        final(self).control@,
                        final(self).control.meta(),
                        final(self).eps,
                        c@->Done_0,
                    )
                }
            },
            // The calls that are made for a SETUP with a request that is
            // none of the engine's own, with `k` the number of the handler
            // that wants it, or 8 where none does.  `setup_wanted` of each
            // handler before `k` is called and answers no.  `setup_wanted`
            // of handler `k` is called and answers yes, `setup_handler` of
            // it is called on the handler as `setup_wanted` has left it, and
            // returns `x`.  The handlers after `k` are as they were.  The
            // engine acts on `x`, or on the error value where no handler
            // wants the request.
            istr.ctr && completion_code(istr.bits) == 16 && chep.vtrx && chep.setup
                && request_kind(SetupHeader::parse(rx.setup@), bd_len(rx.bd)) == Request::Other
                ==> exists|k: int, x: SetupResult|
                #![trigger old(self).eps.untouched_above(final(self).eps, k), x@]
                {
                    &&& 1 <= k <= 8
                    &&& old(self).eps.untouched_above(final(self).eps, k)
                    &&& final(self).control.meta() == old(self).control.meta()
                    &&& final(self).control@ == answered_state(
                        old(self).control@,
                        SetupHeader::parse(rx.setup@),
                        k,
                        x@,
                        *chep,
                    ).0
                    &&& c@ == CompletionView::Done(
                        answered_state(
                            old(self).control@,
                            SetupHeader::parse(rx.setup@),
                            k,
                            x@,
                            *chep,
                        ).1,
                    )
                    &&& 1 < k ==> (exists|m: &mut UT::EP1|
                        *m == old(self).eps.ep1 && *final(m) == final(self).eps.ep1
                            && #[trigger] call_ensures(
                            <UT::EP1 as EndpointPair>::setup_wanted,
                            (m, &SetupHeader::parse(rx.setup@)),
                            false,
                        ))
                    &&& 1 == k ==> (exists|m: &mut UT::EP1, n: &mut UT::EP1|
                        *m == old(self).eps.ep1 && *final(m) == *n
                            && *final(n) == final(self).eps.ep1
                            && #[trigger] call_ensures(
                            <UT::EP1 as EndpointPair>::setup_wanted,
                            (m, &SetupHeader::parse(rx.setup@)),
                            true,
                        ) && #[trigger] call_ensures(
                            <UT::EP1 as EndpointPair>::setup_handler,
                            (n, &SetupHeader::parse(rx.setup@)),
                            x,
                        ))
                    &&& 2 < k ==> (exists|m: &mut UT::EP2|
                        *m == old(self).eps.ep2 && *final(m) == final(self).eps.ep2
                            && #[trigger] call_ensures(
                            <UT::EP2 as EndpointPair>::setup_wanted,
                            (m, &SetupHeader::parse(rx.setup@)),
                            false,
                        ))
                    &&& 2 == k ==> (exists|m: &mut UT::EP2, n: &mut UT::EP2|
                        *m == old(self).eps.ep2 && *final(m) == *n
                            && *final(n) == final(self).eps.ep2
                            && #[trigger] call_ensures(
                            <UT::EP2 as EndpointPair>::setup_wanted,
                            (m, &SetupHeader::parse(rx.setup@)),
                            true,
                        ) && #[trigger] call_ensures(
                            <UT::EP2 as EndpointPair>::setup_handler,
                            (n, &SetupHeader::parse(rx.setup@)),
                            x,
                        ))
                    &&& 3 < k ==> (exists|m: &mut UT::EP3|
                        *m == old(self).eps.ep3 && *final(m) == final(self).eps.ep3
                            && #[trigger] call_ensures(
                            <UT::EP3 as EndpointPair>::setup_wanted,
                            (m, &SetupHeader::parse(rx.setup@)),
                            false,
                        ))
                    &&& 3 == k ==> (exists|m: &mut UT::EP3, n: &mut UT::EP3|
                        *m == old(self).eps.ep3 && *final(m) == *n
                            && *final(n) == final(self).eps.ep3
                            && #[trigger] call_ensures(
                            <UT::EP3 as EndpointPair>::setup_wanted,
                            (m, &SetupHeader::parse(rx.setup@)),
                            true,
                        ) && #[trigger] call_ensures(
                            <UT::EP3 as EndpointPair>::setup_handler,
                            (n, &SetupHeader::parse(rx.setup@)),
                            x,
                        ))
                    &&& 4 < k ==> (exists|m: &mut UT::EP4|
                        *m == old(self).eps.ep4 && *final(m) == final(self).eps.ep4
                            && #[trigger] call_ensures(
                            <UT::EP4 as EndpointPair>::setup_wanted,
                            (m, &SetupHeader::parse(rx.setup@)),
                            false,
                        ))
                    &&& 4 == k ==> (exists|m: &mut UT::EP4, n: &mut UT::EP4|
                        *m == old(self).eps.ep4 && *final(m) == *n
                            && *final(n) == final(self).eps.ep4
                            && #[trigger] call_ensures(
                            <UT::EP4 as EndpointPair>::setup_wanted,
                            (m, &SetupHeader::parse(rx.setup@)),
                            true,
                        ) && #[trigger] call_ensures(
                            <UT::EP4 as EndpointPair>::setup_handler,
                            (n, &SetupHeader::parse(rx.setup@)),
                            x,
                        ))
                    &&& 5 < k ==> (exists|m: &mut UT::EP5|
                        *m == old(self).eps.ep5 && *final(m) == final(self).eps.ep5
                            && #[trigger] call_ensures(
                            <UT::EP5 as EndpointPair>::setup_wanted,
                            (m, &SetupHeader::parse(rx.setup@)),
                            false,
                        ))
                    &&& 5 == k ==> (exists|m: &mut UT::EP5, n: &mut UT::EP5|
                        *m == old(self).eps.ep5 && *final(m) == *n
                            && *final(n) == final(self).eps.ep5
                            && #[trigger] call_ensures(
                            <UT::EP5 as EndpointPair>::setup_wanted,
                            (m, &SetupHeader::parse(rx.setup@)),
                            true,
                        ) && #[trigger] call_ensures(
                            <UT::EP5 as EndpointPair>::setup_handler,
                            (n, &SetupHeader::parse(rx.setup@)),
                            x,
                        ))
                    &&& 6 < k ==> (exists|m: &mut UT::EP6|
                        *m == old(self).eps.ep6 && *final(m) == final(self).eps.ep6
                            && #[trigger] call_ensures(
                            <UT::EP6 as EndpointPair>::setup_wanted,
                            (m, &SetupHeader::parse(rx.setup@)),
                            false,
                        ))
                    &&& 6 == k ==> (exists|m: &mut UT::EP6, n: &mut UT::EP6|
                        *m == old(self).eps.ep6 && *final(m) == *n
                            && *final(n) == final(self).eps.ep6
                            && #[trigger] call_ensures(
                            <UT::EP6 as EndpointPair>::setup_wanted,
                            (m, &SetupHeader::parse(rx.setup@)),
                            true,
                        ) && #[trigger] call_ensures(
                            <UT::EP6 as EndpointPair>::setup_handler,
                            (n, &SetupHeader::parse(rx.setup@)),
                            x,
                        ))
                    &&& 7 < k ==> (exists|m: &mut UT::EP7|
                        *m == old(self).eps.ep7 && *final(m) == final(self).eps.ep7
                            && #[trigger] call_ensures(
                            <UT::EP7 as EndpointPair>::setup_wanted,
                            (m, &SetupHeader::parse(rx.setup@)),
                            false,
                        ))
                    &&& 7 == k ==> (exists|m: &mut UT::EP7, n: &mut UT::EP7|
                        *m == old(self).eps.ep7 && *final(m) == *n
                            && *final(n) == final(self).eps.ep7
                            && #[trigger] call_ensures(
                            <UT::EP7 as EndpointPair>::setup_wanted,
                            (m, &SetupHeader::parse(rx.setup@)),
                            true,
                        ) && #[trigger] call_ensures(
                            <UT::EP7 as EndpointPair>::setup_handler,
                            (n, &SetupHeader::parse(rx.setup@)),
                            x,
                        ))
                },
            // For a SETUP with any other request, and for anything else that
            // the control endpoint has received, no handler is called.
            istr.ctr && completion_code(istr.bits) == 16 && !(chep.vtrx && chep.setup
                && request_kind(SetupHeader::parse(rx.setup@), bd_len(rx.bd)) == Request::Other)
                ==> final(self).eps == old(self).eps,
            istr.ctr && 17 <= completion_code(istr.bits) <= 23 ==> {
                &&& c@ == CompletionView::Done(Seq::empty())
                &&& final(self).control == old(self).control
                &&& old(self).eps.rx_handled(final(self).eps, completion_code(istr.bits) - 16)
            },
            // For the codes 17 to 23, `rx_handler` of the handler of that
            // number less 16 is called, on the handler as it comes in.
            istr.ctr && completion_code(istr.bits) == 17 ==>
                (exists|m: &mut UT::EP1|
                    *m == old(self).eps.ep1 && *final(m) == final(self).eps.ep1
                        && #[trigger] call_ensures(
                        <UT::EP1 as EndpointPair>::rx_handler,
                        (m,),
                        (),
                    )),
            istr.ctr && completion_code(istr.bits) == 18 ==>
                (exists|m: &mut UT::EP2|
                    *m == old(self).eps.ep2 && *final(m) == final(self).eps.ep2
                        && #[trigger] call_ensures(
                        <UT::EP2 as EndpointPair>::rx_handler,
                        (m,),
                        (),
                    )),
            istr.ctr && completion_code(istr.bits) == 19 ==>
                (exists|m: &mut UT::EP3|
                    *m == old(self).eps.ep3 && *final(m) == final(self).eps.ep3
                        && #[trigger] call_ensures(
                        <UT::EP3 as EndpointPair>::rx_handler,
                        (m,),
                        (),
                    )),
            istr.ctr && completion_code(istr.bits) == 20 ==>
                (exists|m: &mut UT::EP4|
                    *m == old(self).eps.ep4 && *final(m) == final(self).eps.ep4
                        && #[trigger] call_ensures(
                        <UT::EP4 as EndpointPair>::rx_handler,
                        (m,),
                        (),
                    )),
            istr.ctr && completion_code(istr.bits) == 21 ==>
                (exists|m: &mut UT::EP5|
                    *m == old(self).eps.ep5 && *final(m) == final(self).eps.ep5
                        && #[trigger] call_ensures(
                        <UT::EP5 as EndpointPair>::rx_handler,
                        (m,),
                        (),
                    )),
            istr.ctr && completion_code(istr.bits) == 22 ==>
                (exists|m: &mut UT::EP6|
                    *m == old(self).eps.ep6 && *final(m) == final(self).eps.ep6
                        && #[trigger] call_ensures(
                        <UT::EP6 as EndpointPair>::rx_handler,
                        (m,),
                        (),
                    )),
            istr.ctr && completion_code(istr.bits) == 23 ==>
                (exists|m: &mut UT::EP7|
                    *m == old(self).eps.ep7 && *final(m) == final(self).eps.ep7
                        && #[trigger] call_ensures(
                        <UT::EP7 as EndpointPair>::rx_handler,
                        (m,),
                        (),
                    )),
            istr.ctr && (8 <= completion_code(istr.bits) <= 15 || 24 <= completion_code(istr.bits))
                ==> c@ == CompletionView::Unexpected && *final(self) == *old(self),
    {
        if !istr.ctr {
            return Completion::Idle;
        }
        let bits = istr.bits;
        let code = bits & 31;
        assert(bits & 31 == bits % 32) by (bit_vector);
        let none: Vec<Action> = Vec::new();
        assert(none.deep_view() =~= Seq::<ActionView>::empty());
        if code == 0 {
            Completion::Done(self.control.tx_handler(chep, &mut self.eps))
        } else if code <= 7 {
            self.eps.tx_handler(code as u8);
            Completion::Done(none)
        } else if code == 16 {
            match self.control.rx_handler(chep, rx, &mut self.eps) {
                RxOutcome::Done(actions) => Completion::Done(actions),
                RxOutcome::Predicate(cb) => Completion::Predicate(cb),
            }
        } else if 17 <= code && code <= 23 {
            self.eps.rx_handler((code - 16) as u8);
            Completion::Done(none)
        } else {
            Completion::Unexpected
        }
    }

    /// On a start-of-frame interrupt the handlers get a chance to push
    /// through what they have pending, in time for the host's next poll.
    pub fn start_of_frame(&mut self)
        ensures
            old(self).eps.frame_started(final(self).eps),
            final(self).control == old(self).control,
            // `start_of_frame` of each handler is called, on the handler as it
            // comes in.
            exists|m: &mut UT::EP1|
                *m == old(self).eps.ep1 && *final(m) == final(self).eps.ep1
                    && #[trigger] call_ensures(
                    <UT::EP1 as EndpointPair>::start_of_frame,
                    (m,),
                    (),
                ),
            exists|m: &mut UT::EP2|
                *m == old(self).eps.ep2 && *final(m) == final(self).eps.ep2
                    && #[trigger] call_ensures(
                    <UT::EP2 as EndpointPair>::start_of_frame,
                    (m,),
                    (),
                ),
            exists|m: &mut UT::EP3|
                *m == old(self).eps.ep3 && *final(m) == final(self).eps.ep3
                    && #[trigger] call_ensures(
                    <UT::EP3 as EndpointPair>::start_of_frame,
                    (m,),
                    (),
                ),
            exists|m: &mut UT::EP4|
                *m == old(self).eps.ep4 && *final(m) == final(self).eps.ep4
                    && #[trigger] call_ensures(
                    <UT::EP4 as EndpointPair>::start_of_frame,
                    (m,),
                    (),
                ),
            exists|m: &mut UT::EP5|
                *m == old(self).eps.ep5 && *final(m) == final(self).eps.ep5
                    && #[trigger] call_ensures(
                    <UT::EP5 as EndpointPair>::start_of_frame,
                    (m,),
                    (),
                ),
            exists|m: &mut UT::EP6|
                *m == old(self).eps.ep6 && *final(m) == final(self).eps.ep6
                    && #[trigger] call_ensures(
                    <UT::EP6 as EndpointPair>::start_of_frame,
                    (m,),
                    (),
                ),
            exists|m: &mut UT::EP7|
                *m == old(self).eps.ep7 && *final(m) == final(self).eps.ep7
                    && #[trigger] call_ensures(
                    <UT::EP7 as EndpointPair>::start_of_frame,
                    (m,),
                    (),
                ),
    {
        self.eps.start_of_frame();
    }

    /// Starts afresh after a bus reset.
    pub fn usb_initialize(&mut self, chep: &CheprR, actions: &mut Vec<Action>)
        ensures
            final(self).control@ == ControlView::idle(),
            call_ensures(<UT as Default>::default, (), final(self).control.meta()),
            final(self).eps == old(self).eps,
            final(actions).deep_view() == old(actions).deep_view() + reset_actions(*chep),
    {
        self.control.usb_initialize();

        emit(actions, Action::EnableController);
        emit(actions, Action::SetAddress(0));
        emit(actions, Action::WriteRxBd(chep_block::<64>(CTRL_RX_OFFSET)));

        let mut w = CheprW::new();
        w.control().dtogrx(chep, false).dtogtx(chep, false).rx_valid(chep);
        emit(actions, Action::WriteChep(w));

        emit(actions, Action::InitializeEndpoints);
        assert(actions.deep_view() =~= old(actions).deep_view() + reset_actions(*chep));
    }

    /// Initialize the hardware of all seven endpoint pairs: what the
    /// operation `InitializeEndpoints` stands for.
    pub fn ep_initialize() {
        UT::EP1::initialize();
        UT::EP2::initialize();
        UT::EP3::initialize();
        UT::EP4::initialize();
        UT::EP5::initialize();
        UT::EP6::initialize();
        UT::EP7::initialize();
    }

    /// For how many turns of an idle loop of two cycles the buffer memory is
    /// left alone after a reception: 800 ns.
    pub fn errata_delay() -> (n: u32)
        ensures
            n == UT::CPU_FREQ / 1250000 / 2,
    {
        UT::CPU_FREQ / 1250000 / 2
    }

    /// For how many turns of an idle loop of two cycles the controller is
    /// held in reset when it is powered up: 1 µs.
    pub fn startup_delay() -> (n: u32)
        ensures
            n == UT::CPU_FREQ / 2000000,
    {
        UT::CPU_FREQ / 2000000
    }
}

} // verus!
