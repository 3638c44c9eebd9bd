//! The per-tick orchestrator and the cross-cutting request queue.
//!
//! Once per tick the system scans the matrix, resolves the positions whose
//! state changed through the keymap, dispatches the resulting key events to
//! the keymap itself (for layer changes), to the backlight (for its control
//! keycodes) and to the uplink, then drives the uplink's own transport and
//! drains the request queue.

use vstd::prelude::*;
use crate::backlight::Backlight;
use crate::keycode::{KeyAction, Keycode, SystemKeycode};
use crate::keymap::Keymap;
use crate::scanner::Scanner;
use crate::uplink::Uplink;

verus! {

/// A cross-cutting request raised during key-event dispatch and consumed at
/// the end of the same tick.
#[derive(Clone, Copy, PartialEq, Eq, Structural, Debug)]
pub enum Request {
    /// Ask the uplink to release every reported key except the modifiers.
    ClearKeyboardButMods,
}

/// The code under which `Request::ClearKeyboardButMods` travels through the
/// request queue.
pub const CLEAR_KEYBOARD_BUT_MODS: u8 = 0;

impl Request {
    /// The code under which this request travels through the queue.
    pub open spec fn spec_code(self) -> u8 {
        match self {
            Request::ClearKeyboardButMods => CLEAR_KEYBOARD_BUT_MODS,
        }
    }

    /// The code under which this request travels through the queue.
    pub fn code(self) -> (r: u8)
        ensures
            r == self.spec_code(),
    {
        match self {
            Request::ClearKeyboardButMods => CLEAR_KEYBOARD_BUT_MODS,
        }
    }
}

/// The declared shape of `lock_api::Mutex`, which `parking_lot::Mutex`
/// aliases; a value of it is opaque here.
#[verifier::external_type_specification]
#[verifier::external_body]
#[verifier::reject_recursive_types(R)]
#[verifier::reject_recursive_types(T)]
pub struct ExMutex<R, T: ?Sized>(lock_api::Mutex<R, T>);

/// The declared shape of `parking_lot::RawMutex`; a value of it is opaque
/// here.
#[verifier::external_type_specification]
#[verifier::external_body]
pub struct ExRawMutex(parking_lot::RawMutex);

/// The declared shape of `fullhouse::Deque`; a value of it is opaque here.
#[verifier::external_type_specification]
#[verifier::external_body]
#[verifier::reject_recursive_types(T)]
pub struct ExDeque<T, const CAPACITY: usize>(fullhouse::Deque<T, CAPACITY>);

/// The queue of cross-cutting requests, shared between key-event dispatch
/// (which enqueues) and the tick orchestrator (which drains).
///
/// Enqueueing is best-effort by design: in a deployment where dispatch can
/// be re-entered from an asynchronous context, a request that cannot take
/// the lock is dropped rather than retried, since a dropped request is
/// recoverable on a later tick while blocking inside a tick is not. Here the
/// queue is only ever reached through an exclusive borrow, the lock is free
/// between calls, and the one remaining way to drop a request is a full
/// queue.
pub struct RequestQueue {
    inner: lock_api::Mutex<parking_lot::RawMutex, fullhouse::Deque<u8, 16>>,
}

/// The request codes held by a queue's locked deque, front first.
pub uninterp spec fn queue_contents(q: &RequestQueue) -> Seq<u8>;

/// The most requests the queue can hold at once.
pub const REQUEST_QUEUE_CAPACITY: usize = 16;

impl RequestQueue {
    /// The pending request codes, front first.
    pub open spec fn view(&self) -> Seq<u8> {
        queue_contents(self)
    }

    /// Creates an empty queue.
    ///
    /// Relies on `parking_lot::Mutex::new` and `fullhouse::Deque::new`: a
    /// new mutex holds exactly the value it is given, and a new deque is
    /// empty.
    #[verifier::external_body]
    pub fn new() -> (r: Self)
        ensures
            queue_contents(&r) == Seq::<u8>::empty(),
    {
        RequestQueue { inner: parking_lot::Mutex::new(fullhouse::Deque::new()) }
    }

    /// Relies on `lock_api::Mutex::try_lock` and
    /// `fullhouse::Deque::push_back`. The queue is reached only through an
    /// exclusive borrow and its lock is never held between calls, so the
    /// try-lock always acquires; `push_back` then appends the value at the
    /// back, unless the deque already holds its capacity of 16 entries, in
    /// which case it returns the value and disturbs nothing.
    #[verifier::external_body]
    fn send_code(&mut self, value: u8)
        ensures
            queue_contents(final(self)) == if queue_contents(old(self)).len() < 16 {
                queue_contents(old(self)).push(value)
            } else {
                queue_contents(old(self))
            },
    {
        if let Some(mut deque) = self.inner.try_lock() {
            let _ = deque.push_back(value);
        }
    }

    /// Relies on `lock_api::Mutex::try_lock` and
    /// `fullhouse::Deque::pop_front`. The queue is reached only through an
    /// exclusive borrow and its lock is never held between calls, so the
    /// try-lock always acquires; `pop_front` then removes and returns
    /// exactly the front entry, or returns nothing when the deque is empty.
    #[verifier::external_body]
    fn recv_code(&mut self) -> (r: Option<u8>)
        ensures
            match r {
                Some(v) => queue_contents(old(self)) == seq![v] + queue_contents(final(self)),
                None => queue_contents(final(self)) == queue_contents(old(self))
                    && queue_contents(old(self)).len() == 0,
            },
    {
        match self.inner.try_lock() {
            Some(mut deque) => deque.pop_front(),
            None => None,
        }
    }

    /// Enqueues a request; a request that finds the queue full is dropped.
    pub fn try_send(&mut self, req: Request)
        ensures
            final(self).view() == if old(self).view().len() < REQUEST_QUEUE_CAPACITY {
                old(self).view().push(req.spec_code())
            } else {
                old(self).view()
            },
    {
        let code = req.code();
        self.send_code(code);
    }

    /// Dequeues the oldest request, or nothing when none is pending.
    pub fn try_recv(&mut self) -> (r: Option<u8>)
        ensures
            match r {
                Some(v) => old(self).view() == seq![v] + final(self).view(),
                None => final(self).view() == old(self).view() && old(self).view().len() == 0,
            },
    {
        self.recv_code()
    }
}

/// Requests the uplink's non-modifier keys be released; dropped only when
/// the queue is full.
pub fn clear_keyboard_but_mods(requests: &mut RequestQueue)
    ensures
        final(requests).view() == if old(requests).view().len() < REQUEST_QUEUE_CAPACITY {
            old(requests).view().push(CLEAR_KEYBOARD_BUT_MODS)
        } else {
            old(requests).view()
        },
{
    requests.try_send(Request::ClearKeyboardButMods);
}

/// The backlight level after one key event: the three backlight keycodes
/// step it on press, everything else leaves it alone.
pub open spec fn backlight_level_after(
    level: u8,
    num_levels: u8,
    keycode: Keycode,
    action: KeyAction,
) -> int {
    if action is Pressed {
        match keycode {
            Keycode::System(SystemKeycode::BacklightDown) => if level > 0 {
                level - 1
            } else {
                0
            },
            Keycode::System(SystemKeycode::BacklightUp) => if level + 1 < num_levels {
                level + 1
            } else {
                level as int
            },
            Keycode::System(SystemKeycode::BacklightStep) => (level + 1) % (num_levels as int),
            _ => level as int,
        }
    } else {
        level as int
    }
}

/// The keymap after the event (if any) that the scanner shows at (row, col):
/// a rising edge dispatches a press of the keycode the position currently
/// resolves to, a falling edge a release, and no edge changes nothing.
pub open spec fn keymap_after_event_at<K: Keymap, S: Scanner>(km: K, s: S, row: int, col: int) -> K {
    if s.spec_new_state(row, col) && !s.spec_old_state(row, col) {
        km.spec_key_event(km.spec_get(row, col), KeyAction::Pressed)
    } else if !s.spec_new_state(row, col) && s.spec_old_state(row, col) {
        km.spec_key_event(km.spec_get(row, col), KeyAction::Released)
    } else {
        km
    }
}

/// The keymap after the events of one row, from column `col` rightwards.
pub open spec fn keymap_after_cols<K: Keymap, S: Scanner>(km: K, s: S, row: int, col: int) -> K
    decreases s.spec_cols() - col,
{
    if col < 0 || col >= s.spec_cols() {
        km
    } else {
        keymap_after_cols(keymap_after_event_at(km, s, row, col), s, row, col + 1)
    }
}

/// The backlight level after the event (if any) at (row, col): an edge
/// dispatches the keycode the position currently resolves to, which steps
/// the level when it is a backlight keycode.
pub open spec fn level_after_event_at<K: Keymap, S: Scanner>(
    km: K,
    level: u8,
    num_levels: u8,
    s: S,
    row: int,
    col: int,
) -> u8 {
    if s.spec_new_state(row, col) && !s.spec_old_state(row, col) {
        backlight_level_after(level, num_levels, km.spec_get(row, col), KeyAction::Pressed) as u8
    } else if !s.spec_new_state(row, col) && s.spec_old_state(row, col) {
        backlight_level_after(level, num_levels, km.spec_get(row, col), KeyAction::Released) as u8
    } else {
        level
    }
}

/// The backlight level after the events of one row, from column `col`
/// rightwards, with the keymap evolving alongside.
pub open spec fn level_after_cols<K: Keymap, S: Scanner>(
    km: K,
    level: u8,
    num_levels: u8,
    s: S,
    row: int,
    col: int,
) -> u8
    decreases s.spec_cols() - col,
{
    if col < 0 || col >= s.spec_cols() {
        level
    } else {
        level_after_cols(
            keymap_after_event_at(km, s, row, col),
            level_after_event_at(km, level, num_levels, s, row, col),
            num_levels,
            s,
            row,
            col + 1,
        )
    }
}

/// The backlight level after the events of one tick, row-major from row
/// `row` downwards, with the keymap evolving alongside.
pub open spec fn level_after_rows<K: Keymap, S: Scanner>(
    km: K,
    level: u8,
    num_levels: u8,
    s: S,
    row: int,
) -> u8
    decreases s.spec_rows() - row,
{
    if row < 0 || row >= s.spec_rows() {
        level
    } else {
        level_after_rows(
            keymap_after_cols(km, s, row, 0),
            level_after_cols(km, level, num_levels, s, row, 0),
            num_levels,
            s,
            row + 1,
        )
    }
}

/// The keymap after the events of one tick, row-major from row `row`
/// downwards: each changed position dispatches its event in order, and each
/// keycode is resolved against the keymap as already changed by the events
/// before it. A key released after a layer switch mid-hold therefore
/// releases what the position means now, not what was reported when it was
/// pressed.
pub open spec fn keymap_after_rows<K: Keymap, S: Scanner>(km: K, s: S, row: int) -> K
    decreases s.spec_rows() - row,
{
    if row < 0 || row >= s.spec_rows() {
        km
    } else {
        keymap_after_rows(keymap_after_cols(km, s, row, 0), s, row + 1)
    }
}

/// The key events the scanner's edges dispatch at (row, col): a rising edge
/// presses the keycode the position currently resolves to, a falling edge
/// releases it, and no edge dispatches nothing.
pub open spec fn events_at<K: Keymap, S: Scanner>(km: K, s: S, row: int, col: int) -> Seq<
    (Keycode, KeyAction),
> {
    if s.spec_new_state(row, col) && !s.spec_old_state(row, col) {
        seq![(km.spec_get(row, col), KeyAction::Pressed)]
    } else if !s.spec_new_state(row, col) && s.spec_old_state(row, col) {
        seq![(km.spec_get(row, col), KeyAction::Released)]
    } else {
        Seq::empty()
    }
}

/// The key events of one row, from column `col` rightwards, with the keymap
/// evolving alongside.
pub open spec fn events_in_cols<K: Keymap, S: Scanner>(km: K, s: S, row: int, col: int) -> Seq<
    (Keycode, KeyAction),
>
    decreases s.spec_cols() - col,
{
    if col < 0 || col >= s.spec_cols() {
        Seq::empty()
    } else {
        events_at(km, s, row, col) + events_in_cols(
            keymap_after_event_at(km, s, row, col),
            s,
            row,
            col + 1,
        )
    }
}

/// The key events of one tick, row-major from row `row` downwards, each
/// keycode resolved against the keymap as the events before it left it.
pub open spec fn events_in_rows<K: Keymap, S: Scanner>(km: K, s: S, row: int) -> Seq<
    (Keycode, KeyAction),
>
    decreases s.spec_rows() - row,
{
    if row < 0 || row >= s.spec_rows() {
        Seq::empty()
    } else {
        events_in_cols(km, s, row, 0) + events_in_rows(
            keymap_after_cols(km, s, row, 0),
            s,
            row + 1,
        )
    }
}

/// The pending request codes after one key event: an event that changes the
/// enabled layers appends a clear request unless the queue is full.
pub open spec fn requests_after_key_event<K: Keymap>(
    km: K,
    reqs: Seq<u8>,
    keycode: Keycode,
    action: KeyAction,
) -> Seq<u8> {
    if km.spec_raises_clear(keycode, action) && reqs.len() < REQUEST_QUEUE_CAPACITY {
        reqs.push(CLEAR_KEYBOARD_BUT_MODS)
    } else {
        reqs
    }
}

/// The pending request codes after the event (if any) at (row, col).
pub open spec fn requests_after_event_at<K: Keymap, S: Scanner>(
    km: K,
    reqs: Seq<u8>,
    s: S,
    row: int,
    col: int,
) -> Seq<u8> {
    if s.spec_new_state(row, col) && !s.spec_old_state(row, col) {
        requests_after_key_event(km, reqs, km.spec_get(row, col), KeyAction::Pressed)
    } else if !s.spec_new_state(row, col) && s.spec_old_state(row, col) {
        requests_after_key_event(km, reqs, km.spec_get(row, col), KeyAction::Released)
    } else {
        reqs
    }
}

/// The pending request codes after the events of one row, from column `col`
/// rightwards, with the keymap evolving alongside.
pub open spec fn requests_after_cols<K: Keymap, S: Scanner>(
    km: K,
    reqs: Seq<u8>,
    s: S,
    row: int,
    col: int,
) -> Seq<u8>
    decreases s.spec_cols() - col,
{
    if col < 0 || col >= s.spec_cols() {
        reqs
    } else {
        requests_after_cols(
            keymap_after_event_at(km, s, row, col),
            requests_after_event_at(km, reqs, s, row, col),
            s,
            row,
            col + 1,
        )
    }
}

/// The pending request codes after the events of one tick, row-major from
/// row `row` downwards, with the keymap evolving alongside.
pub open spec fn requests_after_rows<K: Keymap, S: Scanner>(
    km: K,
    reqs: Seq<u8>,
    s: S,
    row: int,
) -> Seq<u8>
    decreases s.spec_rows() - row,
{
    if row < 0 || row >= s.spec_rows() {
        reqs
    } else {
        requests_after_rows(
            keymap_after_cols(km, s, row, 0),
            requests_after_cols(km, reqs, s, row, 0),
            s,
            row + 1,
        )
    }
}

/// How many clear requests a sequence of request codes holds.
pub open spec fn count_clears(reqs: Seq<u8>) -> nat
    decreases reqs.len(),
{
    if reqs.len() == 0 {
        0
    } else {
        (if reqs[0] == CLEAR_KEYBOARD_BUT_MODS {
            1nat
        } else {
            0nat
        }) + count_clears(reqs.drop_first())
    }
}

/// Top-level system implementation that polls components and dispatches
/// events.
pub struct System<K, S, U, B> {
    keymap: K,
    scanner: S,
    uplink: U,
    backlight: B,
    requests: RequestQueue,
}

/// What can go wrong during a tick: the matrix lines failed, or the uplink
/// transport did.
#[derive(Debug)]
pub enum Error<S, U> {
    Scanner(S),
    Uplink(U),
}

impl<K, S, U, B> System<K, S, U, B> where
    K: Keymap,
    S: Scanner,
    U: Uplink,
    B: Backlight,
 {
    /// The keymap, as the events dispatched so far have left it.
    pub closed spec fn spec_keymap(&self) -> K {
        self.keymap
    }

    /// The scanner with its two state generations.
    pub closed spec fn spec_scanner(&self) -> S {
        self.scanner
    }

    /// The uplink transport.
    pub closed spec fn spec_uplink(&self) -> U {
        self.uplink
    }

    /// The backlight.
    pub closed spec fn spec_backlight(&self) -> B {
        self.backlight
    }

    /// The codes pending in the request queue, front first.
    pub closed spec fn spec_requests(&self) -> Seq<u8> {
        self.requests.view()
    }

    /// Structural well-formedness: the parts are well-formed and the keymap
    /// covers exactly the positions the scanner scans.
    pub open spec fn wf(&self) -> bool {
        &&& self.spec_keymap().wf()
        &&& self.spec_scanner().wf()
        &&& self.spec_uplink().wf()
        &&& self.spec_keymap().spec_rows() == self.spec_scanner().spec_rows()
        &&& self.spec_keymap().spec_cols() == self.spec_scanner().spec_cols()
    }

    /// Assembles a system; its request queue starts empty.
    pub fn new(keymap: K, scanner: S, uplink: U, backlight: B) -> (r: Self)
        requires
            keymap.wf(),
            scanner.wf(),
            uplink.wf(),
            keymap.spec_rows() == scanner.spec_rows(),
            keymap.spec_cols() == scanner.spec_cols(),
        ensures
            r.wf(),
            r.spec_keymap() == keymap,
            r.spec_scanner() == scanner,
            r.spec_uplink() == uplink,
            r.spec_backlight() == backlight,
            r.spec_requests() == Seq::<u8>::empty(),
    {
        System { keymap, scanner, uplink, backlight, requests: RequestQueue::new() }
    }

    /// The keymap, for inspection.
    pub fn keymap(&self) -> (r: &K)
        ensures
            *r == self.spec_keymap(),
    {
        &self.keymap
    }

    /// The scanner, for inspection.
    pub fn scanner(&self) -> (r: &S)
        ensures
            *r == self.spec_scanner(),
    {
        &self.scanner
    }

    /// The uplink, for inspection.
    pub fn uplink(&self) -> (r: &U)
        ensures
            *r == self.spec_uplink(),
    {
        &self.uplink
    }

    /// The backlight, for inspection.
    pub fn backlight(&self) -> (r: &B)
        ensures
            *r == self.spec_backlight(),
    {
        &self.backlight
    }

    /// Runs one tick.
    ///
    /// Scans the matrix; dispatches a press for every position with a rising
    /// edge and a release for every position with a falling edge, in
    /// row-major order, each resolved through the keymap at dispatch time;
    /// polls the uplink transport; and drains the request queue into the
    /// uplink.
    ///
    /// A scanner failure aborts the tick before any dispatch and leaves
    /// everything but the scan baseline untouched. An uplink failure aborts
    /// the rest of the tick; state already changed stays changed, and the
    /// next tick retries naturally. On success the keymap and the backlight
    /// have reacted to exactly the events of this scan, the uplink has been
    /// handed exactly those events and one transport poll, and the request
    /// queue has been drained into it, a clear command per pending clear
    /// request.
    #[verifier::loop_isolation(false)]
    pub fn poll(&mut self) -> (r: Result<(), Error<S::Error, U::Error>>)
        requires
            old(self).wf(),
        ensures
            final(self).wf(),
            final(self).spec_scanner().spec_rows() == old(self).spec_scanner().spec_rows(),
            final(self).spec_scanner().spec_cols() == old(self).spec_scanner().spec_cols(),
            final(self).spec_backlight().spec_num_levels() == old(
                self,
            ).spec_backlight().spec_num_levels(),
            forall|row: int, col: int|
                0 <= row < old(self).spec_scanner().spec_rows() && 0 <= col < old(
                    self,
                ).spec_scanner().spec_cols() ==> final(self).spec_scanner().spec_old_state(
                    row,
                    col,
                ) == old(self).spec_scanner().spec_new_state(row, col),
            match r {
                Ok(()) => ({
                    let scan = final(self).spec_scanner();
                    &&& final(self).spec_keymap() == keymap_after_rows(
                        old(self).spec_keymap(),
                        scan,
                        0,
                    )
                    &&& final(self).spec_backlight().spec_level() == level_after_rows(
                        old(self).spec_keymap(),
                        old(self).spec_backlight().spec_level(),
                        old(self).spec_backlight().spec_num_levels(),
                        scan,
                        0,
                    )
                    &&& final(self).spec_uplink().spec_events() == old(
                        self,
                    ).spec_uplink().spec_events() + events_in_rows(
                        old(self).spec_keymap(),
                        scan,
                        0,
                    )
                    &&& final(self).spec_uplink().spec_polls() == old(
                        self,
                    ).spec_uplink().spec_polls() + 1
                    &&& final(self).spec_uplink().spec_clears() == old(
                        self,
                    ).spec_uplink().spec_clears() + count_clears(
                        requests_after_rows(
                            old(self).spec_keymap(),
                            old(self).spec_requests(),
                            scan,
                            0,
                        ),
                    )
                    &&& final(self).spec_requests() == Seq::<u8>::empty()
                }),
                Err(e) => e is Scanner ==> ({
                    &&& final(self).spec_keymap() == old(self).spec_keymap()
                    &&& final(self).spec_backlight() == old(self).spec_backlight()
                    &&& final(self).spec_uplink() == old(self).spec_uplink()
                    &&& final(self).spec_requests() == old(self).spec_requests()
                }),
            },
    {
        match self.scanner.poll() {
            Ok(()) => {},
            Err(e) => {
                return Err(Error::Scanner(e));
            },
        }
        let ghost scan = self.scanner;
        let ghost target = keymap_after_rows(self.keymap, scan, 0);
        let ghost num = self.backlight.spec_num_levels();
        let ghost target_level = level_after_rows(
            self.keymap,
            self.backlight.spec_level(),
            num,
            scan,
            0,
        );
        let ghost events0 = self.uplink.spec_events();
        let ghost clears0 = self.uplink.spec_clears();
        let ghost polls0 = self.uplink.spec_polls();
        let ghost target_events = events_in_rows(self.keymap, scan, 0);
        let ghost target_requests = requests_after_rows(self.keymap, self.requests.view(), scan, 0);

        let rows = self.scanner.rows();
        let cols = self.scanner.cols();
        let mut row: usize = 0;
        while row < rows
            invariant
                row <= rows,
                self.wf(),
                self.scanner == scan,
                self.backlight.spec_num_levels() == old(self).spec_backlight().spec_num_levels(),
                rows as int == scan.spec_rows(),
                cols as int == scan.spec_cols(),
                target == keymap_after_rows(self.keymap, scan, row as int),
                target_level == level_after_rows(
                    self.keymap,
                    self.backlight.spec_level(),
                    num,
                    scan,
                    row as int,
                ),
                self.uplink.spec_clears() == clears0,
                self.uplink.spec_polls() == polls0,
                events0 + target_events == self.uplink.spec_events() + events_in_rows(
                    self.keymap,
                    scan,
                    row as int,
                ),
                target_requests == requests_after_rows(
                    self.keymap,
                    self.requests.view(),
                    scan,
                    row as int,
                ),
            decreases rows - row,
        {
            let mut col: usize = 0;
            proof {
                assert(keymap_after_rows(self.keymap, scan, row as int) == keymap_after_rows(
                    keymap_after_cols(self.keymap, scan, row as int, 0),
                    scan,
                    row as int + 1,
                ));
                assert(level_after_rows(
                    self.keymap,
                    self.backlight.spec_level(),
                    num,
                    scan,
                    row as int,
                ) == level_after_rows(
                    keymap_after_cols(self.keymap, scan, row as int, 0),
                    level_after_cols(
                        self.keymap,
                        self.backlight.spec_level(),
                        num,
                        scan,
                        row as int,
                        0,
                    ),
                    num,
                    scan,
                    row as int + 1,
                ));
                assert(events_in_rows(self.keymap, scan, row as int) == events_in_cols(
                    self.keymap,
                    scan,
                    row as int,
                    0,
                ) + events_in_rows(
                    keymap_after_cols(self.keymap, scan, row as int, 0),
                    scan,
                    row as int + 1,
                ));
                assert(requests_after_rows(self.keymap, self.requests.view(), scan, row as int)
                    == requests_after_rows(
                    keymap_after_cols(self.keymap, scan, row as int, 0),
                    requests_after_cols(self.keymap, self.requests.view(), scan, row as int, 0),
                    scan,
                    row as int + 1,
                ));
            }
            while col < cols
                invariant
                    row < rows,
                    col <= cols,
                    self.wf(),
                    self.scanner == scan,
                    self.backlight.spec_num_levels() == old(
                        self,
                    ).spec_backlight().spec_num_levels(),
                    rows as int == scan.spec_rows(),
                    cols as int == scan.spec_cols(),
                    target == keymap_after_rows(
                        keymap_after_cols(self.keymap, scan, row as int, col as int),
                        scan,
                        row as int + 1,
                    ),
                    target_level == level_after_rows(
                        keymap_after_cols(self.keymap, scan, row as int, col as int),
                        level_after_cols(
                            self.keymap,
                            self.backlight.spec_level(),
                            num,
                            scan,
                            row as int,
                            col as int,
                        ),
                        num,
                        scan,
                        row as int + 1,
                    ),
                    self.uplink.spec_clears() == clears0,
                    self.uplink.spec_polls() == polls0,
                    events0 + target_events == self.uplink.spec_events() + (events_in_cols(
                        self.keymap,
                        scan,
                        row as int,
                        col as int,
                    ) + events_in_rows(
                        keymap_after_cols(self.keymap, scan, row as int, col as int),
                        scan,
                        row as int + 1,
                    )),
                    target_requests == requests_after_rows(
                        keymap_after_cols(self.keymap, scan, row as int, col as int),
                        requests_after_cols(
                            self.keymap,
                            self.requests.view(),
                            scan,
                            row as int,
                            col as int,
                        ),
                        scan,
                        row as int + 1,
                    ),
                decreases cols - col,
            {
                let ghost km_before = self.keymap;
                let ghost level_before = self.backlight.spec_level();
                let ghost events_before = self.uplink.spec_events();
                let ghost reqs_before = self.requests.view();
                if self.scanner.just_pressed(row, col) {
                    let keycode = self.keymap.get(row, col);
                    match self.key_event(keycode, KeyAction::Pressed) {
                        Ok(()) => {},
                        Err(e) => {
                            return Err(e);
                        },
                    }
                }
                if self.scanner.just_released(row, col) {
                    let keycode = self.keymap.get(row, col);
                    match self.key_event(keycode, KeyAction::Released) {
                        Ok(()) => {},
                        Err(e) => {
                            return Err(e);
                        },
                    }
                }
                proof {
                    assert(self.keymap == keymap_after_event_at(
                        km_before,
                        scan,
                        row as int,
                        col as int,
                    ));
                    assert(self.backlight.spec_level() == level_after_event_at(
                        km_before,
                        level_before,
                        num,
                        scan,
                        row as int,
                        col as int,
                    ));
                    assert(keymap_after_cols(km_before, scan, row as int, col as int)
                        == keymap_after_cols(self.keymap, scan, row as int, col as int + 1));
                    assert(level_after_cols(
                        km_before,
                        level_before,
                        num,
                        scan,
                        row as int,
                        col as int,
                    ) == level_after_cols(
                        self.keymap,
                        self.backlight.spec_level(),
                        num,
                        scan,
                        row as int,
                        col as int + 1,
                    ));
                    assert(self.uplink.spec_events() =~= events_before + events_at(
                        km_before,
                        scan,
                        row as int,
                        col as int,
                    ));
                    assert(self.requests.view() == requests_after_event_at(
                        km_before,
                        reqs_before,
                        scan,
                        row as int,
                        col as int,
                    ));
                    assert(events_in_cols(km_before, scan, row as int, col as int) == events_at(
                        km_before,
                        scan,
                        row as int,
                        col as int,
                    ) + events_in_cols(self.keymap, scan, row as int, col as int + 1));
                    assert(requests_after_cols(km_before, reqs_before, scan, row as int, col as int)
                        == requests_after_cols(
                        self.keymap,
                        self.requests.view(),
                        scan,
                        row as int,
                        col as int + 1,
                    ));
                    assert(events_before + (events_in_cols(km_before, scan, row as int, col as int)
                        + events_in_rows(
                        keymap_after_cols(self.keymap, scan, row as int, col as int + 1),
                        scan,
                        row as int + 1,
                    )) =~= self.uplink.spec_events() + (events_in_cols(
                        self.keymap,
                        scan,
                        row as int,
                        col as int + 1,
                    ) + events_in_rows(
                        keymap_after_cols(self.keymap, scan, row as int, col as int + 1),
                        scan,
                        row as int + 1,
                    )));
                }
                col = col + 1;
            }
            row = row + 1;
        }

        proof {
            assert(self.uplink.spec_events() + events_in_rows(self.keymap, scan, rows as int)
                =~= self.uplink.spec_events());
            assert(self.requests.view() == target_requests);
        }

        match self.uplink.poll() {
            Ok(()) => {},
            Err(e) => {
                return Err(Error::Uplink(e));
            },
        }

        loop
            invariant
                self.wf(),
                self.scanner == scan,
                self.backlight.spec_num_levels() == old(self).spec_backlight().spec_num_levels(),
                self.keymap == target,
                self.backlight.spec_level() == target_level,
                self.uplink.spec_events() == events0 + target_events,
                self.uplink.spec_polls() == polls0 + 1,
                self.uplink.spec_clears() + count_clears(self.requests.view()) == clears0
                    + count_clears(target_requests),
            decreases self.requests.view().len(),
        {
            let ghost pending = self.requests.view();
            let next = self.requests.try_recv();
            match next {
                None => {
                    proof {
                        assert(self.requests.view() =~= Seq::<u8>::empty());
                    }
                    break ;
                },
                Some(code) => {
                    proof {
                        assert(pending == seq![code] + self.requests.view());
                        assert(pending[0] == code);
                        assert(pending.drop_first() =~= self.requests.view());
                        assert(count_clears(pending) == (if code == CLEAR_KEYBOARD_BUT_MODS {
                            1nat
                        } else {
                            0nat
                        }) + count_clears(self.requests.view()));
                    }
                    if code == CLEAR_KEYBOARD_BUT_MODS {
                        match self.uplink.clear_keyboard_but_mods() {
                            Ok(()) => {},
                            Err(e) => {
                                return Err(Error::Uplink(e));
                            },
                        }
                    }
                },
            }
        }
        Ok(())
    }

    /// Dispatches one resolved key event: backlight keycodes step the
    /// backlight on press, the keymap reacts (possibly queueing a clear
    /// request), and the uplink reports the event to the host. An uplink
    /// failure is returned after the local state has already reacted.
    fn key_event(&mut self, keycode: Keycode, action: KeyAction) -> (r: Result<
        (),
        Error<S::Error, U::Error>,
    >)
        requires
            old(self).wf(),
        ensures
            final(self).wf(),
            final(self).spec_keymap() == old(self).spec_keymap().spec_key_event(keycode, action),
            final(self).spec_scanner() == old(self).spec_scanner(),
            final(self).spec_backlight().spec_num_levels() == old(
                self,
            ).spec_backlight().spec_num_levels(),
            final(self).spec_backlight().spec_level() == backlight_level_after(
                old(self).spec_backlight().spec_level(),
                old(self).spec_backlight().spec_num_levels(),
                keycode,
                action,
            ),
            final(self).spec_requests() == requests_after_key_event(
                old(self).spec_keymap(),
                old(self).spec_requests(),
                keycode,
                action,
            ),
            r is Ok ==> final(self).spec_uplink().spec_events() == old(
                self,
            ).spec_uplink().spec_events().push((keycode, action)),
            r is Err ==> final(self).spec_uplink().spec_events() == old(
                self,
            ).spec_uplink().spec_events(),
            final(self).spec_uplink().spec_clears() == old(self).spec_uplink().spec_clears(),
            final(self).spec_uplink().spec_polls() == old(self).spec_uplink().spec_polls(),
            r matches Err(e) ==> e is Uplink,
    {
        match keycode {
            Keycode::System(SystemKeycode::BacklightDown) => {
                if action.is_pressed() {
                    self.backlight.decrease();
                }
            },
            Keycode::System(SystemKeycode::BacklightUp) => {
                if action.is_pressed() {
                    self.backlight.increase();
                }
            },
            Keycode::System(SystemKeycode::BacklightStep) => {
                if action.is_pressed() {
                    self.backlight.cycle_step();
                }
            },
            _ => {},
        }
        proof {
            old(self).spec_keymap().key_event_preserves_wf(keycode, action);
        }
        self.keymap.key_event(keycode, action, &mut self.requests);
        match self.uplink.key_event(keycode, action) {
            Ok(()) => Ok(()),
            Err(e) => Err(Error::Uplink(e)),
        }
    }
}

} // verus!
