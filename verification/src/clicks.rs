//! Consecutive click detection: single, double and triple clicks, and the epoch that keeps a
//! delayed double click from firing once it has been cancelled or superseded.
use vstd::prelude::*;

verus! {

/// Longest time between two clicks of one sequence, in nanoseconds.
pub const MAX_DBCLICK_INTERVAL_NS: u64 = 500_000_000;

/// Squared distance below which two clicks count as the same spot (a distance under 3 pixels).
pub const MAX_DBCLICK_DISTANCE_SQUARED: i64 = 9;

/// A screen position in integer pixels, as the pointer reports it.
#[derive(Clone, Copy, Debug, PartialEq, Eq, Structural)]
pub struct Point {
    pub x: i32,
    pub y: i32,
}

/// The last click of the current sequence.
#[derive(Clone, Copy, Debug, PartialEq, Eq, Structural)]
pub struct Click {
    /// Release time, in nanoseconds on a monotonic clock.
    pub time: u64,
    pub pos: Point,
    /// Whether the pointer showed a text cursor at any click of the sequence.
    pub valid_cursor: bool,
    /// Number of clicks in the sequence so far.
    pub count: u8,
    /// Whether a press that may become the third click followed this (second) click in time.
    pub third_pressed: bool,
    /// Click epoch the sequence belongs to.
    pub epoch: u64,
}

/// Abstract state of click detection.
pub ghost struct ClickState {
    pub epoch: u64,
    pub last_click: Option<Click>,
}

impl ClickState {
    /// A recorded sequence holds one or two clicks: a third click always ends it.
    pub open spec fn well_formed(self) -> bool {
        self.last_click matches Some(c) ==> 1 <= c.count <= 2
    }
}

/// Time elapsed from `then` to `now`, zero when `now` is earlier (as `Instant::duration_since`).
pub open spec fn elapsed(now: u64, then: u64) -> int {
    if now >= then {
        now - then
    } else {
        0
    }
}

/// Whether two positions are less than 3 pixels apart.
pub open spec fn near(p: Point, q: Point) -> bool {
    (p.x - q.x) * (p.x - q.x) + (p.y - q.y) * (p.y - q.y) < MAX_DBCLICK_DISTANCE_SQUARED
}

/// The epoch that follows `e` (wrapping).
pub open spec fn next_epoch(e: u64) -> u64 {
    if e == u64::MAX {
        0
    } else {
        (e + 1) as u64
    }
}

/// State after a press at `now` and `pos`: a second click followed closely, at the same spot,
/// is marked as pressed for a third time.
pub open spec fn after_third_press(s: ClickState, now: u64, pos: Point) -> ClickState {
    ClickState {
        epoch: s.epoch,
        last_click: match s.last_click {
            Some(c) => Some(
                Click {
                    third_pressed: c.count == 2 && elapsed(now, c.time)
                        < MAX_DBCLICK_INTERVAL_NS && near(pos, c.pos),
                    ..c
                },
            ),
            None => None,
        },
    }
}

/// Whether a release at `now`, `pos` continues the recorded sequence `last` in epoch `epoch`.
pub open spec fn continues(last: Click, epoch: u64, now: u64, pos: Point, valid_cursor: bool) -> bool {
    let valid_interval = if last.count == 2 {
        last.third_pressed
    } else {
        elapsed(now, last.time) < MAX_DBCLICK_INTERVAL_NS
    };
    &&& last.epoch == epoch
    &&& (valid_cursor || last.valid_cursor)
    &&& valid_interval
    &&& near(pos, last.pos)
}

/// The click a release at `now`, `pos` records.
pub open spec fn click_of(s: ClickState, now: u64, pos: Point, valid_cursor: bool) -> Click {
    match s.last_click {
        Some(last) => if continues(last, s.epoch, now, pos, valid_cursor) {
            Click {
                time: now,
                pos,
                valid_cursor: valid_cursor || last.valid_cursor,
                count: (last.count + 1) as u8,
                third_pressed: false,
                epoch: s.epoch,
            }
        } else {
            Click { time: now, pos, valid_cursor, count: 1, third_pressed: false, epoch: s.epoch }
        },
        None => Click {
            time: now,
            pos,
            valid_cursor,
            count: 1,
            third_pressed: false,
            epoch: s.epoch,
        },
    }
}

/// State after a release: a triple click ends the sequence, and so does a double click when no
/// triple click shortcut is registered.
pub open spec fn after_click(
    s: ClickState,
    now: u64,
    pos: Point,
    valid_cursor: bool,
    triple_click_registered: bool,
) -> ClickState {
    let c = click_of(s, now, pos, valid_cursor);
    ClickState {
        epoch: s.epoch,
        last_click: if c.count == 3 || (c.count == 2 && !triple_click_registered) {
            None
        } else {
            Some(c)
        },
    }
}

/// State after a cancellation: the epoch moves on; the sequence survives, rebound to the new
/// epoch, only when it is kept and belongs to the current epoch.
pub open spec fn after_cancel(s: ClickState, reset_sequence: bool) -> ClickState {
    ClickState {
        epoch: next_epoch(s.epoch),
        last_click: match s.last_click {
            Some(c) => if !reset_sequence && c.epoch == s.epoch {
                Some(Click { epoch: next_epoch(s.epoch), ..c })
            } else {
                None
            },
            None => None,
        },
    }
}

/// Click detection state: the current click epoch and the last click of the sequence.
pub struct ClickTracker {
    epoch: u64,
    last_click: Option<Click>,
}

impl View for ClickTracker {
    type V = ClickState;

    closed spec fn view(&self) -> ClickState {
        ClickState { epoch: self.epoch, last_click: self.last_click }
    }
}

/// Whether two positions are less than 3 pixels apart.
pub fn is_near(p: Point, q: Point) -> (r: bool)
    ensures
        r == near(p, q),
{
    let dx = p.x as i64 - q.x as i64;
    let dy = p.y as i64 - q.y as i64;
    if dx >= 3 || dx <= -3 || dy >= 3 || dy <= -3 {
        assert(dx * dx >= 9 || dy * dy >= 9) by (nonlinear_arith)
            requires
                dx >= 3 || dx <= -3 || dy >= 3 || dy <= -3,
        ;
        assert(dx * dx >= 0 && dy * dy >= 0) by (nonlinear_arith);
        false
    } else {
        assert(0 <= dx * dx <= 4 && 0 <= dy * dy <= 4) by (nonlinear_arith)
            requires
                -3 < dx < 3,
                -3 < dy < 3,
        ;
        dx * dx + dy * dy < MAX_DBCLICK_DISTANCE_SQUARED
    }
}

fn elapsed_ns(now: u64, then: u64) -> (r: u64)
    ensures
        r == elapsed(now, then),
{
    if now >= then {
        now - then
    } else {
        0
    }
}

fn following_epoch(e: u64) -> (r: u64)
    ensures
        r == next_epoch(e),
{
    e.wrapping_add(1)
}

impl ClickTracker {
    #[verifier::type_invariant]
    spec fn inv(self) -> bool {
        self@.well_formed()
    }

    /// No click recorded yet, in epoch 0.
    pub fn new() -> (t: Self)
        ensures
            t@ == (ClickState { epoch: 0, last_click: None }),
    {
        ClickTracker { epoch: 0, last_click: None }
    }

    /// The current click epoch.
    pub fn epoch(&self) -> (e: u64)
        ensures
            e == self@.epoch,
            self@.well_formed(),
    {
        proof {
            use_type_invariant(self);
        }
        self.epoch
    }

    /// The last click of the current sequence.
    pub fn last_click(&self) -> (c: Option<Click>)
        ensures
            c == self@.last_click,
            self@.well_formed(),
    {
        proof {
            use_type_invariant(self);
        }
        self.last_click
    }

    /// Record whether the current press qualifies as a third click.
    pub fn record_third_press(&mut self, now: u64, pos: Point)
        ensures
            final(self)@ == after_third_press(old(self)@, now, pos),
            old(self)@.well_formed(),
    {
        proof {
            use_type_invariant(&*self);
        }
        match self.last_click {
            Some(c) => {
                let third = c.count == 2 && elapsed_ns(now, c.time) < MAX_DBCLICK_INTERVAL_NS
                    && is_near(pos, c.pos);
                self.last_click = Some(Click { third_pressed: third, ..c });
            },
            None => {},
        }
    }

    /// Record a mouse release and update the consecutive click count; returns the click count
    /// and the epoch the click belongs to.
    pub fn record_click(
        &mut self,
        now: u64,
        pos: Point,
        is_valid_cursor: bool,
        triple_click_registered: bool,
    ) -> (r: (u8, u64))
        ensures
            r == (click_of(old(self)@, now, pos, is_valid_cursor).count, old(self)@.epoch),
            1 <= r.0 <= 3,
            old(self)@.well_formed(),
            final(self)@ == after_click(
                old(self)@,
                now,
                pos,
                is_valid_cursor,
                triple_click_registered,
            ),
    {
        proof {
            use_type_invariant(&*self);
        }
        let epoch = self.epoch;
        let mut click = Click {
            time: now,
            pos,
            valid_cursor: is_valid_cursor,
            count: 1,
            third_pressed: false,
            epoch,
        };
        match self.last_click {
            Some(last) => {
                let valid_interval = if last.count == 2 {
                    last.third_pressed
                } else {
                    elapsed_ns(now, last.time) < MAX_DBCLICK_INTERVAL_NS
                };
                if last.epoch == epoch && (is_valid_cursor || last.valid_cursor) && valid_interval
                    && is_near(pos, last.pos) {
                    click.count = last.count + 1;
                    click.valid_cursor = is_valid_cursor || last.valid_cursor;
                }
            },
            None => {},
        }
        let keep = !(click.count == 3 || (click.count == 2 && !triple_click_registered));
        self.last_click = if keep {
            Some(click)
        } else {
            None
        };
        (click.count, epoch)
    }

    /// Cancel a pending double click and, when `reset_sequence` is set, forget the click
    /// sequence too.
    pub fn cancel_pending_click(&mut self, reset_sequence: bool)
        ensures
            final(self)@ == after_cancel(old(self)@, reset_sequence),
            old(self)@.well_formed(),
    {
        proof {
            use_type_invariant(&*self);
        }
        let epoch = self.epoch;
        let next = following_epoch(epoch);
        let kept = match self.last_click {
            Some(c) => if !reset_sequence && c.epoch == epoch {
                Some(Click { epoch: next, ..c })
            } else {
                None
            },
            None => None,
        };
        self.last_click = kept;
        self.epoch = next;
    }

    /// Move to the next epoch without touching the recorded sequence: clicks recorded before
    /// no longer continue, and a pending double click no longer fires.
    pub fn invalidate_epoch(&mut self)
        ensures
            final(self)@ == (ClickState {
                epoch: next_epoch(old(self)@.epoch),
                last_click: old(self)@.last_click,
            }),
    {
        proof {
            use_type_invariant(&*self);
        }
        self.epoch = following_epoch(self.epoch);
    }

    /// Dispatch a pending double click if its epoch is still current; the epoch is claimed
    /// before `dispatch` runs, so a double click is dispatched at most once.
    pub fn dispatch_pending_double_click<E, F: FnOnce() -> Result<(), E>>(
        &mut self,
        epoch: u64,
        dispatch: F,
    ) -> (r: Result<bool, E>)
        requires
            call_requires(dispatch, ()),
        ensures
            old(self)@.epoch != epoch ==> r == Ok::<bool, E>(false) && final(self)@ == old(self)@,
            old(self)@.epoch == epoch ==> final(self)@ == (ClickState {
                epoch: next_epoch(epoch),
                last_click: old(self)@.last_click,
            }),
            old(self)@.epoch == epoch ==> (r matches Ok(b) && b && exists|o: Result<(), E>|
                o is Ok && #[trigger] call_ensures(dispatch, (), o)) || (r matches Err(e)
                && call_ensures(dispatch, (), Err::<(), E>(e))),
            old(self)@.well_formed(),
    {
        proof {
            use_type_invariant(&*self);
        }
        if self.epoch != epoch {
            return Ok(false);
        }
        self.epoch = following_epoch(epoch);
        let outcome = dispatch();
        assert(call_ensures(dispatch, (), outcome));
        match outcome {
            Ok(()) => Ok(true),
            Err(e) => Err(e),
        }
    }
}


/// A triple click ends its sequence, and so does a double click when no triple click shortcut
/// is registered: the next click starts a new sequence. Double and triple clicks therefore
/// never overlap.
pub proof fn law_double_and_triple_clicks_exclusive(
    s: ClickState,
    now: u64,
    pos: Point,
    valid_cursor: bool,
    triple_click_registered: bool,
    next_now: u64,
    next_pos: Point,
    next_valid_cursor: bool,
)
    requires
        s.well_formed(),
        click_of(s, now, pos, valid_cursor).count == 3 || (click_of(s, now, pos, valid_cursor).count
            == 2 && !triple_click_registered),
    ensures
        click_of(
            after_click(s, now, pos, valid_cursor, triple_click_registered),
            next_now,
            next_pos,
            next_valid_cursor,
        ).count == 1,
{
}

/// A click count is always 1, 2 or 3, and the recorded sequence stays well formed.
pub proof fn law_click_count_bounded(
    s: ClickState,
    now: u64,
    pos: Point,
    valid_cursor: bool,
    triple_click_registered: bool,
)
    requires
        s.well_formed(),
    ensures
        1 <= click_of(s, now, pos, valid_cursor).count <= 3,
        after_click(s, now, pos, valid_cursor, triple_click_registered).well_formed(),
        after_third_press(s, now, pos).well_formed(),
        after_cancel(s, triple_click_registered).well_formed(),
{
}

/// A pending double click is dispatched at most once: claiming its epoch moves the tracker to
/// another epoch, so a second dispatch of the same epoch is refused.
pub proof fn law_double_click_dispatched_at_most_once(epoch: u64)
    ensures
        next_epoch(epoch) != epoch,
{
}

/// Cancelling, with or without resetting the sequence, refuses every double click pending at
/// the time of the cancellation.
pub proof fn law_cancel_refuses_pending_double_click(s: ClickState, reset_sequence: bool)
    ensures
        after_cancel(s, reset_sequence).epoch != s.epoch,
{
}

/// After a cancellation that resets the sequence, the next click is a single click.
pub proof fn law_reset_starts_new_sequence(s: ClickState, now: u64, pos: Point, valid_cursor: bool)
    ensures
        click_of(after_cancel(s, true), now, pos, valid_cursor).count == 1,
{
}

/// A cancellation that keeps the sequence (a new press) preserves a click sequence of the
/// current epoch, so the press can still become a double or triple click.
pub proof fn law_cancel_keeps_current_sequence(s: ClickState)
    requires
        s.last_click matches Some(c) && c.epoch == s.epoch,
    ensures
        after_cancel(s, false).last_click matches Some(c) && c.epoch == after_cancel(s, false).epoch
            && c.count == s.last_click->0.count && c.third_pressed == s.last_click->0.third_pressed,
{
}

/// Once the epoch moves on (registration changes, suspension), a click recorded before can not
/// be continued: the next click is a single click.
pub proof fn law_stale_sequence_restarts(s: ClickState, now: u64, pos: Point, valid_cursor: bool)
    requires
        s.last_click matches Some(c) && c.epoch != s.epoch,
    ensures
        click_of(s, now, pos, valid_cursor).count == 1,
{
}

/// A release continues a click sequence only when it belongs to the sequence's epoch, lies less
/// than 3 pixels from the previous click, some click of the sequence was on text, and it comes
/// in time: within 500 ms of the previous release for a second click, after a timely third press
/// for a third. Every other release starts a new sequence of one click.
pub proof fn law_continued_click_is_near_and_timely(
    s: ClickState,
    now: u64,
    pos: Point,
    valid_cursor: bool,
)
    requires
        s.well_formed(),
    ensures
        click_of(s, now, pos, valid_cursor).count > 1 ==> (s.last_click matches Some(last) && {
            let dx = pos.x - last.pos.x;
            let dy = pos.y - last.pos.y;
            &&& dx * dx + dy * dy < 9
            &&& last.epoch == s.epoch
            &&& (valid_cursor || last.valid_cursor)
            &&& click_of(s, now, pos, valid_cursor).count == last.count + 1
            &&& (last.count == 1 ==> now < last.time + 500_000_000)
            &&& (last.count == 2 ==> last.third_pressed)
        }),
        click_of(s, now, pos, valid_cursor).pos == pos,
        click_of(s, now, pos, valid_cursor).time == now,
{
}

} // verus!
