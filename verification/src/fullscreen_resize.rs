//! What to do when something else resizes the window of a fullscreen device.
//!
//! The window has to cover the monitor, so the monitor rectangle is applied
//! again, but never in an endless fight with a window manager that keeps
//! clamping the window back.

use vstd::prelude::*;

verus! {

/// What to do about one resize.
#[derive(Clone, Copy, Debug, PartialEq, Eq, Structural)]
pub enum ExternalResizeAction {
    /// The window covers the monitor; there is nothing to do.
    Covered,
    /// Apply the monitor rectangle again.
    Reassert,
    /// Leave the window as it is: this size came back after a re-assert, or the
    /// budget is spent.
    Suppressed,
}

/// The re-asserts that one fullscreen session may spend.
pub const REASSERT_BUDGET: u8 = 8;

/// The pixels by which a window may exceed the monitor and still count as
/// covering it. The round trip through the window manager's coordinates can
/// round up that much.
pub const COVER_SLACK: u32 = 2;

/// One axis of [`covers`].
pub open spec fn axis_covers(size: u32, monitor: u32) -> bool {
    monitor <= size <= monitor + COVER_SLACK
}

/// Whether a window of that size covers the monitor.
pub open spec fn covers(size: (u32, u32), monitor: (u32, u32)) -> bool {
    axis_covers(size.0, monitor.0) && axis_covers(size.1, monitor.1)
}

/// The state of a guard: the last size that was re-asserted against, and the
/// re-asserts that are left.
pub struct GuardView {
    pub last_reasserted: Option<(u32, u32)>,
    pub budget: nat,
}

impl GuardView {
    /// A guard with its whole budget.
    pub open spec fn fresh() -> GuardView {
        GuardView { last_reasserted: None, budget: REASSERT_BUDGET as nat }
    }

    /// What is decided about a resize.
    pub open spec fn action(
        self,
        incoming: (u32, u32),
        monitor: (u32, u32),
    ) -> ExternalResizeAction {
        if covers(incoming, monitor) {
            ExternalResizeAction::Covered
        } else if self.last_reasserted == Some(incoming) || self.budget == 0 {
            ExternalResizeAction::Suppressed
        } else {
            ExternalResizeAction::Reassert
        }
    }

    /// The state after a resize.
    pub open spec fn next(self, incoming: (u32, u32), monitor: (u32, u32)) -> GuardView {
        match self.action(incoming, monitor) {
            ExternalResizeAction::Covered => GuardView::fresh(),
            ExternalResizeAction::Suppressed => self,
            ExternalResizeAction::Reassert => GuardView {
                last_reasserted: Some(incoming),
                budget: (self.budget - 1) as nat,
            },
        }
    }
}

/// Whether a window covers the monitor, with the window manager's rounding
/// allowed for.
pub fn covers_monitor(size: (u32, u32), monitor: (u32, u32)) -> (r: bool)
    ensures
        r == covers(size, monitor),
{
    covers_axis(size.0, monitor.0) && covers_axis(size.1, monitor.1)
}

fn covers_axis(size: u32, monitor: u32) -> (r: bool)
    ensures
        r == axis_covers(size, monitor),
{
    size >= monitor && size - monitor <= COVER_SLACK
}

/// The guard of one fullscreen session.
pub struct ExternalResizeGuard {
    last_reasserted: Option<(u32, u32)>,
    budget: u8,
}

impl View for ExternalResizeGuard {
    type V = GuardView;

    closed spec fn view(&self) -> GuardView {
        GuardView { last_reasserted: self.last_reasserted, budget: self.budget as nat }
    }
}

impl Default for ExternalResizeGuard {
    fn default() -> (r: Self)
        ensures
            r@ == GuardView::fresh(),
    {
        ExternalResizeGuard::new()
    }
}

impl ExternalResizeGuard {
    /// A guard with its whole budget.
    pub fn new() -> (r: Self)
        ensures
            r@ == GuardView::fresh(),
    {
        ExternalResizeGuard { last_reasserted: None, budget: REASSERT_BUDGET }
    }

    /// Refills the budget, for a fullscreen transition of the game's own.
    pub fn reset(&mut self)
        ensures
            final(self)@ == GuardView::fresh(),
    {
        self.last_reasserted = None;
        self.budget = REASSERT_BUDGET;
    }

    /// Decides about one resize: `incoming` is the new client size, `monitor`
    /// the size to cover.
    pub fn decide(&mut self, incoming: (u32, u32), monitor: (u32, u32)) -> (r: ExternalResizeAction)
        ensures
            r == old(self)@.action(incoming, monitor),
            final(self)@ == old(self)@.next(incoming, monitor),
    {
        if covers_monitor(incoming, monitor) {
            self.reset();
            return ExternalResizeAction::Covered;
        }
        let repeated: bool = match self.last_reasserted {
            Some(last) => last.0 == incoming.0 && last.1 == incoming.1,
            None => false,
        };
        if repeated || self.budget == 0 {
            return ExternalResizeAction::Suppressed;
        }
        self.last_reasserted = Some(incoming);
        self.budget = self.budget - 1;
        ExternalResizeAction::Reassert
    }
}

/// The state after the resizes of a session, in order.
pub open spec fn after(start: GuardView, sizes: Seq<(u32, u32)>, monitor: (u32, u32)) -> GuardView
    decreases sizes.len(),
{
    if sizes.len() == 0 {
        start
    } else {
        after(start, sizes.drop_last(), monitor).next(sizes.last(), monitor)
    }
}

/// The re-asserts among the answers to the resizes of a session.
pub open spec fn reasserts(start: GuardView, sizes: Seq<(u32, u32)>, monitor: (u32, u32)) -> nat
    decreases sizes.len(),
{
    if sizes.len() == 0 {
        0
    } else {
        let answer = after(start, sizes.drop_last(), monitor).action(sizes.last(), monitor);
        reasserts(start, sizes.drop_last(), monitor) + (if answer
            == ExternalResizeAction::Reassert {
            1nat
        } else {
            0nat
        })
    }
}

/// A size that was just re-asserted against is not re-asserted against again.
pub proof fn a_repeated_size_is_suppressed(
    guard: GuardView,
    incoming: (u32, u32),
    monitor: (u32, u32),
)
    requires
        guard.action(incoming, monitor) == ExternalResizeAction::Reassert,
    ensures
        guard.next(incoming, monitor).action(incoming, monitor)
            == ExternalResizeAction::Suppressed,
{
}

/// As long as no resize covers the monitor, a session spends no more re-asserts
/// than its budget, whatever sizes come in.
pub proof fn reasserts_stay_within_the_budget(
    start: GuardView,
    sizes: Seq<(u32, u32)>,
    monitor: (u32, u32),
)
    requires
        forall|i: int| 0 <= i < sizes.len() ==> !covers(#[trigger] sizes[i], monitor),
    ensures
        reasserts(start, sizes, monitor) + after(start, sizes, monitor).budget == start.budget,
        reasserts(start, sizes, monitor) <= start.budget,
    decreases sizes.len(),
{
    if sizes.len() > 0 {
        let before = sizes.drop_last();
        assert forall|i: int| 0 <= i < before.len() implies !covers(
            #[trigger] before[i],
            monitor,
        ) by {
            assert(before[i] == sizes[i]);
        }
        reasserts_stay_within_the_budget(start, before, monitor);
        assert(!covers(sizes[sizes.len() - 1], monitor));
    }
}

/// A window that covers the monitor gives the whole budget back.
pub proof fn covering_refills_the_budget(
    guard: GuardView,
    incoming: (u32, u32),
    monitor: (u32, u32),
)
    requires
        covers(incoming, monitor),
    ensures
        guard.next(incoming, monitor) == GuardView::fresh(),
        guard.action(incoming, monitor) == ExternalResizeAction::Covered,
{
}

} // verus!
