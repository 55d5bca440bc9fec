use vstd::prelude::*;

use crate::props::SkeletonProps;

verus! {

/// A one-shot timer that the host is asked to start.
#[derive(Clone, Copy, Debug, PartialEq, Eq, Structural)]
pub struct TimerRequest {
    /// Handed back with the timer's firing, to tell it from stale ones.
    pub token: u64,
    pub delay_ms: u32,
}

/// What the host performs after a transition of a controller.
#[derive(Clone, Copy, Debug, PartialEq, Eq, Structural)]
pub struct Effects {
    /// Stop the timer with this token; its firing is ignored anyway.
    pub cancel_timer: Option<u64>,
    /// Start a timer and report its firing.
    pub schedule_timer: Option<TimerRequest>,
    /// Start observing the placeholder box for viewport intersection.
    pub observe: bool,
    /// Stop observing the placeholder box.
    pub disconnect: bool,
}

/// The visibility of one placeholder instance, and what it waits for.
///
/// `visible` is the only flag a render reads: the placeholder box is
/// rendered while it holds, the real content otherwise.
#[derive(Clone, Copy, Debug, PartialEq, Eq, Structural)]
pub struct VisibilityController {
    pub visible: bool,
    /// False once the instance is unmounted; nothing changes after that.
    pub mounted: bool,
    /// The `show` flag of the configuration last applied.
    pub show: bool,
    /// The delay of the configuration last applied.
    pub delay_ms: u32,
    /// An intersection observer is attached.
    pub observing: bool,
    /// The token of the delay timer that may still reveal the placeholder.
    pub pending: Option<u64>,
    /// The token that the next timer request gets.
    pub next_token: u64,
}

/// No work for the host.
pub open spec fn no_effects() -> Effects {
    Effects { cancel_timer: None, schedule_timer: None, observe: false, disconnect: false }
}

impl VisibilityController {
    /// A controller that is not mounted holds no timer and no observer, and
    /// while `show` holds the placeholder is hidden with no timer pending.
    pub open spec fn wf(&self) -> bool {
        &&& !self.mounted ==> self.pending.is_none() && !self.observing
        &&& self.mounted && self.show ==> !self.visible && self.pending.is_none()
    }

    /// The controller after `show` and `delay_ms` are applied to it:
    /// `show` hides the placeholder, a zero delay shows it at once, and a
    /// positive delay leaves it as it is (hidden on mount) until a new timer fires.
    pub open spec fn evaluated(self, show: bool, delay_ms: u32, on_mount: bool) -> Self {
        let base = VisibilityController { show, delay_ms, pending: None, ..self };
        if show {
            VisibilityController { visible: false, ..base }
        } else if delay_ms == 0 {
            VisibilityController { visible: true, ..base }
        } else {
            VisibilityController {
                visible: if on_mount {
                    false
                } else {
                    self.visible
                },
                pending: Some(self.next_token),
                next_token: self.next_token.wrapping_add(1),
                ..base
            }
        }
    }

    /// The timer work that applying `show` and `delay_ms` takes: the
    /// pending timer is dropped, and a positive delay starts a new one.
    pub open spec fn evaluation_effects(self, show: bool, delay_ms: u32) -> Effects {
        Effects {
            cancel_timer: self.pending,
            schedule_timer: if !show && delay_ms > 0 {
                Some(TimerRequest { token: self.next_token, delay_ms })
            } else {
                None
            },
            observe: false,
            disconnect: false,
        }
    }

    /// The controller of an instance freshly mounted with configuration `p`.
    pub open spec fn mounted_with(p: SkeletonProps) -> Self {
        let fresh = VisibilityController {
            visible: false,
            mounted: true,
            show: p.show,
            delay_ms: p.delay_ms,
            observing: p.animate_on_visible,
            pending: None,
            next_token: 0,
        };
        fresh.evaluated(p.show, p.delay_ms, true)
    }

    /// The host's work when an instance is mounted with configuration `p`.
    pub open spec fn mount_effects(p: SkeletonProps) -> Effects {
        Effects {
            cancel_timer: None,
            schedule_timer: if !p.show && p.delay_ms > 0 {
                Some(TimerRequest { token: 0, delay_ms: p.delay_ms })
            } else {
                None
            },
            observe: p.animate_on_visible,
            disconnect: false,
        }
    }

    /// The controller after the host supplies configuration `p`: it is
    /// re-evaluated when `show` or the delay changed, and the observer
    /// follows `animate_on_visible`.
    pub open spec fn updated(self, p: SkeletonProps) -> Self {
        if !self.mounted {
            self
        } else {
            let s = if p.show != self.show || p.delay_ms != self.delay_ms {
                self.evaluated(p.show, p.delay_ms, false)
            } else {
                self
            };
            VisibilityController { observing: p.animate_on_visible, ..s }
        }
    }

    /// The host's work after configuration `p` is supplied.
    pub open spec fn update_effects(self, p: SkeletonProps) -> Effects {
        if !self.mounted {
            no_effects()
        } else {
            let e = if p.show != self.show || p.delay_ms != self.delay_ms {
                self.evaluation_effects(p.show, p.delay_ms)
            } else {
                no_effects()
            };
            Effects {
                observe: p.animate_on_visible && !self.observing,
                disconnect: !p.animate_on_visible && self.observing,
                ..e
            }
        }
    }

    /// The controller after the timer with `token` fires: only the pending
    /// timer of a mounted instance reveals the placeholder.
    pub open spec fn after_timer(self, token: u64) -> Self {
        if self.mounted && self.pending == Some(token) {
            VisibilityController { visible: true, pending: None, ..self }
        } else {
            self
        }
    }

    /// The controller after an intersection report: entering the viewport
    /// reveals the placeholder of an observing instance whose content is not
    /// ready; leaving it changes nothing.
    pub open spec fn after_intersection(self, is_intersecting: bool) -> Self {
        if self.mounted && self.observing && !self.show && is_intersecting {
            VisibilityController { visible: true, ..self }
        } else {
            self
        }
    }

    /// The controller of an unmounted instance.
    pub open spec fn after_unmount(self) -> Self {
        VisibilityController { mounted: false, pending: None, observing: false, ..self }
    }

    /// The host's work on unmount: drop the timer and the observer.
    pub open spec fn unmount_effects(self) -> Effects {
        if self.mounted {
            Effects {
                cancel_timer: self.pending,
                schedule_timer: None,
                observe: false,
                disconnect: self.observing,
            }
        } else {
            no_effects()
        }
    }
}

} // verus!

verus! {

fn quiet() -> (r: Effects)
    ensures
        r == no_effects(),
{
    Effects { cancel_timer: None, schedule_timer: None, observe: false, disconnect: false }
}

impl VisibilityController {
    fn evaluate(&mut self, show: bool, delay_ms: u32, on_mount: bool) -> (r: Effects)
        ensures
            *final(self) == old(self).evaluated(show, delay_ms, on_mount),
            r == old(self).evaluation_effects(show, delay_ms),
    {
        let cancel_timer = self.pending;
        let mut schedule_timer: Option<TimerRequest> = None;
        self.show = show;
        self.delay_ms = delay_ms;
        self.pending = None;
        if show {
            self.visible = false;
        } else if delay_ms == 0 {
            self.visible = true;
        } else {
            if on_mount {
                self.visible = false;
            }
            schedule_timer = Some(TimerRequest { token: self.next_token, delay_ms });
            self.pending = Some(self.next_token);
            self.next_token = self.next_token.wrapping_add(1);
        }
        Effects { cancel_timer, schedule_timer, observe: false, disconnect: false }
    }

    /// Mounts an instance configured by `p`: the placeholder is hidden when
    /// `show` holds or a delay is set, and shown at once otherwise.
    pub fn mount(p: &SkeletonProps) -> (r: (Self, Effects))
        ensures
            r.0 == Self::mounted_with(*p),
            r.1 == Self::mount_effects(*p),
            r.0.wf(),
            r.0.visible == (!p.show && p.delay_ms == 0),
            r.1.schedule_timer.is_none() <==> (p.show || p.delay_ms == 0),
    {
        let mut c = VisibilityController {
            visible: false,
            mounted: true,
            show: p.show,
            delay_ms: p.delay_ms,
            observing: p.animate_on_visible,
            pending: None,
            next_token: 0,
        };
        let e = c.evaluate(p.show, p.delay_ms, true);
        (c, Effects { observe: p.animate_on_visible, ..e })
    }

    /// Applies a new configuration supplied by the host.
    pub fn update(&mut self, p: &SkeletonProps) -> (r: Effects)
        requires
            old(self).wf(),
        ensures
            *final(self) == old(self).updated(*p),
            r == old(self).update_effects(*p),
            final(self).wf(),
    {
        if !self.mounted {
            return quiet();
        }
        let was_observing = self.observing;
        let e = if p.show != self.show || p.delay_ms != self.delay_ms {
            self.evaluate(p.show, p.delay_ms, false)
        } else {
            quiet()
        };
        self.observing = p.animate_on_visible;
        Effects {
            observe: p.animate_on_visible && !was_observing,
            disconnect: !p.animate_on_visible && was_observing,
            ..e
        }
    }

    /// Handles the firing of the timer with `token`; a stale or cancelled
    /// timer, or one that fires after unmount, changes nothing.
    pub fn timer_fired(&mut self, token: u64)
        requires
            old(self).wf(),
        ensures
            *final(self) == old(self).after_timer(token),
            final(self).wf(),
    {
        if self.mounted {
            if let Some(t) = self.pending {
                if t == token {
                    self.visible = true;
                    self.pending = None;
                }
            }
        }
    }

    /// Handles one viewport-intersection report for the placeholder box.
    pub fn intersection(&mut self, is_intersecting: bool)
        requires
            old(self).wf(),
        ensures
            *final(self) == old(self).after_intersection(is_intersecting),
            final(self).wf(),
    {
        if self.mounted && self.observing && !self.show && is_intersecting {
            self.visible = true;
        }
    }

    /// Unmounts the instance, telling the host what to tear down.
    pub fn unmount(&mut self) -> (r: Effects)
        ensures
            *final(self) == old(self).after_unmount(),
            r == old(self).unmount_effects(),
            final(self).wf(),
    {
        let r = if self.mounted {
            Effects {
                cancel_timer: self.pending,
                schedule_timer: None,
                observe: false,
                disconnect: self.observing,
            }
        } else {
            quiet()
        };
        self.mounted = false;
        self.pending = None;
        self.observing = false;
        r
    }

    /// Whether the placeholder box is to be rendered.
    pub fn is_visible(&self) -> (r: bool)
        ensures
            r == self.visible,
    {
        self.visible
    }
}

} // verus!

verus! {

/// With a delay and `show` off, a freshly mounted placeholder stays hidden,
/// one timer of that delay is requested, and its firing reveals the
/// placeholder, also after any number of configurations that keep `show`
/// off and the delay unchanged.
pub proof fn lemma_delay_reveals_on_timer(p: SkeletonProps, q: SkeletonProps)
    requires
        !p.show,
        p.delay_ms > 0,
        !q.show,
        q.delay_ms == p.delay_ms,
    ensures
        !VisibilityController::mounted_with(p).visible,
        VisibilityController::mount_effects(p).schedule_timer == Some(
            TimerRequest { token: 0, delay_ms: p.delay_ms },
        ),
        VisibilityController::mounted_with(p).after_timer(0).visible,
        VisibilityController::mounted_with(p).updated(q).after_timer(0).visible,
{
}

/// `show` hides the placeholder at once, and no timer started before
/// reveals it afterwards.
pub proof fn lemma_show_cancels_delay(s: VisibilityController, p: SkeletonProps, token: u64)
    requires
        s.wf(),
        p.show,
    ensures
        s.mounted ==> !s.updated(p).visible,
        s.updated(p).after_timer(token) == s.updated(p),
{
}

/// Once shown, the placeholder stays shown through timer firings,
/// intersection reports and configurations without `show`.
pub proof fn lemma_shown_is_sticky(
    s: VisibilityController,
    p: SkeletonProps,
    token: u64,
    is_intersecting: bool,
)
    requires
        s.visible,
        !p.show,
    ensures
        s.after_timer(token).visible,
        s.after_intersection(is_intersecting).visible,
        s.updated(p).visible,
        s.after_unmount().visible,
{
}

/// An observed instance is revealed by entering the viewport, and a later
/// report that it left the viewport does not hide it again.
pub proof fn lemma_intersection_reveals(s: VisibilityController)
    requires
        s.mounted,
        s.observing,
        !s.show,
    ensures
        s.after_intersection(true).visible,
        s.after_intersection(true).after_intersection(false).visible,
{
}

/// After unmount nothing changes the controller any more, and there is
/// nothing left for the host to tear down.
pub proof fn lemma_unmounted_is_inert(
    s: VisibilityController,
    p: SkeletonProps,
    token: u64,
    is_intersecting: bool,
)
    ensures
        s.after_unmount().after_timer(token) == s.after_unmount(),
        s.after_unmount().after_intersection(is_intersecting) == s.after_unmount(),
        s.after_unmount().updated(p) == s.after_unmount(),
        s.after_unmount().unmount_effects() == no_effects(),
        s.after_unmount().update_effects(p) == no_effects(),
{
}

} // verus!
