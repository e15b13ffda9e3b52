//! When the overlay is created, updated and torn down.
//!
//! The embedding application reports three kinds of event: the host map became
//! available, the layer settings changed, the owning component was disposed.
//! [`OverlayLifecycle::step`] answers each with at most one command for the
//! overlay plugin, and keeps at most one overlay alive at any time.
use vstd::prelude::*;

use crate::encode::{encode_options, encodes_options, NativeOptions};
use crate::grid::VelocityLayerOptions;

verus! {

/// What to do with a live overlay when the settings become absent.
#[derive(Clone, Copy, Debug, PartialEq, Eq, Structural)]
pub enum AbsentDataPolicy {
    /// Leave the overlay showing the last settings it received.
    KeepShowing,
    /// Tear the overlay down; it is created again when settings return.
    Detach,
}

/// An observation handed to the lifecycle.
#[derive(Clone, Debug)]
pub enum LayerEvent {
    /// The host map context reports a live map.
    MapAvailable,
    /// The reactive settings input has a new value; `None` means no data.
    OptionsChanged(Option<VelocityLayerOptions>),
    /// The owning component is being disposed.
    Disposed,
}

/// What the embedding application must do to the overlay plugin.
#[derive(Clone, Copy, Debug, PartialEq, Eq, Structural)]
pub enum OverlayCommand {
    /// Nothing to do.
    Nothing,
    /// Create an overlay with the lifecycle's current settings (none yet: the
    /// plugin's own defaults) and add it to the host map.
    Create,
    /// Replace the settings of the live overlay, in place, by the lifecycle's
    /// current settings.
    SetOptions,
    /// Clear the live overlay's animation state, then remove it from the map.
    ClearAndRemove,
}

/// The kind of an event, without its payload.
pub enum EventKind {
    MapReady,
    OptionsPresent,
    OptionsAbsent,
    Disposal,
}

impl LayerEvent {
    pub open spec fn kind(&self) -> EventKind {
        match self {
            LayerEvent::MapAvailable => EventKind::MapReady,
            LayerEvent::OptionsChanged(Some(_)) => EventKind::OptionsPresent,
            LayerEvent::OptionsChanged(None) => EventKind::OptionsAbsent,
            LayerEvent::Disposed => EventKind::Disposal,
        }
    }
}

/// The control state of a lifecycle.
pub struct LifecyclePhase {
    pub policy: AbsentDataPolicy,
    /// The host map has been reported available.
    pub map_ready: bool,
    /// An overlay exists and is registered with the host map.
    pub attached: bool,
    /// The owning component has been disposed.
    pub disposed: bool,
}

impl LifecyclePhase {
    /// The phase of a fresh lifecycle: no map, no overlay.
    pub open spec fn initial(policy: AbsentDataPolicy) -> LifecyclePhase {
        LifecyclePhase { policy, map_ready: false, attached: false, disposed: false }
    }

    /// An overlay only exists on an available map and before disposal.
    pub open spec fn wf(self) -> bool {
        self.attached ==> self.map_ready && !self.disposed
    }
}

/// One transition: the next phase and the command issued.
pub open spec fn transition(s: LifecyclePhase, e: EventKind) -> (LifecyclePhase, OverlayCommand) {
    if s.disposed {
        (s, OverlayCommand::Nothing)
    } else {
        match e {
            EventKind::MapReady => if s.map_ready {
                (s, OverlayCommand::Nothing)
            } else {
                (LifecyclePhase { map_ready: true, attached: true, ..s }, OverlayCommand::Create)
            },
            EventKind::OptionsPresent => if s.attached {
                (s, OverlayCommand::SetOptions)
            } else if s.map_ready {
                (LifecyclePhase { attached: true, ..s }, OverlayCommand::Create)
            } else {
                (s, OverlayCommand::Nothing)
            },
            EventKind::OptionsAbsent => if s.attached && s.policy == AbsentDataPolicy::Detach {
                (LifecyclePhase { attached: false, ..s }, OverlayCommand::ClearAndRemove)
            } else {
                (s, OverlayCommand::Nothing)
            },
            EventKind::Disposal => (
                LifecyclePhase { attached: false, disposed: true, ..s },
                if s.attached {
                    OverlayCommand::ClearAndRemove
                } else {
                    OverlayCommand::Nothing
                },
            ),
        }
    }
}

/// The lifecycle of one overlay layer.
pub struct OverlayLifecycle {
    policy: AbsentDataPolicy,
    map_ready: bool,
    attached: bool,
    disposed: bool,
    latest: Option<NativeOptions>,
}

impl View for OverlayLifecycle {
    type V = LifecyclePhase;

    closed spec fn view(&self) -> LifecyclePhase {
        LifecyclePhase {
            policy: self.policy,
            map_ready: self.map_ready,
            attached: self.attached,
            disposed: self.disposed,
        }
    }
}

impl OverlayLifecycle {
    /// The encoded settings of the most recent `Some` input, if any arrived.
    pub closed spec fn latest_options(&self) -> Option<NativeOptions> {
        self.latest
    }

    /// A lifecycle with no map, no overlay and no settings yet.
    pub fn new(policy: AbsentDataPolicy) -> (r: OverlayLifecycle)
        ensures
            r@ == LifecyclePhase::initial(policy),
            r.latest_options() is None,
    {
        OverlayLifecycle { policy, map_ready: false, attached: false, disposed: false, latest: None }
    }

    /// Whether an overlay currently exists.
    pub fn is_attached(&self) -> (r: bool)
        ensures
            r == self@.attached,
    {
        self.attached
    }

    /// Whether the owning component has been disposed.
    pub fn is_disposed(&self) -> (r: bool)
        ensures
            r == self@.disposed,
    {
        self.disposed
    }

    /// The settings an overlay created now would receive.
    pub fn current_options(&self) -> (r: &Option<NativeOptions>)
        ensures
            *r == self.latest_options(),
    {
        &self.latest
    }

    /// Takes one event and returns the command it calls for.
    ///
    /// The phase moves as [`transition`] says. New settings are encoded and
    /// remembered even while no overlay exists, so an overlay created later
    /// receives the latest of them; an overlay that exists has its settings
    /// replaced in place. `Create` and `SetOptions` hand the overlay
    /// [`OverlayLifecycle::current_options`] as it stands after the call.
    pub fn step(&mut self, event: LayerEvent) -> (r: OverlayCommand)
        ensures
            (final(self)@, r) == transition(old(self)@, event.kind()),
            match event {
                LayerEvent::OptionsChanged(Some(o)) if !old(self)@.disposed => {
                    &&& final(self).latest_options() is Some
                    &&& encodes_options(o, final(self).latest_options()->Some_0)
                },
                _ => final(self).latest_options() == old(self).latest_options(),
            },
    {
        if self.disposed {
            return OverlayCommand::Nothing;
        }
        match event {
            LayerEvent::MapAvailable => {
                if self.map_ready {
                    OverlayCommand::Nothing
                } else {
                    self.map_ready = true;
                    self.attached = true;
                    OverlayCommand::Create
                }
            },
            LayerEvent::OptionsChanged(Some(o)) => {
                self.latest = Some(encode_options(&o));
                if self.attached {
                    OverlayCommand::SetOptions
                } else if self.map_ready {
                    self.attached = true;
                    OverlayCommand::Create
                } else {
                    OverlayCommand::Nothing
                }
            },
            LayerEvent::OptionsChanged(None) => {
                if self.attached && self.policy == AbsentDataPolicy::Detach {
                    self.attached = false;
                    OverlayCommand::ClearAndRemove
                } else {
                    OverlayCommand::Nothing
                }
            },
            LayerEvent::Disposed => {
                let was_attached = self.attached;
                self.attached = false;
                self.disposed = true;
                if was_attached {
                    OverlayCommand::ClearAndRemove
                } else {
                    OverlayCommand::Nothing
                }
            },
        }
    }
}

/// The phase reached, and the commands issued one per event, when `events`
/// are taken in order from the phase `s`.
pub open spec fn run(s: LifecyclePhase, events: Seq<EventKind>) -> (LifecyclePhase, Seq<OverlayCommand>)
    decreases events.len(),
{
    if events.len() == 0 {
        (s, Seq::empty())
    } else {
        let (mid, issued) = run(s, events.drop_last());
        let (next, c) = transition(mid, events.last());
        (next, issued.push(c))
    }
}

/// How many times `c` occurs in `cmds`.
pub open spec fn occurrences(cmds: Seq<OverlayCommand>, c: OverlayCommand) -> nat
    decreases cmds.len(),
{
    if cmds.len() == 0 {
        0
    } else {
        occurrences(cmds.drop_last(), c) + if cmds.last() == c {
            1nat
        } else {
            0nat
        }
    }
}

/// Overlays created by `cmds` and not torn down by them.
pub open spec fn live_overlays(cmds: Seq<OverlayCommand>) -> int {
    occurrences(cmds, OverlayCommand::Create) - occurrences(cmds, OverlayCommand::ClearAndRemove)
}

proof fn lemma_contains_split(events: Seq<EventKind>, e: EventKind)
    requires
        events.len() > 0,
    ensures
        events.contains(e) <==> (events.drop_last().contains(e) || events.last() == e),
{
    if events.contains(e) {
        let i = choose|i: int| 0 <= i < events.len() && events[i] == e;
        if i < events.len() - 1 {
            assert(events.drop_last()[i] == e);
        }
    }
    if events.drop_last().contains(e) {
        let i = choose|i: int| 0 <= i < events.drop_last().len() && events.drop_last()[i] == e;
        assert(events[i] == e);
    }
    if events.last() == e {
        assert(events[events.len() - 1] == e);
    }
}

/// What holds after any sequence of events from a fresh lifecycle.
proof fn lemma_run_invariant(policy: AbsentDataPolicy, events: Seq<EventKind>)
    ensures
        ({
            let (s, cmds) = run(LifecyclePhase::initial(policy), events);
            &&& s.policy == policy
            &&& s.wf()
            &&& cmds.len() == events.len()
            &&& live_overlays(cmds) == if s.attached { 1int } else { 0int }
            &&& s.disposed == events.contains(EventKind::Disposal)
            &&& (!s.disposed && policy == AbsentDataPolicy::KeepShowing)
                ==> occurrences(cmds, OverlayCommand::ClearAndRemove) == 0
            &&& policy == AbsentDataPolicy::KeepShowing ==> {
                &&& occurrences(cmds, OverlayCommand::Create) == if s.map_ready { 1nat } else { 0nat }
                &&& s.map_ready && !s.disposed ==> s.attached
            }
        }),
    decreases events.len(),
{
    if events.len() > 0 {
        lemma_run_invariant(policy, events.drop_last());
        lemma_contains_split(events, EventKind::Disposal);
        let (mid, issued) = run(LifecyclePhase::initial(policy), events.drop_last());
        let (next, c) = transition(mid, events.last());
        assert(issued.push(c).drop_last() == issued);
        assert(issued.push(c).last() == c);
    }
}

/// At most one overlay is alive after any sequence of events: creations and
/// teardowns alternate, and an overlay is alive exactly when the lifecycle is
/// attached.
pub proof fn lemma_at_most_one_live_overlay(policy: AbsentDataPolicy, events: Seq<EventKind>)
    ensures
        ({
            let (s, cmds) = run(LifecyclePhase::initial(policy), events);
            &&& 0 <= live_overlays(cmds) <= 1
            &&& live_overlays(cmds) == 1 <==> s.attached
        }),
{
    lemma_run_invariant(policy, events);
}

/// Once disposal has been signalled, however often, every overlay that was
/// created has been torn down exactly once and none is alive.
pub proof fn lemma_disposal_tears_down_once(policy: AbsentDataPolicy, events: Seq<EventKind>)
    requires
        events.contains(EventKind::Disposal),
    ensures
        ({
            let (s, cmds) = run(LifecyclePhase::initial(policy), events);
            &&& s.disposed
            &&& !s.attached
            &&& occurrences(cmds, OverlayCommand::ClearAndRemove) == occurrences(cmds, OverlayCommand::Create)
            &&& policy == AbsentDataPolicy::KeepShowing ==> occurrences(cmds, OverlayCommand::ClearAndRemove) <= 1
        }),
{
    lemma_run_invariant(policy, events);
}

/// A disposed lifecycle ignores every later event: it issues no command and
/// its phase stays as it is.
pub proof fn lemma_disposed_is_final(s: LifecyclePhase, events: Seq<EventKind>)
    requires
        s.disposed,
    ensures
        run(s, events).0 == s,
        run(s, events).1.len() == events.len(),
        forall|i: int| 0 <= i < events.len() ==> run(s, events).1[i] == OverlayCommand::Nothing,
    decreases events.len(),
{
    if events.len() > 0 {
        lemma_disposed_is_final(s, events.drop_last());
    }
}

/// When a stale overlay is kept on absent settings, one overlay serves the
/// whole lifetime: at most one is ever created, and none is torn down before
/// disposal, so every settings change reaches that same overlay.
pub proof fn lemma_keep_showing_single_overlay(events: Seq<EventKind>)
    ensures
        ({
            let (s, cmds) = run(LifecyclePhase::initial(AbsentDataPolicy::KeepShowing), events);
            &&& occurrences(cmds, OverlayCommand::Create) <= 1
            &&& !events.contains(EventKind::Disposal) ==> occurrences(cmds, OverlayCommand::ClearAndRemove) == 0
        }),
{
    lemma_run_invariant(AbsentDataPolicy::KeepShowing, events);
}

} // verus!
