use crate::store::ConfigStore;
use std::sync::Arc;
use vstd::prelude::*;
use vstd::std_specs::cmp::PartialEqSpec;

verus! {

/// One accepted transition of the configuration: the value before and the
/// value after.
#[derive(Clone, Debug)]
pub struct ConfigUpdate<T> {
    pub old: T,
    pub new: T,
}

/// What the watch loop broadcasts after a reload: the accepted update, or the
/// error of a failed reload.
pub type WatchEvent<T, E> = Result<ConfigUpdate<Arc<T>>, E>;

/// The phases of the watch service.
#[derive(Clone, Copy, Debug, PartialEq, Eq, Structural)]
pub enum ServicePhase {
    /// Constructed, the loop not yet running.
    Idle,
    /// Waiting for a change of the file or for cancellation.
    Watching,
    /// A change was seen and a reload is in flight.
    Reloading,
    /// Cancelled or shut down; no further reloads take place.
    Stopped,
}

/// Why the watch loop woke up: the first of its sources to fire.
#[derive(Clone, Copy, Debug, PartialEq, Eq, Structural)]
pub enum Wake {
    /// The debounced watcher reported at least one change of the file.
    FileChanged,
    /// Cancellation was requested, by the service's own token or an outside signal.
    CancelRequested,
    /// The source of change signals went away.
    SourceClosed,
}

/// What the watch loop does next.
#[derive(Clone, Copy, Debug, PartialEq, Eq, Structural)]
pub enum LoopAction {
    /// Reload the file and hand the outcome back to the core.
    Reload,
    /// Leave the loop.
    Stop,
}

/// One input to the watch loop's decisions: a wake-up, or the outcome of a
/// reload.
pub enum Stimulus<T, E> {
    Wake(Wake),
    Reloaded(Result<Arc<T>, E>),
}

/// The next phase and the action after a wake-up.
pub open spec fn wake_spec(phase: ServicePhase, wake: Wake) -> (ServicePhase, LoopAction) {
    if phase == ServicePhase::Stopped {
        (ServicePhase::Stopped, LoopAction::Stop)
    } else {
        match wake {
            Wake::FileChanged => (ServicePhase::Reloading, LoopAction::Reload),
            _ => (ServicePhase::Stopped, LoopAction::Stop),
        }
    }
}

/// The next phase, the current value and the broadcast event after a reload
/// outcome. Only a reload in flight counts; a value equal to the current one
/// changes nothing and is not reported; an error leaves the value alone and is
/// reported.
pub open spec fn reload_spec<T: PartialEq, E>(
    phase: ServicePhase,
    current: Arc<T>,
    outcome: Result<Arc<T>, E>,
) -> (ServicePhase, Arc<T>, Option<WatchEvent<T, E>>) {
    if phase != ServicePhase::Reloading {
        (phase, current, None)
    } else {
        match outcome {
            Ok(new) => if (*current).eq_spec(&*new) {
                (ServicePhase::Watching, current, None)
            } else {
                (ServicePhase::Watching, new, Some(Ok(ConfigUpdate { old: current, new })))
            },
            Err(e) => (ServicePhase::Watching, current, Some(Err(e))),
        }
    }
}

/// The effect of one stimulus: next phase, current value and the events
/// broadcast.
pub open spec fn apply_spec<T: PartialEq, E>(
    phase: ServicePhase,
    current: Arc<T>,
    s: Stimulus<T, E>,
) -> (ServicePhase, Arc<T>, Seq<WatchEvent<T, E>>) {
    match s {
        Stimulus::Wake(w) => (wake_spec(phase, w).0, current, Seq::empty()),
        Stimulus::Reloaded(o) => {
            let (p, c, ev) = reload_spec(phase, current, o);
            (
                p,
                c,
                match ev {
                    Some(e) => seq![e],
                    None => Seq::empty(),
                },
            )
        },
    }
}

/// The effect of a sequence of stimuli, taken in order: final phase, final
/// value and every event broadcast, in order.
pub open spec fn run_spec<T: PartialEq, E>(
    phase: ServicePhase,
    current: Arc<T>,
    trace: Seq<Stimulus<T, E>>,
) -> (ServicePhase, Arc<T>, Seq<WatchEvent<T, E>>)
    decreases trace.len(),
{
    if trace.len() == 0 {
        (phase, current, Seq::empty())
    } else {
        let (p, c, ev) = run_spec(phase, current, trace.drop_last());
        let (p2, c2, ev2) = apply_spec(p, c, trace.last());
        (p2, c2, ev + ev2)
    }
}

/// Running two traces one after the other is running their concatenation:
/// the second starts where the first ended, and the events follow on.
pub proof fn lemma_run_append<T: PartialEq, E>(
    phase: ServicePhase,
    current: Arc<T>,
    first: Seq<Stimulus<T, E>>,
    second: Seq<Stimulus<T, E>>,
)
    ensures
        ({
            let (p1, c1, ev1) = run_spec(phase, current, first);
            let (p2, c2, ev2) = run_spec(p1, c1, second);
            run_spec(phase, current, first + second) == (p2, c2, ev1 + ev2)
        }),
    decreases second.len(),
{
    let (p1, c1, ev1) = run_spec(phase, current, first);
    if second.len() == 0 {
        assert(first + second =~= first);
        assert(ev1 + Seq::<WatchEvent<T, E>>::empty() =~= ev1);
    } else {
        let whole = first + second;
        assert(whole.drop_last() =~= first + second.drop_last());
        assert(whole.last() == second.last());
        lemma_run_append(phase, current, first, second.drop_last());
        let (q, d, evq) = run_spec(p1, c1, second.drop_last());
        let (q2, d2, evl) = apply_spec(q, d, second.last());
        assert(ev1 + evq + evl =~= ev1 + (evq + evl));
    }
}

/// Every reported update matches the store around it: its `old` is the value
/// current just before, its `new` the value current just after. A reload that
/// reports no update leaves the value as it was.
pub proof fn lemma_update_matches_snapshots<T: PartialEq, E>(
    phase: ServicePhase,
    current: Arc<T>,
    outcome: Result<Arc<T>, E>,
)
    ensures
        ({
            let (p, c, ev) = reload_spec(phase, current, outcome);
            &&& ev matches Some(Ok(u)) ==> u.old == current && u.new == c
            &&& !(ev matches Some(Ok(_))) ==> c == current
        }),
{
}

/// A change of the file that reloads to a value equal to the current one
/// triggers a reload, yet no event is broadcast and the value stays.
pub proof fn lemma_equal_reload_is_silent<T: PartialEq, E>(current: Arc<T>, new: Arc<T>)
    requires
        (*current).eq_spec(&*new),
    ensures
        wake_spec(ServicePhase::Watching, Wake::FileChanged).1 == LoopAction::Reload,
        run_spec(
            ServicePhase::Watching,
            current,
            seq![Stimulus::<T, E>::Wake(Wake::FileChanged), Stimulus::Reloaded(Ok(new))],
        ) == (ServicePhase::Watching, current, Seq::<WatchEvent<T, E>>::empty()),
{
    let t = seq![Stimulus::<T, E>::Wake(Wake::FileChanged), Stimulus::Reloaded(Ok(new))];
    assert(t.drop_last() =~= seq![Stimulus::<T, E>::Wake(Wake::FileChanged)]);
    assert(t.drop_last().drop_last() =~= Seq::<Stimulus<T, E>>::empty());
    reveal_with_fuel(run_spec, 3);
    assert(Seq::<WatchEvent<T, E>>::empty() + Seq::empty() =~= Seq::<WatchEvent<T, E>>::empty());
}

/// A stopped service stays stopped: whatever stimuli follow, its value does
/// not change and nothing is broadcast.
pub proof fn lemma_stopped_is_terminal<T: PartialEq, E>(
    current: Arc<T>,
    trace: Seq<Stimulus<T, E>>,
)
    ensures
        run_spec(ServicePhase::Stopped, current, trace) == (
            ServicePhase::Stopped,
            current,
            Seq::<WatchEvent<T, E>>::empty(),
        ),
    decreases trace.len(),
{
    if trace.len() > 0 {
        lemma_stopped_is_terminal(current, trace.drop_last());
        assert(Seq::<WatchEvent<T, E>>::empty() + Seq::empty() =~= Seq::<WatchEvent<T, E>>::empty());
    }
}

/// Cancellation is terminal: once the loop wakes for cancellation, in any
/// phase, no later change of the file or reload outcome changes the value or
/// broadcasts an event.
pub proof fn lemma_cancel_is_terminal<T: PartialEq, E>(
    phase: ServicePhase,
    current: Arc<T>,
    later: Seq<Stimulus<T, E>>,
)
    ensures
        wake_spec(phase, Wake::CancelRequested).1 == LoopAction::Stop,
        run_spec(phase, current, seq![Stimulus::Wake(Wake::CancelRequested)] + later) == (
            ServicePhase::Stopped,
            current,
            Seq::<WatchEvent<T, E>>::empty(),
        ),
{
    let first = seq![Stimulus::<T, E>::Wake(Wake::CancelRequested)];
    assert(first.drop_last() =~= Seq::<Stimulus<T, E>>::empty());
    assert(Seq::<WatchEvent<T, E>>::empty() + Seq::empty() =~= Seq::<WatchEvent<T, E>>::empty());
    reveal_with_fuel(run_spec, 2);
    assert(run_spec(phase, current, first) == (ServicePhase::Stopped, current, Seq::<WatchEvent<T, E>>::empty()));
    lemma_run_append(phase, current, first, later);
    lemma_stopped_is_terminal(current, later);
}

/// A failed reload is reported once and leaves the value alone; a later
/// change to a different valid value is installed and reported as usual.
pub proof fn lemma_failure_is_isolated<T: PartialEq, E>(
    current: Arc<T>,
    error: E,
    new: Arc<T>,
)
    requires
        !(*current).eq_spec(&*new),
    ensures
        run_spec(
            ServicePhase::Watching,
            current,
            seq![Stimulus::<T, E>::Wake(Wake::FileChanged), Stimulus::Reloaded(Err(error))],
        ) == (ServicePhase::Watching, current, seq![Err::<ConfigUpdate<Arc<T>>, E>(error)]),
        run_spec(
            ServicePhase::Watching,
            current,
            seq![
                Stimulus::<T, E>::Wake(Wake::FileChanged),
                Stimulus::Reloaded(Err(error)),
                Stimulus::Wake(Wake::FileChanged),
                Stimulus::Reloaded(Ok(new)),
            ],
        ) == (
            ServicePhase::Watching,
            new,
            seq![Err(error), Ok(ConfigUpdate { old: current, new })],
        ),
{
    let a = seq![Stimulus::<T, E>::Wake(Wake::FileChanged), Stimulus::Reloaded(Err(error))];
    let b = seq![Stimulus::<T, E>::Wake(Wake::FileChanged), Stimulus::Reloaded(Ok(new))];
    assert(a.drop_last() =~= seq![Stimulus::<T, E>::Wake(Wake::FileChanged)]);
    assert(a.drop_last().drop_last() =~= Seq::<Stimulus<T, E>>::empty());
    assert(b.drop_last() =~= seq![Stimulus::<T, E>::Wake(Wake::FileChanged)]);
    assert(b.drop_last().drop_last() =~= Seq::<Stimulus<T, E>>::empty());
    reveal_with_fuel(run_spec, 3);
    let none = Seq::<WatchEvent<T, E>>::empty();
    assert(none + none =~= none);
    assert(none + seq![Err::<ConfigUpdate<Arc<T>>, E>(error)] =~= seq![Err::<ConfigUpdate<Arc<T>>, E>(error)]);
    assert(none + seq![Ok::<ConfigUpdate<Arc<T>>, E>(ConfigUpdate { old: current, new })] =~= seq![Ok(ConfigUpdate { old: current, new })]);
    lemma_run_append(ServicePhase::Watching, current, a, b);
    assert(a + b =~= seq![
        Stimulus::<T, E>::Wake(Wake::FileChanged),
        Stimulus::Reloaded(Err(error)),
        Stimulus::Wake(Wake::FileChanged),
        Stimulus::Reloaded(Ok(new)),
    ]);
    assert(seq![Err::<ConfigUpdate<Arc<T>>, E>(error)] + seq![Ok(ConfigUpdate { old: current, new })] =~= seq![Err(error), Ok(ConfigUpdate { old: current, new })]);
}

/// The decisions of the watch loop: it owns the configuration store and the
/// service's phase, and turns wake-ups and reload outcomes into actions and
/// broadcast events.
pub struct WatchCore<T> {
    store: ConfigStore<T>,
    phase: ServicePhase,
}

impl<T: PartialEq> WatchCore<T> {
    /// The phase the service is in.
    pub closed spec fn state(&self) -> ServicePhase {
        self.phase
    }

    /// The store's current value.
    pub closed spec fn current(&self) -> Arc<T> {
        self.store.current()
    }

    /// A core whose store is seeded with the value of the first load.
    pub fn new(initial: Arc<T>) -> (r: Self)
        ensures
            r.state() == ServicePhase::Idle,
            r.current() == initial,
    {
        WatchCore { store: ConfigStore::new(initial), phase: ServicePhase::Idle }
    }

    pub fn phase(&self) -> (r: ServicePhase)
        ensures
            r == self.state(),
    {
        self.phase
    }

    /// The current configuration value.
    pub fn snapshot(&self) -> (r: Arc<T>)
        ensures
            r == self.current(),
    {
        self.store.snapshot()
    }

    /// The loop starts watching: an idle service begins to watch; any other
    /// phase stays as it is.
    pub fn start(&mut self)
        ensures
            final(self).state() == (if old(self).state() == ServicePhase::Idle {
                ServicePhase::Watching
            } else {
                old(self).state()
            }),
            final(self).current() == old(self).current(),
    {
        if self.phase == ServicePhase::Idle {
            self.phase = ServicePhase::Watching;
        }
    }

    /// Decides what follows a wake-up: a change of the file asks for one
    /// reload; cancellation or the end of the change source stops the loop for
    /// good; a stopped loop stays stopped.
    pub fn on_wake(&mut self, wake: Wake) -> (action: LoopAction)
        ensures
            (final(self).state(), action) == wake_spec(old(self).state(), wake),
            final(self).current() == old(self).current(),
    {
        if self.phase == ServicePhase::Stopped {
            return LoopAction::Stop;
        }
        match wake {
            Wake::FileChanged => {
                self.phase = ServicePhase::Reloading;
                LoopAction::Reload
            },
            _ => {
                self.phase = ServicePhase::Stopped;
                LoopAction::Stop
            },
        }
    }

    /// Takes the outcome of the reload in flight. A value that differs from the
    /// current one is installed and reported with the value it replaced; an
    /// equal value changes nothing and is not reported; an error is reported
    /// and the store keeps its value. Outside a reload (after cancellation, for
    /// one) the outcome is dropped.
    pub fn on_reload<E>(&mut self, outcome: Result<Arc<T>, E>) -> (event: Option<
        WatchEvent<T, E>,
    >)
        requires
            T::obeys_eq_spec(),
        ensures
            (final(self).state(), final(self).current(), event) == reload_spec(
                old(self).state(),
                old(self).current(),
                outcome,
            ),
    {
        if self.phase != ServicePhase::Reloading {
            return None;
        }
        self.phase = ServicePhase::Watching;
        match outcome {
            Ok(new) => {
                let current = self.store.snapshot();
                if *current == *new {
                    None
                } else {
                    let installed = new.clone();
                    let previous = self.store.replace(installed);
                    Some(Ok(ConfigUpdate { old: previous, new }))
                }
            },
            Err(e) => Some(Err(e)),
        }
    }
}

} // verus!
