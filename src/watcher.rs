use vstd::prelude::*;
use crate::config::Config;
use crate::handlers::ChangeHandler;

verus! {

/// Quiet period that coalesces a burst of writes, in milliseconds.
pub const QUIET_PERIOD_MS: u64 = 150;

/// How many times a reload is attempted before the change is dropped.
pub const MAX_RELOAD_RETRIES: usize = 3;

/// Pause between two reload attempts, in milliseconds.
pub const RELOAD_RETRY_DELAY_MS: u64 = 200;

/// The kind of a filesystem event, as the watch subscription reports it.
#[derive(Debug, Clone, Copy, PartialEq, Eq)]
pub enum EventKind {
    Any,
    Access,
    Create,
    Modify,
    Remove,
    Other,
}

/// Whether an event of this kind may have changed a file's content.
pub fn is_relevant_event(kind: EventKind) -> (r: bool)
    ensures
        r == (kind is Any || kind is Create || kind is Modify),
{
    match kind {
        EventKind::Any | EventKind::Create | EventKind::Modify => true,
        _ => false,
    }
}

/// Where the watcher stands.
#[derive(Debug, Clone, Copy, PartialEq, Eq)]
pub enum WatchPhase {
    /// No reload pending.
    Idle,
    /// A relevant event was seen; waiting out the quiet period.
    Debouncing,
    /// Load attempt number `attempt` (from 1) is in flight.
    Reloading { attempt: usize },
    /// Load attempt number `attempt` failed; waiting before the next one.
    RetryWait { attempt: usize },
}

/// What happened, as the embedding program reports it.
#[derive(Debug, Clone, PartialEq, Eq)]
pub enum WatchEvent {
    /// A filesystem event in the watched directory; `names_config` says
    /// whether one of its paths is the configuration file.
    FileChanged { kind: EventKind, names_config: bool },
    /// The quiet period asked for is over.
    QuietPeriodOver,
    /// The configuration file was read and parsed; `hash` is its content hash.
    Loaded { hash: String },
    /// The configuration file could not be read or parsed.
    LoadFailed,
    /// The retry delay asked for is over.
    RetryDelayOver,
}

/// What the embedding program is to do next.
#[derive(Debug, Clone, Copy, PartialEq, Eq)]
pub enum WatchAction {
    /// Nothing; wait for the next event.
    Ignore,
    /// Wait this long, then report `QuietPeriodOver`.
    WaitQuietPeriod { millis: u64 },
    /// Read and parse the configuration file, then report `Loaded` or `LoadFailed`.
    LoadConfig,
    /// Wait this long, then report `RetryDelayOver`.
    WaitRetryDelay { millis: u64 },
    /// Every attempt failed: drop this change until the next relevant event.
    GiveUp,
    /// The content is the one accepted last: run no handler.
    SkipUnchanged,
    /// Install the new snapshot and run the handlers that `handlers_to_run` names.
    ApplyChange,
}

/// One transition: from a phase and the last accepted content hash, an
/// event gives the next phase, the next accepted hash, and the action.
pub open spec fn step_spec(phase: WatchPhase, last: Option<Seq<char>>, ev: WatchEvent) -> (WatchPhase, Option<Seq<char>>, WatchAction) {
    match (phase, ev) {
        (WatchPhase::Idle, WatchEvent::FileChanged { kind, names_config }) =>
            if names_config && (kind is Any || kind is Create || kind is Modify) {
                (WatchPhase::Debouncing, last, WatchAction::WaitQuietPeriod { millis: QUIET_PERIOD_MS })
            } else {
                (phase, last, WatchAction::Ignore)
            },
        (WatchPhase::Debouncing, WatchEvent::QuietPeriodOver) =>
            (WatchPhase::Reloading { attempt: 1 }, last, WatchAction::LoadConfig),
        (WatchPhase::Reloading { attempt }, WatchEvent::Loaded { hash }) =>
            if last == Some(hash@) {
                (WatchPhase::Idle, last, WatchAction::SkipUnchanged)
            } else {
                (WatchPhase::Idle, Some(hash@), WatchAction::ApplyChange)
            },
        (WatchPhase::Reloading { attempt }, WatchEvent::LoadFailed) =>
            if attempt < MAX_RELOAD_RETRIES {
                (WatchPhase::RetryWait { attempt }, last, WatchAction::WaitRetryDelay { millis: RELOAD_RETRY_DELAY_MS })
            } else {
                (WatchPhase::Idle, last, WatchAction::GiveUp)
            },
        (WatchPhase::RetryWait { attempt }, WatchEvent::RetryDelayOver) =>
            (WatchPhase::Reloading { attempt: (attempt + 1) as usize }, last, WatchAction::LoadConfig),
        _ => (phase, last, WatchAction::Ignore),
    }
}

/// The phases that the watcher can be in.
pub open spec fn phase_ok(phase: WatchPhase) -> bool {
    match phase {
        WatchPhase::Reloading { attempt } => 1 <= attempt <= MAX_RELOAD_RETRIES,
        WatchPhase::RetryWait { attempt } => 1 <= attempt < MAX_RELOAD_RETRIES,
        _ => true,
    }
}

/// The positions, in order, of the first `n` handlers that are enabled in `cfg`.
pub open spec fn enabled_positions(hs: Seq<ChangeHandler>, cfg: Config, n: nat) -> Seq<usize>
    decreases n,
{
    if n == 0 {
        Seq::empty()
    } else {
        let p = enabled_positions(hs, cfg, (n - 1) as nat);
        if hs[n - 1].enabled_in(cfg) {
            p.push((n - 1) as usize)
        } else {
            p
        }
    }
}

/// Watches the configuration file and decides, event by event, when to
/// reload it and which change handlers to run.
pub struct ConfigFileWatcher {
    handlers: Vec<ChangeHandler>,
    phase: WatchPhase,
    last_config_hash: Option<String>,
}

impl ConfigFileWatcher {
    pub closed spec fn handler_list(&self) -> Seq<ChangeHandler> {
        self.handlers@
    }

    pub closed spec fn phase_of(&self) -> WatchPhase {
        self.phase
    }

    pub closed spec fn last_hash(&self) -> Option<Seq<char>> {
        match self.last_config_hash {
            Some(h) => Some(h@),
            None => None,
        }
    }

    pub closed spec fn wf(&self) -> bool {
        phase_ok(self.phase)
    }

    /// An idle watcher with the given handlers, in registration order, that
    /// has accepted no content yet.
    pub fn new(handlers: Vec<ChangeHandler>) -> (r: ConfigFileWatcher)
        ensures
            r.wf(),
            r.handler_list() == handlers@,
            r.phase_of() == WatchPhase::Idle,
            r.last_hash() is None,
    {
        ConfigFileWatcher { handlers, phase: WatchPhase::Idle, last_config_hash: None }
    }

    /// An idle watcher that has already accepted the content whose hash is
    /// `hash`, such as the configuration loaded at startup: a reload that
    /// finds the same bytes runs no handler.
    pub fn with_accepted_hash(handlers: Vec<ChangeHandler>, hash: String) -> (r: ConfigFileWatcher)
        ensures
            r.wf(),
            r.handler_list() == handlers@,
            r.phase_of() == WatchPhase::Idle,
            r.last_hash() == Some(hash@),
    {
        ConfigFileWatcher { handlers, phase: WatchPhase::Idle, last_config_hash: Some(hash) }
    }

    pub fn name(&self) -> (r: &'static str)
        ensures
            r@ == "ConfigFileWatcher"@,
    {
        "ConfigFileWatcher"
    }

    pub fn phase(&self) -> (r: WatchPhase)
        ensures
            r == self.phase_of(),
    {
        self.phase
    }

    /// Takes one event and says what to do next.
    pub fn step(&mut self, ev: WatchEvent) -> (r: WatchAction)
        requires
            old(self).wf(),
        ensures
            final(self).wf(),
            final(self).handler_list() == old(self).handler_list(),
            (final(self).phase_of(), final(self).last_hash(), r) == step_spec(old(self).phase_of(), old(self).last_hash(), ev),
    {
        match (self.phase, ev) {
            (WatchPhase::Idle, WatchEvent::FileChanged { kind, names_config }) => {
                if names_config && is_relevant_event(kind) {
                    self.phase = WatchPhase::Debouncing;
                    WatchAction::WaitQuietPeriod { millis: QUIET_PERIOD_MS }
                } else {
                    WatchAction::Ignore
                }
            },
            (WatchPhase::Debouncing, WatchEvent::QuietPeriodOver) => {
                self.phase = WatchPhase::Reloading { attempt: 1 };
                WatchAction::LoadConfig
            },
            (WatchPhase::Reloading { attempt }, WatchEvent::Loaded { hash }) => {
                self.phase = WatchPhase::Idle;
                let same = match &self.last_config_hash {
                    Some(h) => *h == hash,
                    None => false,
                };
                if same {
                    WatchAction::SkipUnchanged
                } else {
                    self.last_config_hash = Some(hash);
                    WatchAction::ApplyChange
                }
            },
            (WatchPhase::Reloading { attempt }, WatchEvent::LoadFailed) => {
                if attempt < MAX_RELOAD_RETRIES {
                    self.phase = WatchPhase::RetryWait { attempt };
                    WatchAction::WaitRetryDelay { millis: RELOAD_RETRY_DELAY_MS }
                } else {
                    self.phase = WatchPhase::Idle;
                    WatchAction::GiveUp
                }
            },
            (WatchPhase::RetryWait { attempt }, WatchEvent::RetryDelayOver) => {
                self.phase = WatchPhase::Reloading { attempt: attempt + 1 };
                WatchAction::LoadConfig
            },
            _ => WatchAction::Ignore,
        }
    }

    /// The positions of the registered handlers that are enabled in `new`,
    /// in registration order: the handlers to run, one after another.
    pub fn handlers_to_run(&self, new: &Config) -> (r: Vec<usize>)
        ensures
            r@ == enabled_positions(self.handler_list(), *new, self.handler_list().len()),
            forall|i: int, j: int| 0 <= i < j < r@.len() ==> r@[i] < r@[j],
            forall|k: usize| r@.contains(k) <==> (k < self.handler_list().len() && #[trigger] self.handler_list()[k as int].enabled_in(*new)),
    {
        let mut r: Vec<usize> = Vec::new();
        let mut i: usize = 0;
        while i < self.handlers.len()
            invariant
                i <= self.handlers@.len(),
                forall|a: int| 0 <= a < r@.len() ==> r@[a] < i,
                forall|a: int, b: int| 0 <= a < b < r@.len() ==> r@[a] < r@[b],
                forall|k: usize| r@.contains(k) <==> (k < i && #[trigger] self.handlers@[k as int].enabled_in(*new)),
                r@ == enabled_positions(self.handlers@, *new, i as nat),
            decreases self.handlers@.len() - i,
        {
            if self.handlers[i].is_enabled(new) {
                proof {
                    assert forall|k: usize| r@.push(i).contains(k) <==> (k < i + 1 && #[trigger] self.handlers@[k as int].enabled_in(*new)) by {
                        if k == i {
                            assert(r@.push(i)[r@.len() as int] == i);
                        } else if r@.push(i).contains(k) {
                            let a = choose|a: int| 0 <= a < r@.push(i).len() && r@.push(i)[a] == k;
                            assert(r@.contains(k)) by { assert(r@[a] == k); }
                        } else if k < i && self.handlers@[k as int].enabled_in(*new) {
                            let a = choose|a: int| 0 <= a < r@.len() && r@[a] == k;
                            assert(r@.push(i)[a] == k);
                        }
                    }
                }
                r.push(i);
            }
            i += 1;
        }
        r
    }

    /// The registered handler at a position.
    pub fn handler(&self, i: usize) -> (r: &ChangeHandler)
        requires
            i < self.handler_list().len(),
        ensures
            *r == self.handler_list()[i as int],
    {
        &self.handlers[i]
    }
}

/// The actions that a run of events asks for, one per event.
pub open spec fn actions_of(phase: WatchPhase, last: Option<Seq<char>>, evs: Seq<WatchEvent>) -> Seq<WatchAction>
    decreases evs.len(),
{
    if evs.len() == 0 {
        Seq::empty()
    } else {
        let (p, l, a) = step_spec(phase, last, evs[0]);
        seq![a] + actions_of(p, l, evs.drop_first())
    }
}

/// Accepting loaded content records its hash, whatever was accepted before.
pub proof fn lemma_accepted_hash_is_recorded(attempt: usize, last: Option<Seq<char>>, hash: String)
    ensures
        step_spec(WatchPhase::Reloading { attempt }, last, WatchEvent::Loaded { hash }).1 == Some(hash@),
        step_spec(WatchPhase::Reloading { attempt }, last, WatchEvent::Loaded { hash }).2 is ApplyChange
            <==> last != Some(hash@),
{
}

/// No-op detection: once content with hash `h` has been accepted, any run of
/// events in which every load yields that same content (the file touched,
/// rewritten byte for byte, retried) never asks to apply a change, so no
/// change handler runs.
pub proof fn lemma_unchanged_content_runs_no_handler(phase: WatchPhase, h: Seq<char>, evs: Seq<WatchEvent>)
    requires
        forall|i: int| 0 <= i < evs.len() ==> (#[trigger] evs[i] matches WatchEvent::Loaded { hash } ==> hash@ == h),
    ensures
        actions_of(phase, Some(h), evs).len() == evs.len(),
        forall|i: int| 0 <= i < evs.len() ==> !(#[trigger] actions_of(phase, Some(h), evs)[i] is ApplyChange),
    decreases evs.len(),
{
    if evs.len() > 0 {
        let (p, l, a) = step_spec(phase, Some(h), evs[0]);
        assert(l == Some(h));
        assert(!(a is ApplyChange));
        let rest = evs.drop_first();
        assert forall|i: int| 0 <= i < rest.len() implies (#[trigger] rest[i] matches WatchEvent::Loaded { hash } ==> hash@ == h) by {
            assert(rest[i] == evs[i + 1]);
        }
        lemma_unchanged_content_runs_no_handler(p, h, rest);
        let all = actions_of(phase, Some(h), evs);
        assert(all == seq![a] + actions_of(p, l, rest));
        assert forall|i: int| 0 <= i < evs.len() implies !(#[trigger] all[i] is ApplyChange) by {
            if i > 0 {
                assert(all[i] == actions_of(p, l, rest)[i - 1]);
            }
        }
    }
}

} // verus!
