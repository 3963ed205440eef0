use vstd::prelude::*;

use crate::messaging::message::{
    empty_message, same_situation, Message, MessageView, Severity,
};
use crate::probes::https::Https;
use crate::probes::ping::Ping;

verus! {

/// Seconds of pause between two sweeps over the probes, when none is configured.
pub const DEFAULT_DELAY: u64 = 600;

/// Wait before the first sweep, in seconds, when none is configured.
pub const DEFAULT_DELAY_AT_STARTUP: u64 = 30;

/// Cycles between two repeated notifications of an unchanged error.
pub const DEFAULT_ERROR_REPEAT_PERIOD: u64 = 6;

/// Cycles between two repeated notifications of an unchanged warning.
pub const DEFAULT_WARNING_REPEAT_PERIOD: u64 = 144;

/// The scalar settings of the daemon.
#[derive(Debug, Clone, Copy, PartialEq, Eq, Structural)]
pub struct Settings {
    pub delay: u64,
    pub delay_at_startup: u64,
    pub error_repeat_period: u64,
    pub warning_repeat_period: u64,
    pub debug: bool,
}

impl Settings {
    /// Settings from the configured values, each missing one taking its default.
    pub fn with_defaults(
        delay: Option<u64>,
        delay_at_startup: Option<u64>,
        error_repeat_period: Option<u64>,
        warning_repeat_period: Option<u64>,
        debug: Option<bool>,
    ) -> (r: Settings)
        ensures
            r.delay == (match delay {
                Some(v) => v,
                None => DEFAULT_DELAY,
            }),
            r.delay_at_startup == (match delay_at_startup {
                Some(v) => v,
                None => DEFAULT_DELAY_AT_STARTUP,
            }),
            r.error_repeat_period == (match error_repeat_period {
                Some(v) => v,
                None => DEFAULT_ERROR_REPEAT_PERIOD,
            }),
            r.warning_repeat_period == (match warning_repeat_period {
                Some(v) => v,
                None => DEFAULT_WARNING_REPEAT_PERIOD,
            }),
            r.debug == (match debug {
                Some(v) => v,
                None => false,
            }),
    {
        Settings {
            delay: match delay {
                Some(v) => v,
                None => DEFAULT_DELAY,
            },
            delay_at_startup: match delay_at_startup {
                Some(v) => v,
                None => DEFAULT_DELAY_AT_STARTUP,
            },
            error_repeat_period: match error_repeat_period {
                Some(v) => v,
                None => DEFAULT_ERROR_REPEAT_PERIOD,
            },
            warning_repeat_period: match warning_repeat_period {
                Some(v) => v,
                None => DEFAULT_WARNING_REPEAT_PERIOD,
            },
            debug: match debug {
                Some(v) => v,
                None => false,
            },
        }
    }
}

/// What is remembered of one probe from one cycle to the next.
pub struct ProbeState {
    pub last_message: Message,
    pub repeat_counter: u64,
}

pub struct ProbeStateView {
    pub last: MessageView,
    pub counter: u64,
}

impl View for ProbeState {
    type V = ProbeStateView;

    open spec fn view(&self) -> ProbeStateView {
        ProbeStateView { last: self.last_message@, counter: self.repeat_counter }
    }
}

/// The state of a probe that has not reported anything yet.
pub open spec fn initial_state() -> ProbeStateView {
    ProbeStateView { last: empty_message(), counter: 0 }
}

/// The counter one cycle later; it stays put at its largest value.
pub open spec fn next_counter(c: u64) -> u64 {
    if c < u64::MAX {
        (c + 1) as u64
    } else {
        c
    }
}

/// The number of unchanged cycles after which a message of this severity is sent again.
pub open spec fn repeat_period(m: MessageView, error_repeat_period: u64, warning_repeat_period: u64) -> u64 {
    if m.severity == Severity::Error {
        error_repeat_period
    } else {
        warning_repeat_period
    }
}

/// One decision of the notification policy: the next state of the probe, and
/// whether `m` is to be sent.
pub open spec fn policy_step(
    s: ProbeStateView,
    m: MessageView,
    error_repeat_period: u64,
    warning_repeat_period: u64,
) -> (ProbeStateView, bool) {
    if m.severity == Severity::Info {
        (s, false)
    } else if !same_situation(m, s.last) {
        (ProbeStateView { last: m, counter: 0 }, true)
    } else {
        (
            ProbeStateView { last: s.last, counter: next_counter(s.counter) },
            s.counter >= repeat_period(m, error_repeat_period, warning_repeat_period),
        )
    }
}

/// The state of a probe after it has reported each message of `ms` in turn.
pub open spec fn policy_run(
    s: ProbeStateView,
    ms: Seq<MessageView>,
    error_repeat_period: u64,
    warning_repeat_period: u64,
) -> ProbeStateView
    decreases ms.len(),
{
    if ms.len() == 0 {
        s
    } else {
        policy_step(
            policy_run(s, ms.drop_last(), error_repeat_period, warning_repeat_period),
            ms.last(),
            error_repeat_period,
            warning_repeat_period,
        ).0
    }
}

/// Whether the `j`-th message of `ms` is sent.
pub open spec fn notified_at(
    s: ProbeStateView,
    ms: Seq<MessageView>,
    error_repeat_period: u64,
    warning_repeat_period: u64,
    j: int,
) -> bool {
    policy_step(
        policy_run(s, ms.take(j), error_repeat_period, warning_repeat_period),
        ms[j],
        error_repeat_period,
        warning_repeat_period,
    ).1
}

impl ProbeState {
    pub fn new() -> (r: ProbeState)
        ensures
            r@ == initial_state(),
    {
        ProbeState { last_message: Message::new(), repeat_counter: 0 }
    }

    /// Applies the notification policy to a fresh message of this probe;
    /// returns whether the message is to be sent.
    pub fn observe(
        &mut self,
        message: &Message,
        error_repeat_period: u64,
        warning_repeat_period: u64,
    ) -> (emit: bool)
        ensures
            (final(self)@, emit) == policy_step(
                old(self)@,
                message@,
                error_repeat_period,
                warning_repeat_period,
            ),
    {
        if message.severity == Severity::Info {
            return false;
        }
        if !(*message == self.last_message) {
            self.repeat_counter = 0;
            self.last_message = message.clone();
            true
        } else {
            let threshold = if message.severity == Severity::Error {
                error_repeat_period
            } else {
                warning_repeat_period
            };
            let emit = self.repeat_counter >= threshold;
            self.repeat_counter = self.repeat_counter.saturating_add(1);
            emit
        }
    }
}


/// The configured probe of one service.
pub enum ProbeSpec {
    Ping(Ping),
    Https(Https),
}

/// What becomes of a fresh message.
#[derive(Debug, Clone, Copy, PartialEq, Eq, Structural)]
pub enum Verdict {
    /// Nothing is sent.
    Skip,
    /// The message is handed to the notifier.
    Notify,
    /// Debug mode: the message is shown, and no notification is considered.
    Show,
}

/// The probes of the daemon, their states, kept index by index, and its settings.
pub struct Daemon {
    pub settings: Settings,
    probes: Vec<ProbeSpec>,
    states: Vec<ProbeState>,
}

pub struct DaemonView {
    pub settings: Settings,
    pub states: Seq<ProbeStateView>,
}

impl View for Daemon {
    type V = DaemonView;

    closed spec fn view(&self) -> DaemonView {
        DaemonView {
            settings: self.settings,
            states: self.states@.map_values(|st: ProbeState| st@),
        }
    }
}

/// One decision of the daemon on the fresh message `m` of probe `i`.
pub open spec fn daemon_step(d: DaemonView, i: int, m: MessageView) -> (DaemonView, Verdict) {
    if d.settings.debug {
        (d, Verdict::Show)
    } else {
        let (next, emit) = policy_step(
            d.states[i],
            m,
            d.settings.error_repeat_period,
            d.settings.warning_repeat_period,
        );
        (
            DaemonView { settings: d.settings, states: d.states.update(i, next) },
            if emit {
                Verdict::Notify
            } else {
                Verdict::Skip
            },
        )
    }
}

/// The daemon after each event of `events`, a probe index and its message, in turn.
pub open spec fn daemon_run(d: DaemonView, events: Seq<(int, MessageView)>) -> DaemonView
    decreases events.len(),
{
    if events.len() == 0 {
        d
    } else {
        daemon_step(daemon_run(d, events.drop_last()), events.last().0, events.last().1).0
    }
}

/// The verdict on the `j`-th event of `events`.
pub open spec fn verdict_at(d: DaemonView, events: Seq<(int, MessageView)>, j: int) -> Verdict {
    daemon_step(daemon_run(d, events.take(j)), events[j].0, events[j].1).1
}

/// One pass over the probes: the message of probe `j` is the `j`-th event.
pub open spec fn pass_events(ms: Seq<MessageView>) -> Seq<(int, MessageView)> {
    Seq::new(ms.len(), |j: int| (j, ms[j]))
}

impl Daemon {
    /// The states and the probes are aligned index by index.
    pub closed spec fn wf(&self) -> bool {
        self.states@.len() == self.probes@.len()
    }

    /// The configured probes, in order.
    pub closed spec fn probe_list(&self) -> Seq<ProbeSpec> {
        self.probes@
    }

    /// A daemon with one fresh state for each probe.
    pub fn new(settings: Settings, probes: Vec<ProbeSpec>) -> (r: Daemon)
        ensures
            r.wf(),
            r.probe_list() == probes@,
            r@.settings == settings,
            r@.states == Seq::new(probes@.len(), |i: int| initial_state()),
    {
        let mut states: Vec<ProbeState> = Vec::new();
        let mut i: usize = 0;
        while i < probes.len()
            invariant
                i <= probes@.len(),
                states@.len() == i,
                forall|j: int| 0 <= j < i ==> (#[trigger] states@[j])@ == initial_state(),
            decreases probes@.len() - i,
        {
            states.push(ProbeState::new());
            i = i + 1;
        }
        let r = Daemon { settings, probes, states };
        assert(r@.states =~= Seq::new(probes@.len(), |i: int| initial_state()));
        r
    }

    pub fn probes(&self) -> (r: &Vec<ProbeSpec>)
        ensures
            r@ == self.probe_list(),
    {
        &self.probes
    }

    pub fn n_probes(&self) -> (r: usize)
        requires
            self.wf(),
        ensures
            r == self.probe_list().len(),
            r == self@.states.len(),
    {
        self.probes.len()
    }

    /// Decides what becomes of the fresh message of probe `i`, and updates the
    /// state of that probe.
    pub fn observe(&mut self, i: usize, message: &Message) -> (v: Verdict)
        requires
            old(self).wf(),
            i < old(self)@.states.len(),
        ensures
            final(self).wf(),
            final(self).probe_list() == old(self).probe_list(),
            (final(self)@, v) == daemon_step(old(self)@, i as int, message@),
    {
        if self.settings.debug {
            return Verdict::Show;
        }
        let emit = self.states[i].observe(
            message,
            self.settings.error_repeat_period,
            self.settings.warning_repeat_period,
        );
        assert(self@.states =~= old(self)@.states.update(
            i as int,
            policy_step(
                old(self)@.states[i as int],
                message@,
                self.settings.error_repeat_period,
                self.settings.warning_repeat_period,
            ).0,
        ));
        if emit {
            Verdict::Notify
        } else {
            Verdict::Skip
        }
    }

    /// Decides, probe by probe in order, what becomes of the messages of one
    /// pass, `messages[j]` being the fresh message of probe `j`.
    pub fn sweep(&mut self, messages: &Vec<Message>) -> (verdicts: Vec<Verdict>)
        requires
            old(self).wf(),
            messages@.len() == old(self)@.states.len(),
        ensures
            final(self).wf(),
            final(self).probe_list() == old(self).probe_list(),
            final(self)@ == daemon_run(
                old(self)@,
                pass_events(messages@.map_values(|m: Message| m@)),
            ),
            verdicts@.len() == messages@.len(),
            forall|j: int|
                0 <= j < messages@.len() ==> verdicts@[j] == verdict_at(
                    old(self)@,
                    pass_events(messages@.map_values(|m: Message| m@)),
                    j,
                ),
    {
        let ghost events = pass_events(messages@.map_values(|m: Message| m@));
        let mut verdicts: Vec<Verdict> = Vec::new();
        let mut i: usize = 0;
        proof {
            assert(events.take(0).len() == 0);
        }
        while i < messages.len()
            invariant
                i <= messages@.len(),
                messages@.len() == old(self)@.states.len(),
                events == pass_events(messages@.map_values(|m: Message| m@)),
                self.wf(),
                self.probe_list() == old(self).probe_list(),
                self@ == daemon_run(old(self)@, events.take(i as int)),
                self@.states.len() == old(self)@.states.len(),
                verdicts@.len() == i,
                forall|j: int|
                    0 <= j < i ==> verdicts@[j] == verdict_at(old(self)@, events, j),
            decreases messages@.len() - i,
        {
            assert(events.take(i as int + 1).drop_last() == events.take(i as int));
            let v = self.observe(i, &messages[i]);
            verdicts.push(v);
            i = i + 1;
        }
        assert(events.take(messages@.len() as int) == events);
        verdicts
    }

    /// Whether the pause between two sweeps goes on, after `waited` seconds of
    /// it, while the process is asked to keep `running`.
    pub fn keep_sleeping(&self, waited: u64, running: bool) -> (r: bool)
        ensures
            r == (running && waited < self@.settings.delay),
    {
        running && waited < self.settings.delay
    }
}

/// An informational message is never sent and never changes the state of its
/// probe, whatever that state is: a run of informational messages leaves the
/// state as it found it, and none of them is sent.
pub proof fn info_is_skipped(
    s: ProbeStateView,
    ms: Seq<MessageView>,
    error_repeat_period: u64,
    warning_repeat_period: u64,
)
    requires
        forall|j: int| 0 <= j < ms.len() ==> ms[j].severity == Severity::Info,
    ensures
        policy_run(s, ms, error_repeat_period, warning_repeat_period) == s,
        forall|j: int|
            0 <= j < ms.len() ==> !notified_at(
                s,
                ms,
                error_repeat_period,
                warning_repeat_period,
                j,
            ),
    decreases ms.len(),
{
    if ms.len() > 0 {
        info_is_skipped(s, ms.drop_last(), error_repeat_period, warning_repeat_period);
        assert forall|j: int| 0 <= j < ms.len() implies policy_run(
            s,
            ms.take(j),
            error_repeat_period,
            warning_repeat_period,
        ) == s by {
            info_is_skipped(s, ms.take(j), error_repeat_period, warning_repeat_period);
        }
    }
}

/// When each message of a run differs from the one before it (the first from
/// the message last kept), and none is informational, each one is sent at
/// once, becomes the kept message, and sets the counter back to zero.
pub proof fn each_new_situation_is_sent(
    s: ProbeStateView,
    ms: Seq<MessageView>,
    error_repeat_period: u64,
    warning_repeat_period: u64,
)
    requires
        forall|j: int| 0 <= j < ms.len() ==> ms[j].severity != Severity::Info,
        ms.len() > 0 ==> !same_situation(ms[0], s.last),
        forall|j: int| 0 < j < ms.len() ==> !same_situation(#[trigger] ms[j], ms[j - 1]),
    ensures
        forall|j: int|
            0 <= j < ms.len() ==> notified_at(
                s,
                ms,
                error_repeat_period,
                warning_repeat_period,
                j,
            ),
        forall|j: int|
            0 <= j < ms.len() ==> policy_run(
                s,
                #[trigger] ms.take(j + 1),
                error_repeat_period,
                warning_repeat_period,
            ) == (ProbeStateView { last: ms[j], counter: 0 }),
{
    assert forall|j: int| 0 <= j < ms.len() implies notified_at(
        s,
        ms,
        error_repeat_period,
        warning_repeat_period,
        j,
    ) && policy_run(s, #[trigger] ms.take(j + 1), error_repeat_period, warning_repeat_period)
        == (ProbeStateView { last: ms[j], counter: 0 }) by {
        if j > 0 {
            assert(ms.take(j) == ms.take(j).take((j - 1) + 1));
            assert(ms.take(j).drop_last() == ms.take(j - 1));
        }
        assert(ms.take(j + 1).drop_last() == ms.take(j));
    }
}

/// The message `m`, `k` times over.
pub open spec fn repeated(m: MessageView, k: nat) -> Seq<MessageView> {
    Seq::new(k, |i: int| m)
}

/// A run of `k` identical error messages, the first of which differs from the
/// message last kept: the first is sent at once; after it, the message of the
/// cycle whose counter (before its increment) has reached the error period is
/// sent, and no other. The counter then counts the repeats.
pub proof fn repeated_error_schedule(
    s: ProbeStateView,
    m: MessageView,
    k: nat,
    error_repeat_period: u64,
    warning_repeat_period: u64,
)
    requires
        m.severity == Severity::Error,
        !same_situation(m, s.last),
        1 <= k <= u64::MAX,
    ensures
        notified_at(s, repeated(m, k), error_repeat_period, warning_repeat_period, 0),
        forall|j: int|
            1 <= j < k ==> #[trigger] notified_at(
                s,
                repeated(m, k),
                error_repeat_period,
                warning_repeat_period,
                j,
            ) == (j - 1 >= error_repeat_period),
        forall|j: int|
            1 <= j <= k ==> #[trigger] policy_run(
                s,
                repeated(m, k).take(j),
                error_repeat_period,
                warning_repeat_period,
            ) == (ProbeStateView { last: m, counter: (j - 1) as u64 }),
{
    let ms = repeated(m, k);
    assert forall|j: int| 1 <= j <= k implies #[trigger] policy_run(
        s,
        ms.take(j),
        error_repeat_period,
        warning_repeat_period,
    ) == (ProbeStateView { last: m, counter: (j - 1) as u64 }) by {
        repeated_prefix(s, m, k, j as nat, error_repeat_period, warning_repeat_period);
    }
    assert forall|j: int| 0 <= j < k implies #[trigger] notified_at(
        s,
        ms,
        error_repeat_period,
        warning_repeat_period,
        j,
    ) == (if j == 0 { true } else { j - 1 >= error_repeat_period }) by {
        if j == 0 {
            assert(ms.take(0).len() == 0);
        } else {
            repeated_prefix(s, m, k, j as nat, error_repeat_period, warning_repeat_period);
        }
    }
}

proof fn repeated_prefix(
    s: ProbeStateView,
    m: MessageView,
    k: nat,
    t: nat,
    error_repeat_period: u64,
    warning_repeat_period: u64,
)
    requires
        m.severity == Severity::Error,
        !same_situation(m, s.last),
        1 <= t <= k <= u64::MAX,
    ensures
        policy_run(s, repeated(m, k).take(t as int), error_repeat_period, warning_repeat_period)
            == (ProbeStateView { last: m, counter: (t - 1) as u64 }),
    decreases t,
{
    let ms = repeated(m, k);
    assert(ms.take(t as int).drop_last() == ms.take(t - 1));
    if t == 1 {
        assert(ms.take(0).len() == 0);
    } else {
        repeated_prefix(s, m, k, (t - 1) as nat, error_repeat_period, warning_repeat_period);
    }
}


/// In debug mode the daemon never notifies: every message is shown, and no
/// state changes, however many messages of whatever severity come in.
pub proof fn debug_never_notifies(d: DaemonView, events: Seq<(int, MessageView)>)
    requires
        d.settings.debug,
    ensures
        daemon_run(d, events) == d,
        forall|j: int| 0 <= j < events.len() ==> verdict_at(d, events, j) == Verdict::Show,
    decreases events.len(),
{
    if events.len() > 0 {
        debug_never_notifies(d, events.drop_last());
        assert forall|j: int| 0 <= j < events.len() implies verdict_at(d, events, j)
            == Verdict::Show by {
            debug_never_notifies(d, events.take(j));
        }
    }
}

} // verus!
