//! The decisions of the emulator supervisor.
//!
//! The supervisor owns the lifecycle of one emulator subprocess: it validates
//! start arguments, composes the command line, follows the readiness
//! handshake, escalates termination from SIGTERM to SIGKILL, and keeps the
//! device state. Spawning, signalling, sleeping and socket work are done by
//! the caller, which reports each outcome back as an event.
use vstd::prelude::*;

verus! {

/// How many times a readiness or liveness poll is repeated before giving up.
pub const MAX_RETRY: usize = 3;

/// The power state of the supervised device.
#[derive(PartialEq, Eq, Structural, Clone, Copy, Debug)]
pub enum EmuState {
    Off,
    On,
    Busy,
    Error,
}

/// The value of one emulator argument.
#[derive(Clone, Debug)]
pub enum EmuValue {
    Empty,
    String(String),
    FilePath(String),
    StringList(Vec<String>),
    FilePathList(Vec<String>),
}

/// The errors of the supervisor.
#[derive(Debug)]
pub enum EmuError {
    RuntimeError(String),
    StartFailureCause(String),
    StopFailureCause(String),
    InvalidArgumentName(String),
    AlreadyRunning,
    AlreadyOff,
    TransientBusy,
}

/// Keys that collide with the flags the supervisor sets itself.
pub open spec fn is_forbidden_key(k: Seq<char>) -> bool {
    k == "p"@ || k == "path"@ || k == "s"@ || k == "stdio"@ || k == "control_socket"@
}

/// Keys a caller may set.
pub open spec fn is_allowed_key(k: Seq<char>) -> bool {
    k == "flash"@ || k == "apps"@ || k == "version_state"@ || k == "pmu_state"@
}

pub open spec fn is_accepted_key(k: Seq<char>) -> bool {
    !is_forbidden_key(k) && is_allowed_key(k)
}

/// The keys of an argument list.
pub open spec fn key_set(args: Seq<(String, EmuValue)>) -> Set<Seq<char>> {
    Set::new(|k: Seq<char>| exists|i: int| 0 <= i < args.len() && #[trigger] args[i].0@ == k)
}

/// No key occurs twice.
pub open spec fn keys_unique(args: Seq<(String, EmuValue)>) -> bool {
    forall|i: int, j: int|
        0 <= i < args.len() && 0 <= j < args.len() && i != j ==> #[trigger] args[i].0@
            != #[trigger] args[j].0@
}

/// `path` joined with one more component.
pub open spec fn join_path(dir: Seq<char>, name: Seq<char>) -> Seq<char> {
    dir + "/"@ + name
}

/// The decimal digits of `n`, most significant first.
pub open spec fn decimal_digits(n: nat) -> Seq<char>
    decreases n,
{
    if n < 10 {
        seq![digit_char(n)]
    } else {
        decimal_digits(n / 10) + seq![digit_char(n % 10)]
    }
}

pub open spec fn digit_char(d: nat) -> char {
    if d == 0 {
        '0'
    } else if d == 1 {
        '1'
    } else if d == 2 {
        '2'
    } else if d == 3 {
        '3'
    } else if d == 4 {
        '4'
    } else if d == 5 {
        '5'
    } else if d == 6 {
        '6'
    } else if d == 7 {
        '7'
    } else if d == 8 {
        '8'
    } else {
        '9'
    }
}

/// The text of one decimal digit.
fn digit_text(d: u128) -> (r: &'static str)
    requires
        d < 10,
    ensures
        r@ == seq![digit_char(d as nat)],
{
    proof {
        reveal_strlit("0");
        reveal_strlit("1");
        reveal_strlit("2");
        reveal_strlit("3");
        reveal_strlit("4");
        reveal_strlit("5");
        reveal_strlit("6");
        reveal_strlit("7");
        reveal_strlit("8");
        reveal_strlit("9");
    }
    if d == 0 {
        "0"
    } else if d == 1 {
        "1"
    } else if d == 2 {
        "2"
    } else if d == 3 {
        "3"
    } else if d == 4 {
        "4"
    } else if d == 5 {
        "5"
    } else if d == 6 {
        "6"
    } else if d == 7 {
        "7"
    } else if d == 8 {
        "8"
    } else {
        "9"
    }
}

/// The decimal form of `n`.
pub fn decimal(n: u128) -> (r: String)
    ensures
        r@ == decimal_digits(n as nat),
    decreases n,
{
    if n < 10 {
        let r = digit_text(n).to_owned();
        assert(r@ =~= decimal_digits(n as nat));
        r
    } else {
        let mut r = decimal(n / 10);
        r.append(digit_text(n % 10));
        r
    }
}

/// Where `exe` lies when found from `dir`: `exe` itself when it is
/// absolute or `dir` is empty, otherwise `exe` under `dir`, with one
/// separator between them.
pub open spec fn program_path(dir: Seq<char>, exe: Seq<char>) -> Seq<char> {
    if exe.len() > 0 && exe[0] == '/' {
        exe
    } else if dir.len() == 0 {
        exe
    } else if dir.last() == '/' {
        dir + exe
    } else {
        dir + "/"@ + exe
    }
}

/// The path of the program `exe` found from `dir`.
pub fn program_path_of(dir: &String, exe: &String) -> (r: String)
    ensures
        r@ == program_path(dir@, exe@),
{
    let d = dir.as_str();
    let e = exe.as_str();
    let dn = d.unicode_len();
    let en = e.unicode_len();
    if (en > 0 && e.get_char(0) == '/') || dn == 0 {
        return exe.clone();
    }
    let mut r = dir.clone();
    if d.get_char(dn - 1) != '/' {
        r.append("/");
    }
    r.append(e);
    r
}

/// The name of an instance: `<prefix>_<pid>_<seconds>_<nanoseconds>`.
pub open spec fn instance_name_of(prefix: Seq<char>, pid: nat, secs: nat, nanos: nat) -> Seq<char> {
    prefix + "_"@ + decimal_digits(pid) + "_"@ + decimal_digits(secs) + "_"@ + decimal_digits(nanos)
}

/// Items joined with commas.
pub open spec fn comma_joined(items: Seq<Seq<char>>) -> Seq<char>
    decreases items.len(),
{
    if items.len() == 0 {
        Seq::empty()
    } else if items.len() == 1 {
        items[0]
    } else {
        comma_joined(items.drop_last()) + ","@ + items.last()
    }
}

pub open spec fn string_views(items: Seq<String>) -> Seq<Seq<char>> {
    items.map_values(|s: String| s@)
}

/// The command-line argument for one entry: `--key`, `--key value` or
/// `--key v1,v2,...`.
pub open spec fn argument_word(key: Seq<char>, value: EmuValue) -> Seq<char> {
    let flag = "--"@ + key;
    match value {
        EmuValue::Empty => flag,
        EmuValue::String(s) => flag + " "@ + s@,
        EmuValue::FilePath(s) => flag + " "@ + s@,
        EmuValue::StringList(l) => flag + " "@ + comma_joined(string_views(l@)),
        EmuValue::FilePathList(l) => flag + " "@ + comma_joined(string_views(l@)),
    }
}

/// The command line for an argument list: one argument per entry, in order.
pub open spec fn command_line(args: Seq<(String, EmuValue)>) -> Seq<Seq<char>> {
    args.map_values(|e: (String, EmuValue)| argument_word(e.0@, e.1))
}

/// What the caller learnt from a non-blocking wait on the subprocess.
#[derive(PartialEq, Eq, Structural, Clone, Copy, Debug)]
pub enum ExitProbe {
    Running,
    Exited { success: bool },
    Failed,
}

/// What the caller learnt from one poll of the control listener.
#[derive(Debug)]
pub enum AcceptEvent {
    /// A peer connected and sent these first bytes.
    Connected(Vec<u8>),
    /// No peer is waiting yet.
    WouldBlock,
    /// Accepting or reading failed.
    Failed,
}

/// What to do after one poll of the control listener.
#[derive(PartialEq, Eq, Structural, Clone, Copy, Debug)]
pub enum StartupStep {
    Ready,
    Wait,
    Failed,
    TimedOut,
}

/// What the caller learnt from probing whether the subprocess still exists.
#[derive(PartialEq, Eq, Structural, Clone, Copy, Debug)]
pub enum Liveness {
    Alive,
    Gone,
    Unknown,
}

/// Why a stop did not succeed.
#[derive(PartialEq, Eq, Structural, Clone, Copy, Debug)]
pub enum StopFailure {
    ProbeFailed,
    SignalFailed,
    StillAlive,
}

/// What to do after one liveness probe.
#[derive(PartialEq, Eq, Structural, Clone, Copy, Debug)]
pub enum StopStep {
    /// Wait one period and probe again.
    Probe,
    /// Send SIGKILL, wait one period and probe again.
    Kill,
    /// The process is gone.
    Stopped,
    Abort(StopFailure),
}

/// The readiness token: the bytes of `READY`.
pub open spec fn ready_token() -> Seq<u8> {
    seq![82u8, 69u8, 65u8, 68u8, 89u8]
}

pub open spec fn starts_with_ready(bytes: Seq<u8>) -> bool {
    bytes.len() >= 5 && bytes.subrange(0, 5) == ready_token()
}

/// Tells whether the first bytes read from a peer are the readiness token.
pub fn is_ready_token(bytes: &Vec<u8>) -> (r: bool)
    ensures
        r == starts_with_ready(bytes@),
{
    if bytes.len() < 5 {
        return false;
    }
    let r = bytes[0] == 82u8 && bytes[1] == 69u8 && bytes[2] == 65u8 && bytes[3] == 68u8 && bytes[4]
        == 89u8;
    assert(r == (bytes@.subrange(0, 5) =~= ready_token()));
    r
}

/// Follows the polls of the control listener after a spawn.
#[derive(Debug)]
pub struct ReadinessWatch {
    pub attempts: usize,
}

/// One poll of the readiness handshake: the watch after it and what to do.
pub open spec fn readiness_step(attempts: nat, connected_ready: bool, failed: bool) -> (
    nat,
    StartupStep,
) {
    if connected_ready {
        (attempts, StartupStep::Ready)
    } else if failed {
        (attempts, StartupStep::Failed)
    } else if attempts + 1 >= MAX_RETRY {
        (attempts + 1, StartupStep::TimedOut)
    } else {
        (attempts + 1, StartupStep::Wait)
    }
}

impl ReadinessWatch {
    pub fn new() -> (r: ReadinessWatch)
        ensures
            r.attempts == 0,
    {
        ReadinessWatch { attempts: 0 }
    }

    /// Decides what follows one poll of the control listener. A peer whose
    /// first bytes are `READY` ends the handshake; a failure aborts it; any
    /// other poll uses one attempt of the retry budget.
    pub fn on_accept(&mut self, event: &AcceptEvent) -> (r: StartupStep)
        requires
            old(self).attempts < MAX_RETRY,
        ensures
            (final(self).attempts as nat, r) == readiness_step(
                old(self).attempts as nat,
                event is Connected && starts_with_ready(event->Connected_0@),
                event is Failed,
            ),
            r == StartupStep::Wait ==> final(self).attempts < MAX_RETRY,
    {
        match event {
            AcceptEvent::Connected(bytes) => {
                if is_ready_token(bytes) {
                    return StartupStep::Ready;
                }
            },
            AcceptEvent::Failed => {
                return StartupStep::Failed;
            },
            AcceptEvent::WouldBlock => {},
        }
        self.attempts = self.attempts + 1;
        if self.attempts >= MAX_RETRY {
            StartupStep::TimedOut
        } else {
            StartupStep::Wait
        }
    }
}

/// Follows the termination of a subprocess: graceful probes, then SIGKILL.
#[derive(PartialEq, Eq, Structural, Clone, Copy, Debug)]
pub struct TerminationWatch {
    pub polls: usize,
    pub killed: bool,
}

/// One liveness probe during termination: the watch after it and what to do.
pub open spec fn termination_step(w: TerminationWatch, probe: Liveness) -> (TerminationWatch, StopStep) {
    match probe {
        Liveness::Gone => (w, StopStep::Stopped),
        Liveness::Unknown => (
            w,
            StopStep::Abort(if w.killed { StopFailure::StillAlive } else { StopFailure::ProbeFailed }),
        ),
        Liveness::Alive => if w.killed {
            (w, StopStep::Abort(StopFailure::StillAlive))
        } else if w.polls + 1 < MAX_RETRY {
            (TerminationWatch { polls: (w.polls + 1) as usize, killed: false }, StopStep::Probe)
        } else {
            (TerminationWatch { polls: (w.polls + 1) as usize, killed: true }, StopStep::Kill)
        },
    }
}

/// The steps taken for a sequence of probes, and the watch after them.
pub open spec fn termination_run(w: TerminationWatch, probes: Seq<Liveness>) -> (
    TerminationWatch,
    Seq<StopStep>,
)
    decreases probes.len(),
{
    if probes.len() == 0 {
        (w, Seq::empty())
    } else {
        let (w1, steps) = termination_run(w, probes.drop_last());
        let (w2, s) = termination_step(w1, probes.last());
        (w2, steps.push(s))
    }
}

impl TerminationWatch {
    /// The graceful budget is only spent once SIGKILL was decided.
    pub open spec fn wf(&self) -> bool {
        self.polls <= MAX_RETRY && (self.polls == MAX_RETRY ==> self.killed)
    }

    pub open spec fn fresh() -> TerminationWatch {
        TerminationWatch { polls: 0, killed: false }
    }

    pub fn new() -> (r: TerminationWatch)
        ensures
            r == TerminationWatch::fresh(),
            r.wf(),
    {
        TerminationWatch { polls: 0, killed: false }
    }

    /// Decides what follows one liveness probe, after SIGTERM was sent.
    /// A process still alive after the graceful budget is to get SIGKILL;
    /// one still alive after that is a failure.
    pub fn on_probe(&mut self, probe: Liveness) -> (r: StopStep)
        requires
            old(self).wf(),
        ensures
            (*final(self), r) == termination_step(*old(self), probe),
            final(self).wf(),
    {
        match probe {
            Liveness::Gone => StopStep::Stopped,
            Liveness::Unknown => {
                if self.killed {
                    StopStep::Abort(StopFailure::StillAlive)
                } else {
                    StopStep::Abort(StopFailure::ProbeFailed)
                }
            },
            Liveness::Alive => {
                if self.killed {
                    StopStep::Abort(StopFailure::StillAlive)
                } else if self.polls + 1 < MAX_RETRY {
                    self.polls = self.polls + 1;
                    StopStep::Probe
                } else {
                    self.polls = self.polls + 1;
                    self.killed = true;
                    StopStep::Kill
                }
            },
        }
    }
}

/// A subprocess that ignores SIGTERM is sent SIGKILL exactly when the
/// graceful retry budget is spent; the probe after SIGKILL then decides: a
/// process gone means the stop succeeded, any other answer means it failed.
pub proof fn lemma_termination_escalates(after_kill: Liveness)
    ensures
        ({
            let probes = seq![Liveness::Alive, Liveness::Alive, Liveness::Alive, after_kill];
            let steps = termination_run(TerminationWatch::fresh(), probes).1;
            &&& steps.len() == 4
            &&& steps[0] == StopStep::Probe
            &&& steps[1] == StopStep::Probe
            &&& steps[2] == StopStep::Kill
            &&& (after_kill == Liveness::Gone <==> steps[3] == StopStep::Stopped)
            &&& (after_kill != Liveness::Gone ==> steps[3] == StopStep::Abort(
                StopFailure::StillAlive,
            ))
        }),
{
    let probes = seq![Liveness::Alive, Liveness::Alive, Liveness::Alive, after_kill];
    reveal_with_fuel(termination_run, 5);
    assert(probes.drop_last() =~= seq![Liveness::Alive, Liveness::Alive, Liveness::Alive]);
    assert(probes.drop_last().drop_last() =~= seq![Liveness::Alive, Liveness::Alive]);
    assert(probes.drop_last().drop_last().drop_last() =~= seq![Liveness::Alive]);
    assert(probes.drop_last().drop_last().drop_last().drop_last() =~= Seq::<Liveness>::empty());
}

/// Tells whether `s` holds the text `lit`.
pub fn text_is(s: &String, lit: &str) -> (r: bool)
    ensures
        r == (s@ == lit@),
{
    let owned = lit.to_owned();
    *s == owned
}

/// Tells whether a caller may set the argument `key`.
pub fn is_accepted_key_name(key: &String) -> (r: bool)
    ensures
        r == is_accepted_key(key@),
{
    let forbidden = text_is(key, "p") || text_is(key, "path") || text_is(key, "s") || text_is(
        key,
        "stdio",
    ) || text_is(key, "control_socket");
    let allowed = text_is(key, "flash") || text_is(key, "apps") || text_is(key, "version_state")
        || text_is(key, "pmu_state");
    !forbidden && allowed
}

/// The position of the first key that a caller may not set, if any.
pub fn first_rejected_key(args: &Vec<(String, EmuValue)>) -> (r: Option<usize>)
    ensures
        r is None <==> forall|i: int| 0 <= i < args@.len() ==> is_accepted_key(#[trigger] args@[i].0@),
        r is Some ==> ({
            let k = r->Some_0 as int;
            &&& 0 <= k < args@.len()
            &&& !is_accepted_key(args@[k].0@)
            &&& forall|j: int| 0 <= j < k ==> is_accepted_key(#[trigger] args@[j].0@)
        }),
{
    let mut i: usize = 0;
    while i < args.len()
        invariant
            i <= args@.len(),
            forall|j: int| 0 <= j < i ==> is_accepted_key(#[trigger] args@[j].0@),
        decreases args@.len() - i,
    {
        if !is_accepted_key_name(&args[i].0) {
            return Some(i);
        }
        i = i + 1;
    }
    None
}

/// `args` holds `value` under `key`.
pub open spec fn has_arg(args: Seq<(String, EmuValue)>, key: Seq<char>, value: EmuValue) -> bool {
    exists|i: int| 0 <= i < args.len() && args[i].0@ == key && args[i].1 == value
}

/// `args` holds a file path under `key`, whose text is `path`.
pub open spec fn has_path_arg(args: Seq<(String, EmuValue)>, key: Seq<char>, path: Seq<char>) -> bool {
    exists|i: int|
        0 <= i < args.len() && args[i].0@ == key && args[i].1 is FilePath
            && args[i].1->FilePath_0@ == path
}

/// What setting `key` to `value` at position `at` of `before` gives, where
/// `at` is the position of `key` or, when `key` is absent, the end.
proof fn lemma_set_at(
    before: Seq<(String, EmuValue)>,
    after: Seq<(String, EmuValue)>,
    key: String,
    value: EmuValue,
    at: int,
)
    requires
        keys_unique(before),
        0 <= at <= before.len(),
        at < before.len() ==> before[at].0@ == key@ && after == before.update(at, (key, value)),
        at == before.len() ==> (forall|j: int| 0 <= j < before.len() ==> #[trigger] before[j].0@ != key@)
            && after == before.push((key, value)),
    ensures
        keys_unique(after),
        key_set(after) == key_set(before).insert(key@),
        after.len() > 0,
        ({
            let k = choose|i: int| 0 <= i < after.len() && after[i].0@ == key@;
            0 <= k < after.len() && after[k] == (key, value)
        }),
        exists|i: int| 0 <= i < after.len() && after[i] == (key, value),
        forall|k: Seq<char>, v: EmuValue|
            k != key@ && #[trigger] has_arg(before, k, v) ==> has_arg(after, k, v),
        forall|k: Seq<char>, p: Seq<char>|
            k != key@ && #[trigger] has_path_arg(before, k, p) ==> has_path_arg(after, k, p),
{
    assert(after[at] == (key, value));
    assert forall|a: int, b: int|
        0 <= a < after.len() && 0 <= b < after.len() && a != b implies #[trigger] after[a].0@
        != #[trigger] after[b].0@ by {
        if a != at && b != at {
            assert(before[a].0@ != before[b].0@);
        } else if a != at {
            assert(before[a].0@ != key@);
        } else {
            assert(before[b].0@ != key@);
        }
    }
    assert(key_set(after) =~= key_set(before).insert(key@)) by {
        assert forall|k: Seq<char>| #[trigger] key_set(before).insert(key@).contains(k)
            implies key_set(after).contains(k) by {
            if k != key@ {
                let w = choose|w: int| 0 <= w < before.len() && #[trigger] before[w].0@ == k;
                assert(after[w].0@ == k);
            } else {
                assert(after[at].0@ == k);
            }
        }
        assert forall|k: Seq<char>| key_set(after).contains(k)
            implies #[trigger] key_set(before).insert(key@).contains(k) by {
            let w = choose|w: int| 0 <= w < after.len() && #[trigger] after[w].0@ == k;
            if w != at {
                assert(before[w].0@ == k);
            }
        }
    }
    let kk = choose|w: int| 0 <= w < after.len() && after[w].0@ == key@;
    if kk != at {
        assert(after[kk].0@ != after[at].0@);
    }
    assert forall|k: Seq<char>, v: EmuValue|
        k != key@ && #[trigger] has_arg(before, k, v) implies has_arg(after, k, v) by {
        let w = choose|w: int| 0 <= w < before.len() && before[w].0@ == k && before[w].1 == v;
        assert(after[w] == before[w]);
    }
    assert forall|k: Seq<char>, p: Seq<char>|
        k != key@ && #[trigger] has_path_arg(before, k, p) implies has_path_arg(after, k, p) by {
        let w = choose|w: int|
            0 <= w < before.len() && before[w].0@ == k && before[w].1 is FilePath
                && before[w].1->FilePath_0@ == p;
        assert(after[w] == before[w]);
    }
}

/// Sets `key` to `value`, replacing an earlier value of the same key in place.
fn set_arg(args: &mut Vec<(String, EmuValue)>, key: String, value: EmuValue)
    requires
        keys_unique(old(args)@),
    ensures
        keys_unique(final(args)@),
        key_set(final(args)@) == key_set(old(args)@).insert(key@),
        final(args)@.len() > 0,
        ({
            let k = choose|i: int| 0 <= i < final(args)@.len() && final(args)@[i].0@ == key@;
            0 <= k < final(args)@.len() && final(args)@[k] == (key, value)
        }),
        exists|i: int| 0 <= i < final(args)@.len() && final(args)@[i] == (key, value),
        forall|k: Seq<char>, v: EmuValue|
            k != key@ && #[trigger] has_arg(old(args)@, k, v) ==> has_arg(final(args)@, k, v),
        forall|k: Seq<char>, p: Seq<char>|
            k != key@ && #[trigger] has_path_arg(old(args)@, k, p) ==> has_path_arg(final(args)@, k, p),
{
    let ghost before = args@;
    let ghost k = key;
    let ghost v = value;
    let mut i: usize = 0;
    while i < args.len()
        invariant
            i <= args@.len(),
            args@ == before,
            before == old(args)@,
            k == key,
            v == value,
            keys_unique(before),
            forall|j: int| 0 <= j < i ==> #[trigger] args@[j].0@ != key@,
        decreases args@.len() - i,
    {
        if args[i].0 == key {
            let ghost at = i as int;
            args.set(i, (key, value));
            proof {
                lemma_set_at(before, args@, k, v, at);
            }
            return;
        }
        i = i + 1;
    }
    args.push((key, value));
    proof {
        lemma_set_at(before, args@, k, v, before.len() as int);
    }
}

proof fn lemma_key_set_extend(s: Seq<(String, EmuValue)>, n: int)
    requires
        0 <= n < s.len(),
    ensures
        key_set(s.subrange(0, n + 1)) == key_set(s.subrange(0, n)).insert(s[n].0@),
{
    let a = s.subrange(0, n + 1);
    let b = s.subrange(0, n);
    assert forall|k: Seq<char>| key_set(a).contains(k) <==> #[trigger] key_set(b).insert(s[n].0@).contains(k) by {
        if key_set(a).contains(k) {
            let w = choose|w: int| 0 <= w < a.len() && #[trigger] a[w].0@ == k;
            if w < n {
                assert(b[w].0@ == k);
            }
        }
        if key_set(b).contains(k) {
            let w = choose|w: int| 0 <= w < b.len() && #[trigger] b[w].0@ == k;
            assert(a[w].0@ == k);
        }
        if k == s[n].0@ {
            assert(a[n].0@ == k);
        }
    }
    assert(key_set(a) =~= key_set(b).insert(s[n].0@));
}

/// Joins items with commas.
pub fn joined_with_commas(items: &Vec<String>) -> (r: String)
    ensures
        r@ == comma_joined(string_views(items@)),
{
    let mut r = String::new();
    let mut i: usize = 0;
    while i < items.len()
        invariant
            i <= items@.len(),
            r@ == comma_joined(string_views(items@.subrange(0, i as int))),
        decreases items@.len() - i,
    {
        let ghost before = string_views(items@.subrange(0, i as int));
        let ghost after = string_views(items@.subrange(0, i as int + 1));
        assert(after.drop_last() =~= before);
        assert(after.last() == items@[i as int]@);
        if i > 0 {
            r.append(",");
        }
        r.append(items[i].as_str());
        i = i + 1;
    }
    assert(items@.subrange(0, items@.len() as int) =~= items@);
    r
}

/// The command-line argument for one entry.
fn word_of(key: &String, value: &EmuValue) -> (r: String)
    ensures
        r@ == argument_word(key@, *value),
{
    let mut word = "--".to_owned();
    word.append(key.as_str());
    match value {
        EmuValue::Empty => {},
        EmuValue::String(s) => {
            word.append(" ");
            word.append(s.as_str());
        },
        EmuValue::FilePath(s) => {
            word.append(" ");
            word.append(s.as_str());
        },
        EmuValue::StringList(l) => {
            word.append(" ");
            let joined = joined_with_commas(l);
            word.append(joined.as_str());
        },
        EmuValue::FilePathList(l) => {
            word.append(" ");
            let joined = joined_with_commas(l);
            word.append(joined.as_str());
        },
    }
    word
}

/// The command line for `args`: one argument per entry, in their order.
pub fn argument_list(args: &Vec<(String, EmuValue)>) -> (r: Vec<String>)
    ensures
        string_views(r@) == command_line(args@),
{
    let mut r: Vec<String> = Vec::new();
    let mut i: usize = 0;
    while i < args.len()
        invariant
            i <= args@.len(),
            string_views(r@) == command_line(args@.subrange(0, i as int)),
        decreases args@.len() - i,
    {
        let word = word_of(&args[i].0, &args[i].1);
        let ghost r0 = r@;
        r.push(word);
        assert(string_views(r@) =~= command_line(args@.subrange(0, i as int + 1))) by {
            assert(string_views(r@) =~= string_views(r0).push(r@.last()@));
        }
        i = i + 1;
    }
    assert(args@.subrange(0, args@.len() as int) =~= args@);
    r
}

/// What the caller is to do to start the emulator.
#[derive(Debug)]
pub struct StartPlan {
    /// Whether the runtime directory is to be wiped and recreated first.
    pub reset_runtime: bool,
    /// Where to bind the control listener.
    pub socket_path: String,
    /// The program to spawn.
    pub program: String,
    /// Its arguments, in order.
    pub arguments: Vec<String>,
}

/// The supervised emulator instance: its directories, its arguments, the
/// subprocess it runs and the device state.
#[derive(Debug)]
pub struct Supervisor {
    pub instance_name: String,
    pub instance_directory: String,
    pub resource_directory: String,
    pub runtime_directory: String,
    pub executable_directory: String,
    pub executable: String,
    pub current_args: Vec<(String, EmuValue)>,
    pub state: EmuState,
    /// The id of the subprocess, while one is held.
    pub process: Option<u32>,
}

/// The state and the subprocess after a reconciliation, and whether it succeeded.
pub open spec fn reconcile_outcome(state: EmuState, process: Option<u32>, probe: ExitProbe) -> (
    EmuState,
    Option<u32>,
    bool,
) {
    match process {
        Some(_) => match probe {
            ExitProbe::Running => (EmuState::On, process, true),
            ExitProbe::Exited { success } => (
                if success { EmuState::Off } else { EmuState::Error },
                None,
                true,
            ),
            ExitProbe::Failed => (state, process, false),
        },
        None => if state == EmuState::On {
            (EmuState::Error, None, false)
        } else {
            (state, None, true)
        },
    }
}

impl Supervisor {
    pub open spec fn wf(&self) -> bool {
        keys_unique(self.current_args@)
    }

    /// The fields that only `new` sets.
    pub open spec fn same_setup(&self, other: &Supervisor) -> bool {
        &&& self.instance_name == other.instance_name
        &&& self.instance_directory == other.instance_directory
        &&& self.resource_directory == other.resource_directory
        &&& self.runtime_directory == other.runtime_directory
        &&& self.executable_directory == other.executable_directory
        &&& self.executable == other.executable
    }

    /// The path of the control socket of this instance.
    pub open spec fn socket_path(&self) -> Seq<char> {
        join_path(self.runtime_directory@, "control_soc"@)
    }

    /// A supervisor for a new instance, with nothing running. The instance
    /// is named from `instance_prefix`, the process id and the time, and its
    /// directory lies under `/tmp`, with a `resources` and a `runtime`
    /// subdirectory.
    pub fn new(
        executable_directory: String,
        executable: String,
        instance_prefix: &str,
        pid: u32,
        secs: u64,
        nanos: u128,
    ) -> (r: Supervisor)
        ensures
            r.wf(),
            r.instance_name@ == instance_name_of(instance_prefix@, pid as nat, secs as nat, nanos as nat),
            r.instance_directory@ == join_path("/tmp"@, r.instance_name@),
            r.resource_directory@ == join_path(r.instance_directory@, "resources"@),
            r.runtime_directory@ == join_path(r.instance_directory@, "runtime"@),
            r.executable_directory == executable_directory,
            r.executable == executable,
            r.current_args@.len() == 0,
            r.state == EmuState::Off,
            r.process is None,
    {
        let mut name = instance_prefix.to_owned();
        name.append("_");
        let p = decimal(pid as u128);
        name.append(p.as_str());
        name.append("_");
        let t = decimal(secs as u128);
        name.append(t.as_str());
        name.append("_");
        let n = decimal(nanos);
        name.append(n.as_str());
        let mut dir = "/tmp".to_owned();
        dir.append("/");
        dir.append(name.as_str());
        let mut resources = dir.clone();
        resources.append("/");
        resources.append("resources");
        let mut runtime = dir.clone();
        runtime.append("/");
        runtime.append("runtime");
        Supervisor {
            instance_name: name,
            instance_directory: dir,
            resource_directory: resources,
            runtime_directory: runtime,
            executable_directory,
            executable,
            current_args: Vec::new(),
            state: EmuState::Off,
            process: None,
        }
    }

    /// Brings the state in line with what a non-blocking wait on the
    /// subprocess showed. Without a subprocess the probe is not looked at;
    /// a state of `On` without one is an inconsistency, which turns the
    /// state to `Error` and is reported.
    pub fn reconcile(&mut self, probe: ExitProbe) -> (r: Result<(), EmuError>)
        requires
            old(self).wf(),
        ensures
            final(self).wf(),
            final(self).same_setup(old(self)),
            final(self).current_args == old(self).current_args,
            (final(self).state, final(self).process, r is Ok) == reconcile_outcome(
                old(self).state,
                old(self).process,
                probe,
            ),
            r is Err ==> r->Err_0 is RuntimeError,
    {
        match self.process {
            Some(_) => match probe {
                ExitProbe::Running => {
                    self.state = EmuState::On;
                    Ok(())
                },
                ExitProbe::Exited { success } => {
                    self.state = if success {
                        EmuState::Off
                    } else {
                        EmuState::Error
                    };
                    self.process = None;
                    Ok(())
                },
                ExitProbe::Failed => Err(
                    EmuError::RuntimeError("cannot acquire the status of the subprocess".to_owned()),
                ),
            },
            None => {
                if self.state == EmuState::On {
                    self.state = EmuState::Error;
                    Err(
                        EmuError::RuntimeError(
                            "no subprocess is held but the state says the emulator is on".to_owned(),
                        ),
                    )
                } else {
                    Ok(())
                }
            },
        }
    }

    /// Prepares a start, after [`Supervisor::reconcile`]. A running or busy
    /// device is refused; so is a key that a caller may not set, before
    /// anything changes. Otherwise the state becomes `Busy`, the arguments
    /// are merged into the current ones, `path` and `control_socket` are set
    /// last, and the plan says what to spawn and with which command line.
    pub fn begin_start(&mut self, factory_reset: bool, args: Vec<(String, EmuValue)>) -> (r: Result<
        StartPlan,
        EmuError,
    >)
        requires
            old(self).wf(),
            keys_unique(args@),
        ensures
            final(self).wf(),
            final(self).same_setup(old(self)),
            old(self).state == EmuState::On ==> r is Err && r->Err_0 is AlreadyRunning,
            old(self).state == EmuState::Busy ==> r is Err && r->Err_0 is TransientBusy,
            r is Err ==> *final(self) == *old(self),
            (old(self).state == EmuState::Off || old(self).state == EmuState::Error) ==> {
                &&& (exists|i: int| 0 <= i < args@.len() && !is_accepted_key(#[trigger] args@[i].0@))
                    ==> r is Err && r->Err_0 is InvalidArgumentName && exists|i: int|
                    0 <= i < args@.len() && !is_accepted_key(args@[i].0@) && (forall|j: int|
                    0 <= j < i ==> is_accepted_key(#[trigger] args@[j].0@))
                    && r->Err_0->InvalidArgumentName_0@ == args@[i].0@
                &&& (forall|i: int| 0 <= i < args@.len() ==> is_accepted_key(#[trigger] args@[i].0@))
                    ==> r is Ok
            },
            r is Ok ==> {
                let cur = final(self).current_args@;
                let plan = r->Ok_0;
                &&& final(self).state == EmuState::Busy
                &&& final(self).process == old(self).process
                &&& key_set(cur) == key_set(old(self).current_args@).union(key_set(args@)).insert(
                    "path"@,
                ).insert("control_socket"@)
                &&& forall|i: int| 0 <= i < args@.len() ==> has_arg(cur, #[trigger] args@[i].0@, args@[i].1)
                &&& forall|k: Seq<char>, v: EmuValue|
                    !key_set(args@).contains(k) && k != "path"@ && k != "control_socket"@
                        && #[trigger] has_arg(old(self).current_args@, k, v) ==> has_arg(cur, k, v)
                &&& has_path_arg(cur, "path"@, old(self).runtime_directory@)
                &&& has_path_arg(cur, "control_socket"@, old(self).socket_path())
                &&& plan.reset_runtime == factory_reset
                &&& plan.socket_path@ == old(self).socket_path()
                &&& plan.program@ == program_path(old(self).executable_directory@, old(self).executable@)
                &&& string_views(plan.arguments@) == command_line(cur)
            },
    {
        if self.state == EmuState::On {
            return Err(EmuError::AlreadyRunning);
        }
        if self.state == EmuState::Busy {
            return Err(EmuError::TransientBusy);
        }
        match first_rejected_key(&args) {
            Some(i) => {
                return Err(EmuError::InvalidArgumentName(args[i].0.clone()));
            },
            None => {},
        }
        self.state = EmuState::Busy;
        let ghost given = args@;
        let ghost start = self.current_args@;
        let mut rest = args;
        let total = rest.len();
        let mut n: usize = 0;
        while rest.len() > 0
            invariant
                n <= given.len(),
                given.len() == total,
                self.same_setup(old(self)),
                self.state == EmuState::Busy,
                self.process == old(self).process,
                start == old(self).current_args@,
                rest@ == given.subrange(n as int, given.len() as int),
                keys_unique(given),
                keys_unique(self.current_args@),
                key_set(self.current_args@) == key_set(start).union(
                    key_set(given.subrange(0, n as int)),
                ),
                forall|j: int| 0 <= j < n ==> has_arg(self.current_args@, #[trigger] given[j].0@, given[j].1),
                forall|k: Seq<char>, v: EmuValue|
                    !key_set(given.subrange(0, n as int)).contains(k) && #[trigger] has_arg(start, k, v)
                        ==> has_arg(self.current_args@, k, v),
            decreases rest@.len(),
        {
            let (k, v) = rest.remove(0);
            let ghost cur0 = self.current_args@;
            set_arg(&mut self.current_args, k, v);
            proof {
                lemma_key_set_extend(given, n as int);
                assert(key_set(self.current_args@) =~= key_set(start).union(
                    key_set(given.subrange(0, n as int + 1)),
                ));
                assert forall|j: int| 0 <= j < n + 1 implies has_arg(
                    self.current_args@,
                    #[trigger] given[j].0@,
                    given[j].1,
                ) by {
                    if j < n {
                        assert(given[j].0@ != given[n as int].0@);
                        assert(has_arg(cur0, given[j].0@, given[j].1));
                    }
                }
                assert forall|kk: Seq<char>, vv: EmuValue|
                    !key_set(given.subrange(0, n as int + 1)).contains(kk) && #[trigger] has_arg(
                        start,
                        kk,
                        vv,
                    ) implies has_arg(self.current_args@, kk, vv) by {
                    assert(key_set(given.subrange(0, n as int)).subset_of(
                        key_set(given.subrange(0, n as int + 1)),
                    ));
                    assert(has_arg(cur0, kk, vv));
                }
            }
            n = n + 1;
        }
        assert(given.subrange(0, given.len() as int) =~= given);
        let ghost merged = self.current_args@;
        let mut socket_path = self.runtime_directory.clone();
        socket_path.append("/");
        socket_path.append("control_soc");
        let path_value = EmuValue::FilePath(self.runtime_directory.clone());
        let path_key = "path".to_owned();
        let ghost pk = path_key;
        let ghost pv = path_value;
        set_arg(&mut self.current_args, path_key, path_value);
        let ghost with_path = self.current_args@;
        let socket_value = EmuValue::FilePath(socket_path.clone());
        let socket_key = "control_socket".to_owned();
        let ghost sk = socket_key;
        let ghost sv = socket_value;
        set_arg(&mut self.current_args, socket_key, socket_value);
        proof {
            reveal_strlit("path");
            reveal_strlit("control_socket");
            let cur = self.current_args@;
            assert("path"@ != "control_socket"@) by {
                assert("path"@.len() != "control_socket"@.len());
            }
            assert(key_set(cur) =~= key_set(start).union(key_set(given)).insert("path"@).insert(
                "control_socket"@,
            ));
            let w = choose|w: int| 0 <= w < with_path.len() && with_path[w] == (pk, pv);
            assert(with_path[w].0@ == "path"@);
            assert(has_path_arg(with_path, "path"@, self.runtime_directory@));
            assert(has_path_arg(cur, "path"@, self.runtime_directory@));
            let w2 = choose|w: int| 0 <= w < cur.len() && cur[w] == (sk, sv);
            assert(cur[w2].0@ == "control_socket"@);
            assert(has_path_arg(cur, "control_socket"@, self.socket_path()));
            assert forall|i: int| 0 <= i < given.len() implies has_arg(
                cur,
                #[trigger] given[i].0@,
                given[i].1,
            ) by {
                assert(is_accepted_key(given[i].0@));
                assert(has_arg(merged, given[i].0@, given[i].1));
                assert(has_arg(with_path, given[i].0@, given[i].1));
            }
            assert forall|k: Seq<char>, v: EmuValue|
                !key_set(given).contains(k) && k != "path"@ && k != "control_socket"@
                    && #[trigger] has_arg(start, k, v) implies has_arg(cur, k, v) by {
                assert(has_arg(merged, k, v));
                assert(has_arg(with_path, k, v));
            }
        }
        let program = program_path_of(&self.executable_directory, &self.executable);
        let arguments = argument_list(&self.current_args);
        Ok(StartPlan { reset_runtime: factory_reset, socket_path, program, arguments })
    }

    /// Ends a start with the outcome of the spawn and of the readiness
    /// handshake. Only a spawned process that reported ready turns the state
    /// to `On`; anything else turns it to `Error` and fails.
    pub fn finish_start(&mut self, spawned: Option<u32>, step: StartupStep) -> (r: Result<(), EmuError>)
        requires
            old(self).wf(),
        ensures
            final(self).wf(),
            final(self).same_setup(old(self)),
            final(self).current_args == old(self).current_args,
            final(self).process == spawned,
            r is Ok <==> (spawned is Some && step == StartupStep::Ready),
            r is Ok ==> final(self).state == EmuState::On,
            r is Err ==> final(self).state == EmuState::Error && r->Err_0 is StartFailureCause,
    {
        self.process = spawned;
        match (spawned, step) {
            (Some(_), StartupStep::Ready) => {
                self.state = EmuState::On;
                Ok(())
            },
            (None, _) => {
                self.state = EmuState::Error;
                Err(EmuError::StartFailureCause("the subprocess could not be spawned".to_owned()))
            },
            (Some(_), StartupStep::TimedOut) => {
                self.state = EmuState::Error;
                Err(EmuError::StartFailureCause("timeout while waiting on the subprocess".to_owned()))
            },
            (Some(_), _) => {
                self.state = EmuState::Error;
                Err(
                    EmuError::StartFailureCause(
                        "cannot connect to the other end of the control socket".to_owned(),
                    ),
                )
            },
        }
    }

    /// Prepares a stop, after [`Supervisor::reconcile`]. A device that is off
    /// or busy is refused. Without a subprocess there is nothing to
    /// terminate and the state becomes `Off`; otherwise the id of the process
    /// to terminate is returned.
    pub fn begin_stop(&mut self) -> (r: Result<Option<u32>, EmuError>)
        requires
            old(self).wf(),
        ensures
            final(self).wf(),
            final(self).same_setup(old(self)),
            final(self).current_args == old(self).current_args,
            final(self).process == old(self).process,
            old(self).state == EmuState::Off ==> r is Err && r->Err_0 is AlreadyOff,
            old(self).state == EmuState::Busy ==> r is Err && r->Err_0 is TransientBusy,
            r is Err ==> *final(self) == *old(self),
            (old(self).state == EmuState::On || old(self).state == EmuState::Error) ==> r == Ok::<
                Option<u32>,
                EmuError,
            >(old(self).process),
            r == Ok::<Option<u32>, EmuError>(None) ==> final(self).state == EmuState::Off,
            r is Ok && r->Ok_0 is Some ==> final(self).state == old(self).state,
    {
        match self.state {
            EmuState::Off => Err(EmuError::AlreadyOff),
            EmuState::Busy => Err(EmuError::TransientBusy),
            _ => {
                if self.process.is_none() {
                    self.state = EmuState::Off;
                }
                Ok(self.process)
            },
        }
    }

    /// Ends a stop with the outcome of the termination. A process confirmed
    /// gone turns the state to `Off`; otherwise the state becomes `Error`
    /// and the stop fails.
    pub fn finish_stop(&mut self, outcome: Result<(), StopFailure>) -> (r: Result<(), EmuError>)
        requires
            old(self).wf(),
        ensures
            final(self).wf(),
            final(self).same_setup(old(self)),
            final(self).current_args == old(self).current_args,
            r is Ok <==> outcome is Ok,
            r is Ok ==> final(self).state == EmuState::Off && final(self).process is None,
            r is Err ==> final(self).state == EmuState::Error && r->Err_0 is StopFailureCause,
            outcome == Err::<(), StopFailure>(StopFailure::StillAlive) ==> final(self).process is None,
            outcome == Err::<(), StopFailure>(StopFailure::ProbeFailed) ==> final(self).process
                == old(self).process,
            outcome == Err::<(), StopFailure>(StopFailure::SignalFailed) ==> final(self).process
                == old(self).process,
    {
        match outcome {
            Ok(()) => {
                self.state = EmuState::Off;
                self.process = None;
                Ok(())
            },
            Err(StopFailure::StillAlive) => {
                self.state = EmuState::Error;
                self.process = None;
                Err(EmuError::StopFailureCause("unable to stop the subprocess".to_owned()))
            },
            Err(StopFailure::ProbeFailed) => {
                self.state = EmuState::Error;
                Err(
                    EmuError::StopFailureCause(
                        "unexpected error while querying the presence of the subprocess".to_owned(),
                    ),
                )
            },
            Err(StopFailure::SignalFailed) => {
                self.state = EmuState::Error;
                Err(EmuError::StopFailureCause("cannot send a signal to the subprocess".to_owned()))
            },
        }
    }
}

} // verus!
