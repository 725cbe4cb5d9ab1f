//! Runner plans: the synthetic error events and nested transaction traces
//! each runner emits, and the fan-out of runners itself.

use vstd::prelude::*;
use rand::Rng;
use crate::config::Config;
use crate::text;

verus! {

/// Relies on `rand::Rng::gen_range` over `rand::thread_rng`: a sample drawn
/// from the half-open integer range `0..bound` lies in that range. The range
/// must be nonempty, since `gen_range` panics on an empty one.
#[verifier::external_body]
fn random_below(bound: u64) -> (r: u64)
    requires
        bound > 0,
    ensures
        r < bound,
{
    rand::thread_rng().gen_range(0..bound)
}

/// The randomized inter-iteration sleep of the error path, in milliseconds:
/// zero when `delay` is zero, else uniform in `[0, delay * 1000)`.
pub fn error_sleep_ms(delay: u32) -> (r: u64)
    ensures
        delay == 0 ==> r == 0,
        delay > 0 ==> r < delay * 1000,
{
    if delay == 0 {
        0
    } else {
        random_below((delay as u64) * 1000)
    }
}

/// The randomized inter-iteration sleep of the transaction path, in
/// microseconds: zero when `delay` is zero, else uniform in
/// `[0, delay * 100000)`.
pub fn txn_sleep_us(delay: u32) -> (r: u64)
    ensures
        delay == 0 ==> r == 0,
        delay > 0 ==> r < delay * 100000,
{
    if delay == 0 {
        0
    } else {
        random_below((delay as u64) * 100000)
    }
}

/// The message of one synthetic error payload.
pub open spec fn error_message(name: Seq<char>, seq: nat, sleep: nat) -> Seq<char> {
    "Sentry error testing: name = "@ + name + ", seq = seq_"@ + text::dec_rep(seq) + ", sleep = "@
        + text::dec_rep(sleep)
}

/// The name of one synthetic transaction's root span.
pub open spec fn txn_message(name: Seq<char>, seq: nat, sleep: nat) -> Seq<char> {
    "tx: name = "@ + name + ", seq = seq_"@ + text::dec_rep(seq) + ", sleep = "@ + text::dec_rep(
        sleep,
    ) + ", level = 0"@
}

/// The label of a nested span at `level` (1 and up).
pub open spec fn level_label(level: nat) -> Seq<char> {
    "tx level = "@ + text::dec_rep(level)
}

pub fn build_error_message(name: &str, seq: u32, sleep: u64) -> (s: String)
    ensures
        s@ == error_message(name@, seq as nat, sleep as nat),
{
    let mut s = String::from_str("Sentry error testing: name = ");
    s.append(name);
    s.append(", seq = seq_");
    let seq_text = text::u64_dec(seq as u64);
    s.append(seq_text.as_str());
    s.append(", sleep = ");
    let sleep_text = text::u64_dec(sleep);
    s.append(sleep_text.as_str());
    proof {
        assert(s@ =~= error_message(name@, seq as nat, sleep as nat));
    }
    s
}

pub fn build_txn_message(name: &str, seq: u32, sleep: u64) -> (s: String)
    ensures
        s@ == txn_message(name@, seq as nat, sleep as nat),
{
    let mut s = String::from_str("tx: name = ");
    s.append(name);
    s.append(", seq = seq_");
    let seq_text = text::u64_dec(seq as u64);
    s.append(seq_text.as_str());
    s.append(", sleep = ");
    let sleep_text = text::u64_dec(sleep);
    s.append(sleep_text.as_str());
    s.append(", level = 0");
    proof {
        assert(s@ =~= txn_message(name@, seq as nat, sleep as nat));
    }
    s
}

pub fn build_level_label(level: u8) -> (s: String)
    ensures
        s@ == level_label(level as nat),
{
    let mut s = String::from_str("tx level = ");
    let level_text = text::u64_dec(level as u64);
    s.append(level_text.as_str());
    proof {
        assert(s@ =~= level_label(level as nat));
    }
    s
}

/// One span of a synthetic transaction: its nesting level and its label.
pub struct SpanDescriptor {
    pub level: u8,
    pub label: String,
}

/// The nested-span shape of one synthetic transaction: the root span at level
/// 0 carries `name`, levels 1 and 2 always follow, and level 3 follows only
/// when `depth > 1` — which a depth drawn from `{0, 1}` never reaches, so the
/// deepest level stays dead in practice.
pub fn span_tree(name: String, depth: u8) -> (v: Vec<SpanDescriptor>)
    ensures
        v@.len() == (if depth > 1 {
            4int
        } else {
            3int
        }),
        v@[0].level == 0,
        v@[0].label@ == name@,
        forall|i: int|
            1 <= i < v@.len() ==> (#[trigger] v@[i]).level == i && v@[i].label@ == level_label(
                i as nat,
            ),
{
    let mut v: Vec<SpanDescriptor> = Vec::new();
    v.push(SpanDescriptor { level: 0, label: name });
    v.push(SpanDescriptor { level: 1, label: build_level_label(1) });
    v.push(SpanDescriptor { level: 2, label: build_level_label(2) });
    if depth > 1 {
        v.push(SpanDescriptor { level: 3, label: build_level_label(3) });
    }
    v
}

/// One planned synthetic error payload.
pub struct ErrorEvent {
    pub seq: u32,
    pub sleep_ms: u64,
    pub message: String,
}

/// Plans the stream of one error runner: exactly `count` payloads, with
/// distinct zero-based sequence numbers, each carrying a randomized sleep
/// within the configured bound and a message that embeds the runner's label,
/// the sequence number and the sleep.
pub fn error_events(name: &str, count: u32, delay: u32) -> (v: Vec<ErrorEvent>)
    ensures
        v@.len() == count,
        forall|i: int| 0 <= i < count ==> (#[trigger] v@[i]).seq == i,
        delay == 0 ==> forall|i: int| 0 <= i < count ==> (#[trigger] v@[i]).sleep_ms == 0,
        delay > 0 ==> forall|i: int| 0 <= i < count ==> (#[trigger] v@[i]).sleep_ms < delay * 1000,
        forall|i: int|
            0 <= i < count ==> (#[trigger] v@[i]).message@ == error_message(
                name@,
                i as nat,
                v@[i].sleep_ms as nat,
            ),
{
    let mut v: Vec<ErrorEvent> = Vec::new();
    let mut seq: u32 = 0;
    while seq < count
        invariant
            0 <= seq <= count,
            v@.len() == seq,
            forall|i: int| 0 <= i < seq ==> (#[trigger] v@[i]).seq == i,
            delay == 0 ==> forall|i: int| 0 <= i < seq ==> (#[trigger] v@[i]).sleep_ms == 0,
            delay > 0 ==> forall|i: int| 0 <= i < seq ==> (#[trigger] v@[i]).sleep_ms < delay
                * 1000,
            forall|i: int|
                0 <= i < seq ==> (#[trigger] v@[i]).message@ == error_message(
                    name@,
                    i as nat,
                    v@[i].sleep_ms as nat,
                ),
        decreases count - seq,
    {
        let sleep_ms = error_sleep_ms(delay);
        let message = build_error_message(name, seq, sleep_ms);
        v.push(ErrorEvent { seq, sleep_ms, message });
        seq = seq + 1;
    }
    v
}

/// One planned synthetic transaction: its randomized sleep, its random depth
/// draw, and its full span tree.
pub struct TxnEvent {
    pub seq: u32,
    pub sleep_us: u64,
    pub depth: u8,
    pub spans: Vec<SpanDescriptor>,
}

/// Plans the stream of one transaction runner: exactly `count` transactions,
/// with distinct zero-based sequence numbers, each carrying a randomized
/// sleep within the configured bound, a depth drawn from `{0, 1}`, and a
/// span tree of the fixed shape — root plus the two nested levels, whatever
/// the depth draw, since a draw from `{0, 1}` never reaches the deepest
/// level.
pub fn txn_events(name: &str, count: u32, delay: u32) -> (v: Vec<TxnEvent>)
    ensures
        v@.len() == count,
        forall|i: int| 0 <= i < count ==> (#[trigger] v@[i]).seq == i,
        delay == 0 ==> forall|i: int| 0 <= i < count ==> (#[trigger] v@[i]).sleep_us == 0,
        delay > 0 ==> forall|i: int| 0 <= i < count ==> (#[trigger] v@[i]).sleep_us < delay
            * 100000,
        forall|i: int| 0 <= i < count ==> (#[trigger] v@[i]).depth < 2,
        forall|i: int| 0 <= i < count ==> (#[trigger] v@[i]).spans@.len() == 3,
        forall|i: int|
            0 <= i < count ==> (#[trigger] v@[i]).spans@[0].level == 0 && v@[i].spans@[0].label@
                == txn_message(name@, i as nat, v@[i].sleep_us as nat),
        forall|i: int, j: int|
            0 <= i < count && 1 <= j < 3 ==> (#[trigger] v@[i].spans@[j]).level == j
                && v@[i].spans@[j].label@ == level_label(j as nat),
{
    let mut v: Vec<TxnEvent> = Vec::new();
    let mut seq: u32 = 0;
    while seq < count
        invariant
            0 <= seq <= count,
            v@.len() == seq,
            forall|i: int| 0 <= i < seq ==> (#[trigger] v@[i]).seq == i,
            delay == 0 ==> forall|i: int| 0 <= i < seq ==> (#[trigger] v@[i]).sleep_us == 0,
            delay > 0 ==> forall|i: int| 0 <= i < seq ==> (#[trigger] v@[i]).sleep_us < delay
                * 100000,
            forall|i: int| 0 <= i < seq ==> (#[trigger] v@[i]).depth < 2,
            forall|i: int| 0 <= i < seq ==> (#[trigger] v@[i]).spans@.len() == 3,
            forall|i: int|
                0 <= i < seq ==> (#[trigger] v@[i]).spans@[0].level == 0 && v@[i].spans@[0].label@
                    == txn_message(name@, i as nat, v@[i].sleep_us as nat),
            forall|i: int, j: int|
                0 <= i < seq && 1 <= j < 3 ==> (#[trigger] v@[i].spans@[j]).level == j
                    && v@[i].spans@[j].label@ == level_label(j as nat),
        decreases count - seq,
    {
        let sleep_us = txn_sleep_us(delay);
        let depth = random_below(2) as u8;
        let root = build_txn_message(name, seq, sleep_us);
        let spans = span_tree(root, depth);
        v.push(TxnEvent { seq, sleep_us, depth, spans });
        seq = seq + 1;
    }
    v
}

/// The role of one unit of work: emitting errors or emitting transactions.
#[derive(Clone, Copy, PartialEq, Eq, Structural, Debug)]
pub enum Role {
    Error,
    Transaction,
}

/// The role tag that labels a runner.
pub open spec fn role_tag(role: Role) -> Seq<char> {
    match role {
        Role::Error => "err"@,
        Role::Transaction => "txn"@,
    }
}

/// The label of one runner: role tag, runner index and process identifier.
pub open spec fn runner_label(role: Role, index: nat, pid: nat) -> Seq<char> {
    role_tag(role) + "_"@ + text::dec_rep(index) + "_"@ + text::dec_rep(pid)
}

pub fn build_runner_label(role: Role, index: u32, pid: u32) -> (s: String)
    ensures
        s@ == runner_label(role, index as nat, pid as nat),
{
    let mut s = match role {
        Role::Error => String::from_str("err"),
        Role::Transaction => String::from_str("txn"),
    };
    s.append("_");
    let index_text = text::u64_dec(index as u64);
    s.append(index_text.as_str());
    s.append("_");
    let pid_text = text::u64_dec(pid as u64);
    s.append(pid_text.as_str());
    proof {
        assert(s@ =~= runner_label(role, index as nat, pid as nat));
    }
    s
}

/// One unit of work to start on its own thread of control.
pub struct RunnerSpec {
    pub role: Role,
    pub index: u32,
    pub label: String,
    pub count: u32,
    pub delay: u32,
}

/// What the unit of work at position `i` of the fan-out plan must be: the
/// error runner of runner index `i / 2` at even positions, the transaction
/// runner of the same index at odd ones, each with the configured count and
/// delay and a label derived from role tag, index and process identifier.
pub open spec fn spec_runner_at(r: RunnerSpec, cfg: Config, pid: nat, i: int) -> bool {
    if i % 2 == 0 {
        &&& r.role == Role::Error
        &&& r.index == i / 2
        &&& r.count == cfg.errors
        &&& r.delay == cfg.delay
        &&& r.label@ == runner_label(Role::Error, (i / 2) as nat, pid)
    } else {
        &&& r.role == Role::Transaction
        &&& r.index == i / 2
        &&& r.count == cfg.transactions
        &&& r.delay == cfg.delay
        &&& r.label@ == runner_label(Role::Transaction, (i / 2) as nat, pid)
    }
}

/// The fan-out plan: exactly `2 * runnerCount` units of work, one error
/// runner and one transaction runner per runner index. The caller starts one
/// thread of control per unit and exits only after all of them have joined.
pub fn runner_specs(cfg: &Config, pid: u32) -> (v: Vec<RunnerSpec>)
    ensures
        v@.len() == 2 * cfg.runners,
        forall|i: int| 0 <= i < v@.len() ==> spec_runner_at(#[trigger] v@[i], *cfg, pid as nat, i),
{
    let mut v: Vec<RunnerSpec> = Vec::new();
    let mut seq: u32 = 0;
    while seq < cfg.runners
        invariant
            0 <= seq <= cfg.runners,
            v@.len() == 2 * seq,
            forall|i: int|
                0 <= i < v@.len() ==> spec_runner_at(#[trigger] v@[i], *cfg, pid as nat, i),
        decreases cfg.runners - seq,
    {
        v.push(
            RunnerSpec {
                role: Role::Error,
                index: seq,
                label: build_runner_label(Role::Error, seq, pid),
                count: cfg.errors,
                delay: cfg.delay,
            },
        );
        v.push(
            RunnerSpec {
                role: Role::Transaction,
                index: seq,
                label: build_runner_label(Role::Transaction, seq, pid),
                count: cfg.transactions,
                delay: cfg.delay,
            },
        );
        seq = seq + 1;
    }
    v
}

} // verus!
