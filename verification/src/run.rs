//! One generation run, step by step.
//!
//! A run reads its arguments, fails early on a setup that cannot be, then
//! renders one transaction after the other in the order of their numbers.
//! For every piece of text it says where the text goes; writing it is left
//! to the caller, who hands in the time of each transaction. The accounts
//! and commodities that the transactions refer to are collected on the
//! way, and the charts made of them close the run.

use crate::cli_args::Commands;
use crate::error::{ErrorKind, GenError};
use crate::generators::beancount::Beancount;
use crate::generators::ledger::Ledger;
use crate::generators::tackler::{config_text, Tackler};
use crate::generators::{
    audit_parts, commodity_code, AuditTxnGenerator, ChartOfAccGenerator, ChartOfCommGenerator,
    CommodityTxnGenerator, PlainTxnGenerator, TxnAccComm,
};
use crate::names::{lemma_sorted_by_content, lemma_sorted_no_duplicates, sorted, NameSet};
use crate::setup::{
    join, join_path, time_format_text, JournalFlavor, JournalSetup, SetSize, ShardType,
};
use crate::time::{Civil, TxnTime};
use crate::writers::{after_write, route_of, shard_slot, JournalWriter, WriteOp, WriteText};
use vstd::prelude::*;
use vstd::string::StringExecFns;

verus! {

/// What kind of journal a run generates.
#[derive(Debug, Clone, Copy, PartialEq, Eq, Structural)]
pub enum RunKind {
    /// Transactions with stable identifiers.
    Audit,
    /// Transactions in the simplest form.
    Plain,
    /// Transactions with commodities.
    Comm,
}

impl RunKind {
    /// The directory below the output directory to which the kind goes.
    pub open spec fn dir_text(self) -> Seq<char> {
        match self {
            RunKind::Audit => "audit"@,
            RunKind::Plain => "plain"@,
            RunKind::Comm => "comm"@,
        }
    }

    /// Whether the configuration of the set names its charts.
    pub open spec fn strict_mode(self) -> bool {
        self != RunKind::Plain
    }

    /// Whether the configuration of the set asks for an audit.
    pub open spec fn audit_mode(self) -> bool {
        self == RunKind::Audit
    }

    /// Whether the kind can be had in the flavor: audited journals in
    /// Tackler only, plain ones not in Beancount.
    pub open spec fn supports(self, flavor: JournalFlavor) -> bool {
        match self {
            RunKind::Audit => flavor == JournalFlavor::Tackler,
            RunKind::Plain => flavor != JournalFlavor::Beancount,
            RunKind::Comm => true,
        }
    }

    /// The message for a flavor in which the kind cannot be had.
    pub open spec fn unsupported_text(self) -> Seq<char> {
        match self {
            RunKind::Audit => "Audit mode is implemented for Tackler only"@,
            _ => "Plain mode for Beancount is not implemented, use 'comm' mode instead"@,
        }
    }

    /// The kind of a command.
    pub open spec fn of(cmd: Commands) -> RunKind {
        match cmd {
            Commands::Audit { .. } => RunKind::Audit,
            Commands::Plain { .. } => RunKind::Plain,
            Commands::Comm { .. } => RunKind::Comm,
        }
    }

    /// The directory below the output directory to which the kind goes.
    pub fn dir(&self) -> (s: &'static str)
        ensures
            s@ == self.dir_text(),
    {
        match self {
            RunKind::Audit => "audit",
            RunKind::Plain => "plain",
            RunKind::Comm => "comm",
        }
    }
}

/// The seconds from the start of a set to its stop, as steps are taken from
/// them: none where the stop is before the start.
pub open spec fn span_of(span_seconds: int) -> int {
    if span_seconds < 0 {
        0
    } else {
        span_seconds
    }
}

/// The whole seconds from one transaction to the next: the span divided
/// into as many steps as the set has transactions.
pub open spec fn step_of(span_seconds: int, set: SetSize) -> int {
    span_of(span_seconds) / (set.count() as int)
}

/// The steps never lead past the end of the span: as many steps as the set
/// has transactions still fall within it, and fall short of its end by
/// less than one second for each transaction.
pub proof fn lemma_steps_within_span(span_seconds: int, set: SetSize)
    ensures
        0 <= step_of(span_seconds, set) <= span_of(span_seconds),
        step_of(span_seconds, set) * set.count() <= span_of(span_seconds),
        span_of(span_seconds) - step_of(span_seconds, set) * set.count() < set.count(),
{
    let count = set.count() as int;
    let span = span_of(span_seconds);
    assert(count >= 10);
    assert(span == count * (span / count) + span % count) by (nonlinear_arith)
        requires
            count > 0,
    ;
    assert(0 <= span % count < count) by (nonlinear_arith)
        requires
            count > 0,
    ;
    assert((span / count) * count == count * (span / count)) by (nonlinear_arith);
    assert(span / count <= span) by (nonlinear_arith)
        requires
            count >= 1,
            span >= 0,
            span == count * (span / count) + span % count,
            0 <= span % count,
    ;
    assert(0 <= span / count) by (nonlinear_arith)
        requires
            count > 0,
            span >= 0,
            span == count * (span / count) + span % count,
            span % count < count,
    ;
}

/// Every transaction of a set falls within the span: the first at its
/// start, each one a step after the one before, and the last a step before
/// its end at the latest.
pub proof fn lemma_transaction_within_span(span_seconds: int, set: SetSize, index: int)
    requires
        1 <= index <= set.count(),
    ensures
        0 <= (index - 1) * step_of(span_seconds, set),
        (index - 1) * step_of(span_seconds, set) + step_of(span_seconds, set) <= span_of(
            span_seconds,
        ),
        index == 1 ==> (index - 1) * step_of(span_seconds, set) == 0,
{
    lemma_steps_within_span(span_seconds, set);
    let step = step_of(span_seconds, set);
    let count = set.count() as int;
    assert(0 <= (index - 1) * step) by (nonlinear_arith)
        requires
            index >= 1,
            step >= 0,
    ;
    assert((index - 1) * step + step == index * step) by (nonlinear_arith);
    assert(index * step <= step * count) by (nonlinear_arith)
        requires
            index <= count,
            step >= 0,
    ;
}

/// The arguments of a run, read.
#[derive(Debug)]
pub struct RunPlan {
    pub kind: RunKind,
    pub flavor: JournalFlavor,
    pub set: SetSize,
    pub shard_type: ShardType,
    /// The directory below which the set is written: the directory of the
    /// kind, below the output directory.
    pub path: String,
}

impl RunPlan {
    /// The flavor of a command: Tackler for an audited journal and where
    /// none was asked for, else the one asked for; `None` where that is no
    /// flavor.
    pub open spec fn flavor_of(cmd: Commands) -> Option<JournalFlavor> {
        match cmd {
            Commands::Audit { .. } => Some(JournalFlavor::Tackler),
            _ => match cmd.asked_flavor() {
                None => Some(JournalFlavor::Tackler),
                Some(name) => JournalFlavor::parse(name@),
            },
        }
    }

    /// Reads the arguments of a command: the flavor first, then the size of
    /// the set, then the shard type. The first that cannot be read is
    /// reported.
    pub fn from_command(cmd: &Commands) -> (r: Result<RunPlan, GenError>)
        ensures
            match r {
                Ok(plan) => {
                    &&& plan.kind == RunKind::of(*cmd)
                    &&& Self::flavor_of(*cmd) == Some(plan.flavor)
                    &&& SetSize::parse(cmd.args().set_size@) == Some(plan.set)
                    &&& ShardType::parse(cmd.args().shard_type@) == Some(plan.shard_type)
                    &&& plan.path@ == join(cmd.args().data_path@, plan.kind.dir_text())
                },
                Err(e) => if Self::flavor_of(*cmd) is None {
                    e.is(
                        ErrorKind::InvalidArgument,
                        JournalFlavor::unknown_text(cmd.asked_flavor()->0@),
                    )
                } else if SetSize::parse(cmd.args().set_size@) is None {
                    e.is(ErrorKind::InvalidArgument, SetSize::unknown_text(cmd.args().set_size@))
                } else {
                    &&& ShardType::parse(cmd.args().shard_type@) is None
                    &&& e.is(
                        ErrorKind::InvalidArgument,
                        ShardType::unknown_text(cmd.args().shard_type@),
                    )
                },
            },
    {
        let kind = match cmd {
            Commands::Audit { .. } => RunKind::Audit,
            Commands::Plain { .. } => RunKind::Plain,
            Commands::Comm { .. } => RunKind::Comm,
        };
        let flavor = match kind {
            RunKind::Audit => JournalFlavor::Tackler,
            _ => match cmd.flavor() {
                None => JournalFlavor::Tackler,
                Some(name) => match JournalFlavor::try_from(name.as_str()) {
                    Ok(flavor) => flavor,
                    Err(e) => {
                        return Err(e);
                    },
                },
            },
        };
        let args = cmd.global_args();
        let set = match SetSize::try_from(args.set_size.as_str()) {
            Ok(set) => set,
            Err(e) => {
                return Err(e);
            },
        };
        let shard_type = match ShardType::try_from(args.shard_type.as_str()) {
            Ok(shard_type) => shard_type,
            Err(e) => {
                return Err(e);
            },
        };
        let path = join_path(args.data_path.as_str(), kind.dir());
        Ok(RunPlan { kind, flavor, set, shard_type, path })
    }

    /// The whole seconds from one transaction to the next, for a set that
    /// spans `span_seconds` from its start to its stop: the span divided by
    /// the number of transactions. A set whose stop is before its start has
    /// all its transactions at the start.
    pub fn step_seconds(&self, span_seconds: i64) -> (step: u64)
        ensures
            step == step_of(span_seconds as int, self.set),
            span_seconds < 0 ==> step == 0,
            span_seconds >= 0 ==> step == (span_seconds as int) / (self.set.count() as int),
            span_seconds >= 0 ==> step * self.set.count() <= span_seconds,
            span_seconds >= 0 ==> span_seconds - step * self.set.count() < self.set.count(),
    {
        proof {
            lemma_steps_within_span(span_seconds as int, self.set);
        }
        let span: u64 = if span_seconds < 0 {
            0
        } else {
            span_seconds as u64
        };
        span / (self.set.size() as u64)
    }

    /// The seconds from the start of the set to the transaction of the
    /// given number: one step for each transaction before it.
    pub fn seconds_from_start(step: u64, index: u32) -> (seconds: u64)
        requires
            index >= 1,
            (index - 1) * step <= u64::MAX,
        ensures
            seconds == (index - 1) * step,
    {
        (index - 1) as u64 * step
    }

    /// The seconds from the start of the set to the transaction of the
    /// given number, where there is such a transaction and the seconds can
    /// be held: transactions are numbered from 1.
    pub fn checked_seconds_from_start(step: u64, index: u32) -> (r: Option<u64>)
        ensures
            r is Some <==> index >= 1 && (index - 1) * step <= u64::MAX,
            r matches Some(seconds) ==> seconds == (index - 1) * step,
    {
        if index < 1 {
            return None;
        }
        let before: u64 = (index - 1) as u64;
        if before != 0 && step > u64::MAX / before {
            assert((index - 1) * step > u64::MAX) by (nonlinear_arith)
                requires
                    before == index - 1,
                    before > 0,
                    step > u64::MAX / before,
                    step >= 0,
            ;
            return None;
        }
        assert((index - 1) * step <= u64::MAX) by (nonlinear_arith)
            requires
                before == index - 1,
                before >= 0,
                step >= 0,
                before == 0 || step <= u64::MAX / before,
        ;
        Some(Self::seconds_from_start(step, index))
    }
}

/// What a run has come to.
pub struct RunState {
    pub kind: RunKind,
    pub setup: JournalSetup,
    /// For each number, whether a journal file is open under it.
    pub open_slots: Seq<bool>,
    /// The accounts referred to so far, in order, each once.
    pub accounts: Seq<Seq<char>>,
    /// The commodities referred to so far, in order, each once.
    pub commodities: Seq<Seq<char>>,
    /// The number of the next transaction.
    pub next: nat,
    /// The times of the transactions generated so far, in their order.
    pub times: Seq<Civil>,
}

impl RunState {
    /// A state that a run can come to.
    pub open spec fn wf(self) -> bool {
        &&& self.setup.wf()
        &&& self.kind.supports(self.setup.flavor)
        &&& self.open_slots.len() == 12
        &&& sorted(self.accounts)
        &&& sorted(self.commodities)
        &&& self.next == self.times.len() + 1
        &&& self.next <= self.setup.txn_set.count() + 1
        &&& self.accounts.to_set() == referred_accounts(self.kind, self.setup.flavor, self.times)
        &&& self.commodities.to_set() == referred_commodities(self.kind, self.times)
    }

    /// Whether transactions are left to generate.
    pub open spec fn has_next(self) -> bool {
        self.next <= self.setup.txn_set.count()
    }
}

/// The text of the transaction of a number at a time. An audited
/// transaction has none where its time or its instant cannot be written
/// out; every other transaction has one.
pub open spec fn txn_text(
    kind: RunKind,
    flavor: JournalFlavor,
    set: SetSize,
    ts: Civil,
    index: u32,
) -> Option<Seq<char>> {
    match kind {
        RunKind::Audit => match audit_parts(set, ts, index) {
            Some(parts) => Some(Tackler::audit_text(set, ts, index, parts.0, parts.1)),
            None => None,
        },
        RunKind::Plain => match flavor {
            JournalFlavor::Ledger => Some(Ledger::plain_text(set, ts, index)),
            _ => Some(Tackler::plain_text(set, ts, index)),
        },
        RunKind::Comm => match flavor {
            JournalFlavor::Tackler => Some(Tackler::commodity_txn_text(set, ts, index)),
            JournalFlavor::Ledger => Some(Ledger::commodity_txn_text(set, ts, index)),
            JournalFlavor::Beancount => Some(Beancount::commodity_txn_text(set, ts, index)),
        },
    }
}

/// The accounts that a transaction adds to the chart, as the flavor names
/// them. A plain journal has no chart.
#[verifier::opaque]
pub open spec fn txn_accounts(kind: RunKind, flavor: JournalFlavor, ts: Civil) -> Seq<Seq<char>> {
    match kind {
        RunKind::Audit => Tackler::audit_accounts(ts),
        RunKind::Plain => Seq::empty(),
        RunKind::Comm => match flavor {
            JournalFlavor::Tackler => Tackler::commodity_accounts(ts),
            JournalFlavor::Ledger => Ledger::commodity_accounts(ts),
            JournalFlavor::Beancount => Beancount::commodity_accounts(ts),
        },
    }
}

/// The commodities that a transaction adds to the chart.
pub open spec fn txn_commodities(kind: RunKind, ts: Civil) -> Seq<Seq<char>> {
    match kind {
        RunKind::Comm => seq![commodity_code(ts.day)],
        _ => Seq::empty(),
    }
}

/// The accounts that the transactions at the given times add to the chart.
pub open spec fn referred_accounts(
    kind: RunKind,
    flavor: JournalFlavor,
    times: Seq<Civil>,
) -> Set<Seq<char>>
    decreases times.len(),
{
    if times.len() == 0 {
        Set::empty()
    } else {
        referred_accounts(kind, flavor, times.drop_last()).union(
            txn_accounts(kind, flavor, times.last()).to_set(),
        )
    }
}

/// The commodities that the transactions at the given times add to the
/// chart.
pub open spec fn referred_commodities(kind: RunKind, times: Seq<Civil>) -> Set<Seq<char>>
    decreases times.len(),
{
    if times.len() == 0 {
        Set::empty()
    } else {
        referred_commodities(kind, times.drop_last()).union(
            txn_commodities(kind, times.last()).to_set(),
        )
    }
}

/// An account is among those referred to where one of the transactions
/// refers to it.
proof fn lemma_referred_accounts(kind: RunKind, flavor: JournalFlavor, times: Seq<Civil>)
    ensures
        forall|name: Seq<char>| #[trigger]
            referred_accounts(kind, flavor, times).contains(name) <==> exists|i: int|
                0 <= i < times.len() && #[trigger] txn_accounts(kind, flavor, times[i]).contains(
                    name,
                ),
    decreases times.len(),
{
    if times.len() > 0 {
        let init = times.drop_last();
        let last = times.len() - 1;
        lemma_referred_accounts(kind, flavor, init);
        assert forall|name: Seq<char>| #[trigger]
            referred_accounts(kind, flavor, times).contains(name) <==> exists|i: int|
                0 <= i < times.len() && #[trigger] txn_accounts(kind, flavor, times[i]).contains(
                    name,
                ) by {
            if referred_accounts(kind, flavor, init).contains(name) {
                let i = choose|i: int|
                    0 <= i < init.len() && #[trigger] txn_accounts(kind, flavor, init[i]).contains(
                        name,
                    );
                assert(txn_accounts(kind, flavor, times[i]).contains(name));
            }
            if txn_accounts(kind, flavor, times.last()).contains(name) {
                assert(txn_accounts(kind, flavor, times[last]).contains(name));
            }
            if exists|i: int|
                0 <= i < times.len() && #[trigger] txn_accounts(kind, flavor, times[i]).contains(
                    name,
                ) {
                let i = choose|i: int|
                    0 <= i < times.len() && #[trigger] txn_accounts(
                        kind,
                        flavor,
                        times[i],
                    ).contains(name);
                if i < last {
                    assert(txn_accounts(kind, flavor, init[i]).contains(name));
                }
            }
        }
    }
}

/// A commodity is among those referred to where one of the transactions
/// refers to it.
proof fn lemma_referred_commodities(kind: RunKind, times: Seq<Civil>)
    ensures
        forall|name: Seq<char>| #[trigger]
            referred_commodities(kind, times).contains(name) <==> exists|i: int|
                0 <= i < times.len() && #[trigger] txn_commodities(kind, times[i]).contains(
                    name,
                ),
    decreases times.len(),
{
    if times.len() > 0 {
        let init = times.drop_last();
        let last = times.len() - 1;
        lemma_referred_commodities(kind, init);
        assert forall|name: Seq<char>| #[trigger]
            referred_commodities(kind, times).contains(name) <==> exists|i: int|
                0 <= i < times.len() && #[trigger] txn_commodities(kind, times[i]).contains(
                    name,
                ) by {
            if referred_commodities(kind, init).contains(name) {
                let i = choose|i: int|
                    0 <= i < init.len() && #[trigger] txn_commodities(kind, init[i]).contains(
                        name,
                    );
                assert(txn_commodities(kind, times[i]).contains(name));
            }
            if txn_commodities(kind, times.last()).contains(name) {
                assert(txn_commodities(kind, times[last]).contains(name));
            }
            if exists|i: int|
                0 <= i < times.len() && #[trigger] txn_commodities(kind, times[i]).contains(
                    name,
                ) {
                let i = choose|i: int|
                    0 <= i < times.len() && #[trigger] txn_commodities(kind, times[i]).contains(
                        name,
                    );
                if i < last {
                    assert(txn_commodities(kind, init[i]).contains(name));
                }
            }
        }
    }
}

/// An account is among those referred to where one of the transactions
/// refers to it, and a commodity likewise.
pub proof fn lemma_referred(kind: RunKind, flavor: JournalFlavor, times: Seq<Civil>)
    ensures
        forall|name: Seq<char>| #[trigger]
            referred_accounts(kind, flavor, times).contains(name) <==> exists|i: int|
                0 <= i < times.len() && #[trigger] txn_accounts(kind, flavor, times[i]).contains(
                    name,
                ),
        forall|name: Seq<char>| #[trigger]
            referred_commodities(kind, times).contains(name) <==> exists|i: int|
                0 <= i < times.len() && #[trigger] txn_commodities(kind, times[i]).contains(
                    name,
                ),
{
    lemma_referred_accounts(kind, flavor, times);
    lemma_referred_commodities(kind, times);
}

/// The charts of a run hold what its transactions referred to, and nothing
/// else: every account and every commodity that one of them referred to,
/// each once however many did, in the order of strings.
pub proof fn lemma_charts_hold_what_was_referred(state: RunState)
    requires
        state.wf(),
    ensures
        sorted(state.accounts),
        state.accounts.no_duplicates(),
        forall|name: Seq<char>| #[trigger]
            state.accounts.contains(name) <==> exists|i: int|
                0 <= i < state.times.len() && #[trigger] txn_accounts(
                    state.kind,
                    state.setup.flavor,
                    state.times[i],
                ).contains(name),
        sorted(state.commodities),
        state.commodities.no_duplicates(),
        forall|name: Seq<char>| #[trigger]
            state.commodities.contains(name) <==> exists|i: int|
                0 <= i < state.times.len() && #[trigger] txn_commodities(
                    state.kind,
                    state.times[i],
                ).contains(name),
{
    lemma_sorted_no_duplicates(state.accounts);
    lemma_sorted_no_duplicates(state.commodities);
    lemma_referred(state.kind, state.setup.flavor, state.times);
    assert forall|name: Seq<char>| #[trigger]
        state.accounts.contains(name) <==> referred_accounts(state.kind, state.setup.flavor, state.times).contains(
            name,
        ) by {
        assert(state.accounts.to_set().contains(name) == state.accounts.contains(name));
    }
    assert forall|name: Seq<char>| #[trigger]
        state.commodities.contains(name) <==> referred_commodities(
            state.kind,
            state.times,
        ).contains(name) by {
        assert(state.commodities.to_set().contains(name) == state.commodities.contains(name));
    }
}

/// Whether the step at the time `ts` comes to nothing: the transaction has
/// no text, or can go nowhere. Both are so only where its time cannot be
/// written out.
pub open spec fn step_fails(before: RunState, ts: Civil) -> bool {
    ||| txn_text(
        before.kind,
        before.setup.flavor,
        before.setup.txn_set,
        ts,
        before.next as u32,
    ) is None
    ||| route_of(before.setup, before.open_slots, ts, before.next as u32) is None
}

/// Whether the step at the time `ts` takes the run from `before` to
/// `after` and hands out `out`: the text of the next transaction and where
/// it goes, the book of open files after the write, the next number, and
/// the charts with what the transaction refers to.
pub open spec fn steps(before: RunState, ts: Civil, after: RunState, out: WriteText) -> bool {
    &&& txn_text(
        before.kind,
        before.setup.flavor,
        before.setup.txn_set,
        ts,
        before.next as u32,
    ) == Some(out.text)
    &&& route_of(before.setup, before.open_slots, ts, before.next as u32) == Some(out.target)
    &&& after.kind == before.kind
    &&& after.setup == before.setup
    &&& after.open_slots == after_write(
        before.open_slots,
        shard_slot(before.setup.shard_type, ts),
    )
    &&& after.next == before.next + 1
    &&& after.times == before.times.push(ts)
    &&& sorted(after.accounts)
    &&& after.accounts.to_set() == before.accounts.to_set().union(
        txn_accounts(before.kind, before.setup.flavor, ts).to_set(),
    )
    &&& sorted(after.commodities)
    &&& after.commodities.to_set() == before.commodities.to_set().union(
        txn_commodities(before.kind, ts).to_set(),
    )
}

/// A step is decided by the state of the run and the time: there is one
/// text, one place for it and one state after it.
pub proof fn lemma_step_determined(
    before: RunState,
    ts: Civil,
    after1: RunState,
    out1: WriteText,
    after2: RunState,
    out2: WriteText,
)
    requires
        steps(before, ts, after1, out1),
        steps(before, ts, after2, out2),
    ensures
        after1 == after2,
        out1 == out2,
{
    lemma_sorted_by_content(after1.accounts, after2.accounts);
    lemma_sorted_by_content(after1.commodities, after2.commodities);
}

/// Whether a run whose transactions fall at `times` goes through `states`,
/// from the first of them to the last, and hands out `outs` on the way.
pub open spec fn runs(times: Seq<Civil>, states: Seq<RunState>, outs: Seq<WriteText>) -> bool {
    &&& states.len() == times.len() + 1
    &&& outs.len() == times.len()
    &&& forall|i: int|
        0 <= i < times.len() ==> steps(states[i], times[i], states[i + 1], #[trigger] outs[i])
}

/// Two runs from the same state, with their transactions at the same
/// times, are the same up to the transaction `k`.
proof fn lemma_run_prefix(
    times: Seq<Civil>,
    states1: Seq<RunState>,
    outs1: Seq<WriteText>,
    states2: Seq<RunState>,
    outs2: Seq<WriteText>,
    k: nat,
)
    requires
        runs(times, states1, outs1),
        runs(times, states2, outs2),
        states1[0] == states2[0],
        k <= times.len(),
    ensures
        states1[k as int] == states2[k as int],
        k > 0 ==> outs1[k - 1] == outs2[k - 1],
    decreases k,
{
    if k > 0 {
        let i = k - 1;
        lemma_run_prefix(times, states1, outs1, states2, outs2, i as nat);
        assert(steps(states1[i], times[i], states1[i + 1], outs1[i]));
        assert(steps(states2[i], times[i], states2[i + 1], outs2[i]));
        lemma_step_determined(
            states1[i],
            times[i],
            states1[i + 1],
            outs1[i],
            states2[i + 1],
            outs2[i],
        );
    }
}

/// A run is decided by the state it starts from and the times of its
/// transactions: two runs that agree on these go through the same states
/// and hand out the same texts for the same places, in the same order.
pub proof fn lemma_run_determined(
    times: Seq<Civil>,
    states1: Seq<RunState>,
    outs1: Seq<WriteText>,
    states2: Seq<RunState>,
    outs2: Seq<WriteText>,
)
    requires
        runs(times, states1, outs1),
        runs(times, states2, outs2),
        states1[0] == states2[0],
    ensures
        states1 == states2,
        outs1 == outs2,
{
    assert forall|k: int| 0 <= k < states1.len() implies states1[k] == states2[k] by {
        lemma_run_prefix(times, states1, outs1, states2, outs2, k as nat);
    }
    assert forall|k: int| 0 <= k < outs1.len() implies outs1[k] == outs2[k] by {
        lemma_run_prefix(times, states1, outs1, states2, outs2, (k + 1) as nat);
    }
    assert(states1 =~= states2);
    assert(outs1 =~= outs2);
}

/// The transactions of a run are numbered in order: in a run that starts at
/// the first transaction, the step `k` has the number `k + 1`, and the
/// times of the transactions before it are the first `k` times.
pub proof fn lemma_run_in_order(
    times: Seq<Civil>,
    states: Seq<RunState>,
    outs: Seq<WriteText>,
    k: nat,
)
    requires
        runs(times, states, outs),
        states[0].next == 1,
        states[0].times == Seq::<Civil>::empty(),
        k <= times.len(),
    ensures
        states[k as int].next == k + 1,
        states[k as int].times == times.take(k as int),
    decreases k,
{
    if k > 0 {
        let i = k - 1;
        lemma_run_in_order(times, states, outs, i as nat);
        assert(steps(states[i], times[i], states[i + 1], outs[i]));
        assert(times.take(k as int) =~= times.take(i).push(times[i]));
    } else {
        assert(times.take(0) =~= Seq::<Civil>::empty());
    }
}

/// A run is done when it has generated as many transactions as the set
/// holds, and not before.
pub proof fn lemma_done_when_full(state: RunState)
    requires
        state.wf(),
    ensures
        !state.has_next() <==> state.times.len() == state.setup.txn_set.count(),
{
}

/// The line by which a journal takes in its chart of accounts.
pub open spec fn include_text(flavor: JournalFlavor, accounts_file: Seq<char>) -> Seq<char> {
    match flavor {
        JournalFlavor::Beancount => "include \"../conf/"@ + accounts_file + "\"\n\n"@,
        _ => "include ../conf/"@ + accounts_file + "\n\n"@,
    }
}

/// A file to be: its directory, its path and what it holds.
pub struct FileText {
    pub dir: Seq<char>,
    pub path: Seq<char>,
    pub text: Seq<char>,
}

/// The chart of accounts of a flavor.
pub open spec fn accounts_chart_of(flavor: JournalFlavor, accounts: Seq<Seq<char>>) -> Seq<char> {
    match flavor {
        JournalFlavor::Tackler => Tackler::accounts_chart(accounts),
        JournalFlavor::Ledger => Ledger::accounts_chart(accounts),
        JournalFlavor::Beancount => Beancount::accounts_chart(accounts),
    }
}

/// The files that close a run, in the order in which they are written.
/// Tackler gets its configuration, and with an audited journal or one with
/// commodities both charts; the other flavors get the chart of accounts
/// where the journal has commodities.
pub open spec fn closing_files(state: RunState) -> Seq<FileText> {
    let setup = state.setup;
    let accounts = FileText {
        dir: setup.conf_dir_text(),
        path: setup.accounts_path_text(),
        text: accounts_chart_of(setup.flavor, state.accounts),
    };
    let commodities = FileText {
        dir: setup.conf_dir_text(),
        path: setup.commodities_path_text(),
        text: Tackler::commodities_chart(state.commodities)->0,
    };
    let config = FileText {
        dir: setup.path@,
        path: setup.config_path_text(),
        text: config_text(
            state.kind.strict_mode(),
            state.kind.audit_mode(),
            setup.set_dir_text(),
            setup.txn_set.label_text(),
        ),
    };
    match state.kind {
        RunKind::Audit => seq![accounts, commodities, config],
        RunKind::Plain => if setup.flavor == JournalFlavor::Tackler {
            seq![config]
        } else {
            Seq::empty()
        },
        RunKind::Comm => if setup.flavor == JournalFlavor::Tackler {
            seq![config, accounts, commodities]
        } else {
            seq![accounts]
        },
    }
}

/// The step creates the file with its text, and closes it.
pub open spec fn writes_file(op: WriteOp, file: FileText) -> bool {
    op.target.creates(file.dir, file.path, None) && op.text@ == file.text
}

/// What the user is told when the run is done.
pub open spec fn summary_text(setup: JournalSetup) -> Seq<char> {
    if setup.flavor == JournalFlavor::Tackler {
        "Created "@ + setup.txn_set.label_text() + " test set\n"@ + "Test set is located at: "@
            + setup.set_path_text() + "\n"@ + "You can test it with command:\n\n"@
            + "   tackler --config "@ + setup.config_path_text() + "\n"@
    } else {
        "Created "@ + setup.txn_set.label_text() + " test set\n"@
            + "Test journal is located at: "@ + setup.set_path_text() + "/txns\n"@
    }
}

/// A run under way.
pub struct Run {
    kind: RunKind,
    writer: JournalWriter,
    accounts: NameSet,
    commodities: NameSet,
    next: u32,
    times: Ghost<Seq<Civil>>,
}

impl View for Run {
    type V = RunState;

    closed spec fn view(&self) -> RunState {
        RunState {
            kind: self.kind,
            setup: self.writer.setup,
            open_slots: self.writer.open_slots(),
            accounts: self.accounts@,
            commodities: self.commodities@,
            next: self.next as nat,
            times: self.times@,
        }
    }
}

impl Run {
    /// Starts a run. The setup is checked first, then that the target is
    /// free (`target_exists` says whether the directory of the set is
    /// there already), then that the flavor has journals of the kind; all
    /// of it before anything is written.
    pub fn try_new(plan: &RunPlan, target_exists: bool) -> (r: Result<Run, GenError>)
        ensures
            match r {
                Ok(run) => {
                    &&& JournalSetup::compatible(plan.flavor, plan.shard_type)
                    &&& plan.shard_type == ShardType::Single || !target_exists
                    &&& plan.kind.supports(plan.flavor)
                    &&& run@.wf()
                    &&& run@.kind == plan.kind
                    &&& run@.setup.flavor == plan.flavor
                    &&& run@.setup.path@ == plan.path@
                    &&& run@.setup.txn_set == plan.set
                    &&& run@.setup.shard_type == plan.shard_type
                    &&& run@.open_slots == Seq::new(12, |k: int| false)
                    &&& run@.accounts == Seq::<Seq<char>>::empty()
                    &&& run@.commodities == Seq::<Seq<char>>::empty()
                    &&& run@.next == 1
                    &&& run@.times == Seq::<Civil>::empty()
                },
                Err(e) => if !JournalSetup::compatible(plan.flavor, plan.shard_type) {
                    e.is(
                        ErrorKind::IncompatibleConfiguration,
                        JournalSetup::incompatible_text(plan.flavor, plan.shard_type),
                    )
                } else if plan.shard_type != ShardType::Single && target_exists {
                    e.is(
                        ErrorKind::PathConflict,
                        JournalWriter::exists_text(
                            JournalWriter::target_text(plan.path@, plan.set, plan.shard_type),
                        ),
                    )
                } else {
                    &&& !plan.kind.supports(plan.flavor)
                    &&& e.is(ErrorKind::OperationNotSupported, plan.kind.unsupported_text())
                },
            },
    {
        let writer = match JournalWriter::try_new(
            plan.flavor,
            plan.path.as_str(),
            plan.set,
            plan.shard_type,
            target_exists,
        ) {
            Ok(writer) => writer,
            Err(e) => {
                return Err(e);
            },
        };
        match plan.kind {
            RunKind::Audit => {
                if plan.flavor != JournalFlavor::Tackler {
                    return Err(
                        GenError::new(
                            ErrorKind::OperationNotSupported,
                            "Audit mode is implemented for Tackler only".to_owned(),
                        ),
                    );
                }
            },
            RunKind::Plain => {
                if plan.flavor == JournalFlavor::Beancount {
                    return Err(
                        GenError::new(
                            ErrorKind::OperationNotSupported,
                            "Plain mode for Beancount is not implemented, use 'comm' mode instead".to_owned(),
                        ),
                    );
                }
            },
            RunKind::Comm => {},
        }
        let accounts = NameSet::new();
        let commodities = NameSet::new();
        assert(accounts@.to_set() =~= Set::<Seq<char>>::empty());
        assert(commodities@.to_set() =~= Set::<Seq<char>>::empty());
        Ok(
            Run {
                kind: plan.kind,
                writer,
                accounts,
                commodities,
                next: 1,
                times: Ghost(Seq::empty()),
            },
        )
    }

    /// The setup of the run.
    pub fn setup(&self) -> (setup: &JournalSetup)
        ensures
            *setup == self@.setup,
    {
        &self.writer.setup
    }

    /// The number of the next transaction.
    pub fn next_index(&self) -> (index: u32)
        ensures
            index == self@.next,
    {
        self.next
    }

    /// Whether transactions are left to generate.
    pub fn has_next(&self) -> (r: bool)
        ensures
            r == self@.has_next(),
    {
        self.next <= self.writer.setup.txn_set.size()
    }

    /// The accounts referred to so far.
    pub fn accounts(&self) -> (accounts: &NameSet)
        ensures
            accounts@ == self@.accounts,
    {
        &self.accounts
    }

    /// The commodities referred to so far.
    pub fn commodities(&self) -> (commodities: &NameSet)
        ensures
            commodities@ == self@.commodities,
    {
        &self.commodities
    }

    /// What goes before the first transaction: a journal with commodities
    /// in a flavor other than Tackler takes in its chart of accounts. `ts`
    /// is the time of the first transaction.
    pub fn preamble(&mut self, ts: &TxnTime) -> (r: Option<WriteOp>)
        requires
            old(self)@.wf(),
        ensures
            final(self)@.wf(),
            final(self)@.kind == old(self)@.kind,
            final(self)@.setup == old(self)@.setup,
            final(self)@.accounts == old(self)@.accounts,
            final(self)@.commodities == old(self)@.commodities,
            final(self)@.next == old(self)@.next,
            final(self)@.times == old(self)@.times,
            match r {
                Some(op) => {
                    let setup = old(self)@.setup;
                    &&& old(self)@.kind == RunKind::Comm
                    &&& setup.flavor != JournalFlavor::Tackler
                    &&& op.text@ == include_text(setup.flavor, setup.accounts_file_text())
                    &&& final(self)@.open_slots == after_write(old(self)@.open_slots, Some(0usize))
                    &&& route_of(setup, old(self)@.open_slots, ts@, 0) == Some(op.target@)
                },
                None => {
                    &&& !(old(self)@.kind == RunKind::Comm && old(self)@.setup.flavor
                        != JournalFlavor::Tackler)
                    &&& final(self)@.open_slots == old(self)@.open_slots
                },
            },
    {
        if self.kind != RunKind::Comm || self.writer.setup.flavor == JournalFlavor::Tackler {
            return None;
        }
        let mut text = String::new();
        let name = self.writer.setup.chart_of_accounts_file();
        match self.writer.setup.flavor {
            JournalFlavor::Beancount => {
                text.append("include \"../conf/");
                text.append(name.as_str());
                text.append("\"\n\n");
            },
            _ => {
                text.append("include ../conf/");
                text.append(name.as_str());
                text.append("\n\n");
            },
        }
        assert(text@ =~= include_text(
            self.writer.setup.flavor,
            self.writer.setup.accounts_file_text(),
        ));
        match self.writer.write_txn(ts, 0, text.as_str()) {
            Ok(op) => Some(op),
            Err(_) => {
                // Only a transaction with a file of its own can fail to get
                // its path, and only Tackler has such files.
                assert(false);
                None
            },
        }
    }

    /// Renders the transaction of the next number.
    fn render(&self, ts: &TxnTime) -> (r: Result<(String, TxnAccComm), GenError>)
        requires
            self@.wf(),
        ensures
            match r {
                Ok(txn) => {
                    &&& txn_text(
                        self@.kind,
                        self@.setup.flavor,
                        self@.setup.txn_set,
                        ts@,
                        self@.next as u32,
                    ) == Some(txn.0@)
                    &&& txn.1.account_texts() == txn_accounts(self@.kind, self@.setup.flavor, ts@)
                    &&& txn.1.commodity_texts() == txn_commodities(self@.kind, ts@)
                },
                Err(e) => {
                    &&& txn_text(
                        self@.kind,
                        self@.setup.flavor,
                        self@.setup.txn_set,
                        ts@,
                        self@.next as u32,
                    ) is None
                    &&& e.is(ErrorKind::InvalidArgument, time_format_text())
                },
            },
    {
        let set = &self.writer.setup.txn_set;
        proof {
            reveal(txn_accounts);
        }
        match self.kind {
            RunKind::Audit => Tackler::audit_txn(set, ts, self.next),
            RunKind::Plain => {
                let txn = match self.writer.setup.flavor {
                    JournalFlavor::Ledger => Ledger::plain_txn(set, ts, self.next),
                    _ => Tackler::plain_txn(set, ts, self.next),
                };
                let refs = TxnAccComm { accounts: Vec::new(), commodities: Vec::new() };
                assert(refs.account_texts() =~= Seq::<Seq<char>>::empty());
                assert(refs.commodity_texts() =~= Seq::<Seq<char>>::empty());
                match txn {
                    Ok(txn) => Ok((txn, refs)),
                    Err(e) => {
                        assert(false);
                        Err(e)
                    },
                }
            },
            RunKind::Comm => match self.writer.setup.flavor {
                JournalFlavor::Tackler => Tackler::commodity_txn(set, ts, self.next),
                JournalFlavor::Ledger => Ledger::commodity_txn(set, ts, self.next),
                JournalFlavor::Beancount => Beancount::commodity_txn(set, ts, self.next),
            },
        }
    }

    /// Generates the next transaction, `ts` being its time: renders it,
    /// says where it is written, and adds what it refers to to the charts.
    /// The text depends on nothing but the kind of the run, its flavor, the
    /// size of the set, the time and the number. The step fails exactly
    /// where the transaction has no text or can go nowhere, which is where
    /// its time cannot be written out; the run is then as it was.
    pub fn next_txn(&mut self, ts: &TxnTime) -> (r: Result<WriteOp, GenError>)
        requires
            old(self)@.wf(),
            old(self)@.has_next(),
        ensures
            final(self)@.wf(),
            final(self)@.kind == old(self)@.kind,
            final(self)@.setup == old(self)@.setup,
            match r {
                Ok(op) => steps(old(self)@, ts@, final(self)@, op@),
                Err(e) => {
                    &&& step_fails(old(self)@, ts@)
                    &&& e.is(ErrorKind::InvalidArgument, time_format_text())
                    &&& final(self)@ == old(self)@
                },
            },
    {
        let (text, refs) = match self.render(ts) {
            Ok(txn) => txn,
            Err(e) => {
                return Err(e);
            },
        };
        let target = match self.writer.journal_writer(ts, self.next) {
            Ok(target) => target,
            Err(e) => {
                assert(self@ =~= old(self)@);
                return Err(e);
            },
        };
        self.accounts.extend(&refs.accounts);
        self.commodities.extend(&refs.commodities);
        self.next = self.next + 1;
        proof {
            let times = self.times@.push(ts@);
            assert(times.drop_last() =~= self.times@);
            assert(times.last() == ts@);
            self.times@ = times;
        }
        Ok(WriteOp { target, text })
    }

    /// Closes the run: says which files are written at its end, in order,
    /// each to be created. The charts hold every account and commodity
    /// that a transaction referred to once, in the order of strings.
    pub fn finish(&mut self) -> (ops: Vec<WriteOp>)
        requires
            old(self)@.wf(),
        ensures
            final(self)@ == old(self)@,
            ops@.len() == closing_files(old(self)@).len(),
            forall|i: int|
                0 <= i < ops@.len() ==> writes_file(#[trigger] ops@[i], closing_files(old(self)@)[i]),
    {
        let mut ops: Vec<WriteOp> = Vec::new();
        let flavor = self.writer.setup.flavor;
        let strict_mode = self.kind != RunKind::Plain;
        let audit_mode = self.kind == RunKind::Audit;
        let with_charts = self.kind != RunKind::Plain;
        let ghost files = closing_files(self@);
        if flavor == JournalFlavor::Tackler && self.kind != RunKind::Audit {
            let config = match Tackler::config(strict_mode, audit_mode, &self.writer.setup) {
                Ok(config) => config,
                Err(_) => {
                    assert(false);
                    String::new()
                },
            };
            let op = self.writer.write_config(config.as_str());
            ops.push(op);
        }
        if with_charts {
            let chart = match flavor {
                JournalFlavor::Tackler => Tackler::chart_of_accounts(&self.accounts),
                JournalFlavor::Ledger => Ledger::chart_of_accounts(&self.accounts),
                JournalFlavor::Beancount => Beancount::chart_of_accounts(&self.accounts),
            };
            let chart = match chart {
                Ok(chart) => chart,
                Err(_) => {
                    assert(false);
                    String::new()
                },
            };
            let op = self.writer.write_chart_of_accounts(chart.as_str());
            ops.push(op);
            if flavor == JournalFlavor::Tackler {
                let chart = match Tackler::chart_of_commodities(&self.commodities) {
                    Ok(chart) => chart,
                    Err(_) => {
                        assert(false);
                        String::new()
                    },
                };
                let op = self.writer.write_chart_of_commodities(chart.as_str());
                ops.push(op);
            }
        }
        if self.kind == RunKind::Audit {
            let config = match Tackler::config(strict_mode, audit_mode, &self.writer.setup) {
                Ok(config) => config,
                Err(_) => {
                    assert(false);
                    String::new()
                },
            };
            let op = self.writer.write_config(config.as_str());
            ops.push(op);
        }
        assert(self@ =~= old(self)@);
        assert(ops@.len() == files.len());
        ops
    }

    /// What the user is told when the run is done: which set was made,
    /// where it is, and for Tackler how to try it.
    pub fn summary(&self) -> (msg: String)
        ensures
            msg@ == summary_text(self@.setup),
    {
        let setup = &self.writer.setup;
        let mut msg = String::new();
        msg.append("Created ");
        msg.append(setup.txn_set.label());
        msg.append(" test set\n");
        if setup.flavor == JournalFlavor::Tackler {
            msg.append("Test set is located at: ");
            msg.append(setup.txn_set_path().as_str());
            msg.append("\n");
            msg.append("You can test it with command:\n\n");
            msg.append("   tackler --config ");
            msg.append(setup.config_path().1.as_str());
            msg.append("\n");
            assert(msg@ =~= summary_text(self@.setup));
        } else {
            msg.append("Test journal is located at: ");
            msg.append(setup.txn_set_path().as_str());
            msg.append("/txns\n");
            assert(msg@ =~= summary_text(self@.setup));
        }
        msg
    }
}

} // verus!
