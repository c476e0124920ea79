//! The fallback chain of one resolution: memo, account-quota strategy,
//! billing strategy, durable record. The resolver decides; its driver
//! performs each action it asks for and hands back what came of it.

use vstd::prelude::*;
use crate::api::{ApiConfig, BalanceData};
use crate::cache::{cache_key, identity_key, MemoCache};
use crate::client::BalanceError;

verus! {

/// Where a resolution stands.
#[derive(Clone, Copy, Debug, PartialEq, Eq, Structural)]
pub enum Phase {
    Start,
    AwaitAccountQuota,
    AwaitBilling,
    AwaitDurable,
    Finished,
}

/// What the driver hands to the resolver.
#[derive(Debug)]
pub enum Event {
    /// The resolution begins.
    Begin,
    /// The outcome of the query that the resolver asked for.
    Fetched(Result<BalanceData, BalanceError>),
    /// The durable record of this key, if one could be read.
    DurableRead(Option<BalanceData>),
}

/// What the resolver asks of the driver.
#[derive(Clone, Copy, Debug, PartialEq, Eq, Structural)]
pub enum Action {
    /// Send the account-quota query.
    QueryAccountQuota,
    /// Send the two billing queries.
    QueryBilling,
    /// Read the durable record of this key.
    ReadDurable,
    /// The balance is `data`; when `persist`, store it as the durable record.
    Deliver { data: BalanceData, persist: bool },
    /// No balance can be had; the statusline shows nothing for it.
    Unavailable,
}

/// The resolver as the contracts see it.
pub struct ResolverState {
    pub key: Option<Seq<u8>>,
    pub account_quota: bool,
    pub phase: Phase,
}

/// The memo after `d` is settled on for `key`.
pub open spec fn remember(
    memo: Map<Seq<u8>, BalanceData>,
    key: Option<Seq<u8>>,
    d: BalanceData,
) -> Map<Seq<u8>, BalanceData> {
    match key {
        Some(k) => memo.insert(k, d),
        None => memo,
    }
}

/// One step of the fallback chain: the next state, the memo after it and the
/// action asked for.
pub open spec fn transition(
    s: ResolverState,
    memo: Map<Seq<u8>, BalanceData>,
    event: Event,
) -> (ResolverState, Map<Seq<u8>, BalanceData>, Action) {
    let finished = ResolverState { phase: Phase::Finished, ..s };
    match (s.phase, event) {
        (Phase::Start, Event::Begin) => {
            if s.key is None {
                (finished, memo, Action::Unavailable)
            } else if memo.contains_key(s.key->0) {
                (finished, memo, Action::Deliver { data: memo[s.key->0], persist: false })
            } else if s.account_quota {
                (ResolverState { phase: Phase::AwaitAccountQuota, ..s }, memo, Action::QueryAccountQuota)
            } else {
                (ResolverState { phase: Phase::AwaitBilling, ..s }, memo, Action::QueryBilling)
            }
        },
        (Phase::AwaitAccountQuota, Event::Fetched(Ok(d))) | (Phase::AwaitBilling, Event::Fetched(Ok(d))) => {
            (finished, remember(memo, s.key, d), Action::Deliver { data: d, persist: true })
        },
        (Phase::AwaitAccountQuota, Event::Fetched(Err(_))) => {
            (ResolverState { phase: Phase::AwaitBilling, ..s }, memo, Action::QueryBilling)
        },
        (Phase::AwaitBilling, Event::Fetched(Err(_))) => {
            (ResolverState { phase: Phase::AwaitDurable, ..s }, memo, Action::ReadDurable)
        },
        (Phase::AwaitDurable, Event::DurableRead(Some(d))) => {
            (finished, remember(memo, s.key, d), Action::Deliver { data: d, persist: false })
        },
        _ => (finished, memo, Action::Unavailable),
    }
}

/// The state of a resolution that is about to begin.
pub open spec fn start_state(key: Option<Seq<u8>>, account_quota: bool) -> ResolverState {
    ResolverState { key, account_quota, phase: Phase::Start }
}

/// The states, memo and actions of a run of events from `s`.
pub open spec fn run(
    s: ResolverState,
    memo: Map<Seq<u8>, BalanceData>,
    events: Seq<Event>,
) -> (ResolverState, Map<Seq<u8>, BalanceData>, Seq<Action>)
    decreases events.len(),
{
    if events.len() == 0 {
        (s, memo, Seq::empty())
    } else {
        let (s1, m1, a) = transition(s, memo, events[0]);
        let (s2, m2, rest) = run(s1, m1, events.drop_first());
        (s2, m2, seq![a] + rest)
    }
}

/// Once a resolution has settled on a balance, a later resolution of the
/// same account in this process returns that balance from the memo at once,
/// asking for no query and no read.
pub proof fn lemma_memo_idempotent(
    s: ResolverState,
    memo: Map<Seq<u8>, BalanceData>,
    event: Event,
    account_quota: bool,
)
    requires
        s.key is Some,
        transition(s, memo, event).2 is Deliver,
    ensures
        ({
            let (_, settled, action) = transition(s, memo, event);
            let (_, after, again) = transition(start_state(s.key, account_quota), settled, Event::Begin);
            &&& after == settled
            &&& match action {
                Action::Deliver { data, .. } => again == Action::Deliver { data, persist: false },
                _ => false,
            }
        }),
{
}

/// When both strategies fail and a durable record exists, the resolution
/// returns the record's balance, and does not ask to store it again.
pub proof fn lemma_durable_fallback(
    key: Seq<u8>,
    memo: Map<Seq<u8>, BalanceData>,
    quota_error: BalanceError,
    billing_error: BalanceError,
    stored: BalanceData,
)
    requires
        !memo.contains_key(key),
    ensures
        run(
            start_state(Some(key), true),
            memo,
            seq![
                Event::Begin,
                Event::Fetched(Err(quota_error)),
                Event::Fetched(Err(billing_error)),
                Event::DurableRead(Some(stored)),
            ],
        ).2 == seq![
            Action::QueryAccountQuota,
            Action::QueryBilling,
            Action::ReadDurable,
            Action::Deliver { data: stored, persist: false },
        ],
        run(
            start_state(Some(key), false),
            memo,
            seq![Event::Begin, Event::Fetched(Err(billing_error)), Event::DurableRead(Some(stored))],
        ).2 == seq![Action::QueryBilling, Action::ReadDurable, Action::Deliver { data: stored, persist: false }],
{
    reveal_with_fuel(run, 5);
    let e1 = seq![
        Event::Begin,
        Event::Fetched(Err(quota_error)),
        Event::Fetched(Err(billing_error)),
        Event::DurableRead(Some(stored)),
    ];
    assert(e1.drop_first() =~= seq![Event::Fetched(Err(quota_error)), Event::Fetched(Err(billing_error)), Event::DurableRead(Some(stored))]);
    assert(e1.drop_first().drop_first() =~= seq![Event::Fetched(Err(billing_error)), Event::DurableRead(Some(stored))]);
    assert(e1.drop_first().drop_first().drop_first() =~= seq![Event::DurableRead(Some(stored))]);
    assert(seq![Event::DurableRead(Some(stored))].drop_first() =~= Seq::<Event>::empty());
    let e2 = seq![Event::Begin, Event::Fetched(Err(billing_error)), Event::DurableRead(Some(stored))];
    assert(e2.drop_first() =~= seq![Event::Fetched(Err(billing_error)), Event::DurableRead(Some(stored))]);
    assert(run(start_state(Some(key), true), memo, e1).2 =~= seq![
        Action::QueryAccountQuota,
        Action::QueryBilling,
        Action::ReadDurable,
        Action::Deliver { data: stored, persist: false },
    ]);
    assert(run(start_state(Some(key), false), memo, e2).2 =~= seq![
        Action::QueryBilling,
        Action::ReadDurable,
        Action::Deliver { data: stored, persist: false },
    ]);
}

/// Without an account identity the resolution is unavailable at once,
/// before any query or cache access; with one, when both strategies fail
/// and no durable record exists, it ends unavailable too.
pub proof fn lemma_unavailable(
    key: Seq<u8>,
    memo: Map<Seq<u8>, BalanceData>,
    account_quota: bool,
    billing_error: BalanceError,
)
    requires
        !memo.contains_key(key),
    ensures
        run(start_state(None, account_quota), memo, seq![Event::Begin]).2 == seq![Action::Unavailable],
        run(start_state(None, account_quota), memo, seq![Event::Begin]).1 == memo,
        run(
            start_state(Some(key), false),
            memo,
            seq![Event::Begin, Event::Fetched(Err(billing_error)), Event::DurableRead(None)],
        ).2 == seq![Action::QueryBilling, Action::ReadDurable, Action::Unavailable],
{
    reveal_with_fuel(run, 4);
    assert(seq![Event::Begin].drop_first() =~= Seq::<Event>::empty());
    let e = seq![Event::Begin, Event::Fetched(Err(billing_error)), Event::DurableRead(None)];
    assert(e.drop_first() =~= seq![Event::Fetched(Err(billing_error)), Event::DurableRead(None)]);
    assert(e.drop_first().drop_first() =~= seq![Event::DurableRead(None)]);
    assert(seq![Event::DurableRead(None)].drop_first() =~= Seq::<Event>::empty());
    assert(run(start_state(None, account_quota), memo, seq![Event::Begin]).2 =~= seq![Action::Unavailable]);
    assert(run(start_state(Some(key), false), memo, e).2 =~= seq![Action::QueryBilling, Action::ReadDurable, Action::Unavailable]);
}

/// Resolution of one account's balance.
pub struct BalanceResolver {
    key: Option<Vec<u8>>,
    account_quota: bool,
    phase: Phase,
}

impl BalanceResolver {
    pub closed spec fn view(&self) -> ResolverState {
        ResolverState {
            key: match self.key {
                Some(k) => Some(k@),
                None => None,
            },
            account_quota: self.account_quota,
            phase: self.phase,
        }
    }

    /// A resolution for the account that `identity` names, if any; the
    /// account-quota strategy is tried first when `account_quota` is set.
    pub fn new(identity: Option<&ApiConfig>, account_quota: bool) -> (r: BalanceResolver)
        ensures
            r.view() == start_state(
                match identity {
                    Some(c) => Some(identity_key(c.api_base_url@, c.api_key@)),
                    None => None,
                },
                account_quota,
            ),
    {
        let key = match identity {
            Some(c) => Some(cache_key(c)),
            None => None,
        };
        BalanceResolver { key, account_quota, phase: Phase::Start }
    }

    /// Whether the resolution is over.
    pub fn is_finished(&self) -> (r: bool)
        ensures
            r == (self.view().phase == Phase::Finished),
    {
        self.phase == Phase::Finished
    }

    /// The cache key of the account, if any.
    pub fn key(&self) -> (r: Option<&Vec<u8>>)
        ensures
            match r {
                Some(k) => self.view().key == Some(k@),
                None => self.view().key is None,
            },
    {
        match &self.key {
            Some(k) => Some(k),
            None => None,
        }
    }

    /// Takes one event and says what to do next; a value that the chain
    /// settles on is written into the memo.
    pub fn step(&mut self, memo: &mut MemoCache, event: Event) -> (r: Action)
        ensures
            (final(self).view(), final(memo).view(), r) == transition(old(self).view(), old(memo).view(), event),
    {
        match (self.phase, event) {
            (Phase::Start, Event::Begin) => {
                match &self.key {
                    None => {
                        self.phase = Phase::Finished;
                        Action::Unavailable
                    },
                    Some(k) => {
                        match memo.get_memo(k) {
                            Some(d) => {
                                self.phase = Phase::Finished;
                                Action::Deliver { data: d, persist: false }
                            },
                            None => {
                                if self.account_quota {
                                    self.phase = Phase::AwaitAccountQuota;
                                    Action::QueryAccountQuota
                                } else {
                                    self.phase = Phase::AwaitBilling;
                                    Action::QueryBilling
                                }
                            },
                        }
                    },
                }
            },
            (Phase::AwaitAccountQuota, Event::Fetched(Ok(d))) | (Phase::AwaitBilling, Event::Fetched(Ok(d))) => {
                self.phase = Phase::Finished;
                match &self.key {
                    Some(k) => memo.set_memo(k, &d),
                    None => {},
                }
                Action::Deliver { data: d, persist: true }
            },
            (Phase::AwaitAccountQuota, Event::Fetched(Err(_))) => {
                self.phase = Phase::AwaitBilling;
                Action::QueryBilling
            },
            (Phase::AwaitBilling, Event::Fetched(Err(_))) => {
                self.phase = Phase::AwaitDurable;
                Action::ReadDurable
            },
            (Phase::AwaitDurable, Event::DurableRead(Some(d))) => {
                self.phase = Phase::Finished;
                match &self.key {
                    Some(k) => memo.set_memo(k, &d),
                    None => {},
                }
                Action::Deliver { data: d, persist: false }
            },
            _ => {
                self.phase = Phase::Finished;
                Action::Unavailable
            },
        }
    }
}

} // verus!
