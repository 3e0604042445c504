//! The two upstream query capabilities, and scripted stand-ins for them.
//!
//! A client handle is owned by the caller and lent to each query; the
//! query layer never creates or closes one. Each capability carries two
//! ghost views of its endpoint: the history of responses already produced,
//! oldest first, and the plan of responses still to come, next first. An
//! attempt serves the head of the plan and appends it to the history. The
//! plan is a model, not a promise of availability: an endpoint that is
//! down forever is one whose plan holds failures at every index.
//!
//! The scripted clients answer from a caller-given list of responses and
//! then fail every further attempt, which is how a harness builds an
//! endpoint that is down, flaky, or healthy.

use crate::account::AccountIdentifier;
use crate::chain_id::ChainIdentifier;
use crate::error::QueryError;
use crate::retry::outcome_of;
use vstd::prelude::*;

verus! {

/// The contract-chain node capability: block number and chain identifier.
pub trait ChainANodeClient: Sized {
    /// The responses every block-number attempt has produced, oldest first.
    spec fn block_number_history(&self) -> Seq<Result<u64, Seq<char>>>;

    /// The responses every chain-identifier attempt has produced, oldest
    /// first.
    spec fn chain_id_history(&self) -> Seq<Result<ChainIdentifier, Seq<char>>>;

    /// The response the k-th block-number attempt from now will produce.
    spec fn planned_block_number(&self, k: nat) -> Result<u64, Seq<char>>;

    /// The response the k-th chain-identifier attempt from now will
    /// produce.
    spec fn planned_chain_id(&self, k: nat) -> Result<ChainIdentifier, Seq<char>>;

    /// One attempt to read the current block number.
    fn get_block_number(&mut self) -> (r: Result<u64, QueryError>)
        ensures
            final(self).block_number_history() == old(self).block_number_history().push(
                outcome_of(r),
            ),
            outcome_of(r) == old(self).planned_block_number(0),
            forall|k: nat| #[trigger]
                final(self).planned_block_number(k) == old(self).planned_block_number(k + 1),
            final(self).chain_id_history() == old(self).chain_id_history(),
            forall|k: nat| #[trigger]
                final(self).planned_chain_id(k) == old(self).planned_chain_id(k),
    ;

    /// One attempt to read the chain identifier.
    fn get_chain_id(&mut self) -> (r: Result<ChainIdentifier, QueryError>)
        ensures
            final(self).chain_id_history() == old(self).chain_id_history().push(outcome_of(r)),
            outcome_of(r) == old(self).planned_chain_id(0),
            forall|k: nat| #[trigger]
                final(self).planned_chain_id(k) == old(self).planned_chain_id(k + 1),
            final(self).block_number_history() == old(self).block_number_history(),
            forall|k: nat| #[trigger]
                final(self).planned_block_number(k) == old(self).planned_block_number(k),
    ;
}

/// The ledger query capability: last processed event nonce per account.
pub trait ChainBQueryClient: Sized {
    /// The responses every event-nonce attempt has produced, oldest first.
    spec fn event_nonce_history(&self) -> Seq<Result<u64, Seq<char>>>;

    /// The account each event-nonce attempt asked about, oldest first.
    spec fn queried_accounts(&self) -> Seq<Seq<char>>;

    /// The response the k-th event-nonce attempt from now will produce.
    spec fn planned_event_nonce(&self, k: nat) -> Result<u64, Seq<char>>;

    /// One attempt to read the last processed event nonce for an account.
    fn get_last_event_nonce(&mut self, account: &AccountIdentifier) -> (r: Result<
        u64,
        QueryError,
    >)
        ensures
            final(self).event_nonce_history() == old(self).event_nonce_history().push(
                outcome_of(r),
            ),
            final(self).queried_accounts() == old(self).queried_accounts().push(account@),
            outcome_of(r) == old(self).planned_event_nonce(0),
            forall|k: nat| #[trigger]
                final(self).planned_event_nonce(k) == old(self).planned_event_nonce(k + 1),
    ;
}

/// The detail text of the failure served once a script has run out.
pub open spec fn script_exhausted_text() -> Seq<char> {
    "scripted endpoint has no responses left"@
}

/// The plan a script gives rise to: the scripted responses in order, then
/// the exhausted-script failure at every later index.
pub open spec fn script_plan<V>(responses: Seq<Result<V, QueryError>>, k: nat) -> Result<
    V,
    Seq<char>,
> {
    if k < responses.len() {
        outcome_of(responses[k as int])
    } else {
        Err(script_exhausted_text())
    }
}

fn script_exhausted_error() -> (r: QueryError)
    ensures
        r.detail@ == script_exhausted_text(),
{
    QueryError::new("scripted endpoint has no responses left".to_owned())
}

/// A contract-chain client that answers each query kind from a scripted
/// list of responses, then fails every further attempt.
pub struct ScriptedChainANode {
    block_number_responses: Vec<Result<u64, QueryError>>,
    chain_id_responses: Vec<Result<ChainIdentifier, QueryError>>,
    block_history: Ghost<Seq<Result<u64, Seq<char>>>>,
    chain_history: Ghost<Seq<Result<ChainIdentifier, Seq<char>>>>,
}

impl ScriptedChainANode {
    /// A client that will serve the given responses in order, each query
    /// kind from its own script.
    pub fn new(
        block_number_responses: Vec<Result<u64, QueryError>>,
        chain_id_responses: Vec<Result<ChainIdentifier, QueryError>>,
    ) -> (c: ScriptedChainANode)
        ensures
            c.block_number_history() == Seq::<Result<u64, Seq<char>>>::empty(),
            c.chain_id_history() == Seq::<Result<ChainIdentifier, Seq<char>>>::empty(),
            forall|k: nat| #[trigger]
                c.planned_block_number(k) == script_plan(block_number_responses@, k),
            forall|k: nat| #[trigger]
                c.planned_chain_id(k) == script_plan(chain_id_responses@, k),
    {
        ScriptedChainANode {
            block_number_responses,
            chain_id_responses,
            block_history: Ghost(Seq::empty()),
            chain_history: Ghost(Seq::empty()),
        }
    }
}

impl ChainANodeClient for ScriptedChainANode {
    closed spec fn block_number_history(&self) -> Seq<Result<u64, Seq<char>>> {
        self.block_history@
    }

    closed spec fn chain_id_history(&self) -> Seq<Result<ChainIdentifier, Seq<char>>> {
        self.chain_history@
    }

    closed spec fn planned_block_number(&self, k: nat) -> Result<u64, Seq<char>> {
        script_plan(self.block_number_responses@, k)
    }

    closed spec fn planned_chain_id(&self, k: nat) -> Result<ChainIdentifier, Seq<char>> {
        script_plan(self.chain_id_responses@, k)
    }

    fn get_block_number(&mut self) -> (r: Result<u64, QueryError>) {
        let r: Result<u64, QueryError> = if self.block_number_responses.len() > 0 {
            self.block_number_responses.remove(0)
        } else {
            Err(script_exhausted_error())
        };
        self.block_history = Ghost(self.block_history@.push(outcome_of(r)));
        proof {
            assert forall|k: nat| #[trigger]
                self.planned_block_number(k) == old(self).planned_block_number(k + 1) by {
                if old(self).block_number_responses@.len() > 0 {
                    assert(self.block_number_responses@ == old(
                        self,
                    ).block_number_responses@.remove(0));
                }
            }
        }
        r
    }

    fn get_chain_id(&mut self) -> (r: Result<ChainIdentifier, QueryError>) {
        let r: Result<ChainIdentifier, QueryError> = if self.chain_id_responses.len() > 0 {
            self.chain_id_responses.remove(0)
        } else {
            Err(script_exhausted_error())
        };
        self.chain_history = Ghost(self.chain_history@.push(outcome_of(r)));
        proof {
            assert forall|k: nat| #[trigger]
                self.planned_chain_id(k) == old(self).planned_chain_id(k + 1) by {
                if old(self).chain_id_responses@.len() > 0 {
                    assert(self.chain_id_responses@ == old(self).chain_id_responses@.remove(0));
                }
            }
        }
        r
    }
}

/// A ledger client that answers event-nonce queries from a scripted list
/// of responses, then fails every further attempt.
pub struct ScriptedChainBQuery {
    nonce_responses: Vec<Result<u64, QueryError>>,
    nonce_history: Ghost<Seq<Result<u64, Seq<char>>>>,
    accounts: Ghost<Seq<Seq<char>>>,
}

impl ScriptedChainBQuery {
    /// A client that will serve the given responses in order.
    pub fn new(nonce_responses: Vec<Result<u64, QueryError>>) -> (c: ScriptedChainBQuery)
        ensures
            c.event_nonce_history() == Seq::<Result<u64, Seq<char>>>::empty(),
            c.queried_accounts() == Seq::<Seq<char>>::empty(),
            forall|k: nat| #[trigger]
                c.planned_event_nonce(k) == script_plan(nonce_responses@, k),
    {
        ScriptedChainBQuery {
            nonce_responses,
            nonce_history: Ghost(Seq::empty()),
            accounts: Ghost(Seq::empty()),
        }
    }
}

impl ChainBQueryClient for ScriptedChainBQuery {
    closed spec fn event_nonce_history(&self) -> Seq<Result<u64, Seq<char>>> {
        self.nonce_history@
    }

    closed spec fn queried_accounts(&self) -> Seq<Seq<char>> {
        self.accounts@
    }

    closed spec fn planned_event_nonce(&self, k: nat) -> Result<u64, Seq<char>> {
        script_plan(self.nonce_responses@, k)
    }

    fn get_last_event_nonce(&mut self, account: &AccountIdentifier) -> (r: Result<
        u64,
        QueryError,
    >) {
        let r: Result<u64, QueryError> = if self.nonce_responses.len() > 0 {
            self.nonce_responses.remove(0)
        } else {
            Err(script_exhausted_error())
        };
        self.nonce_history = Ghost(self.nonce_history@.push(outcome_of(r)));
        self.accounts = Ghost(self.accounts@.push(account@));
        proof {
            assert forall|k: nat| #[trigger]
                self.planned_event_nonce(k) == old(self).planned_event_nonce(k + 1) by {
                if old(self).nonce_responses@.len() > 0 {
                    assert(self.nonce_responses@ == old(self).nonce_responses@.remove(0));
                }
            }
        }
        r
    }
}

} // verus!
