//! The three resilient query operations.
//!
//! Each operation composes one capability call with the stubborn-retry
//! policy: it asks the endpoint again and again until an attempt succeeds,
//! logging one diagnostic entry and suspending for the fixed delay after
//! each failure, and returns the first successful response. No operation
//! exposes an error path.
//!
//! Each operation asks of its caller that the endpoint's plan holds a
//! success somewhere: against an endpoint that fails forever the retry
//! loop would never return, and a function that may not return cannot be
//! admitted here. The attempt-limited variants carry no such condition;
//! they give up after a caller-chosen number of attempts, which is also
//! how a harness observes "no success within N attempts" without waiting
//! forever.

use crate::account::AccountIdentifier;
use crate::clients::ChainANodeClient;
use crate::clients::ChainBQueryClient;
use crate::chain_id::ChainIdentifier;
use crate::messages::block_number_failure_message;
use crate::messages::chain_id_failure_message;
use crate::messages::chain_id_failure_text;
use crate::messages::event_nonce_entry;
use crate::messages::event_nonce_failure_message;
use crate::messages::block_number_failure_text;
use crate::observe::DelayProvider;
use crate::observe::DiagnosticSink;
use crate::retry::bounded_post;
use crate::retry::fixed_entry;
use crate::retry::outcome_of;
use crate::retry::stubborn_post;
use crate::retry::RETRY_TIME_SECONDS;
use vstd::prelude::*;

verus! {

/// Gets the current block number, no matter how long it takes.
///
/// Every failed attempt logs the fixed block-number text and suspends for
/// the fixed delay; the response of the first successful attempt is
/// returned.
pub fn get_block_number_with_retry<C: ChainANodeClient, S: DiagnosticSink, D: DelayProvider>(
    eth_client: &mut C,
    diagnostics: &mut S,
    delay: &mut D,
) -> (r: u64)
    requires
        exists|k: nat| (#[trigger] old(eth_client).planned_block_number(k)) is Ok,
    ensures
        stubborn_post(
            old(eth_client).block_number_history(),
            final(eth_client).block_number_history(),
            old(diagnostics).entries(),
            final(diagnostics).entries(),
            old(delay).suspensions(),
            final(delay).suspensions(),
            fixed_entry(block_number_failure_text()),
            r,
        ),
        ({
            let n = final(eth_client).block_number_history().len() - old(
                eth_client,
            ).block_number_history().len();
            &&& (forall|j: nat|
                j < n ==> final(eth_client).block_number_history()[old(
                    eth_client,
                ).block_number_history().len() + j as int] == (#[trigger] old(
                    eth_client,
                ).planned_block_number(j)))
            &&& (forall|k: nat| #[trigger]
                final(eth_client).planned_block_number(k) == old(
                    eth_client,
                ).planned_block_number((k + n) as nat))
        }),
        final(eth_client).chain_id_history() == old(eth_client).chain_id_history(),
        forall|k: nat| #[trigger]
            final(eth_client).planned_chain_id(k) == old(eth_client).planned_chain_id(k),
{
    let ghost first_success = choose|k: nat| (old(eth_client).planned_block_number(k)) is Ok;
    let ghost history_0 = eth_client.block_number_history();
    let ghost chain_0 = eth_client.chain_id_history();
    let ghost plan_0 = *eth_client;
    let ghost logs_0 = diagnostics.entries();
    let ghost waits_0 = delay.suspensions();
    let mut res = eth_client.get_block_number();
    proof {
        assert(diagnostics.entries() =~= logs_0 + Seq::new(
            0,
            |i: int| block_number_failure_text(),
        ));
        assert(delay.suspensions() =~= waits_0 + Seq::new(0, |i: int| RETRY_TIME_SECONDS));
        assert(eth_client.block_number_history().subrange(0, history_0.len() as int)
            =~= history_0);
    }
    while res.is_err()
        invariant
            eth_client.block_number_history().len() > history_0.len(),
            eth_client.block_number_history().subrange(0, history_0.len() as int) == history_0,
            forall|i: int|
                history_0.len() <= i < eth_client.block_number_history().len() - 1
                    ==> eth_client.block_number_history()[i] is Err,
            eth_client.block_number_history().last() == outcome_of(res),
            diagnostics.entries() == logs_0 + Seq::new(
                (eth_client.block_number_history().len() - history_0.len() - 1) as nat,
                (|i: int| block_number_failure_text()),
            ),
            delay.suspensions() == waits_0 + Seq::new(
                (eth_client.block_number_history().len() - history_0.len() - 1) as nat,
                (|i: int| RETRY_TIME_SECONDS),
            ),
            eth_client.chain_id_history() == chain_0,
            forall|k: nat| #[trigger]
                eth_client.planned_chain_id(k) == plan_0.planned_chain_id(k),
            forall|j: nat|
                j < eth_client.block_number_history().len() - history_0.len()
                    ==> eth_client.block_number_history()[history_0.len() + j as int] == (#[trigger]
                plan_0.planned_block_number(j)),
            forall|k: nat| #[trigger]
                eth_client.planned_block_number(k) == plan_0.planned_block_number(
                    (k + eth_client.block_number_history().len() - history_0.len()) as nat,
                ),
            plan_0.planned_block_number(first_success) is Ok,
        decreases first_success + 1 - (eth_client.block_number_history().len()
            - history_0.len()),
    {
        proof {
            let n = eth_client.block_number_history().len() - history_0.len();
            assert forall|j: nat| j < n implies (#[trigger] plan_0.planned_block_number(
                j,
            )) is Err by {
                assert(eth_client.block_number_history()[history_0.len() + j as int]
                    == plan_0.planned_block_number(j));
                if j == n - 1 {
                    assert(eth_client.block_number_history().last() == outcome_of(res));
                    assert(history_0.len() + j as int == eth_client.block_number_history().len() - 1);
                }
            }
            assert(first_success >= n) by {
                if first_success < n {
                    assert(plan_0.planned_block_number(first_success) is Err);
                }
            }
        }
        let ghost failures = (eth_client.block_number_history().len() - history_0.len()) as nat;
        diagnostics.record_error(block_number_failure_message());
        delay.delay_seconds(RETRY_TIME_SECONDS);
        res = eth_client.get_block_number();
        proof {
            assert(diagnostics.entries() =~= logs_0 + Seq::new(
                failures,
                |i: int| block_number_failure_text(),
            ));
            assert(delay.suspensions() =~= waits_0 + Seq::new(
                failures,
                |i: int| RETRY_TIME_SECONDS,
            ));
            assert(eth_client.block_number_history().subrange(0, history_0.len() as int)
                =~= history_0);
        }
    }
    proof {
        let after = eth_client.block_number_history();
        let failures = (after.len() - history_0.len() - 1) as nat;
        assert(logs_0 + Seq::new(failures, |i: int| block_number_failure_text()) =~= logs_0
            + Seq::new(
            failures,
            |i: int| fixed_entry(block_number_failure_text())(after[history_0.len() + i]->Err_0),
        ));
    }
    res.unwrap()
}

/// Gets the chain identifier, no matter how long it takes.
///
/// Every failed attempt logs the fixed chain-identifier text and suspends for
/// the fixed delay; the response of the first successful attempt is
/// returned.
pub fn get_chain_id_with_retry<C: ChainANodeClient, S: DiagnosticSink, D: DelayProvider>(
    eth_client: &mut C,
    diagnostics: &mut S,
    delay: &mut D,
) -> (r: ChainIdentifier)
    requires
        exists|k: nat| (#[trigger] old(eth_client).planned_chain_id(k)) is Ok,
    ensures
        stubborn_post(
            old(eth_client).chain_id_history(),
            final(eth_client).chain_id_history(),
            old(diagnostics).entries(),
            final(diagnostics).entries(),
            old(delay).suspensions(),
            final(delay).suspensions(),
            fixed_entry(chain_id_failure_text()),
            r,
        ),
        ({
            let n = final(eth_client).chain_id_history().len() - old(
                eth_client,
            ).chain_id_history().len();
            &&& (forall|j: nat|
                j < n ==> final(eth_client).chain_id_history()[old(
                    eth_client,
                ).chain_id_history().len() + j as int] == (#[trigger] old(
                    eth_client,
                ).planned_chain_id(j)))
            &&& (forall|k: nat| #[trigger]
                final(eth_client).planned_chain_id(k) == old(
                    eth_client,
                ).planned_chain_id((k + n) as nat))
        }),
        final(eth_client).block_number_history() == old(eth_client).block_number_history(),
        forall|k: nat| #[trigger]
            final(eth_client).planned_block_number(k) == old(eth_client).planned_block_number(k),
{
    let ghost first_success = choose|k: nat| (old(eth_client).planned_chain_id(k)) is Ok;
    let ghost history_0 = eth_client.chain_id_history();
    let ghost chain_0 = eth_client.block_number_history();
    let ghost plan_0 = *eth_client;
    let ghost logs_0 = diagnostics.entries();
    let ghost waits_0 = delay.suspensions();
    let mut res = eth_client.get_chain_id();
    proof {
        assert(diagnostics.entries() =~= logs_0 + Seq::new(
            0,
            |i: int| chain_id_failure_text(),
        ));
        assert(delay.suspensions() =~= waits_0 + Seq::new(0, |i: int| RETRY_TIME_SECONDS));
        assert(eth_client.chain_id_history().subrange(0, history_0.len() as int)
            =~= history_0);
    }
    while res.is_err()
        invariant
            eth_client.chain_id_history().len() > history_0.len(),
            eth_client.chain_id_history().subrange(0, history_0.len() as int) == history_0,
            forall|i: int|
                history_0.len() <= i < eth_client.chain_id_history().len() - 1
                    ==> eth_client.chain_id_history()[i] is Err,
            eth_client.chain_id_history().last() == outcome_of(res),
            diagnostics.entries() == logs_0 + Seq::new(
                (eth_client.chain_id_history().len() - history_0.len() - 1) as nat,
                (|i: int| chain_id_failure_text()),
            ),
            delay.suspensions() == waits_0 + Seq::new(
                (eth_client.chain_id_history().len() - history_0.len() - 1) as nat,
                (|i: int| RETRY_TIME_SECONDS),
            ),
            eth_client.block_number_history() == chain_0,
            forall|k: nat| #[trigger]
                eth_client.planned_block_number(k) == plan_0.planned_block_number(k),
            forall|j: nat|
                j < eth_client.chain_id_history().len() - history_0.len()
                    ==> eth_client.chain_id_history()[history_0.len() + j as int] == (#[trigger]
                plan_0.planned_chain_id(j)),
            forall|k: nat| #[trigger]
                eth_client.planned_chain_id(k) == plan_0.planned_chain_id(
                    (k + eth_client.chain_id_history().len() - history_0.len()) as nat,
                ),
            plan_0.planned_chain_id(first_success) is Ok,
        decreases first_success + 1 - (eth_client.chain_id_history().len()
            - history_0.len()),
    {
        proof {
            let n = eth_client.chain_id_history().len() - history_0.len();
            assert forall|j: nat| j < n implies (#[trigger] plan_0.planned_chain_id(
                j,
            )) is Err by {
                assert(eth_client.chain_id_history()[history_0.len() + j as int]
                    == plan_0.planned_chain_id(j));
                if j == n - 1 {
                    assert(eth_client.chain_id_history().last() == outcome_of(res));
                    assert(history_0.len() + j as int == eth_client.chain_id_history().len() - 1);
                }
            }
            assert(first_success >= n) by {
                if first_success < n {
                    assert(plan_0.planned_chain_id(first_success) is Err);
                }
            }
        }
        let ghost failures = (eth_client.chain_id_history().len() - history_0.len()) as nat;
        diagnostics.record_error(chain_id_failure_message());
        delay.delay_seconds(RETRY_TIME_SECONDS);
        res = eth_client.get_chain_id();
        proof {
            assert(diagnostics.entries() =~= logs_0 + Seq::new(
                failures,
                |i: int| chain_id_failure_text(),
            ));
            assert(delay.suspensions() =~= waits_0 + Seq::new(
                failures,
                |i: int| RETRY_TIME_SECONDS,
            ));
            assert(eth_client.chain_id_history().subrange(0, history_0.len() as int)
                =~= history_0);
        }
    }
    proof {
        let after = eth_client.chain_id_history();
        let failures = (after.len() - history_0.len() - 1) as nat;
        assert(logs_0 + Seq::new(failures, |i: int| chain_id_failure_text()) =~= logs_0
            + Seq::new(
            failures,
            |i: int| fixed_entry(chain_id_failure_text())(after[history_0.len() + i]->Err_0),
        ));
    }
    res.unwrap()
}


/// Gets the last event nonce for an account, no matter how long it takes.
///
/// Every failed attempt logs the fixed event-nonce text with the failure
/// detail appended, and suspends for the fixed delay; the response of the
/// first successful attempt is returned. Every attempt asks about the
/// given account.
pub fn get_last_event_nonce_with_retry<C: ChainBQueryClient, S: DiagnosticSink, D: DelayProvider>(
    cosmos_client: &mut C,
    our_cosmos_address: &AccountIdentifier,
    diagnostics: &mut S,
    delay: &mut D,
) -> (r: u64)
    requires
        exists|k: nat| (#[trigger] old(cosmos_client).planned_event_nonce(k)) is Ok,
    ensures
        stubborn_post(
            old(cosmos_client).event_nonce_history(),
            final(cosmos_client).event_nonce_history(),
            old(diagnostics).entries(),
            final(diagnostics).entries(),
            old(delay).suspensions(),
            final(delay).suspensions(),
            event_nonce_entry(),
            r,
        ),
        ({
            let n = final(cosmos_client).event_nonce_history().len() - old(
                cosmos_client,
            ).event_nonce_history().len();
            &&& final(cosmos_client).queried_accounts() == old(cosmos_client).queried_accounts()
                + Seq::new(n as nat, (|i: int| our_cosmos_address@))
            &&& (forall|j: nat|
                j < n ==> final(cosmos_client).event_nonce_history()[old(
                    cosmos_client,
                ).event_nonce_history().len() + j as int] == (#[trigger] old(
                    cosmos_client,
                ).planned_event_nonce(j)))
            &&& (forall|k: nat| #[trigger]
                final(cosmos_client).planned_event_nonce(k) == old(
                    cosmos_client,
                ).planned_event_nonce((k + n) as nat))
        }),
{
    let ghost first_success = choose|k: nat| (old(cosmos_client).planned_event_nonce(k)) is Ok;
    let ghost history_0 = cosmos_client.event_nonce_history();
    let ghost accounts_0 = cosmos_client.queried_accounts();
    let ghost plan_0 = *cosmos_client;
    let ghost logs_0 = diagnostics.entries();
    let ghost waits_0 = delay.suspensions();
    let mut res = cosmos_client.get_last_event_nonce(our_cosmos_address);
    proof {
        let h = cosmos_client.event_nonce_history();
        assert(diagnostics.entries() =~= logs_0 + Seq::new(
            0,
            |i: int| event_nonce_entry()(h[history_0.len() + i]->Err_0),
        ));
        assert(delay.suspensions() =~= waits_0 + Seq::new(0, |i: int| RETRY_TIME_SECONDS));
        assert(h.subrange(0, history_0.len() as int) =~= history_0);
        assert(cosmos_client.queried_accounts() =~= accounts_0 + Seq::new(
            1,
            |i: int| our_cosmos_address@,
        ));
    }
    while res.is_err()
        invariant
            cosmos_client.event_nonce_history().len() > history_0.len(),
            cosmos_client.event_nonce_history().subrange(0, history_0.len() as int) == history_0,
            forall|i: int|
                history_0.len() <= i < cosmos_client.event_nonce_history().len() - 1
                    ==> cosmos_client.event_nonce_history()[i] is Err,
            cosmos_client.event_nonce_history().last() == outcome_of(res),
            diagnostics.entries() == logs_0 + Seq::new(
                (cosmos_client.event_nonce_history().len() - history_0.len() - 1) as nat,
                (|i: int|
                    event_nonce_entry()(
                        cosmos_client.event_nonce_history()[history_0.len() + i]->Err_0,
                    )),
            ),
            delay.suspensions() == waits_0 + Seq::new(
                (cosmos_client.event_nonce_history().len() - history_0.len() - 1) as nat,
                (|i: int| RETRY_TIME_SECONDS),
            ),
            cosmos_client.queried_accounts() == accounts_0 + Seq::new(
                (cosmos_client.event_nonce_history().len() - history_0.len()) as nat,
                (|i: int| our_cosmos_address@),
            ),
            forall|j: nat|
                j < cosmos_client.event_nonce_history().len() - history_0.len()
                    ==> cosmos_client.event_nonce_history()[history_0.len() + j as int] == (
                #[trigger] plan_0.planned_event_nonce(j)),
            forall|k: nat| #[trigger]
                cosmos_client.planned_event_nonce(k) == plan_0.planned_event_nonce(
                    (k + cosmos_client.event_nonce_history().len() - history_0.len()) as nat,
                ),
            plan_0.planned_event_nonce(first_success) is Ok,
        decreases first_success + 1 - (cosmos_client.event_nonce_history().len()
            - history_0.len()),
    {
        proof {
            let n = cosmos_client.event_nonce_history().len() - history_0.len();
            assert forall|j: nat| j < n implies (#[trigger] plan_0.planned_event_nonce(
                j,
            )) is Err by {
                assert(cosmos_client.event_nonce_history()[history_0.len() + j as int]
                    == plan_0.planned_event_nonce(j));
                if j == n - 1 {
                    assert(cosmos_client.event_nonce_history().last() == outcome_of(res));
                    assert(history_0.len() + j as int == cosmos_client.event_nonce_history().len()
                        - 1);
                }
            }
            assert(first_success >= n) by {
                if first_success < n {
                    assert(plan_0.planned_event_nonce(first_success) is Err);
                }
            }
        }
        let ghost failures = (cosmos_client.event_nonce_history().len() - history_0.len()) as nat;
        let ghost h_before = cosmos_client.event_nonce_history();
        match (&res) {
            Err(error) => {
                diagnostics.record_error(event_nonce_failure_message(error));
            },
            Ok(_) => {},
        }
        delay.delay_seconds(RETRY_TIME_SECONDS);
        res = cosmos_client.get_last_event_nonce(our_cosmos_address);
        proof {
            let h = cosmos_client.event_nonce_history();
            assert(diagnostics.entries() =~= logs_0 + Seq::new(
                failures,
                |i: int| event_nonce_entry()(h[history_0.len() + i]->Err_0),
            ));
            assert(delay.suspensions() =~= waits_0 + Seq::new(
                failures,
                |i: int| RETRY_TIME_SECONDS,
            ));
            assert(h.subrange(0, history_0.len() as int) =~= history_0);
            assert(cosmos_client.queried_accounts() =~= accounts_0 + Seq::new(
                (failures + 1) as nat,
                |i: int| our_cosmos_address@,
            ));
        }
    }
    res.unwrap()
}


/// Gets the current block number, giving up once `max_attempts` attempts
/// have all failed.
///
/// Up to the attempt budget this is the stubborn run exactly: each failed
/// attempt logs the fixed block-number text and suspends for the fixed
/// delay. It never makes more than `max_attempts` attempts, which is how
/// a caller observes "no success within N attempts" against an endpoint
/// that may be down forever.
pub fn get_block_number_with_attempt_limit<
    C: ChainANodeClient,
    S: DiagnosticSink,
    D: DelayProvider,
>(
    eth_client: &mut C,
    diagnostics: &mut S,
    delay: &mut D,
    max_attempts: u64,
) -> (r: Option<u64>)
    requires
        max_attempts >= 1,
    ensures
        bounded_post(
            old(eth_client).block_number_history(),
            final(eth_client).block_number_history(),
            old(diagnostics).entries(),
            final(diagnostics).entries(),
            old(delay).suspensions(),
            final(delay).suspensions(),
            fixed_entry(block_number_failure_text()),
            max_attempts,
            r,
        ),
        final(eth_client).chain_id_history() == old(eth_client).chain_id_history(),
        forall|k: nat| #[trigger]
            final(eth_client).planned_chain_id(k) == old(eth_client).planned_chain_id(k),
        ({
            let n = final(eth_client).block_number_history().len() - old(
                eth_client,
            ).block_number_history().len();
            &&& (forall|j: nat|
                j < n ==> final(eth_client).block_number_history()[old(
                    eth_client,
                ).block_number_history().len() + j as int] == (#[trigger] old(
                    eth_client,
                ).planned_block_number(j)))
            &&& (forall|k: nat| #[trigger]
                final(eth_client).planned_block_number(k) == old(
                    eth_client,
                ).planned_block_number((k + n) as nat))
        }),
{
    let ghost history_0 = eth_client.block_number_history();
    let ghost chain_0 = eth_client.chain_id_history();
    let ghost plan_0 = *eth_client;
    let ghost logs_0 = diagnostics.entries();
    let ghost waits_0 = delay.suspensions();
    let mut attempts: u64 = 1;
    let mut res = eth_client.get_block_number();
    proof {
        assert(diagnostics.entries() =~= logs_0 + Seq::new(
            0,
            |i: int| block_number_failure_text(),
        ));
        assert(delay.suspensions() =~= waits_0 + Seq::new(0, |i: int| RETRY_TIME_SECONDS));
        assert(eth_client.block_number_history().subrange(0, history_0.len() as int)
            =~= history_0);
    }
    while res.is_err() && attempts < max_attempts
        invariant
            1 <= attempts <= max_attempts,
            attempts as int == eth_client.block_number_history().len() - history_0.len(),
            eth_client.block_number_history().subrange(0, history_0.len() as int) == history_0,
            forall|i: int|
                history_0.len() <= i < eth_client.block_number_history().len() - 1
                    ==> eth_client.block_number_history()[i] is Err,
            eth_client.block_number_history().last() == outcome_of(res),
            diagnostics.entries() == logs_0 + Seq::new(
                (eth_client.block_number_history().len() - history_0.len() - 1) as nat,
                (|i: int| block_number_failure_text()),
            ),
            delay.suspensions() == waits_0 + Seq::new(
                (eth_client.block_number_history().len() - history_0.len() - 1) as nat,
                (|i: int| RETRY_TIME_SECONDS),
            ),
            eth_client.chain_id_history() == chain_0,
            forall|k: nat| #[trigger]
                eth_client.planned_chain_id(k) == plan_0.planned_chain_id(k),
            forall|j: nat|
                j < eth_client.block_number_history().len() - history_0.len()
                    ==> eth_client.block_number_history()[history_0.len() + j as int] == (
                #[trigger] plan_0.planned_block_number(j)),
            forall|k: nat| #[trigger]
                eth_client.planned_block_number(k) == plan_0.planned_block_number(
                    (k + eth_client.block_number_history().len() - history_0.len()) as nat,
                ),
        decreases max_attempts - attempts,
    {
        let ghost failures = (eth_client.block_number_history().len() - history_0.len()) as nat;
        diagnostics.record_error(block_number_failure_message());
        delay.delay_seconds(RETRY_TIME_SECONDS);
        res = eth_client.get_block_number();
        attempts = attempts + 1;
        proof {
            assert(diagnostics.entries() =~= logs_0 + Seq::new(
                failures,
                |i: int| block_number_failure_text(),
            ));
            assert(delay.suspensions() =~= waits_0 + Seq::new(
                failures,
                |i: int| RETRY_TIME_SECONDS,
            ));
            assert(eth_client.block_number_history().subrange(0, history_0.len() as int)
                =~= history_0);
        }
    }
    if res.is_err() {
        diagnostics.record_error(block_number_failure_message());
        delay.delay_seconds(RETRY_TIME_SECONDS);
        proof {
            let after = eth_client.block_number_history();
            assert(diagnostics.entries() =~= logs_0 + Seq::new(
                max_attempts as nat,
                |i: int| fixed_entry(block_number_failure_text())(
                    after[history_0.len() + i]->Err_0,
                ),
            ));
            assert(delay.suspensions() =~= waits_0 + Seq::new(
                max_attempts as nat,
                |i: int| RETRY_TIME_SECONDS,
            ));
        }
        None
    } else {
        proof {
            let after = eth_client.block_number_history();
            let failures = (after.len() - history_0.len() - 1) as nat;
            assert(logs_0 + Seq::new(failures, |i: int| block_number_failure_text()) =~= logs_0
                + Seq::new(
                failures,
                |i: int| fixed_entry(block_number_failure_text())(
                    after[history_0.len() + i]->Err_0,
                ),
            ));
        }
        Some(res.unwrap())
    }
}

/// Gets the chain identifier, giving up once `max_attempts` attempts
/// have all failed.
///
/// Up to the attempt budget this is the stubborn run exactly: each failed
/// attempt logs the fixed chain-identifier text and suspends for the fixed
/// delay. It never makes more than `max_attempts` attempts, which is how
/// a caller observes "no success within N attempts" against an endpoint
/// that may be down forever.
pub fn get_chain_id_with_attempt_limit<
    C: ChainANodeClient,
    S: DiagnosticSink,
    D: DelayProvider,
>(
    eth_client: &mut C,
    diagnostics: &mut S,
    delay: &mut D,
    max_attempts: u64,
) -> (r: Option<ChainIdentifier>)
    requires
        max_attempts >= 1,
    ensures
        bounded_post(
            old(eth_client).chain_id_history(),
            final(eth_client).chain_id_history(),
            old(diagnostics).entries(),
            final(diagnostics).entries(),
            old(delay).suspensions(),
            final(delay).suspensions(),
            fixed_entry(chain_id_failure_text()),
            max_attempts,
            r,
        ),
        final(eth_client).block_number_history() == old(eth_client).block_number_history(),
        forall|k: nat| #[trigger]
            final(eth_client).planned_block_number(k) == old(eth_client).planned_block_number(k),
        ({
            let n = final(eth_client).chain_id_history().len() - old(
                eth_client,
            ).chain_id_history().len();
            &&& (forall|j: nat|
                j < n ==> final(eth_client).chain_id_history()[old(
                    eth_client,
                ).chain_id_history().len() + j as int] == (#[trigger] old(
                    eth_client,
                ).planned_chain_id(j)))
            &&& (forall|k: nat| #[trigger]
                final(eth_client).planned_chain_id(k) == old(
                    eth_client,
                ).planned_chain_id((k + n) as nat))
        }),
{
    let ghost history_0 = eth_client.chain_id_history();
    let ghost chain_0 = eth_client.block_number_history();
    let ghost plan_0 = *eth_client;
    let ghost logs_0 = diagnostics.entries();
    let ghost waits_0 = delay.suspensions();
    let mut attempts: u64 = 1;
    let mut res = eth_client.get_chain_id();
    proof {
        assert(diagnostics.entries() =~= logs_0 + Seq::new(
            0,
            |i: int| chain_id_failure_text(),
        ));
        assert(delay.suspensions() =~= waits_0 + Seq::new(0, |i: int| RETRY_TIME_SECONDS));
        assert(eth_client.chain_id_history().subrange(0, history_0.len() as int)
            =~= history_0);
    }
    while res.is_err() && attempts < max_attempts
        invariant
            1 <= attempts <= max_attempts,
            attempts as int == eth_client.chain_id_history().len() - history_0.len(),
            eth_client.chain_id_history().subrange(0, history_0.len() as int) == history_0,
            forall|i: int|
                history_0.len() <= i < eth_client.chain_id_history().len() - 1
                    ==> eth_client.chain_id_history()[i] is Err,
            eth_client.chain_id_history().last() == outcome_of(res),
            diagnostics.entries() == logs_0 + Seq::new(
                (eth_client.chain_id_history().len() - history_0.len() - 1) as nat,
                (|i: int| chain_id_failure_text()),
            ),
            delay.suspensions() == waits_0 + Seq::new(
                (eth_client.chain_id_history().len() - history_0.len() - 1) as nat,
                (|i: int| RETRY_TIME_SECONDS),
            ),
            eth_client.block_number_history() == chain_0,
            forall|k: nat| #[trigger]
                eth_client.planned_block_number(k) == plan_0.planned_block_number(k),
            forall|j: nat|
                j < eth_client.chain_id_history().len() - history_0.len()
                    ==> eth_client.chain_id_history()[history_0.len() + j as int] == (
                #[trigger] plan_0.planned_chain_id(j)),
            forall|k: nat| #[trigger]
                eth_client.planned_chain_id(k) == plan_0.planned_chain_id(
                    (k + eth_client.chain_id_history().len() - history_0.len()) as nat,
                ),
        decreases max_attempts - attempts,
    {
        let ghost failures = (eth_client.chain_id_history().len() - history_0.len()) as nat;
        diagnostics.record_error(chain_id_failure_message());
        delay.delay_seconds(RETRY_TIME_SECONDS);
        res = eth_client.get_chain_id();
        attempts = attempts + 1;
        proof {
            assert(diagnostics.entries() =~= logs_0 + Seq::new(
                failures,
                |i: int| chain_id_failure_text(),
            ));
            assert(delay.suspensions() =~= waits_0 + Seq::new(
                failures,
                |i: int| RETRY_TIME_SECONDS,
            ));
            assert(eth_client.chain_id_history().subrange(0, history_0.len() as int)
                =~= history_0);
        }
    }
    if res.is_err() {
        diagnostics.record_error(chain_id_failure_message());
        delay.delay_seconds(RETRY_TIME_SECONDS);
        proof {
            let after = eth_client.chain_id_history();
            assert(diagnostics.entries() =~= logs_0 + Seq::new(
                max_attempts as nat,
                |i: int| fixed_entry(chain_id_failure_text())(
                    after[history_0.len() + i]->Err_0,
                ),
            ));
            assert(delay.suspensions() =~= waits_0 + Seq::new(
                max_attempts as nat,
                |i: int| RETRY_TIME_SECONDS,
            ));
        }
        None
    } else {
        proof {
            let after = eth_client.chain_id_history();
            let failures = (after.len() - history_0.len() - 1) as nat;
            assert(logs_0 + Seq::new(failures, |i: int| chain_id_failure_text()) =~= logs_0
                + Seq::new(
                failures,
                |i: int| fixed_entry(chain_id_failure_text())(
                    after[history_0.len() + i]->Err_0,
                ),
            ));
        }
        Some(res.unwrap())
    }
}


/// Gets the last event nonce for an account, giving up once
/// `max_attempts` attempts have all failed.
///
/// Up to the attempt budget this is the stubborn run exactly: each failed
/// attempt logs the fixed event-nonce text with the failure detail
/// appended, and suspends for the fixed delay. It never makes more than
/// `max_attempts` attempts, which is how a caller observes "no success
/// within N attempts" against an endpoint that may be down forever.
pub fn get_last_event_nonce_with_attempt_limit<
    C: ChainBQueryClient,
    S: DiagnosticSink,
    D: DelayProvider,
>(
    cosmos_client: &mut C,
    our_cosmos_address: &AccountIdentifier,
    diagnostics: &mut S,
    delay: &mut D,
    max_attempts: u64,
) -> (r: Option<u64>)
    requires
        max_attempts >= 1,
    ensures
        bounded_post(
            old(cosmos_client).event_nonce_history(),
            final(cosmos_client).event_nonce_history(),
            old(diagnostics).entries(),
            final(diagnostics).entries(),
            old(delay).suspensions(),
            final(delay).suspensions(),
            event_nonce_entry(),
            max_attempts,
            r,
        ),
        ({
            let n = final(cosmos_client).event_nonce_history().len() - old(
                cosmos_client,
            ).event_nonce_history().len();
            &&& final(cosmos_client).queried_accounts() == old(cosmos_client).queried_accounts()
                + Seq::new(n as nat, (|i: int| our_cosmos_address@))
            &&& (forall|j: nat|
                j < n ==> final(cosmos_client).event_nonce_history()[old(
                    cosmos_client,
                ).event_nonce_history().len() + j as int] == (#[trigger] old(
                    cosmos_client,
                ).planned_event_nonce(j)))
            &&& (forall|k: nat| #[trigger]
                final(cosmos_client).planned_event_nonce(k) == old(
                    cosmos_client,
                ).planned_event_nonce((k + n) as nat))
        }),
{
    let ghost history_0 = cosmos_client.event_nonce_history();
    let ghost accounts_0 = cosmos_client.queried_accounts();
    let ghost plan_0 = *cosmos_client;
    let ghost logs_0 = diagnostics.entries();
    let ghost waits_0 = delay.suspensions();
    let mut attempts: u64 = 1;
    let mut res = cosmos_client.get_last_event_nonce(our_cosmos_address);
    proof {
        let h = cosmos_client.event_nonce_history();
        assert(diagnostics.entries() =~= logs_0 + Seq::new(
            0,
            |i: int| event_nonce_entry()(h[history_0.len() + i]->Err_0),
        ));
        assert(delay.suspensions() =~= waits_0 + Seq::new(0, |i: int| RETRY_TIME_SECONDS));
        assert(h.subrange(0, history_0.len() as int) =~= history_0);
        assert(cosmos_client.queried_accounts() =~= accounts_0 + Seq::new(
            1,
            |i: int| our_cosmos_address@,
        ));
    }
    while res.is_err() && attempts < max_attempts
        invariant
            1 <= attempts <= max_attempts,
            attempts as int == cosmos_client.event_nonce_history().len() - history_0.len(),
            cosmos_client.event_nonce_history().subrange(0, history_0.len() as int) == history_0,
            forall|i: int|
                history_0.len() <= i < cosmos_client.event_nonce_history().len() - 1
                    ==> cosmos_client.event_nonce_history()[i] is Err,
            cosmos_client.event_nonce_history().last() == outcome_of(res),
            diagnostics.entries() == logs_0 + Seq::new(
                (cosmos_client.event_nonce_history().len() - history_0.len() - 1) as nat,
                (|i: int|
                    event_nonce_entry()(
                        cosmos_client.event_nonce_history()[history_0.len() + i]->Err_0,
                    )),
            ),
            delay.suspensions() == waits_0 + Seq::new(
                (cosmos_client.event_nonce_history().len() - history_0.len() - 1) as nat,
                (|i: int| RETRY_TIME_SECONDS),
            ),
            cosmos_client.queried_accounts() == accounts_0 + Seq::new(
                (cosmos_client.event_nonce_history().len() - history_0.len()) as nat,
                (|i: int| our_cosmos_address@),
            ),
            forall|j: nat|
                j < cosmos_client.event_nonce_history().len() - history_0.len()
                    ==> cosmos_client.event_nonce_history()[history_0.len() + j as int] == (
                #[trigger] plan_0.planned_event_nonce(j)),
            forall|k: nat| #[trigger]
                cosmos_client.planned_event_nonce(k) == plan_0.planned_event_nonce(
                    (k + cosmos_client.event_nonce_history().len() - history_0.len()) as nat,
                ),
        decreases max_attempts - attempts,
    {
        let ghost failures = (cosmos_client.event_nonce_history().len() - history_0.len()) as nat;
        match (&res) {
            Err(error) => {
                diagnostics.record_error(event_nonce_failure_message(error));
            },
            Ok(_) => {},
        }
        delay.delay_seconds(RETRY_TIME_SECONDS);
        res = cosmos_client.get_last_event_nonce(our_cosmos_address);
        attempts = attempts + 1;
        proof {
            let h = cosmos_client.event_nonce_history();
            assert(diagnostics.entries() =~= logs_0 + Seq::new(
                failures,
                |i: int| event_nonce_entry()(h[history_0.len() + i]->Err_0),
            ));
            assert(delay.suspensions() =~= waits_0 + Seq::new(
                failures,
                |i: int| RETRY_TIME_SECONDS,
            ));
            assert(h.subrange(0, history_0.len() as int) =~= history_0);
            assert(cosmos_client.queried_accounts() =~= accounts_0 + Seq::new(
                (failures + 1) as nat,
                |i: int| our_cosmos_address@,
            ));
        }
    }
    if res.is_err() {
        match (&res) {
            Err(error) => {
                diagnostics.record_error(event_nonce_failure_message(error));
            },
            Ok(_) => {},
        }
        delay.delay_seconds(RETRY_TIME_SECONDS);
        proof {
            let after = cosmos_client.event_nonce_history();
            assert(diagnostics.entries() =~= logs_0 + Seq::new(
                max_attempts as nat,
                |i: int| event_nonce_entry()(after[history_0.len() + i]->Err_0),
            ));
            assert(delay.suspensions() =~= waits_0 + Seq::new(
                max_attempts as nat,
                |i: int| RETRY_TIME_SECONDS,
            ));
        }
        None
    } else {
        Some(res.unwrap())
    }
}

} // verus!
