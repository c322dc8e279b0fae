//! The transaction executor: checks what must hold before a transaction may
//! be submitted, names the call to submit, and reports the outcome of the
//! submission. The caller submits the call and hands back what the network
//! answered; nothing is ever submitted twice from here.

use alloy::primitives::B256;
use crate::amount::{u256_from_str, Wei};
use crate::registry::{find_service, has_service, is_first_match, ServiceContract};
use crate::summary::AutoClaimPreference;
use crate::wallet::{endpoint_is_valid, url_parse_accepts, StakingError, WalletContext};
use vstd::prelude::*;

verus! {

/// A request to stake with a service.
#[derive(Debug)]
pub struct StakeRequest {
    pub service_id: String,
    pub amount_wei: String,
    /// The token to stake; `None` for the chain's own currency.
    pub token_address: Option<String>,
}

/// A request to withdraw the stake with a service.
#[derive(Debug)]
pub struct UnstakeRequest {
    pub service_id: String,
    pub amount_wei: String,
}

/// The outcome of a stake or an unstake.
#[derive(Clone, Debug)]
pub struct StakeResult {
    pub success: bool,
    pub tx_hash: Option<String>,
    pub new_stake_wei: String,
    pub error: Option<String>,
}

/// The outcome of a claim.
#[derive(Clone, Debug)]
pub struct ClaimResult {
    pub success: bool,
    pub tx_hash: Option<String>,
    pub amount_claimed_wei: String,
    pub error: Option<String>,
}

/// The entry point of a staking contract that a transaction calls.
#[derive(Clone, Copy, Debug, PartialEq, Eq, Structural)]
pub enum Entrypoint {
    StakeAsProvider,
    Unstake,
    ClaimRewards,
}

/// A transaction that is ready to be signed and submitted.
#[derive(Debug)]
pub struct TransactionCall {
    /// The address of the contract to call, as the registry gives it.
    pub contract_address: String,
    pub entrypoint: Entrypoint,
    /// The value sent along with the call.
    pub value: Wei,
}

/// The hash under which the network knows a transaction.
#[derive(Clone, Copy, Debug)]
pub struct TransactionHash {
    pub bytes: [u8; 32],
}

/// What came of submitting a transaction.
#[derive(Debug)]
pub enum Submission {
    /// The network accepted the transaction, under this hash.
    Accepted(TransactionHash),
    /// The transaction could not be submitted, for this reason.
    Failed(String),
}

/// The character of one hexadecimal digit, in lower case.
pub open spec fn hex_digit(d: nat) -> char
    recommends
        d < 16,
{
    if d == 0 {
        '0'
    } else if d == 1 {
        '1'
    } else if d == 2 {
        '2'
    } else if d == 3 {
        '3'
    } else if d == 4 {
        '4'
    } else if d == 5 {
        '5'
    } else if d == 6 {
        '6'
    } else if d == 7 {
        '7'
    } else if d == 8 {
        '8'
    } else if d == 9 {
        '9'
    } else if d == 10 {
        'a'
    } else if d == 11 {
        'b'
    } else if d == 12 {
        'c'
    } else if d == 13 {
        'd'
    } else if d == 14 {
        'e'
    } else {
        'f'
    }
}

/// The bytes in hexadecimal: two digits for each byte, the high one first.
pub open spec fn hex_text(bytes: Seq<u8>) -> Seq<char>
    decreases bytes.len(),
{
    if bytes.len() == 0 {
        Seq::empty()
    } else {
        hex_text(bytes.drop_last()).push(hex_digit(bytes.last() as nat / 16)).push(
            hex_digit(bytes.last() as nat % 16),
        )
    }
}

/// The id of a transaction as it is reported: `0x` and the hash in
/// hexadecimal.
pub open spec fn transaction_id(hash: Seq<u8>) -> Seq<char> {
    seq!['0', 'x'] + hex_text(hash)
}

/// The `Debug` form of `alloy`'s `B256`, which writes `0x` and then the
/// bytes in lower-case hexadecimal, two digits each.
#[verifier::external_body]
fn b256_debug(hash: &TransactionHash) -> (r: String)
    ensures
        r@ == transaction_id(hash.bytes@),
{
    format!("{:?}", B256::new(hash.bytes))
}

/// The first precondition that an unstake or a claim for the service called
/// `id` fails, if any: a wallet must be connected, it must be able to sign,
/// the endpoint's address must be valid, and the service must be registered.
pub open spec fn transaction_error(
    wallet: WalletContext,
    registry: Seq<ServiceContract>,
    id: Seq<char>,
    endpoint_ok: bool,
) -> Option<StakingError> {
    if !wallet.connected {
        Some(StakingError::WalletNotConnected)
    } else if !wallet.signer_ready {
        Some(StakingError::WalletNotInitialized)
    } else if !endpoint_ok {
        Some(StakingError::InvalidRpcUrl)
    } else if !has_service(registry, id) {
        Some(StakingError::UnknownService)
    } else {
        None
    }
}

/// The first precondition that a stake with the service called `id` fails,
/// if any, where `amount` is what the amount's text reads as. The amount is
/// looked at once a wallet is known to be connected, and before the rest.
pub open spec fn stake_error(
    wallet: WalletContext,
    registry: Seq<ServiceContract>,
    id: Seq<char>,
    amount: Option<nat>,
    endpoint_ok: bool,
) -> Option<StakingError> {
    if !wallet.connected {
        Some(StakingError::WalletNotConnected)
    } else if amount is None {
        Some(StakingError::InvalidAmount)
    } else {
        transaction_error(wallet, registry, id, endpoint_ok)
    }
}

/// The service that a claim acts on: the one named, or the registry's first
/// where none is named. With none named and none registered it is the empty
/// name, which stands for no service.
pub open spec fn claim_target(registry: Seq<ServiceContract>, service_id: Option<String>) -> Seq<
    char,
> {
    match service_id {
        Some(id) => id@,
        None => if registry.len() > 0 {
            registry[0].service_id@
        } else {
            Seq::empty()
        },
    }
}

/// The call goes to the first contract registered as `id`, at the given
/// entry point, with the given value.
pub open spec fn is_call_to(
    call: TransactionCall,
    registry: Seq<ServiceContract>,
    id: Seq<char>,
    entrypoint: Entrypoint,
    value: nat,
) -> bool {
    &&& call.entrypoint == entrypoint
    &&& call.value@ == value
    &&& exists|i: int| #[trigger]
        is_first_match(registry, id, i) && call.contract_address@
            == registry[i].contract_address@
}

/// The outcome reports failure, with this reason and nothing else.
pub open spec fn stake_failed_with(r: StakeResult, reason: Seq<char>) -> bool {
    &&& !r.success
    &&& r.tx_hash is None
    &&& r.new_stake_wei@ == "0"@
    &&& r.error matches Some(m) && m@ == reason
}

/// The outcome reports success under this id, with this resulting amount.
pub open spec fn stake_succeeded_with(r: StakeResult, id: Seq<char>, amount: Seq<char>) -> bool {
    &&& r.success
    &&& r.tx_hash matches Some(h) && h@ == id
    &&& r.new_stake_wei@ == amount
    &&& r.error is None
}

/// The outcome reports failure, with this reason and nothing else.
pub open spec fn claim_failed_with(r: ClaimResult, reason: Seq<char>) -> bool {
    &&& !r.success
    &&& r.tx_hash is None
    &&& r.amount_claimed_wei@ == "0"@
    &&& r.error matches Some(m) && m@ == reason
}

/// The outcome reports success under this id, with this claimed amount.
pub open spec fn claim_succeeded_with(r: ClaimResult, id: Seq<char>, amount: Seq<char>) -> bool {
    &&& r.success
    &&& r.tx_hash matches Some(h) && h@ == id
    &&& r.amount_claimed_wei@ == amount
    &&& r.error is None
}

/// The failed outcome of a stake or an unstake, with the reason.
pub fn stake_failure(reason: String) -> (r: StakeResult)
    ensures
        stake_failed_with(r, reason@),
{
    StakeResult { success: false, tx_hash: None, new_stake_wei: "0".to_owned(), error: Some(reason) }
}

/// The failed outcome of a claim, with the reason.
pub fn claim_failure(reason: String) -> (r: ClaimResult)
    ensures
        claim_failed_with(r, reason@),
{
    ClaimResult {
        success: false,
        tx_hash: None,
        amount_claimed_wei: "0".to_owned(),
        error: Some(reason),
    }
}

/// Checks the wallet and the endpoint and looks the service up: the
/// registry's row for a transaction that may go ahead, else the first
/// precondition that fails.
pub fn check_transaction(
    wallet: &WalletContext,
    registry: &Vec<ServiceContract>,
    id: &String,
    endpoint_ok: bool,
) -> (r: Result<usize, StakingError>)
    ensures
        match transaction_error(*wallet, registry@, id@, endpoint_ok) {
            Some(e) => r == Err::<usize, StakingError>(e),
            None => r is Ok && is_first_match(registry@, id@, r->Ok_0 as int),
        },
{
    if !wallet.connected {
        Err(StakingError::WalletNotConnected)
    } else if !wallet.signer_ready {
        Err(StakingError::WalletNotInitialized)
    } else if !endpoint_ok {
        Err(StakingError::InvalidRpcUrl)
    } else {
        match find_service(registry, id) {
            Some(i) => Ok(i),
            None => Err(StakingError::UnknownService),
        }
    }
}

/// Decides on a stake, given what the amount's text reads as and whether the
/// endpoint's address is valid. Where a precondition fails, the result is
/// the failed outcome with that error's message, and nothing is to be
/// submitted. Else it is the call to submit: the stake entry point of the
/// service's contract, with the amount as value.
pub fn stake_decision(
    wallet: &WalletContext,
    registry: &Vec<ServiceContract>,
    request: &StakeRequest,
    amount: Option<Wei>,
    endpoint_ok: bool,
) -> (r: Result<TransactionCall, StakeResult>)
    ensures
        match stake_error(
            *wallet,
            registry@,
            request.service_id@,
            match amount {
                Some(w) => Some(w@),
                None => None,
            },
            endpoint_ok,
        ) {
            Some(e) => r is Err && stake_failed_with(r->Err_0, e.message_text()),
            None => r is Ok && is_call_to(
                r->Ok_0,
                registry@,
                request.service_id@,
                Entrypoint::StakeAsProvider,
                amount->Some_0@,
            ),
        },
{
    if !wallet.connected {
        return Err(stake_failure(StakingError::WalletNotConnected.message()));
    }
    let value = match amount {
        Some(w) => w,
        None => {
            return Err(stake_failure(StakingError::InvalidAmount.message()));
        },
    };
    match check_transaction(wallet, registry, &request.service_id, endpoint_ok) {
        Err(e) => Err(stake_failure(e.message())),
        Ok(i) => Ok(
            TransactionCall {
                contract_address: registry[i].contract_address.clone(),
                entrypoint: Entrypoint::StakeAsProvider,
                value,
            },
        ),
    }
}

/// Decides on a stake at the endpoint given. The amount's text is read by
/// the integer parser behind [`u256_from_str`], the endpoint's address by the
/// URL parser behind [`url_parse_accepts`]; the rest is as in
/// [`stake_decision`].
pub fn stake(
    wallet: &WalletContext,
    rpc_url: &str,
    registry: &Vec<ServiceContract>,
    request: &StakeRequest,
) -> (r: Result<TransactionCall, StakeResult>)
    ensures
        match stake_error(
            *wallet,
            registry@,
            request.service_id@,
            u256_from_str(request.amount_wei@),
            url_parse_accepts(rpc_url@),
        ) {
            Some(e) => r is Err && stake_failed_with(r->Err_0, e.message_text()),
            None => r is Ok && is_call_to(
                r->Ok_0,
                registry@,
                request.service_id@,
                Entrypoint::StakeAsProvider,
                u256_from_str(request.amount_wei@)->Some_0,
            ),
        },
{
    let amount = Wei::parse(request.amount_wei.as_str());
    stake_decision(wallet, registry, request, amount, endpoint_is_valid(rpc_url))
}

/// The outcome of a stake whose call was handed to the network. An accepted
/// transaction is reported under its id with the amount that was asked for,
/// as the request wrote it; a failed one with the network's reason, as it is.
pub fn stake_submitted(request: &StakeRequest, submission: Submission) -> (r: StakeResult)
    ensures
        match submission {
            Submission::Accepted(hash) => stake_succeeded_with(
                r,
                transaction_id(hash.bytes@),
                request.amount_wei@,
            ),
            Submission::Failed(reason) => stake_failed_with(r, reason@),
        },
{
    match submission {
        Submission::Accepted(hash) => StakeResult {
            success: true,
            tx_hash: Some(b256_debug(&hash)),
            new_stake_wei: request.amount_wei.clone(),
            error: None,
        },
        Submission::Failed(reason) => stake_failure(reason),
    }
}

/// Decides on an unstake, given whether the endpoint's address is valid.
/// Where a precondition fails, the result is the failed outcome with that
/// error's message. Else it is the call to submit: the unstake entry point
/// of the service's contract, with no value. The amount in the request plays
/// no part: a service holds one position, which is withdrawn whole.
pub fn unstake_decision(
    wallet: &WalletContext,
    registry: &Vec<ServiceContract>,
    request: &UnstakeRequest,
    endpoint_ok: bool,
) -> (r: Result<TransactionCall, StakeResult>)
    ensures
        match transaction_error(*wallet, registry@, request.service_id@, endpoint_ok) {
            Some(e) => r is Err && stake_failed_with(r->Err_0, e.message_text()),
            None => r is Ok && is_call_to(
                r->Ok_0,
                registry@,
                request.service_id@,
                Entrypoint::Unstake,
                0,
            ),
        },
{
    match check_transaction(wallet, registry, &request.service_id, endpoint_ok) {
        Err(e) => Err(stake_failure(e.message())),
        Ok(i) => Ok(
            TransactionCall {
                contract_address: registry[i].contract_address.clone(),
                entrypoint: Entrypoint::Unstake,
                value: Wei::zero(),
            },
        ),
    }
}

/// Decides on an unstake at the endpoint given, whose address is read by the
/// URL parser behind [`url_parse_accepts`]; the rest is as in
/// [`unstake_decision`].
pub fn unstake(
    wallet: &WalletContext,
    rpc_url: &str,
    registry: &Vec<ServiceContract>,
    request: &UnstakeRequest,
) -> (r: Result<TransactionCall, StakeResult>)
    ensures
        match transaction_error(
            *wallet,
            registry@,
            request.service_id@,
            url_parse_accepts(rpc_url@),
        ) {
            Some(e) => r is Err && stake_failed_with(r->Err_0, e.message_text()),
            None => r is Ok && is_call_to(
                r->Ok_0,
                registry@,
                request.service_id@,
                Entrypoint::Unstake,
                0,
            ),
        },
{
    unstake_decision(wallet, registry, request, endpoint_is_valid(rpc_url))
}

/// The outcome of an unstake whose call was handed to the network. An
/// accepted transaction is reported under its id with a stake of zero; a
/// failed one with the network's reason, as it is.
pub fn unstake_submitted(submission: Submission) -> (r: StakeResult)
    ensures
        match submission {
            Submission::Accepted(hash) => stake_succeeded_with(
                r,
                transaction_id(hash.bytes@),
                "0"@,
            ),
            Submission::Failed(reason) => stake_failed_with(r, reason@),
        },
{
    match submission {
        Submission::Accepted(hash) => StakeResult {
            success: true,
            tx_hash: Some(b256_debug(&hash)),
            new_stake_wei: "0".to_owned(),
            error: None,
        },
        Submission::Failed(reason) => stake_failure(reason),
    }
}

/// Decides on a claim, for the service named or, where none is named, for
/// the registry's first, given whether the endpoint's address is valid.
/// Where a precondition fails, the result is the failed outcome with that
/// error's message. Else it is the call to submit: the claim entry point of
/// the service's contract, with no value.
pub fn claim_decision(
    wallet: &WalletContext,
    registry: &Vec<ServiceContract>,
    service_id: &Option<String>,
    endpoint_ok: bool,
) -> (r: Result<TransactionCall, ClaimResult>)
    ensures
        match transaction_error(
            *wallet,
            registry@,
            claim_target(registry@, *service_id),
            endpoint_ok,
        ) {
            Some(e) => r is Err && claim_failed_with(r->Err_0, e.message_text()),
            None => r is Ok && is_call_to(
                r->Ok_0,
                registry@,
                claim_target(registry@, *service_id),
                Entrypoint::ClaimRewards,
                0,
            ),
        },
{
    let checked = match service_id {
        Some(id) => check_transaction(wallet, registry, id, endpoint_ok),
        None => if registry.len() > 0 {
            check_transaction(wallet, registry, &registry[0].service_id, endpoint_ok)
        } else {
            check_transaction(wallet, registry, &String::new(), endpoint_ok)
        },
    };
    match checked {
        Err(e) => Err(claim_failure(e.message())),
        Ok(i) => Ok(
            TransactionCall {
                contract_address: registry[i].contract_address.clone(),
                entrypoint: Entrypoint::ClaimRewards,
                value: Wei::zero(),
            },
        ),
    }
}

/// Decides on a claim at the endpoint given, whose address is read by the
/// URL parser behind [`url_parse_accepts`]; the rest is as in
/// [`claim_decision`].
pub fn claim_rewards(
    wallet: &WalletContext,
    rpc_url: &str,
    registry: &Vec<ServiceContract>,
    service_id: &Option<String>,
) -> (r: Result<TransactionCall, ClaimResult>)
    ensures
        match transaction_error(
            *wallet,
            registry@,
            claim_target(registry@, *service_id),
            url_parse_accepts(rpc_url@),
        ) {
            Some(e) => r is Err && claim_failed_with(r->Err_0, e.message_text()),
            None => r is Ok && is_call_to(
                r->Ok_0,
                registry@,
                claim_target(registry@, *service_id),
                Entrypoint::ClaimRewards,
                0,
            ),
        },
{
    claim_decision(wallet, registry, service_id, endpoint_is_valid(rpc_url))
}

/// The outcome of a claim whose call was handed to the network. An accepted
/// transaction is reported under its id with a claimed amount of zero, since
/// the amount is known only from the receipt; a failed one with the
/// network's reason, as it is.
pub fn claim_submitted(submission: Submission) -> (r: ClaimResult)
    ensures
        match submission {
            Submission::Accepted(hash) => claim_succeeded_with(
                r,
                transaction_id(hash.bytes@),
                "0"@,
            ),
            Submission::Failed(reason) => claim_failed_with(r, reason@),
        },
{
    match submission {
        Submission::Accepted(hash) => ClaimResult {
            success: true,
            tx_hash: Some(b256_debug(&hash)),
            amount_claimed_wei: "0".to_owned(),
            error: None,
        },
        Submission::Failed(reason) => claim_failure(reason),
    }
}

/// Sets the auto-claim preference. The flag is always applied; the threshold
/// and the interval only where they are given, else they stay as they were.
pub fn enable_auto_claim(
    prefs: &mut AutoClaimPreference,
    enabled: bool,
    threshold_wei: Option<String>,
    interval_hours: Option<u32>,
)
    ensures
        final(prefs).auto_claim == enabled,
        final(prefs).auto_claim_threshold_wei@ == match threshold_wei {
            Some(t) => t@,
            None => old(prefs).auto_claim_threshold_wei@,
        },
        final(prefs).auto_claim_interval_hours == match interval_hours {
            Some(h) => h,
            None => old(prefs).auto_claim_interval_hours,
        },
{
    prefs.auto_claim = enabled;
    if let Some(threshold) = threshold_wei {
        prefs.auto_claim_threshold_wei = threshold;
    }
    if let Some(interval) = interval_hours {
        prefs.auto_claim_interval_hours = interval;
    }
}

/// A wallet that is not connected, or that cannot sign, fails a precondition
/// of every transaction: a stake, an unstake and a claim are each refused
/// before anything is submitted, whatever the registry, the service, the
/// amount and the endpoint. An unstake and a claim are refused for the
/// wallet's state; a stake for that, or for its amount.
pub proof fn lemma_no_signer_refuses_every_transaction(
    wallet: WalletContext,
    registry: Seq<ServiceContract>,
    id: Seq<char>,
    service_id: Option<String>,
    amount: Option<nat>,
    endpoint_ok: bool,
)
    requires
        !wallet.connected || !wallet.signer_ready,
    ensures
        transaction_error(wallet, registry, id, endpoint_ok) == Some(
            if wallet.connected {
                StakingError::WalletNotInitialized
            } else {
                StakingError::WalletNotConnected
            },
        ),
        transaction_error(wallet, registry, claim_target(registry, service_id), endpoint_ok)
            == transaction_error(wallet, registry, id, endpoint_ok),
        stake_error(wallet, registry, id, amount, endpoint_ok) == Some(
            if !wallet.connected {
                StakingError::WalletNotConnected
            } else if amount is None {
                StakingError::InvalidAmount
            } else {
                StakingError::WalletNotInitialized
            },
        ),
{
}

/// A transaction goes ahead exactly when nothing is wrong: the wallet is
/// connected and can sign, the endpoint's address is valid, and the service
/// is registered.
pub proof fn lemma_transaction_goes_ahead_iff(
    wallet: WalletContext,
    registry: Seq<ServiceContract>,
    id: Seq<char>,
    endpoint_ok: bool,
)
    ensures
        transaction_error(wallet, registry, id, endpoint_ok) is None <==> (wallet.connected
            && wallet.signer_ready && endpoint_ok && has_service(registry, id)),
{
}

/// Bytes in hexadecimal take two characters each.
pub proof fn lemma_hex_text_len(bytes: Seq<u8>)
    ensures
        hex_text(bytes).len() == 2 * bytes.len(),
    decreases bytes.len(),
{
    if bytes.len() > 0 {
        lemma_hex_text_len(bytes.drop_last());
    }
}

/// The id of a transaction is never empty: it is two characters longer than
/// twice its hash.
pub proof fn lemma_transaction_id_len(hash: Seq<u8>)
    ensures
        transaction_id(hash).len() == 2 + 2 * hash.len(),
{
    lemma_hex_text_len(hash);
}

}
