//! The staking aggregator: folds the readings taken from the registered
//! contracts into one summary, and into the rewards-only view.

use crate::amount::{lemma_sum_fits, lemma_wei_bounded, limb_base, wei_limit, Wei, WeiTotal};
use crate::registry::ServiceContract;
use crate::wallet::{
    parsed_wallet_address, query_address, resolve_query_address, url_parse_accepts, StakingError,
    WalletContext,
};
use vstd::prelude::*;

verus! {

/// The stored auto-claim preference.
#[derive(Debug)]
pub struct AutoClaimPreference {
    pub auto_claim: bool,
    /// The least pending amount at which rewards are claimed, as text.
    pub auto_claim_threshold_wei: String,
    pub auto_claim_interval_hours: u32,
}

/// What the two read calls on one contract gave. `None` stands for a call
/// that failed.
#[derive(Clone, Copy, Debug)]
pub struct ServiceReading {
    pub stake: Option<Wei>,
    pub pending_rewards: Option<Wei>,
}

/// A wallet's position with one service.
#[derive(Debug)]
pub struct ServiceStakeInfo {
    pub service_id: String,
    pub service_name: String,
    pub staked_wei: Wei,
    pub pending_rewards_wei: Wei,
    pub stake_token: String,
    pub min_stake_wei: Wei,
}

/// A position as plain values.
pub struct PositionView {
    pub service_id: Seq<char>,
    pub service_name: Seq<char>,
    pub staked: nat,
    pub pending_rewards: nat,
    pub stake_token: Seq<char>,
    pub min_stake: nat,
}

impl View for ServiceStakeInfo {
    type V = PositionView;

    open spec fn view(&self) -> PositionView {
        PositionView {
            service_id: self.service_id@,
            service_name: self.service_name@,
            staked: self.staked_wei@,
            pending_rewards: self.pending_rewards_wei@,
            stake_token: self.stake_token@,
            min_stake: self.min_stake_wei@,
        }
    }
}

/// The summary of a wallet's stakes and rewards.
#[derive(Debug)]
pub struct StakingInfo {
    pub total_staked_wei: WeiTotal,
    pub staked_by_service: Vec<ServiceStakeInfo>,
    pub pending_rewards_wei: WeiTotal,
    pub can_unstake: bool,
    pub unstake_cooldown_seconds: u64,
    pub auto_claim_enabled: bool,
    pub auto_claim_threshold_wei: String,
    pub auto_claim_interval_hours: u32,
    pub next_auto_claim_timestamp: Option<u64>,
}

/// The positions of a list as plain values.
pub open spec fn positions_view(positions: Seq<ServiceStakeInfo>) -> Seq<PositionView> {
    positions.map_values(|p: ServiceStakeInfo| p@)
}

/// The number that a reading holds, where the call succeeded.
pub open spec fn amount_read(reading: Option<Wei>) -> Option<nat> {
    match reading {
        Some(w) => Some(w@),
        None => None,
    }
}

/// The stake read for row `i`. A row without a reading counts as failed.
pub open spec fn stake_read(readings: Seq<ServiceReading>, i: int) -> Option<nat> {
    if 0 <= i < readings.len() {
        amount_read(readings[i].stake)
    } else {
        None
    }
}

/// The pending rewards read for row `i`. A row without a reading counts as
/// failed.
pub open spec fn rewards_read(readings: Seq<ServiceReading>, i: int) -> Option<nat> {
    if 0 <= i < readings.len() {
        amount_read(readings[i].pending_rewards)
    } else {
        None
    }
}

/// The position that a row with the given amounts has.
pub open spec fn position_with(c: ServiceContract, staked: nat, pending: nat) -> PositionView {
    PositionView {
        service_id: c.service_id@,
        service_name: c.service_name@,
        staked: staked,
        pending_rewards: pending,
        stake_token: c.stake_token@,
        min_stake: c.min_stake_wei@,
    }
}

/// The position of one row in the summary. A failed stake call leaves the
/// row out; a failed rewards call counts as zero; a row with nothing staked
/// and nothing pending is left out.
pub open spec fn summary_position(c: ServiceContract, stake: Option<nat>, rewards: Option<nat>)
    -> Option<PositionView> {
    match stake {
        None => None,
        Some(s) => {
            let p = match rewards {
                Some(p) => p,
                None => 0,
            };
            if s == 0 && p == 0 {
                None
            } else {
                Some(position_with(c, s, p))
            }
        },
    }
}

/// The positions of the summary, in the registry's order.
pub open spec fn summary_positions(registry: Seq<ServiceContract>, readings: Seq<ServiceReading>)
    -> Seq<PositionView>
    decreases registry.len(),
{
    if registry.len() == 0 {
        Seq::empty()
    } else {
        let i = registry.len() - 1;
        let before = summary_positions(registry.drop_last(), readings);
        match summary_position(registry[i], stake_read(readings, i), rewards_read(readings, i)) {
            Some(p) => before.push(p),
            None => before,
        }
    }
}

/// The position of one row in the rewards-only view: present where the
/// rewards call succeeded with a positive amount, and with no stake shown.
pub open spec fn reward_position(c: ServiceContract, rewards: Option<nat>) -> Option<
    PositionView,
> {
    match rewards {
        Some(p) => if p > 0 {
            Some(position_with(c, 0, p))
        } else {
            None
        },
        None => None,
    }
}

/// The positions of the rewards-only view, in the registry's order.
pub open spec fn reward_positions(registry: Seq<ServiceContract>, readings: Seq<ServiceReading>)
    -> Seq<PositionView>
    decreases registry.len(),
{
    if registry.len() == 0 {
        Seq::empty()
    } else {
        let i = registry.len() - 1;
        let before = reward_positions(registry.drop_last(), readings);
        match reward_position(registry[i], rewards_read(readings, i)) {
            Some(p) => before.push(p),
            None => before,
        }
    }
}

/// The sum of the staked amounts of a list of positions.
pub open spec fn sum_staked(positions: Seq<PositionView>) -> nat
    decreases positions.len(),
{
    if positions.len() == 0 {
        0
    } else {
        sum_staked(positions.drop_last()) + positions.last().staked
    }
}

/// The sum of the pending rewards of a list of positions.
pub open spec fn sum_pending(positions: Seq<PositionView>) -> nat
    decreases positions.len(),
{
    if positions.len() == 0 {
        0
    } else {
        sum_pending(positions.drop_last()) + positions.last().pending_rewards
    }
}

/// What every summary holds besides its positions: totals that are the sums
/// over the positions it lists, the unstake flag derived from the total, the
/// stored preference, and the parts that nothing computes yet.
pub open spec fn summary_is_coherent(info: StakingInfo, prefs: AutoClaimPreference) -> bool {
    &&& info.total_staked_wei@ == sum_staked(positions_view(info.staked_by_service@))
    &&& info.pending_rewards_wei@ == sum_pending(positions_view(info.staked_by_service@))
    &&& info.can_unstake == (info.total_staked_wei@ > 0)
    &&& info.unstake_cooldown_seconds == 0
    &&& info.auto_claim_enabled == prefs.auto_claim
    &&& info.auto_claim_threshold_wei@ == prefs.auto_claim_threshold_wei@
    &&& info.auto_claim_interval_hours == prefs.auto_claim_interval_hours
    &&& info.next_auto_claim_timestamp is None
}

/// The summary of a connected wallet for the given readings.
pub open spec fn is_summary_of(
    info: StakingInfo,
    registry: Seq<ServiceContract>,
    readings: Seq<ServiceReading>,
    prefs: AutoClaimPreference,
) -> bool {
    &&& positions_view(info.staked_by_service@) == summary_positions(registry, readings)
    &&& summary_is_coherent(info, prefs)
}

/// The summary shown while no wallet is connected: no positions, zero
/// totals, nothing to unstake, and the stored preference.
pub open spec fn is_disconnected_summary(info: StakingInfo, prefs: AutoClaimPreference) -> bool {
    &&& info.staked_by_service@.len() == 0
    &&& info.total_staked_wei@ == 0
    &&& info.pending_rewards_wei@ == 0
    &&& !info.can_unstake
    &&& summary_is_coherent(info, prefs)
}

/// The summary shown while no wallet is connected.
pub fn disconnected_summary(prefs: &AutoClaimPreference) -> (info: StakingInfo)
    ensures
        is_disconnected_summary(info, *prefs),
{
    let info = StakingInfo {
        total_staked_wei: WeiTotal::zero(),
        staked_by_service: Vec::new(),
        pending_rewards_wei: WeiTotal::zero(),
        can_unstake: false,
        unstake_cooldown_seconds: 0,
        auto_claim_enabled: prefs.auto_claim,
        auto_claim_threshold_wei: prefs.auto_claim_threshold_wei.clone(),
        auto_claim_interval_hours: prefs.auto_claim_interval_hours,
        next_auto_claim_timestamp: None,
    };
    assert(positions_view(info.staked_by_service@) =~= Seq::empty());
    info
}

/// Adds one amount to a running total of `count` amounts.
fn accumulate(total: WeiTotal, w: &Wei, Ghost(count): Ghost<nat>) -> (r: WeiTotal)
    requires
        count < limb_base(),
        total@ <= count * wei_limit(),
    ensures
        r@ == total@ + w@,
        r@ <= (count + 1) * wei_limit(),
{
    proof {
        lemma_wei_bounded(*w);
        lemma_sum_fits(count, total@, w@);
    }
    match total.checked_add(w) {
        Some(t) => t,
        // The sum fits, so this arm is never taken.
        None => total,
    }
}

/// Folds the readings of a connected wallet into the summary. Row `i` of the
/// registry is read from `readings[i]`; a row without a reading counts as one
/// whose calls failed.
pub fn summarize(
    registry: &Vec<ServiceContract>,
    readings: &Vec<ServiceReading>,
    prefs: &AutoClaimPreference,
) -> (info: StakingInfo)
    ensures
        is_summary_of(info, registry@, readings@, *prefs),
{
    let mut total_staked = WeiTotal::zero();
    let mut total_pending = WeiTotal::zero();
    let mut positions: Vec<ServiceStakeInfo> = Vec::new();
    let mut i: usize = 0;
    assert(positions_view(positions@) =~= Seq::empty());
    assert(registry@.take(0) =~= Seq::empty());
    while i < registry.len()
        invariant
            i <= registry.len(),
            positions_view(positions@) == summary_positions(registry@.take(i as int), readings@),
            total_staked@ == sum_staked(positions_view(positions@)),
            total_pending@ == sum_pending(positions_view(positions@)),
            total_staked@ <= i * wei_limit(),
            total_pending@ <= i * wei_limit(),
        decreases registry.len() - i,
    {
        let ghost before = positions_view(positions@);
        proof {
            assert(registry@.take(i + 1).drop_last() =~= registry@.take(i as int));
            assert(registry@.take(i + 1)[i as int] == registry@[i as int]);
            lemma_sum_fits(i as nat, total_staked@, 0);
            lemma_sum_fits(i as nat, total_pending@, 0);
        }
        if i < readings.len() {
            let reading = &readings[i];
            if let Some(staked) = reading.stake {
                let pending = match reading.pending_rewards {
                    Some(p) => p,
                    None => Wei::zero(),
                };
                if !staked.is_zero() || !pending.is_zero() {
                    let row = &registry[i];
                    let position = ServiceStakeInfo {
                        service_id: row.service_id.clone(),
                        service_name: row.service_name.clone(),
                        staked_wei: staked,
                        pending_rewards_wei: pending,
                        stake_token: row.stake_token.clone(),
                        min_stake_wei: row.min_stake_wei,
                    };
                    total_staked = accumulate(total_staked, &staked, Ghost(i as nat));
                    total_pending = accumulate(total_pending, &pending, Ghost(i as nat));
                    positions.push(position);
                    proof {
                        assert(positions_view(positions@) =~= before.push(position@));
                        assert(before.push(position@).drop_last() =~= before);
                    }
                }
            }
        }
        i += 1;
    }
    assert(registry@.take(i as int) =~= registry@);
    let can_unstake = !total_staked.is_zero();
    StakingInfo {
        total_staked_wei: total_staked,
        staked_by_service: positions,
        pending_rewards_wei: total_pending,
        can_unstake,
        unstake_cooldown_seconds: 0,
        auto_claim_enabled: prefs.auto_claim,
        auto_claim_threshold_wei: prefs.auto_claim_threshold_wei.clone(),
        auto_claim_interval_hours: prefs.auto_claim_interval_hours,
        next_auto_claim_timestamp: None,
    }
}

/// The rewards-only view of a connected wallet: one position for each row
/// whose rewards call succeeded with a positive amount, with no stake shown.
pub fn pending_reward_positions(registry: &Vec<ServiceContract>, readings: &Vec<ServiceReading>)
    -> (positions: Vec<ServiceStakeInfo>)
    ensures
        positions_view(positions@) == reward_positions(registry@, readings@),
{
    let mut positions: Vec<ServiceStakeInfo> = Vec::new();
    let mut i: usize = 0;
    assert(positions_view(positions@) =~= Seq::empty());
    assert(registry@.take(0) =~= Seq::empty());
    while i < registry.len()
        invariant
            i <= registry.len(),
            positions_view(positions@) == reward_positions(registry@.take(i as int), readings@),
        decreases registry.len() - i,
    {
        let ghost before = positions_view(positions@);
        proof {
            assert(registry@.take(i + 1).drop_last() =~= registry@.take(i as int));
            assert(registry@.take(i + 1)[i as int] == registry@[i as int]);
        }
        if i < readings.len() {
            if let Some(pending) = readings[i].pending_rewards {
                if !pending.is_zero() {
                    let row = &registry[i];
                    let position = ServiceStakeInfo {
                        service_id: row.service_id.clone(),
                        service_name: row.service_name.clone(),
                        staked_wei: Wei::zero(),
                        pending_rewards_wei: pending,
                        stake_token: row.stake_token.clone(),
                        min_stake_wei: row.min_stake_wei,
                    };
                    positions.push(position);
                    proof {
                        assert(positions_view(positions@) =~= before.push(position@));
                    }
                }
            }
        }
        i += 1;
    }
    assert(registry@.take(i as int) =~= registry@);
    positions
}

/// The summary for the wallet as it is now. A disconnected wallet gets the
/// disconnected summary, whatever the readings hold. A connected wallet
/// without an address, or with one that the address parser refuses, gets the
/// error, and so does an endpoint that the URL parser refuses. Any other
/// wallet gets the summary of the readings.
pub fn get_staking_info(
    wallet: &WalletContext,
    rpc_url: &str,
    registry: &Vec<ServiceContract>,
    readings: &Vec<ServiceReading>,
    prefs: &AutoClaimPreference,
) -> (r: Result<StakingInfo, StakingError>)
    ensures
        match query_address(
            *wallet,
            parsed_wallet_address(*wallet),
            url_parse_accepts(rpc_url@),
        ) {
            Err(e) => r == Err::<StakingInfo, StakingError>(e),
            Ok(None) => r is Ok && is_disconnected_summary(r->Ok_0, *prefs),
            Ok(Some(_)) => r is Ok && is_summary_of(r->Ok_0, registry@, readings@, *prefs),
        },
{
    match resolve_query_address(wallet, rpc_url) {
        Err(e) => Err(e),
        Ok(None) => Ok(disconnected_summary(prefs)),
        Ok(Some(_)) => Ok(summarize(registry, readings, prefs)),
    }
}

/// The rewards-only view for the wallet as it is now. A disconnected wallet
/// has no positions. A connected wallet without an address, or with one that
/// the address parser refuses, gets the error, and so does an endpoint that
/// the URL parser refuses.
pub fn get_pending_rewards(
    wallet: &WalletContext,
    rpc_url: &str,
    registry: &Vec<ServiceContract>,
    readings: &Vec<ServiceReading>,
) -> (r: Result<Vec<ServiceStakeInfo>, StakingError>)
    ensures
        match query_address(
            *wallet,
            parsed_wallet_address(*wallet),
            url_parse_accepts(rpc_url@),
        ) {
            Err(e) => r == Err::<Vec<ServiceStakeInfo>, StakingError>(e),
            Ok(None) => r is Ok && r->Ok_0@.len() == 0,
            Ok(Some(_)) => r is Ok && positions_view(r->Ok_0@) == reward_positions(
                registry@,
                readings@,
            ),
        },
{
    match resolve_query_address(wallet, rpc_url) {
        Err(e) => Err(e),
        Ok(None) => Ok(Vec::new()),
        Ok(Some(_)) => Ok(pending_reward_positions(registry, readings)),
    }
}

/// The summary's positions are decided by the readings of the registry's
/// rows alone: two lists of readings that agree on every row give the same
/// positions.
pub proof fn lemma_positions_read_rows_only(
    registry: Seq<ServiceContract>,
    first: Seq<ServiceReading>,
    second: Seq<ServiceReading>,
)
    requires
        forall|k: int|
            0 <= k < registry.len() ==> stake_read(first, k) == stake_read(second, k)
                && rewards_read(first, k) == rewards_read(second, k),
    ensures
        summary_positions(registry, first) == summary_positions(registry, second),
    decreases registry.len(),
{
    if registry.len() > 0 {
        lemma_positions_read_rows_only(registry.drop_last(), first, second);
    }
}

/// One failing contract never takes the others down with it: a row whose
/// stake call failed adds nothing to the summary, and every other row counts
/// as if the failed one had never been registered.
pub proof fn lemma_failed_service_is_left_out(
    registry: Seq<ServiceContract>,
    readings: Seq<ServiceReading>,
    j: int,
)
    requires
        0 <= j < registry.len(),
        j < readings.len(),
        readings[j].stake is None,
    ensures
        summary_positions(registry, readings) == summary_positions(
            registry.remove(j),
            readings.remove(j),
        ),
    decreases registry.len(),
{
    let last = registry.len() - 1;
    let rest = registry.drop_last();
    if j == last {
        assert(registry.remove(j) =~= rest);
        lemma_positions_read_rows_only(rest, readings, readings.remove(j));
    } else {
        lemma_failed_service_is_left_out(rest, readings, j);
        assert(registry.remove(j).drop_last() =~= rest.remove(j));
        assert(registry.remove(j)[last - 1] == registry[last]);
        assert(stake_read(readings.remove(j), last - 1) == stake_read(readings, last));
        assert(rewards_read(readings.remove(j), last - 1) == rewards_read(readings, last));
    }
}

/// A contract whose stake call succeeded with a positive amount has its
/// position in the summary, whatever became of the other contracts' calls.
pub proof fn lemma_successful_service_is_listed(
    registry: Seq<ServiceContract>,
    readings: Seq<ServiceReading>,
    i: int,
)
    requires
        0 <= i < registry.len(),
        stake_read(readings, i) matches Some(s) && s > 0,
    ensures
        summary_positions(registry, readings).contains(
            position_with(
                registry[i],
                stake_read(readings, i)->Some_0,
                match rewards_read(readings, i) {
                    Some(p) => p,
                    None => 0,
                },
            ),
        ),
    decreases registry.len(),
{
    let last = registry.len() - 1;
    let rest = registry.drop_last();
    let before = summary_positions(rest, readings);
    let all = summary_positions(registry, readings);
    if i == last {
        assert(all == before.push(all.last()));
        assert(all[all.len() - 1] == all.last());
    } else {
        lemma_successful_service_is_listed(rest, readings, i);
        let p = position_with(
            rest[i],
            stake_read(readings, i)->Some_0,
            match rewards_read(readings, i) {
                Some(p) => p,
                None => 0,
            },
        );
        let k = choose|k: int| 0 <= k < before.len() && before[k] == p;
        assert(all[k] == p);
    }
}

/// Reading the same chain state twice gives the same summary: two summaries
/// of the same registry, readings and preference agree in every part.
pub proof fn lemma_summary_is_repeatable(
    first: StakingInfo,
    second: StakingInfo,
    registry: Seq<ServiceContract>,
    readings: Seq<ServiceReading>,
    prefs: AutoClaimPreference,
)
    requires
        is_summary_of(first, registry, readings, prefs),
        is_summary_of(second, registry, readings, prefs),
    ensures
        positions_view(first.staked_by_service@) == positions_view(second.staked_by_service@),
        first.total_staked_wei@ == second.total_staked_wei@,
        first.pending_rewards_wei@ == second.pending_rewards_wei@,
        first.can_unstake == second.can_unstake,
        first.unstake_cooldown_seconds == second.unstake_cooldown_seconds,
        first.auto_claim_enabled == second.auto_claim_enabled,
        first.auto_claim_threshold_wei@ == second.auto_claim_threshold_wei@,
        first.auto_claim_interval_hours == second.auto_claim_interval_hours,
        first.next_auto_claim_timestamp == second.next_auto_claim_timestamp,
{
}

/// Something can be unstaked exactly when some listed position holds a
/// stake.
pub proof fn lemma_can_unstake_iff_some_stake(info: StakingInfo, prefs: AutoClaimPreference)
    requires
        summary_is_coherent(info, prefs),
    ensures
        info.can_unstake <==> exists|k: int|
            0 <= k < info.staked_by_service@.len() && (
            #[trigger] info.staked_by_service@[k]).staked_wei@ > 0,
{
    let ps = positions_view(info.staked_by_service@);
    lemma_sum_staked_positive(ps);
    if sum_staked(ps) > 0 {
        let k = choose|k: int| 0 <= k < ps.len() && (#[trigger] ps[k]).staked > 0;
        assert(info.staked_by_service@[k].staked_wei@ > 0);
    }
    if exists|k: int|
        0 <= k < info.staked_by_service@.len() && (#[trigger] info.staked_by_service@[k]).staked_wei@
            > 0 {
        let k = choose|k: int|
            0 <= k < info.staked_by_service@.len() && (
            #[trigger] info.staked_by_service@[k]).staked_wei@ > 0;
        assert(ps[k].staked > 0);
    }
}

/// A sum of stakes is positive exactly when one of them is.
pub proof fn lemma_sum_staked_positive(positions: Seq<PositionView>)
    ensures
        sum_staked(positions) > 0 <==> exists|k: int|
            0 <= k < positions.len() && (#[trigger] positions[k]).staked > 0,
    decreases positions.len(),
{
    if positions.len() > 0 {
        let rest = positions.drop_last();
        lemma_sum_staked_positive(rest);
        if sum_staked(rest) > 0 {
            let k = choose|k: int| 0 <= k < rest.len() && (#[trigger] rest[k]).staked > 0;
            assert(positions[k].staked > 0);
        }
        if positions.last().staked > 0 {
            assert(positions[positions.len() - 1].staked > 0);
        }
        if exists|k: int| 0 <= k < positions.len() && (#[trigger] positions[k]).staked > 0 {
            let k = choose|k: int| 0 <= k < positions.len() && (#[trigger] positions[k]).staked > 0;
            if k < rest.len() {
                assert(rest[k].staked > 0);
            }
        }
    }
}

/// The summary lists no empty position and at most one for each registered
/// contract: every position it holds has something staked or something
/// pending.
pub proof fn lemma_listed_positions_hold_something(
    registry: Seq<ServiceContract>,
    readings: Seq<ServiceReading>,
)
    ensures
        summary_positions(registry, readings).len() <= registry.len(),
        forall|k: int|
            0 <= k < summary_positions(registry, readings).len() ==> {
                let p = #[trigger] summary_positions(registry, readings)[k];
                p.staked > 0 || p.pending_rewards > 0
            },
    decreases registry.len(),
{
    if registry.len() > 0 {
        lemma_listed_positions_hold_something(registry.drop_last(), readings);
    }
}

/// The rewards-only view lists at most one position for each registered
/// contract, each with rewards pending and with no stake shown.
pub proof fn lemma_reward_positions_show_rewards_only(
    registry: Seq<ServiceContract>,
    readings: Seq<ServiceReading>,
)
    ensures
        reward_positions(registry, readings).len() <= registry.len(),
        forall|k: int|
            0 <= k < reward_positions(registry, readings).len() ==> {
                let p = #[trigger] reward_positions(registry, readings)[k];
                p.staked == 0 && p.pending_rewards > 0
            },
    decreases registry.len(),
{
    if registry.len() > 0 {
        lemma_reward_positions_show_rewards_only(registry.drop_last(), readings);
    }
}

/// With no contract registered, or with every stake call failed, the summary
/// is that of a wallet with nothing staked.
pub proof fn lemma_all_failed_gives_empty_summary(
    registry: Seq<ServiceContract>,
    readings: Seq<ServiceReading>,
)
    requires
        forall|k: int| 0 <= k < registry.len() ==> stake_read(readings, k) is None,
    ensures
        summary_positions(registry, readings).len() == 0,
        sum_staked(summary_positions(registry, readings)) == 0,
        sum_pending(summary_positions(registry, readings)) == 0,
    decreases registry.len(),
{
    if registry.len() > 0 {
        lemma_all_failed_gives_empty_summary(registry.drop_last(), readings);
    }
}

}
