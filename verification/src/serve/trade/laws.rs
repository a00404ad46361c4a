//! What holds of every trade and every registry, whatever the requests.

use crate::db::database::StoreView;
use crate::db::entities::possession::Model as PossessionModel;
use crate::serve::trade::error::{Missing, TradeError};
use crate::serve::trade::executor::executed;
use crate::serve::trade::logic::{TradeOperation, TradeView};
use crate::serve::trade::registry::RegistryView;
use vstd::prelude::*;

verus! {

/// One change of a registry: a trade is opened, a move is made on a trade,
/// or a trade leaves, by cancellation or after its execution.
pub enum Step {
    Open { trader_1: i32, trader_2: i32 },
    Move { id: u64, operation: TradeOperation },
    Close { id: u64 },
}

impl RegistryView {
    /// The registry after one change.
    pub open spec fn step(self, step: Step) -> RegistryView {
        match step {
            Step::Open { trader_1, trader_2 } => self.opened(trader_1, trader_2),
            Step::Move { id, operation } => self.moved(id, operation),
            Step::Close { id } => self.closed(id),
        }
    }

    /// The registry after a sequence of changes, the first one first.
    pub open spec fn run(self, steps: Seq<Step>) -> RegistryView
        decreases steps.len(),
    {
        if steps.len() == 0 {
            self
        } else {
            self.run(steps.drop_last()).step(steps.last())
        }
    }

    /// The id that the change at `index` gives out, where that change opens
    /// a trade: the counter as it stands after the changes before it.
    pub open spec fn id_given_at(self, steps: Seq<Step>, index: int) -> u64
        recommends
            0 <= index < steps.len(),
            steps[index] is Open,
    {
        self.run(steps.take(index)).next_id
    }
}

/// Opening a trade between two different owners keeps a registry well
/// formed, gives the trade an id that no open trade has, and moves the
/// counter up by one.
pub proof fn lemma_opening_takes_a_new_id(registry: RegistryView, trader_1: i32, trader_2: i32)
    requires
        registry.well_formed(),
        registry.next_id < u64::MAX,
        trader_1 != trader_2,
    ensures
        registry.opened(trader_1, trader_2).well_formed(),
        !registry.trades.contains_key(registry.next_id),
        registry.opened(trader_1, trader_2).trades.contains_key(registry.next_id),
        registry.opened(trader_1, trader_2).next_id == registry.next_id + 1,
        forall|id: u64| registry.trades.contains_key(id) ==> id < registry.next_id,
{
}

/// A change that can be made of a well-formed registry: a trade is opened
/// only between two different owners and only while the counter has an id
/// left to give.
pub open spec fn admissible(registry: RegistryView, step: Step) -> bool {
    step matches Step::Open { trader_1, trader_2 } ==> trader_1 != trader_2 && registry.next_id
        < u64::MAX
}

/// A run that the registry can make: every change in it is admissible of
/// the registry as it stands when the change is made.
pub open spec fn admissible_run(registry: RegistryView, steps: Seq<Step>) -> bool
    decreases steps.len(),
{
    steps.len() == 0 || {
        &&& admissible_run(registry, steps.drop_last())
        &&& admissible(registry.run(steps.drop_last()), steps.last())
    }
}

/// Every change keeps a registry well formed: each trade stays under its
/// own id, between two different owners, and below the counter.
pub proof fn lemma_steps_keep_well_formed(registry: RegistryView, step: Step)
    requires
        registry.well_formed(),
        admissible(registry, step),
    ensures
        registry.step(step).well_formed(),
{
}

/// Every beginning of an admissible run is an admissible run, and the
/// change that follows it is admissible of the registry that it has led to.
pub proof fn lemma_runs_begin_admissibly(registry: RegistryView, steps: Seq<Step>, length: int)
    requires
        admissible_run(registry, steps),
        0 <= length <= steps.len(),
    ensures
        admissible_run(registry, steps.take(length)),
        length < steps.len() ==> {
            &&& admissible(registry.run(steps.take(length)), steps[length])
            &&& registry.run(steps.take(length + 1)) == registry.run(steps.take(length)).step(
                steps[length],
            )
        },
    decreases steps.len() - length,
{
    if length == steps.len() {
        assert(steps.take(length) =~= steps);
    } else if length == steps.len() - 1 {
        assert(steps.take(length) =~= steps.drop_last());
        assert(steps.take(length + 1) =~= steps);
    } else {
        lemma_runs_begin_admissibly(registry, steps.drop_last(), length);
        assert(steps.drop_last().take(length) =~= steps.take(length));
        assert(steps.drop_last().take(length + 1) =~= steps.take(length + 1));
    }
}

/// Every admissible run keeps a registry well formed.
pub proof fn lemma_runs_keep_well_formed(registry: RegistryView, steps: Seq<Step>)
    requires
        registry.well_formed(),
        admissible_run(registry, steps),
    ensures
        registry.run(steps).well_formed(),
    decreases steps.len(),
{
    if steps.len() > 0 {
        lemma_runs_keep_well_formed(registry, steps.drop_last());
        lemma_steps_keep_well_formed(registry.run(steps.drop_last()), steps.last());
    }
}

/// No change moves the counter down, and the changes that open a trade are
/// those that move it up, by one each.
pub proof fn lemma_counter_counts_openings(registry: RegistryView, steps: Seq<Step>)
    requires
        admissible_run(registry, steps),
    ensures
        registry.next_id <= registry.run(steps).next_id <= registry.next_id + steps.len(),
        steps.len() > 0 ==> registry.run(steps).next_id == registry.run(
            steps.drop_last(),
        ).next_id + if steps.last() is Open {
            1int
        } else {
            0int
        },
    decreases steps.len(),
{
    if steps.len() > 0 {
        lemma_counter_counts_openings(registry, steps.drop_last());
    }
}

/// The counter after a longer beginning of an admissible run is not below
/// the counter after a shorter one.
pub proof fn lemma_counter_never_falls(
    registry: RegistryView,
    steps: Seq<Step>,
    shorter: int,
    longer: int,
)
    requires
        admissible_run(registry, steps),
        0 <= shorter <= longer <= steps.len(),
    ensures
        registry.run(steps.take(shorter)).next_id <= registry.run(steps.take(longer)).next_id,
    decreases longer - shorter,
{
    if shorter < longer {
        lemma_counter_never_falls(registry, steps, shorter, longer - 1);
        lemma_runs_begin_admissibly(registry, steps, longer - 1);
    }
}

/// Repeated openings give strictly increasing ids: of two changes that open
/// a trade, the later one gives out the greater id, whatever other changes
/// were made before, between and after them. So no id is given out twice,
/// not even the id of a trade that has left the registry.
pub proof fn lemma_ids_strictly_increase(
    registry: RegistryView,
    steps: Seq<Step>,
    earlier: int,
    later: int,
)
    requires
        admissible_run(registry, steps),
        0 <= earlier < later < steps.len(),
        steps[earlier] is Open,
        steps[later] is Open,
    ensures
        registry.next_id <= registry.id_given_at(steps, earlier),
        registry.id_given_at(steps, earlier) < registry.id_given_at(steps, later),
{
    lemma_counter_never_falls(registry, steps, 0, earlier);
    assert(steps.take(0) =~= Seq::<Step>::empty());
    lemma_runs_begin_admissibly(registry, steps, earlier);
    lemma_counter_never_falls(registry, steps, earlier + 1, later);
}

/// The id of a trade that has left the registry is never given out again:
/// an id that the counter has passed and that no open trade has stays
/// without a trade, whatever changes follow.
pub proof fn lemma_closed_ids_stay_closed(registry: RegistryView, steps: Seq<Step>, id: u64)
    requires
        admissible_run(registry, steps),
        id < registry.next_id,
        !registry.trades.contains_key(id),
    ensures
        !registry.run(steps).trades.contains_key(id),
    decreases steps.len(),
{
    if steps.len() > 0 {
        lemma_closed_ids_stay_closed(registry, steps.drop_last(), id);
        lemma_counter_counts_openings(registry, steps.drop_last());
    }
}

/// No move changes who trades: the id of a trade and its two sides are the
/// same after any move.
pub proof fn lemma_moves_keep_the_sides(trade: TradeView, operation: TradeOperation)
    ensures
        trade.after(operation).id == trade.id,
        trade.after(operation).trader_1 == trade.trader_1,
        trade.after(operation).trader_2 == trade.trader_2,
{
}

/// Whatever move changes an offer list leaves both accept flags down: the
/// offers cannot change under an acceptance.
pub proof fn lemma_offers_change_only_when_reopened(trade: TradeView, operation: TradeOperation)
    requires
        trade.after(operation).trade_1_items != trade.trade_1_items || trade.after(
            operation,
        ).trade_2_items != trade.trade_2_items,
    ensures
        !trade.after(operation).trade_1_accept,
        !trade.after(operation).trade_2_accept,
{
}

/// A change of either offer list takes both acceptances back, whatever
/// they were: after an offer that was taken, and after an offer that was
/// withdrawn, both accept flags are down.
pub proof fn lemma_changed_offers_reopen(trade: TradeView, owner: i32, item: PossessionModel)
    ensures
        trade.admits(owner, item) ==> {
            &&& !trade.with_offer(owner, item.id).trade_1_accept
            &&& !trade.with_offer(owner, item.id).trade_2_accept
        },
        trade.offers(owner, item.id) ==> {
            &&& !trade.without_offer(owner, item.id).trade_1_accept
            &&& !trade.without_offer(owner, item.id).trade_2_accept
        },
{
}

/// A move by an owner who is no side of the trade changes nothing: neither
/// offer list, neither accept flag.
pub proof fn lemma_strangers_change_nothing(trade: TradeView, operation: TradeOperation)
    requires
        match operation {
            TradeOperation::AddItem { owner, .. } => !trade.involves(owner.id),
            TradeOperation::RemoveItem { owner, .. } => !trade.involves(owner.id),
            TradeOperation::ToggleAccept { owner } => !trade.involves(owner.id),
        },
    ensures
        !trade.answers(operation),
        trade.after(operation) == trade,
{
}

/// Only a toggle can bring a trade to the point of execution, and only the
/// toggle of the side that had not yet accepted while the other had: no
/// move makes both flags stand up unless one was up before it and the
/// mover raised the other.
pub proof fn lemma_acceptance_is_completed_by_a_toggle(trade: TradeView, operation: TradeOperation)
    requires
        !trade.both_accepted(),
        trade.after(operation).both_accepted(),
    ensures
        operation matches TradeOperation::ToggleAccept { owner } && {
            ||| owner.id == trade.trader_1 && !trade.trade_1_accept && trade.trade_2_accept
            ||| owner.id == trade.trader_2 && !trade.trade_2_accept && trade.trade_1_accept
        },
{
}

/// A trade that has left the registry is gone for good: a second
/// cancellation of the same id fails with "trade not found" and changes
/// nothing.
pub proof fn lemma_second_cancellation_fails(registry: RegistryView, id: u64)
    ensures
        !registry.closed(id).trades.contains_key(id),
        registry.closed(id).cancellation(id) == Err::<(), TradeError>(
            TradeError::NotFound(Missing::Trade(id)),
        ),
        registry.closed(id).closed(id) == registry.closed(id),
{
    assert(registry.closed(id).closed(id).trades =~= registry.closed(id).trades);
}

/// An execution neither adds nor drops a row of the store, and changes the
/// owner of a possession only: what neither side offers stays with its
/// owner, and every other column of every row stays as it is.
pub proof fn lemma_execution_moves_offers_only(trade: TradeView, store: StoreView, id: i32)
    ensures
        executed(trade, store).owners == store.owners,
        executed(trade, store).possessions.contains_key(id) == store.possessions.contains_key(id),
        store.possessions.contains_key(id) ==> {
            let before = store.possessions[id];
            let after = executed(trade, store).possessions[id];
            &&& after.id == before.id
            &&& after.item == before.item
            &&& trade.trade_1_items.contains(id) || trade.trade_2_items.contains(id)
                || after.owner == before.owner
        },
{
}

/// An offer whose possession has left the store is passed over without a
/// failure: executing with the possession `gone` dropped beforehand gives
/// what executing with it in the store and dropping it afterwards gives, so
/// every other possession changes hands as if nothing were missing.
pub proof fn lemma_execution_skips_what_is_gone(trade: TradeView, store: StoreView, gone: i32)
    ensures
        executed(
            trade,
            StoreView { possessions: store.possessions.remove(gone), ..store },
        ) == (StoreView {
            possessions: executed(trade, store).possessions.remove(gone),
            ..executed(trade, store)
        }),
{
    let without = StoreView { possessions: store.possessions.remove(gone), ..store };
    assert(executed(trade, without).possessions =~= executed(trade, store).possessions.remove(
        gone,
    ));
}

} // verus!
