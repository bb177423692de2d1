//! The supply chain: which pool of suppliers a request goes to, and how many
//! suppliers a pool is short of.
//!
//! Every stage declared static has a pool of its own; all other stages share the
//! dynamic pool. A pool's channel counts its receivers: one for each supplier
//! attached to it, and one that the supply chain keeps for itself.

use crate::error::{ConfigError, Error, ErrorView};
use crate::error_kind::CHANNEL_COMMUNICATION_FAILURE;
use crate::models::config_supplier::{result_view, ConfigSupplier};
use crate::models::supplier_model::fresh;
use crate::models::config_supplier_init::ConfigSupplierInit;
use crate::models::config_supply_response::{unexpected_response, ConfigSupplyResponse};
use crate::models::token::{fresh_token, is_token};
use crate::text::{position_of, texts};
use vstd::prelude::*;

verus! {

/// How many requests a pool's channel holds before a sender has to wait.
pub const CHANNEL_CAPACITY: usize = 1024;

/// What came of handing a request to a pool and waiting for its answer.
#[derive(Debug, PartialEq)]
pub enum Exchange {
    /// The request could not be sent; `cause` says why.
    Unsent { cause: String },
    /// The request was sent, and the reply channel closed without an answer.
    Unanswered { cause: String },
    /// A supplier answered.
    Answered { response: ConfigSupplyResponse },
}

/// The pool that serves a stage.
#[derive(Debug, PartialEq, Eq, Clone, Copy)]
pub enum Route {
    /// The pool of the static stage at this index among the supply chain's stages.
    Static(usize),
    /// The pool that all other stages share.
    Dynamic,
}

/// `items` in order, each kept where it stands first.
pub open spec fn without_repeats(items: Seq<Seq<char>>) -> Seq<Seq<char>>
    decreases items.len(),
{
    if items.len() == 0 {
        items
    } else if without_repeats(items.drop_last()).contains(items.last()) {
        without_repeats(items.drop_last())
    } else {
        without_repeats(items.drop_last()).push(items.last())
    }
}

/// The suppliers attached to a channel with `receiver_count` receivers: all of them
/// but the one that the supply chain keeps.
pub open spec fn attached(receiver_count: nat) -> nat {
    if receiver_count > 0 {
        (receiver_count - 1) as nat
    } else {
        0
    }
}

/// How many suppliers a pool lacks to reach `target`.
pub open spec fn shortfall(target: nat, receiver_count: nat) -> nat {
    if attached(receiver_count) < target {
        (target - attached(receiver_count)) as nat
    } else {
        0
    }
}

impl View for Route {
    type V = Option<int>;

    /// The index of the static stage whose pool it is; none for the dynamic pool.
    open spec fn view(&self) -> Option<int> {
        match self {
            Route::Static(index) => Some(*index as int),
            Route::Dynamic => None,
        }
    }
}

/// The pool of `stage`: its own if the stage is among `static_stages`, told by the
/// index at which the stage stands there first; the dynamic pool if not.
pub open spec fn routed(static_stages: Seq<Seq<char>>, stage: Seq<char>) -> Option<int> {
    static_stages.index_of_first(stage)
}

/// The failure that stands for a request that no supplier could be handed.
pub open spec fn unsent(cause: Seq<char>) -> ErrorView {
    ErrorView {
        kind: CHANNEL_COMMUNICATION_FAILURE@,
        message: "failed to send request: "@ + cause,
    }
}

/// The failure that stands for a request whose answer never came.
pub open spec fn unanswered(cause: Seq<char>) -> ErrorView {
    ErrorView {
        kind: CHANNEL_COMMUNICATION_FAILURE@,
        message: "failed to receive value: "@ + cause,
    }
}

/// A supply chain as plain values.
pub struct ChainView {
    /// The static stages, none of them twice.
    pub static_stages: Seq<Seq<char>>,
    pub environments: Seq<Seq<char>>,
    pub extension: Seq<char>,
    pub suppliers_count: nat,
}

pub struct ConfigSupplyChain {
    static_stages: Vec<String>,
    config_supplier_init: ConfigSupplierInit,
    suppliers_count: usize,
}

impl View for ConfigSupplyChain {
    type V = ChainView;

    closed spec fn view(&self) -> ChainView {
        ChainView {
            static_stages: texts(self.static_stages@),
            environments: texts(self.config_supplier_init.environments@),
            extension: self.config_supplier_init.extension@,
            suppliers_count: self.suppliers_count as nat,
        }
    }
}

/// Nothing stands twice in a list that was made without repeats, and it holds exactly
/// what the list it was made from holds.
pub proof fn lemma_without_repeats(items: Seq<Seq<char>>)
    ensures
        without_repeats(items).no_duplicates(),
        forall|item: Seq<char>| without_repeats(items).contains(item) <==> items.contains(item),
    decreases items.len(),
{
    if items.len() > 0 {
        let front = items.drop_last();
        let kept = without_repeats(front);
        lemma_without_repeats(front);
        assert forall|item: Seq<char>| without_repeats(items).contains(item) <==> items.contains(
            item,
        ) by {
            if items.contains(item) {
                // An item of the front was kept with it; the last item is kept now,
                // unless it was kept before.
                let at = choose|at: int| 0 <= at < items.len() && items[at] == item;
                if at < items.len() - 1 {
                    assert(front[at] == item);
                    assert(front.contains(item));
                    let held = choose|held: int| 0 <= held < kept.len() && kept[held] == item;
                    assert(without_repeats(items)[held] == item);
                } else if !kept.contains(item) {
                    assert(without_repeats(items)[kept.len() as int] == item);
                }
            }
            if without_repeats(items).contains(item) {
                // What is kept was kept with the front, or is the last item.
                let held = choose|held: int|
                    0 <= held < without_repeats(items).len() && without_repeats(items)[held]
                        == item;
                if held < kept.len() {
                    assert(kept[held] == item);
                    assert(front.contains(item));
                }
            }
        }
    }
}

impl ConfigSupplyChain {
    /// A supply chain over `static_stages`, each with a pool of its own however often
    /// it is named, and the dynamic pool. Every pool is meant to have
    /// `suppliers_count` suppliers, made with `config_supplier_init`.
    pub fn try_new(
        suppliers_count: usize,
        static_stages: Vec<String>,
        config_supplier_init: ConfigSupplierInit,
    ) -> (made: Result<Self, Error>)
        ensures
            made is Ok,
            made->Ok_0@ == (ChainView {
                static_stages: without_repeats(texts(static_stages@)),
                environments: texts(config_supplier_init.environments@),
                extension: config_supplier_init.extension@,
                suppliers_count: suppliers_count as nat,
            }),
    {
        let mut kept: Vec<String> = Vec::new();
        let mut index: usize = 0;
        while index < static_stages.len()
            invariant
                index <= static_stages@.len(),
                texts(kept@) == without_repeats(texts(static_stages@).take(index as int)),
            decreases static_stages@.len() - index,
        {
            assert(texts(static_stages@).take(index + 1).drop_last() =~= texts(
                static_stages@,
            ).take(index as int));
            match position_of(&kept, static_stages[index].as_str()) {
                None => {
                    kept.push(static_stages[index].clone());
                },
                Some(at) => {
                    assert(texts(kept@)[at as int] == static_stages@[index as int]@);
                },
            }
            index += 1;
        }
        assert(texts(static_stages@).take(index as int) =~= texts(static_stages@));
        Ok(ConfigSupplyChain { static_stages: kept, config_supplier_init, suppliers_count })
    }

    /// The static stages, each once, in the order in which they were first named.
    pub fn static_stages(&self) -> (stages: &Vec<String>)
        ensures
            texts(stages@) == self@.static_stages,
    {
        &self.static_stages
    }

    /// The number of suppliers that every pool is meant to have.
    pub fn suppliers_count(&self) -> (count: usize)
        ensures
            count == self@.suppliers_count,
    {
        self.suppliers_count
    }

    /// Changes the number of suppliers that every pool is meant to have. Pools grow to
    /// it as requests are routed to them.
    pub fn set_suppliers_count(&mut self, suppliers_count: usize)
        ensures
            final(self)@ == (ChainView {
                suppliers_count: suppliers_count as nat,
                ..old(self)@
            }),
    {
        self.suppliers_count = suppliers_count;
    }

    /// The pool that serves `stage`.
    pub fn route(&self, stage: &str) -> (route: Route)
        ensures
            route@ == routed(self@.static_stages, stage@),
            route is Static <==> self@.static_stages.contains(stage@),
            route matches Route::Static(index) ==> index < self@.static_stages.len()
                && self@.static_stages[index as int] == stage@,
    {
        let ghost stages = texts(self.static_stages@);
        proof {
            stages.index_of_first_ensures(stage@);
        }
        match position_of(&self.static_stages, stage) {
            Some(index) => {
                assert(stages[index as int] == stage@);
                Route::Static(index)
            },
            None => Route::Dynamic,
        }
    }

    /// How many suppliers to add to a pool whose channel counts `receiver_count`
    /// receivers, so that the pool has as many as every pool is meant to have.
    pub fn suppliers_to_add(&self, receiver_count: usize) -> (missing: usize)
        ensures
            missing == shortfall(self@.suppliers_count, receiver_count as nat),
            attached(receiver_count as nat) + missing >= self@.suppliers_count,
            attached(receiver_count as nat) >= self@.suppliers_count ==> missing == 0,
    {
        let current: usize = if receiver_count > 0 {
            receiver_count - 1
        } else {
            0
        };
        if current < self.suppliers_count {
            self.suppliers_count - current
        } else {
            0
        }
    }

    /// What the caller gets, given what came of the exchange with the pool: the
    /// supplier's own result if it answered the request, a failure of the channel if
    /// the request or its answer got lost, and a failure of its own kind for an
    /// answer to another request than the one made.
    pub fn get_config(&self, exchange: Exchange) -> (result: Result<Vec<u8>, Error>)
        ensures
            match exchange {
                Exchange::Unsent { cause } => result_view(result) == Err::<
                    Seq<u8>,
                    ErrorView,
                >(unsent(cause@)),
                Exchange::Unanswered { cause } => result_view(result) == Err::<
                    Seq<u8>,
                    ErrorView,
                >(unanswered(cause@)),
                Exchange::Answered {
                    response: ConfigSupplyResponse::GetConfig { result: carried },
                } => result == carried,
                Exchange::Answered { response: ConfigSupplyResponse::Update { .. } } => result_view(
                    result,
                ) == Err::<Seq<u8>, ErrorView>(unexpected_response()),
            },
    {
        match exchange {
            Exchange::Unsent { cause } => Err(ConfigError::from_send(cause.as_str()).0),
            Exchange::Unanswered { cause } => Err(ConfigError::from_receive(cause.as_str()).0),
            Exchange::Answered { response } => response.into_config(),
        }
    }

    /// A new supplier for one of the pools: idle, nothing set up, in a working
    /// directory named by a token drawn for it.
    pub fn add_supplier(&self) -> (supplier: ConfigSupplier)
        ensures
            is_token(supplier@.working),
            supplier@ == fresh(self@.environments, self@.extension, supplier@.working),
    {
        ConfigSupplier::new(
            self.config_supplier_init.environments.clone(),
            self.config_supplier_init.extension.clone(),
            fresh_token(),
        )
    }
}

/// A pool is topped up to its target and never beyond: after the suppliers that it
/// was short of are added, it has the target if it had no more before, and what it had
/// if it had more.
pub proof fn lemma_pool_reaches_target(target: nat, receiver_count: nat)
    ensures
        attached(receiver_count) + shortfall(target, receiver_count) >= target,
        attached(receiver_count) <= target ==> attached(receiver_count) + shortfall(
            target,
            receiver_count,
        ) == target,
        attached(receiver_count) >= target ==> shortfall(target, receiver_count) == 0,
{
}

/// A pool that has just been made lacks every one of its suppliers: its channel counts
/// no receiver but the supply chain's own.
pub proof fn lemma_new_pool_lacks_all(target: nat)
    ensures
        shortfall(target, 1) == target,
{
}

/// Which pool serves a stage depends on nothing but whether the stage is static: a
/// static stage always goes to its own pool, any other to the dynamic pool.
pub proof fn lemma_route_follows_membership(static_stages: Seq<Seq<char>>, stage: Seq<char>)
    ensures
        static_stages.contains(stage) <==> routed(static_stages, stage) is Some,
        routed(static_stages, stage) matches Some(index) ==> 0 <= index < static_stages.len()
            && static_stages[index] == stage,
{
    static_stages.index_of_first_ensures(stage);
}

/// Every stage that was declared static has a pool of its own, however often it was
/// declared, and no other stage has one.
pub proof fn lemma_declared_stage_has_a_pool(declared: Seq<Seq<char>>, stage: Seq<char>)
    ensures
        declared.contains(stage) <==> routed(without_repeats(declared), stage) is Some,
{
    lemma_without_repeats(declared);
    lemma_route_follows_membership(without_repeats(declared), stage);
}

} // verus!
