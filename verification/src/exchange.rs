//! The handling of one request from the look at the store to the answer, with
//! the store and upstream as the engine takes them to be, and what holds of
//! every such exchange.

use crate::calendar::Ymd;
use crate::resolver::{resolution, RequestModel};
use crate::session::{
    failure, opening, ready, step_model, ActionModel, ConfigModel, EventModel, PhaseModel,
    ResultModel,
};
use crate::store::{CacheState, StoreModel};
use crate::upstream::{upstream_url, OutcomeModel};
use vstd::prelude::*;

verus! {

/// What surrounds the engine during one exchange: the store, the moment at
/// which the exchange takes place, and what an attempt at upstream comes to.
pub struct World {
    pub store: StoreModel,
    pub now: int,
    pub upstream: OutcomeModel,
}

/// An exchange that has run: the actions that the engine asked for, in their
/// order, and the store as it was left.
pub struct Exchange {
    pub actions: Seq<ActionModel>,
    pub store: StoreModel,
}

impl World {
    /// What comes of an action, and the store after it. Only a commit changes
    /// the store. An answer to the client and an abort end the exchange:
    /// nothing comes of them.
    pub open spec fn reaction(self, action: ActionModel) -> Option<(EventModel, StoreModel)> {
        match action {
            ActionModel::Probe { key } => Some(
                (
                    EventModel::Probed { written: self.store.written(key), now: self.now },
                    self.store,
                ),
            ),
            ActionModel::Fetch { .. } => Some((EventModel::Fetched(self.upstream), self.store)),
            ActionModel::Commit { key, bytes, .. } => Some(
                (EventModel::Committed, self.store.commit(key, bytes, self.now)),
            ),
            ActionModel::Reply(_) => None,
            ActionModel::Abort => None,
        }
    }
}

/// The exchange that begins in `phase` with `action`, followed for at most
/// `steps` steps of the engine.
pub open spec fn exchange(
    cfg: ConfigModel,
    phase: PhaseModel,
    action: ActionModel,
    world: World,
    steps: nat,
) -> Exchange
    decreases steps,
{
    match world.reaction(action) {
        Some((event, store)) => if steps == 0 {
            Exchange { actions: seq![action], store: world.store }
        } else {
            let next = step_model(cfg, phase, event);
            let rest = exchange(
                cfg,
                next.0,
                next.1,
                World { store, now: world.now, upstream: world.upstream },
                (steps - 1) as nat,
            );
            Exchange { actions: seq![action] + rest.actions, store: rest.store }
        },
        None => Exchange { actions: seq![action], store: world.store },
    }
}

/// The exchange for the document of `key`: it begins with a look at the
/// store. Three steps of the engine bring every exchange to its end.
pub open spec fn served(cfg: ConfigModel, key: Ymd, world: World) -> Exchange {
    exchange(cfg, PhaseModel::Probing { key }, ActionModel::Probe { key }, world, 3)
}

/// The exchange for a request, from its opening.
pub open spec fn handled(
    cfg: ConfigModel,
    request: RequestModel,
    today: Ymd,
    world: World,
) -> Exchange {
    exchange(cfg, opening(cfg, request, today).0, opening(cfg, request, today).1, world, 3)
}

/// The engine asked for no fetch during the exchange.
pub open spec fn without_fetch(run: Exchange) -> bool {
    forall|i: int| 0 <= i < run.actions.len() ==> !(#[trigger] run.actions[i] is Fetch)
}

/// The engine asked for no write during the exchange.
pub open spec fn without_commit(run: Exchange) -> bool {
    forall|i: int| 0 <= i < run.actions.len() ==> !(#[trigger] run.actions[i] is Commit)
}

/// While a document is fresh, a request for it is answered from the store:
/// the engine looks at the store, answers that the document is ready, and
/// asks for no fetch and no write, whatever upstream would have said.
pub proof fn fresh_document_is_served_without_fetch(cfg: ConfigModel, key: Ymd, world: World)
    requires
        world.store.probe(key, world.now, cfg.ttl) == CacheState::Fresh,
    ensures
        served(cfg, key, world).actions == seq![
            ActionModel::Probe { key },
            ActionModel::Reply(ready(cfg, key)),
        ],
        without_fetch(served(cfg, key, world)),
        without_commit(served(cfg, key, world)),
        served(cfg, key, world).store == world.store,
{
    reveal_with_fuel(exchange, 4);
    let run = served(cfg, key, world);
    assert(run.actions =~= seq![ActionModel::Probe { key }, ActionModel::Reply(ready(cfg, key))]);
}

/// Where a stale document is stored and upstream does not send a new one,
/// whether it has none yet, cannot be reached or answers with an error, the
/// request is answered that the document is ready, and the store is left as
/// it was: the engine asks for one fetch and for no write.
pub proof fn stale_document_survives_failure(cfg: ConfigModel, key: Ymd, world: World)
    requires
        world.store.probe(key, world.now, cfg.ttl) == CacheState::Stale,
        !(world.upstream is Success),
    ensures
        served(cfg, key, world).actions == seq![
            ActionModel::Probe { key },
            ActionModel::Fetch { key, url: upstream_url(cfg.upstream_base, key) },
            ActionModel::Reply(ready(cfg, key)),
        ],
        without_commit(served(cfg, key, world)),
        served(cfg, key, world).store == world.store,
{
    reveal_with_fuel(exchange, 4);
    let run = served(cfg, key, world);
    assert(run.actions =~= seq![
        ActionModel::Probe { key },
        ActionModel::Fetch { key, url: upstream_url(cfg.upstream_base, key) },
        ActionModel::Reply(ready(cfg, key)),
    ]);
}

/// Where no document is stored and upstream does not send one, the request
/// is turned down, never answered as ready, and the store is left as it was.
pub proof fn absent_document_fails_visibly(cfg: ConfigModel, key: Ymd, world: World)
    requires
        world.store.probe(key, world.now, cfg.ttl) == CacheState::Absent,
        !(world.upstream is Success),
    ensures
        served(cfg, key, world).actions == seq![
            ActionModel::Probe { key },
            ActionModel::Fetch { key, url: upstream_url(cfg.upstream_base, key) },
            ActionModel::Reply(ResultModel::Rejected(failure(key, world.upstream))),
        ],
        without_commit(served(cfg, key, world)),
        served(cfg, key, world).store == world.store,
{
    reveal_with_fuel(exchange, 4);
    let run = served(cfg, key, world);
    assert(run.actions =~= seq![
        ActionModel::Probe { key },
        ActionModel::Fetch { key, url: upstream_url(cfg.upstream_base, key) },
        ActionModel::Reply(ResultModel::Rejected(failure(key, world.upstream))),
    ]);
}

/// Where no fresh document is stored and upstream sends one, it is written in
/// place of what was stored, the request is answered that the document is
/// ready, and a look at the store at that moment finds the document fresh,
/// as long as the time to live is more than nothing.
pub proof fn new_document_replaces_old(cfg: ConfigModel, key: Ymd, world: World, bytes: Seq<u8>)
    requires
        world.store.probe(key, world.now, cfg.ttl) != CacheState::Fresh,
        world.upstream == OutcomeModel::Success(bytes),
    ensures
        served(cfg, key, world).actions.len() == 4,
        served(cfg, key, world).actions[0] == (ActionModel::Probe { key }),
        served(cfg, key, world).actions[1] == (ActionModel::Fetch {
            key,
            url: upstream_url(cfg.upstream_base, key),
        }),
        served(cfg, key, world).actions[2] matches ActionModel::Commit {
            key: stored,
            bytes: written,
            ..
        } && stored == key && written == bytes,
        served(cfg, key, world).actions[3] == ActionModel::Reply(ready(cfg, key)),
        served(cfg, key, world).store == world.store.commit(key, bytes, world.now),
        cfg.ttl > 0 ==> served(cfg, key, world).store.probe(key, world.now, cfg.ttl)
            == CacheState::Fresh,
{
    reveal_with_fuel(exchange, 4);
}

/// Every exchange ends with an answer to the client, which is its last
/// action and its only answer, and never with an abort. Upstream is asked at
/// most once.
pub proof fn exchange_ends_with_an_answer(cfg: ConfigModel, key: Ymd, world: World)
    ensures
        served(cfg, key, world).actions.len() >= 2,
        served(cfg, key, world).actions.last() is Reply,
        forall|i: int|
            0 <= i < served(cfg, key, world).actions.len() - 1 ==> !(#[trigger] served(
                cfg,
                key,
                world,
            ).actions[i] is Reply),
        forall|i: int|
            0 <= i < served(cfg, key, world).actions.len() ==> !(#[trigger] served(
                cfg,
                key,
                world,
            ).actions[i] is Abort),
        forall|i: int, j: int|
            0 <= i < j < served(cfg, key, world).actions.len() ==> !(served(
                cfg,
                key,
                world,
            ).actions[i] is Fetch && served(cfg, key, world).actions[j] is Fetch),
{
    reveal_with_fuel(exchange, 4);
}

/// An answer that the document is ready is only given while the document is
/// stored: it is the document of the key that was asked for, under the
/// address of that key, and the store holds it when the exchange ends.
pub proof fn ready_document_is_stored(cfg: ConfigModel, key: Ymd, world: World)
    ensures
        served(cfg, key, world).actions.last() matches ActionModel::Reply(
            ResultModel::Ready { .. },
        ) ==> served(cfg, key, world).actions.last() == ActionModel::Reply(ready(cfg, key))
            && served(cfg, key, world).store.documents.contains_key(key),
{
    reveal_with_fuel(exchange, 4);
}

/// An exchange changes the store for no key but the one asked for.
pub proof fn other_documents_are_left_alone(cfg: ConfigModel, key: Ymd, world: World, other: Ymd)
    requires
        other != key,
    ensures
        served(cfg, key, world).store.documents.contains_key(other)
            == world.store.documents.contains_key(other),
        world.store.documents.contains_key(other) ==> served(
            cfg,
            key,
            world,
        ).store.documents[other] == world.store.documents[other],
{
    reveal_with_fuel(exchange, 4);
}

/// A request that is turned down at its opening, in maintenance or because
/// it resolves to no date, is answered at once: the engine asks for no look
/// at the store, no fetch and no write. Any other request is handled as the
/// exchange for the document of the date that it resolves to.
pub proof fn request_is_handled_by_its_date(
    cfg: ConfigModel,
    request: RequestModel,
    today: Ymd,
    world: World,
)
    ensures
        cfg.maintenance || resolution(request, today, cfg.calendar) is Err ==> handled(
            cfg,
            request,
            today,
            world,
        ) == (Exchange {
            actions: seq![opening(cfg, request, today).1],
            store: world.store,
        }) && opening(cfg, request, today).1 matches ActionModel::Reply(
            ResultModel::Rejected(_),
        ),
        !cfg.maintenance ==> (resolution(request, today, cfg.calendar) matches Ok(key) ==> handled(
            cfg,
            request,
            today,
            world,
        ) == served(cfg, key, world)),
{
    reveal_with_fuel(exchange, 4);
}

} // verus!
