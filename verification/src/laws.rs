//! What holds of the cache and of the lookups through it, whatever was asked before.
use crate::coersion::{read_through, CoersibleEntity, Step};
use crate::errors::Error;
use crate::network::cache::{filed, Identified, StoreView};
use crate::keys::{EventsPageKey, NewsPageKey};
use crate::models::{EventsPage, NewsPage};
use crate::network::endpoints::Endpoint;
use crate::network::http::{plain_get, RequestView};
use crate::network::models as nmodels;
use crate::SupernovaView;
use std::sync::Arc;
use vstd::prelude::*;

verus! {

/// Filing the same entity under the same key a second time changes nothing:
/// the store is as it was after the first time.
pub proof fn insert_is_idempotent<V>(store: StoreView<V>, key: u32, entity: V)
    ensures
        store.insert(key, entity).insert(key, entity) == store.insert(key, entity),
{
    assert(store.entries.insert(key, entity).insert(key, entity) =~= store.entries.insert(
        key,
        entity,
    ));
}

/// Once an entity was filed under a key, a lookup of that key that does not leave the
/// cache aside is answered from the cache, with an entity linked from the one that was
/// filed: no request is made, whatever request a miss would have led to.
pub proof fn read_your_write<V, T>(
    store: StoreView<V>,
    key: u32,
    entity: V,
    request: Result<RequestView, Error>,
    links: spec_fn(T, V) -> bool,
    outcome: Result<Step<T>, Error>,
)
    requires
        read_through(store.insert(key, entity), key, false, request, links, outcome),
    ensures
        outcome matches Ok(Step::Ready(linked)) && links(linked, entity),
{
}

/// Every entity of a listing is filed under its own key, unless a later entity of the
/// listing has the same key: then the last of them is.
pub proof fn lemma_filed_holds_each<V: Identified>(
    entries: Map<u32, V>,
    entities: Seq<V>,
    i: int,
)
    requires
        0 <= i < entities.len(),
    ensures
        filed(entries, entities).contains_key(entities[i].key_of()),
        exists|j: int|
            i <= j < entities.len() && entities[j].key_of() == entities[i].key_of() && filed(
                entries,
                entities,
            )[entities[i].key_of()] == #[trigger] entities[j],
    decreases entities.len(),
{
    let last = entities.len() - 1;
    if i == last || entities[last].key_of() == entities[i].key_of() {
        assert(filed(entries, entities)[entities[i].key_of()] == entities[last]);
    } else {
        lemma_filed_holds_each(entries, entities.drop_last(), i);
        let j = choose|j: int|
            i <= j < entities.drop_last().len() && entities.drop_last()[j].key_of()
                == entities.drop_last()[i].key_of() && filed(
                entries,
                entities.drop_last(),
            )[entities.drop_last()[i].key_of()] == #[trigger] entities.drop_last()[j];
        assert(entities[j] == entities.drop_last()[j]);
    }
}

/// Filing a listing never takes a key out of the store.
pub proof fn lemma_filed_keeps_keys<V: Identified>(entries: Map<u32, V>, entities: Seq<V>, key: u32)
    requires
        entries.contains_key(key),
    ensures
        filed(entries, entities).contains_key(key),
    decreases entities.len(),
{
    if entities.len() > 0 {
        lemma_filed_keeps_keys(entries, entities.drop_last(), key);
    }
}

/// Once a collection was listed, a lookup of the key of any entity of the listing that
/// does not leave the cache aside is answered from the cache, with an entity linked from
/// an entity of the listing that has this key: no request is made.
pub proof fn listed_is_cached<V: Identified, T>(
    store: StoreView<V>,
    entities: Seq<V>,
    i: int,
    request: Result<RequestView, Error>,
    links: spec_fn(T, V) -> bool,
    outcome: Result<Step<T>, Error>,
)
    requires
        0 <= i < entities.len(),
        read_through(
            store.mark_populated(entities),
            entities[i].key_of(),
            false,
            request,
            links,
            outcome,
        ),
    ensures
        store.mark_populated(entities).populated,
        outcome matches Ok(Step::Ready(linked)) && exists|j: int|
            0 <= j < entities.len() && entities[j].key_of() == entities[i].key_of() && links(
                linked,
                #[trigger] entities[j],
            ),
{
    lemma_filed_holds_each(store.entries, entities, i);
}

/// The store counts as listed and holds an entity under the key of every entity of `listing`.
pub open spec fn covers<V: Identified>(store: StoreView<V>, listing: Seq<V>) -> bool {
    &&& store.populated
    &&& forall|i: int|
        0 <= i < listing.len() ==> store.entries.contains_key((#[trigger] listing[i]).key_of())
}

/// A store counts as listed only together with every entity of the listing: the step
/// that sets the mark is the step that files them, so the mark is never seen without them.
/// Before that step the store is as it was, mark and all.
pub proof fn population_is_atomic<V: Identified>(store: StoreView<V>, listing: Seq<V>)
    ensures
        covers(store.mark_populated(listing), listing),
{
    assert forall|i: int| 0 <= i < listing.len() implies filed(
        store.entries,
        listing,
    ).contains_key((#[trigger] listing[i]).key_of()) by {
        lemma_filed_holds_each(store.entries, listing, i);
    }
}

/// Nothing that is done to a store later takes an entity of a listing away or clears the
/// mark: not the filing of a single entity, not the filing of entities that came along
/// with another one, not another listing.
pub proof fn population_is_kept<V: Identified>(
    store: StoreView<V>,
    listing: Seq<V>,
    key: u32,
    entity: V,
    others: Seq<V>,
)
    requires
        covers(store, listing),
    ensures
        covers(store.insert(key, entity), listing),
        covers(StoreView { entries: filed(store.entries, others), ..store }, listing),
        covers(store.mark_populated(others), listing),
{
    assert forall|i: int| 0 <= i < listing.len() implies filed(
        store.entries,
        others,
    ).contains_key((#[trigger] listing[i]).key_of()) by {
        lemma_filed_keeps_keys(store.entries, others, listing[i].key_of());
    }
}

/// The page after a page of events is asked for with as many items per page, behind
/// the items of the pages so far: a page linked from what came for the key
/// `(limit, offset)` asks for its successor at `(limit, offset + limit)`.
pub proof fn events_successor_is_next_page(
    page: EventsPage,
    net: nmodels::EventsPage,
    key: EventsPageKey,
    previous: Option<Arc<EventsPage>>,
    client: SupernovaView,
    outcome: Result<Step<Option<Arc<EventsPage>>>, Error>,
)
    requires
        key.1 + key.0 <= u32::MAX,
        page.is_link_of(net, key, previous),
        <Option<Arc<EventsPage>>>::coerced(page.next_page.identifier, client, outcome),
    ensures
        outcome matches Ok(step) && step.asks(
            plain_get(
                Endpoint::EventsPage((key.0, (key.1 + key.0) as u32)).address(client.upstream),
            ),
        ),
{
}

/// The page after a page of news is asked for with as many items per page, behind
/// the items of the pages so far: a page linked from what came for the key
/// `(limit, offset)` asks for its successor at `(limit, offset + limit)`.
pub proof fn news_successor_is_next_page(
    page: NewsPage,
    net: nmodels::NewsPage,
    key: NewsPageKey,
    previous: Option<Arc<NewsPage>>,
    client: SupernovaView,
    outcome: Result<Step<Option<Arc<NewsPage>>>, Error>,
)
    requires
        key.1 + key.0 <= u32::MAX,
        page.is_link_of(net, client.upstream, key, previous),
        <Option<Arc<NewsPage>>>::coerced(page.next_page.identifier, client, outcome),
    ensures
        outcome matches Ok(step) && step.asks(
            plain_get(
                Endpoint::NewsItemPage((key.0, (key.1 + key.0) as u32)).address(client.upstream),
            ),
        ),
{
}

} // verus!
