//! References that are resolved when they are followed, not before.
use crate::errors::Error;
use crate::keys::{
    BuildingKey, ClassInstanceKey, ClassKey, CourseKey, DepartmentKey, EnrollmentKey,
    EventsPageKey, NewsPageKey, PlaceKey, ShiftKey, StudentKey, TeacherKey,
};
use crate::models::{
    Building, Class, ClassInstance, ClassShift, Course, Department, Enrollment, EventsPage,
    NewsPage, Place, Student, Teacher,
};
use crate::network::endpoints::{authorized, Endpoint};
use crate::network::http::plain_get;
use crate::network::models as nmodels;
use crate::{RequestConfig, Supernova, SupernovaView};
use std::sync::Arc;
use crate::network::cache::{lists, StoreView};
use crate::network::http::{Request, RequestView};
use std::marker::PhantomData;
use vstd::prelude::*;

verus! {

/// What following a reference comes to: the entity, where it is known already,
/// or else the request that someone has to send for it.
#[derive(Debug)]
pub enum Step<T> {
    Ready(T),
    Fetch(Request),
}

/// What following a row of references comes to: all the entities, where every one is
/// known already, or else the place in the row of the first reference that is not,
/// with the request that someone has to send for it.
#[derive(Debug)]
pub enum Steps<T> {
    Ready(Vec<T>),
    Fetch(usize, Request),
}

impl<T> Step<T> {
    /// Whether this step asks for exactly the request `request`.
    pub open spec fn asks(&self, request: RequestView) -> bool {
        self matches Step::Fetch(asked) && asked@ == request
    }
}

/// A lazily loaded reference to an entity of type `T`: no more than its key.
#[derive(Debug)]
pub struct ObjRef<T, I> {
    pub identifier: I,
    /// Stands for the type of the entity that the key belongs to.
    pub entity: PhantomData<T>,
}

impl<T, I> ObjRef<T, I> {
    /// A reference to the entity with this key. It is made of the key alone:
    /// nothing is asked of anyone until the reference is followed.
    pub fn new(identifier: I) -> (reference: ObjRef<T, I>)
        ensures
            reference.identifier == identifier,
    {
        ObjRef { identifier, entity: PhantomData }
    }
}

impl<T, I: Copy> Clone for ObjRef<T, I> {
    fn clone(&self) -> (copy: Self)
        ensures
            copy.identifier == self.identifier,
    {
        ObjRef { identifier: self.identifier, entity: PhantomData }
    }
}

/// The references of `references` point, one by one, to the keys of `keys`.
pub open spec fn refer_to<T, I>(references: Seq<ObjRef<T, I>>, keys: Seq<I>) -> bool {
    &&& references.len() == keys.len()
    &&& forall|i: int| 0 <= i < keys.len() ==> (#[trigger] references[i]).identifier == keys[i]
}

/// `reference` points to `key`, or both are absent.
pub open spec fn refers_to<T, I>(reference: Option<ObjRef<T, I>>, key: Option<I>) -> bool {
    match reference {
        Some(reference) => key == Some(reference.identifier),
        None => key is None,
    }
}

/// One reference for each key, in the same order.
pub fn references<T, I: Copy>(keys: &Vec<I>) -> (references: Vec<ObjRef<T, I>>)
    ensures
        refer_to(references@, keys@),
{
    let mut references: Vec<ObjRef<T, I>> = Vec::new();
    let mut at: usize = 0;
    while at < keys.len()
        invariant
            at <= keys.len(),
            refer_to(references@, keys@.take(at as int)),
        decreases keys.len() - at,
    {
        references.push(ObjRef::new(keys[at]));
        at += 1;
    }
    references
}

/// A reference for the key, where there is one.
pub fn reference<T, I: Copy>(key: &Option<I>) -> (reference: Option<ObjRef<T, I>>)
    ensures
        refers_to(reference, *key),
{
    match key {
        Some(key) => Some(ObjRef::new(*key)),
        None => None,
    }
}

/// `all` holds, for every entry of `entries` exactly once, an entity linked from it:
/// the one at place `i` is linked from the entry of `keys[i]`.
pub open spec fn lists_linked<V, T>(
    all: Seq<T>,
    keys: Seq<u32>,
    entries: Map<u32, V>,
    links: spec_fn(T, V) -> bool,
) -> bool {
    &&& keys.no_duplicates()
    &&& keys.to_set() == entries.dom()
    &&& keys.len() == all.len()
    &&& forall|i: int| 0 <= i < keys.len() ==> links(all[i], entries[#[trigger] keys[i]])
}

/// `all` holds, for every entry of `entries` exactly once and in some order,
/// an entity linked from it.
pub open spec fn is_linked_listing<V, T>(
    all: Seq<T>,
    entries: Map<u32, V>,
    links: spec_fn(T, V) -> bool,
) -> bool {
    exists|keys: Seq<u32>| #[trigger] lists_linked(all, keys, entries, links)
}

/// The one way in which every entity is looked up by its key.
///
/// Unless the caller wants the cache left aside, an entity that is cached under `key`
/// is answered from the cache, linked anew, and nothing is asked of the service. In every
/// other case the answer is `request`, which someone has to send, or the error for which
/// no request can be made.
pub open spec fn read_through<V, T>(
    store: StoreView<V>,
    key: u32,
    evade_cache: bool,
    request: Result<RequestView, Error>,
    links: spec_fn(T, V) -> bool,
    outcome: Result<Step<T>, Error>,
) -> bool {
    if !evade_cache && store.entries.contains_key(key) {
        outcome matches Ok(Step::Ready(entity)) && links(entity, store.entries[key])
    } else {
        match request {
            Ok(request) => outcome matches Ok(step) && step.asks(request),
            Err(error) => outcome == Err::<Step<T>, Error>(error),
        }
    }
}

/// The one way in which every collection is listed.
///
/// Unless the caller wants the cache left aside, a collection that was listed before is
/// answered from the cache, every entity linked anew, and nothing is asked of the service.
/// In every other case the answer is `request`, which someone has to send.
pub open spec fn list_through<V, T>(
    store: StoreView<V>,
    evade_cache: bool,
    request: RequestView,
    links: spec_fn(T, V) -> bool,
    outcome: Result<Step<Vec<T>>, Error>,
) -> bool {
    if !evade_cache && store.populated {
        outcome matches Ok(Step::Ready(all)) && is_linked_listing(all@, store.entries, links)
    } else {
        outcome matches Ok(step) && step.asks(request)
    }
}

/// If `all` is linked, place by place, from a listing of `entries`, then it
/// holds an entity linked from every entry exactly once.
pub proof fn lemma_linked_listing<V, T>(
    all: Seq<T>,
    listing: Seq<V>,
    entries: Map<u32, V>,
    links: spec_fn(T, V) -> bool,
)
    requires
        crate::network::cache::is_listing(listing, entries),
        all.len() == listing.len(),
        forall|i: int| 0 <= i < all.len() ==> links(#[trigger] all[i], listing[i]),
    ensures
        is_linked_listing(all, entries, links),
{
    let keys = choose|keys: Seq<u32>| #[trigger] lists(listing, keys, entries);
    assert(lists_linked(all, keys, entries, links)) by {
        assert forall|i: int| 0 <= i < keys.len() implies links(
            all[i],
            entries[#[trigger] keys[i]],
        ) by {
            assert(links(all[i], listing[i]));
        }
    }
}

/// Something that can be obtained by handing its key to a client.
///
/// Which question a key stands for is settled by the type of the entity alone:
/// every type of entity has its one way of being asked for.
pub trait CoersibleEntity<I>: Sized {
    /// What the client may answer when it is asked for the entity with the key `id`.
    spec fn coerced(id: I, client: SupernovaView, outcome: Result<Step<Self>, Error>) -> bool;

    /// Asks `client` for the entity with the key `id`, as a caller
    /// who is content with what the cache knows.
    fn coerce(id: &I, client: &Supernova) -> (outcome: Result<Step<Self>, Error>)
        ensures
            Self::coerced(*id, client@, outcome),
    ;
}

impl<T: CoersibleEntity<I>, I> ObjRef<T, I> {
    /// Follows the reference: asks `client` for the entity that it points to.
    pub fn coerce(&self, client: &Supernova) -> (outcome: Result<Step<T>, Error>)
        ensures
            T::coerced(self.identifier, client@, outcome),
    {
        T::coerce(&self.identifier, client)
    }
}

impl CoersibleEntity<DepartmentKey> for Department {
    open spec fn coerced(id: DepartmentKey, client: SupernovaView, outcome: Result<Step<Self>, Error>) -> bool {
        read_through(
            client.cache.departments,
            id,
            false,
            Ok(plain_get(Endpoint::Department(id).address(client.upstream))),
            |linked: Department, net: nmodels::Department| linked.is_link_of(net),
            outcome,
        )
    }

    fn coerce(id: &DepartmentKey, client: &Supernova) -> (outcome: Result<Step<Self>, Error>) {
        client.get_department(*id, &RequestConfig::default())
    }
}

impl CoersibleEntity<BuildingKey> for Building {
    open spec fn coerced(id: BuildingKey, client: SupernovaView, outcome: Result<Step<Self>, Error>) -> bool {
        read_through(
            client.cache.buildings,
            id,
            false,
            Ok(plain_get(Endpoint::Building(id).address(client.upstream))),
            |linked: Building, net: nmodels::Building| linked.is_link_of(net),
            outcome,
        )
    }

    fn coerce(id: &BuildingKey, client: &Supernova) -> (outcome: Result<Step<Self>, Error>) {
        client.get_building(*id, &RequestConfig::default())
    }
}

impl CoersibleEntity<PlaceKey> for Place {
    open spec fn coerced(id: PlaceKey, client: SupernovaView, outcome: Result<Step<Self>, Error>) -> bool {
        read_through(
            client.cache.places,
            id,
            false,
            Ok(plain_get(Endpoint::Place(id).address(client.upstream))),
            |linked: Place, net: nmodels::Place| linked.is_link_of(net),
            outcome,
        )
    }

    fn coerce(id: &PlaceKey, client: &Supernova) -> (outcome: Result<Step<Self>, Error>) {
        client.get_place(*id, &RequestConfig::default())
    }
}

impl CoersibleEntity<CourseKey> for Course {
    open spec fn coerced(id: CourseKey, client: SupernovaView, outcome: Result<Step<Self>, Error>) -> bool {
        read_through(
            client.cache.courses,
            id,
            false,
            Ok(plain_get(Endpoint::Course(id).address(client.upstream))),
            |linked: Course, net: nmodels::Course| linked.is_link_of(net),
            outcome,
        )
    }

    fn coerce(id: &CourseKey, client: &Supernova) -> (outcome: Result<Step<Self>, Error>) {
        client.get_course(*id, &RequestConfig::default())
    }
}

impl CoersibleEntity<ClassKey> for Class {
    open spec fn coerced(id: ClassKey, client: SupernovaView, outcome: Result<Step<Self>, Error>) -> bool {
        read_through(
            client.cache.classes,
            id,
            false,
            Ok(plain_get(Endpoint::Class(id).address(client.upstream))),
            |linked: Class, net: nmodels::Class| linked.is_link_of(net),
            outcome,
        )
    }

    fn coerce(id: &ClassKey, client: &Supernova) -> (outcome: Result<Step<Self>, Error>) {
        client.get_class(*id, &RequestConfig::default())
    }
}

impl CoersibleEntity<ClassInstanceKey> for ClassInstance {
    open spec fn coerced(id: ClassInstanceKey, client: SupernovaView, outcome: Result<Step<Self>, Error>) -> bool {
        read_through(
            client.cache.class_instances,
            id,
            false,
            authorized(client.credentials, Endpoint::ClassInstance(id).address(client.upstream)),
            |linked: ClassInstance, net: nmodels::ClassInstance| linked.is_link_of(net),
            outcome,
        )
    }

    fn coerce(id: &ClassInstanceKey, client: &Supernova) -> (outcome: Result<Step<Self>, Error>) {
        client.get_class_instance(*id, &RequestConfig::default())
    }
}

impl CoersibleEntity<StudentKey> for Student {
    open spec fn coerced(id: StudentKey, client: SupernovaView, outcome: Result<Step<Self>, Error>) -> bool {
        read_through(
            client.cache.students,
            id,
            false,
            authorized(client.credentials, Endpoint::Student(id).address(client.upstream)),
            |linked: Student, net: nmodels::Student| linked.is_link_of(net, client.upstream),
            outcome,
        )
    }

    fn coerce(id: &StudentKey, client: &Supernova) -> (outcome: Result<Step<Self>, Error>) {
        client.get_student(*id, &RequestConfig::default())
    }
}

impl CoersibleEntity<TeacherKey> for Teacher {
    open spec fn coerced(id: TeacherKey, client: SupernovaView, outcome: Result<Step<Self>, Error>) -> bool {
        read_through(
            client.cache.teachers,
            id,
            false,
            authorized(client.credentials, Endpoint::Teacher(id).address(client.upstream)),
            |linked: Teacher, net: nmodels::Teacher| linked.is_link_of(net, client.upstream),
            outcome,
        )
    }

    fn coerce(id: &TeacherKey, client: &Supernova) -> (outcome: Result<Step<Self>, Error>) {
        client.get_teacher(*id, &RequestConfig::default())
    }
}

impl CoersibleEntity<EnrollmentKey> for Enrollment {
    open spec fn coerced(id: EnrollmentKey, client: SupernovaView, outcome: Result<Step<Self>, Error>) -> bool {
        read_through(
            client.cache.enrollments,
            id,
            false,
            authorized(client.credentials, Endpoint::Enrollment(id).address(client.upstream)),
            |linked: Enrollment, net: nmodels::Enrollment| linked.is_link_of(net),
            outcome,
        )
    }

    fn coerce(id: &EnrollmentKey, client: &Supernova) -> (outcome: Result<Step<Self>, Error>) {
        client.get_enrollment(*id, &RequestConfig::default())
    }
}

impl CoersibleEntity<ShiftKey> for ClassShift {
    open spec fn coerced(id: ShiftKey, client: SupernovaView, outcome: Result<Step<Self>, Error>) -> bool {
        read_through(
            client.cache.class_shifts,
            id,
            false,
            authorized(client.credentials, Endpoint::Shift(id).address(client.upstream)),
            |linked: ClassShift, net: nmodels::ClassShift| linked.is_link_of(net),
            outcome,
        )
    }

    fn coerce(id: &ShiftKey, client: &Supernova) -> (outcome: Result<Step<Self>, Error>) {
        client.get_shift(*id, &RequestConfig::default())
    }
}

impl CoersibleEntity<EventsPageKey> for Option<Arc<EventsPage>> {
    /// A page is never known beforehand: it is always asked for.
    open spec fn coerced(id: EventsPageKey, client: SupernovaView, outcome: Result<Step<Self>, Error>) -> bool {
        outcome matches Ok(step) && step.asks(
            plain_get(Endpoint::EventsPage(id).address(client.upstream)),
        )
    }

    fn coerce(id: &EventsPageKey, client: &Supernova) -> (outcome: Result<Step<Self>, Error>) {
        client.get_events_page(*id, &RequestConfig::default())
    }
}

impl CoersibleEntity<NewsPageKey> for Option<Arc<NewsPage>> {
    /// A page is never known beforehand: it is always asked for.
    open spec fn coerced(id: NewsPageKey, client: SupernovaView, outcome: Result<Step<Self>, Error>) -> bool {
        outcome matches Ok(step) && step.asks(
            plain_get(Endpoint::NewsItemPage(id).address(client.upstream)),
        )
    }

    fn coerce(id: &NewsPageKey, client: &Supernova) -> (outcome: Result<Step<Self>, Error>) {
        client.get_news_page(*id, &RequestConfig::default())
    }
}

/// What following a reference that may be absent comes to: nothing where there is no
/// reference, and else what following the reference comes to.
pub open spec fn followed<T: CoersibleEntity<I>, I>(
    reference: Option<ObjRef<T, I>>,
    client: SupernovaView,
    outcome: Result<Option<Step<T>>, Error>,
) -> bool {
    match reference {
        None => outcome == Ok::<Option<Step<T>>, Error>(None),
        Some(reference) => match outcome {
            Ok(Some(step)) => T::coerced(reference.identifier, client, Ok(step)),
            Ok(None) => false,
            Err(error) => T::coerced(reference.identifier, client, Err(error)),
        },
    }
}

/// Follows a reference that may be absent.
pub fn follow<T: CoersibleEntity<I>, I>(reference: &Option<ObjRef<T, I>>, client: &Supernova) -> (outcome:
    Result<Option<Step<T>>, Error>)
    ensures
        followed(*reference, client@, outcome),
{
    match reference {
        Some(reference) => match reference.coerce(client) {
            Ok(step) => Ok(Some(step)),
            Err(error) => Err(error),
        },
        None => Ok(None),
    }
}

/// The first `found.len()` references are answered from the cache, with `found`.
pub open spec fn found_so_far<T: CoersibleEntity<I>, I>(
    references: Seq<ObjRef<T, I>>,
    client: SupernovaView,
    found: Seq<T>,
) -> bool {
    &&& found.len() <= references.len()
    &&& forall|i: int|
        0 <= i < found.len() ==> T::coerced(
            references[i].identifier,
            client,
            Ok(Step::Ready(#[trigger] found[i])),
        )
}

/// The references before the one at place `found.len()` are answered from the cache,
/// and that one comes to `stop`.
pub open spec fn stops_at<T: CoersibleEntity<I>, I>(
    references: Seq<ObjRef<T, I>>,
    client: SupernovaView,
    found: Seq<T>,
    stop: Result<Step<T>, Error>,
) -> bool {
    &&& found.len() < references.len()
    &&& found_so_far(references, client, found)
    &&& T::coerced(references[found.len() as int].identifier, client, stop)
}

/// What following a row of references comes to: the entities, in the order of the
/// references, if every one of them is answered from the cache; and else what the
/// first reference that is not comes to, a request to send, told with the place of
/// that reference in the row, or an error.
pub open spec fn followed_all<T: CoersibleEntity<I>, I>(
    references: Seq<ObjRef<T, I>>,
    client: SupernovaView,
    outcome: Result<Steps<T>, Error>,
) -> bool {
    match outcome {
        Ok(Steps::Ready(all)) => all@.len() == references.len() && found_so_far(
            references,
            client,
            all@,
        ),
        Ok(Steps::Fetch(at, request)) => exists|found: Seq<T>|
            found.len() == at && #[trigger] stops_at(
                references,
                client,
                found,
                Ok(Step::Fetch(request)),
            ),
        Err(error) => exists|found: Seq<T>| #[trigger]
            stops_at(references, client, found, Err(error)),
    }
}

/// Follows a row of references, one after the other, as far as the cache answers.
pub fn follow_all<T: CoersibleEntity<I>, I>(references: &Vec<ObjRef<T, I>>, client: &Supernova) -> (outcome:
    Result<Steps<T>, Error>)
    ensures
        followed_all(references@, client@, outcome),
{
    let mut found: Vec<T> = Vec::new();
    let mut at: usize = 0;
    while at < references.len()
        invariant
            at <= references.len(),
            found@.len() == at,
            found_so_far(references@, client@, found@),
        decreases references.len() - at,
    {
        match references[at].coerce(client) {
            Ok(Step::Ready(entity)) => {
                found.push(entity);
            },
            Ok(Step::Fetch(request)) => {
                assert(stops_at(references@, client@, found@, Ok(Step::Fetch(request))));
                return Ok(Steps::Fetch(at, request));
            },
            Err(error) => {
                assert(stops_at(references@, client@, found@, Err(error)));
                return Err(error);
            },
        }
        at += 1;
    }
    Ok(Steps::Ready(found))
}

} // verus!
