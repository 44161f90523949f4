//! A client of the Supernova academic records service that never asks twice for what
//! it knows: entities are cached by key, and the relations between them are references
//! that are followed only on demand.
//!
//! The library sends nothing by itself. Every question either is answered from what is
//! cached or comes back as the [`Request`](network::http::Request) that someone has to
//! send; what the service answers is then handed to the `put_` operation of the same name,
//! which files it in the cache and gives the answer to the question.
use crate::coersion::{is_linked_listing, lemma_linked_listing, list_through, read_through, Step};
use crate::errors::Error;
use crate::network::cache::{filed, referents, CacheView, ClientCache, StoreView};
use crate::network::endpoints::{
    authorized, resolved, AuthenticatedSupernova, BaseSupernova, Endpoint, UPSTREAM,
};
use crate::network::http::{
    authorized_get, check_error, error_of_status, plain_get, Method, Request, RequestView,
    StatusCode,
};
use crate::network::models as nmodels;
use crate::network::models::{AuthToken, BasicAuthCredentials, ClientMeta, TokenResult};
use crate::text::join;
use std::sync::Arc;
use vstd::prelude::*;

pub mod coersion;
pub mod errors;
pub mod keys;
pub mod laws;
pub mod models;
pub mod network;
pub mod once;
pub mod order;
pub mod shared;
pub mod text;
pub mod thumbs;
pub mod time;

verus! {

/// The number of items asked for per page when a feed is entered at its front.
pub const DEFAULT_PAGE_ITEM_LIMIT: u16 = 100;

/// What a caller may ask for with each question.
#[derive(Debug, Clone, Copy)]
pub struct RequestConfig {
    /// Ask the service even where the cache knows the answer.
    pub evade_cache: bool,
}

impl Default for RequestConfig {
    fn default() -> (conf: RequestConfig)
        ensures
            !conf.evade_cache,
    {
        RequestConfig { evade_cache: false }
    }
}

/// The collections that can be listed as a whole.
#[derive(Debug, Clone, Copy, PartialEq, Eq, Structural)]
pub enum Collection {
    Buildings,
    Courses,
    Classes,
    Departments,
    Places,
    Groups,
}

/// The client: where the service is found, the session, and all that was learned so far.
pub struct Supernova {
    upstream: String,
    base: BaseSupernova,
    authenticated: AuthenticatedSupernova,
    cache: ClientCache,
}

/// The client as a plain value.
pub struct SupernovaView {
    /// Where the service is found.
    pub upstream: Seq<char>,
    /// The token of the session, while there is one.
    pub credentials: Option<AuthToken>,
    /// All that was learned so far.
    pub cache: CacheView,
}

impl View for Supernova {
    type V = SupernovaView;

    closed spec fn view(&self) -> SupernovaView {
        SupernovaView {
            upstream: self.upstream@,
            credentials: self.authenticated.credentials,
            cache: self.cache@,
        }
    }
}

/// The first collection, in the order in which a warm-up lists them, that was not listed yet.
pub open spec fn first_unlisted(cache: CacheView) -> Option<Collection> {
    if !cache.buildings.populated {
        Some(Collection::Buildings)
    } else if !cache.courses.populated {
        Some(Collection::Courses)
    } else if !cache.classes.populated {
        Some(Collection::Classes)
    } else if !cache.departments.populated {
        Some(Collection::Departments)
    } else if !cache.places.populated {
        Some(Collection::Places)
    } else if !cache.groups.populated {
        Some(Collection::Groups)
    } else {
        None
    }
}

/// Where the listing of a collection is found.
pub open spec fn listing_endpoint(collection: Collection) -> Endpoint {
    match collection {
        Collection::Buildings => Endpoint::Buildings,
        Collection::Courses => Endpoint::Courses,
        Collection::Classes => Endpoint::Classes,
        Collection::Departments => Endpoint::Departments,
        Collection::Places => Endpoint::Places,
        Collection::Groups => Endpoint::Groups,
    }
}

/// What the status of the answer to a logout means, from the first check of every answer on.
pub open spec fn logout_result(status: u16) -> Result<(), Error> {
    match error_of_status(status) {
        Some(error) => Err(error),
        None => if 200 <= status < 300 {
            Ok(())
        } else {
            Err(Error::Generic)
        },
    }
}

/// The shifts of `copies` are, one by one, the shifts of `shifts`.
pub open spec fn same_shifts(copies: Seq<nmodels::ClassShift>, shifts: Seq<nmodels::ClassShift>)
    -> bool {
    &&& copies.len() == shifts.len()
    &&& forall|i: int| 0 <= i < shifts.len() ==> (#[trigger] copies[i]).same_as(shifts[i])
}

impl SupernovaView {
    /// The client after a class instance that the service sent was filed under `id`:
    /// the instance itself, and with it the enrollments and the shifts that it holds,
    /// each under its own key. `shifts` are the shifts as they were filed.
    pub open spec fn with_class_instance(
        self,
        id: u32,
        net: nmodels::ClassInstance,
        shifts: Seq<nmodels::ClassShift>,
    ) -> SupernovaView {
        SupernovaView {
            cache: CacheView {
                class_instances: self.cache.class_instances.insert(id, net),
                enrollments: StoreView {
                    entries: filed(self.cache.enrollments.entries, net.enrollments@),
                    ..self.cache.enrollments
                },
                class_shifts: StoreView {
                    entries: filed(self.cache.class_shifts.entries, shifts),
                    ..self.cache.class_shifts
                },
                ..self.cache
            },
            ..self
        }
    }
}

impl Supernova {
    /// A client of the service at its usual place, with no session and an empty cache.
    pub fn new() -> (client: Supernova)
        ensures
            client@ == (SupernovaView {
                upstream: UPSTREAM@,
                credentials: None,
                cache: CacheView::empty(),
            }),
    {
        Supernova::with_upstream(UPSTREAM)
    }

    /// A client of the service found at `upstream`, with no session and an empty cache.
    pub fn with_upstream(upstream: &str) -> (client: Supernova)
        ensures
            client@ == (SupernovaView {
                upstream: upstream@,
                credentials: None,
                cache: CacheView::empty(),
            }),
    {
        Supernova {
            upstream: String::from_str(upstream),
            base: BaseSupernova::new(),
            authenticated: AuthenticatedSupernova::new(),
            cache: ClientCache::new(),
        }
    }

    /// Where the service is found.
    pub fn upstream(&self) -> (upstream: &str)
        ensures
            upstream@ == self@.upstream,
    {
        self.upstream.as_str()
    }

    /// What to tell the service to open a session, and the request to tell it with.
    pub fn login<'a>(&self, username: &'a str, password: &'a str, client_meta: ClientMeta) -> (asked:
        (BasicAuthCredentials<'a>, Request))
        ensures
            asked.0.username == username,
            asked.0.password == password,
            asked.0.client_meta == Some(client_meta),
            asked.1@ == plain_get(Endpoint::Login.address(self@.upstream)),
    {
        let creds = BasicAuthCredentials::new(username, password, Some(client_meta));
        (creds, self.base.login(self.upstream.as_str()))
    }

    /// Takes the answer to a login: the session is the one of the token that came.
    /// Where none came, nothing changes.
    pub fn put_login(&mut self, response: Result<TokenResult, Error>) -> (outcome: Result<
        AuthToken,
        Error,
    >)
        ensures
            match response {
                Ok(token) => {
                    &&& final(self)@ == (SupernovaView {
                        credentials: Some(token.token),
                        ..old(self)@
                    })
                    &&& outcome == Ok::<AuthToken, Error>(token.token)
                },
                Err(error) => final(self)@ == old(self)@ && outcome == Err::<AuthToken, Error>(
                    error,
                ),
            },
    {
        match response {
            Ok(token) => {
                self.authenticated.set_token(token.token.clone());
                Ok(token.token)
            },
            Err(error) => Err(error),
        }
    }

    /// The request that closes the session, if there is one to close.
    pub fn logout(&self) -> (outcome: Result<Request, Error>)
        ensures
            match self@.credentials {
                Some(token) => outcome matches Ok(request) && request@ == (RequestView {
                    method: Method::Delete,
                    ..authorized_get(Endpoint::Logout.address(self@.upstream), token@)
                }),
                None => outcome == Err::<Request, Error>(Error::MissingAuthentication),
            },
    {
        self.authenticated.logout(self.upstream.as_str())
    }

    /// Takes the answer to a logout: the session is over if the service said so.
    /// In every other case nothing changes.
    pub fn put_logout(&mut self, response: Result<StatusCode, Error>) -> (outcome: Result<
        (),
        Error,
    >)
        ensures
            match response {
                Ok(status) => outcome == logout_result(status.value()),
                Err(error) => outcome == Err::<(), Error>(error),
            },
            final(self)@ == if outcome is Ok {
                SupernovaView { credentials: None, ..old(self)@ }
            } else {
                old(self)@
            },
    {
        match response {
            Ok(status) => {
                match check_error(status) {
                    Ok(_) => {},
                    Err(error) => {
                        return Err(error);
                    },
                }
                match self.authenticated.logged_out(status) {
                    Ok(_) => {},
                    Err(error) => {
                        return Err(error);
                    },
                }
                self.authenticated.clear_token();
                Ok(())
            },
            Err(error) => Err(error),
        }
    }

    /// The request that asks the service whether `token` stands for a session.
    pub fn set_auth_token(&self, token: &AuthToken) -> (request: Request)
        ensures
            request@ == authorized_get(
                Endpoint::TokenValidation.address(self@.upstream),
                token@,
            ),
    {
        self.base.verify(self.upstream.as_str(), token.as_str())
    }

    /// Takes the answer to the validation of `token`: the session is the one of `token`
    /// if the service answered with the word `Success`. In every other case nothing changes.
    pub fn put_auth_token(&mut self, token: AuthToken, response: Result<String, Error>) -> (outcome:
        Result<(), Error>)
        ensures
            match response {
                Ok(text) => outcome == if text@ == "Success"@ {
                    Ok::<(), Error>(())
                } else {
                    Err::<(), Error>(Error::Authentication)
                },
                Err(error) => outcome == Err::<(), Error>(error),
            },
            final(self)@ == if outcome is Ok {
                SupernovaView { credentials: Some(token), ..old(self)@ }
            } else {
                old(self)@
            },
    {
        match response {
            Ok(text) => {
                match self.base.verified(text.as_str()) {
                    Ok(_) => {},
                    Err(error) => {
                        return Err(error);
                    },
                }
                self.authenticated.set_token(token);
                Ok(())
            },
            Err(error) => Err(error),
        }
    }

    pub fn is_authenticated(&self) -> (yes: bool)
        ensures
            yes == self@.credentials is Some,
    {
        self.authenticated.credentials.is_some()
    }

    /// All departments: from the cache, if they were listed before and the caller does not
    /// want the cache left aside, or else the request that lists them.
    pub fn get_departments(&self, conf: &RequestConfig) -> (outcome: Result<
        Step<Vec<models::Department>>,
        Error,
    >)
        ensures
            list_through(
                self@.cache.departments,
                conf.evade_cache,
                plain_get(Endpoint::Departments.address(self@.upstream)),
                |linked: models::Department, net: nmodels::Department| linked.is_link_of(net),
                outcome,
            ),
    {
        if !conf.evade_cache {
            if let Some(cached) = self.cache.departments.get_all_if_populated() {
                return Ok(Step::Ready(self.link_departments(cached)));
            }
        }
        Ok(Step::Fetch(self.base.fetch_departments(self.upstream.as_str())))
    }

    /// Every cached entity of a listing, linked.
    fn link_departments(&self, cached: Vec<&nmodels::Department>) -> (all: Vec<models::Department>)
        requires
            crate::network::cache::is_listing(referents(cached@), self@.cache.departments.entries),
        ensures
            is_linked_listing(
                all@,
                self@.cache.departments.entries,
                |linked: models::Department, net: nmodels::Department| linked.is_link_of(net),
            ),
    {
        let mut all: Vec<models::Department> = Vec::new();
        let mut at: usize = 0;
        while at < cached.len()
            invariant
                at <= cached.len(),
                all@.len() == at,
                forall|i: int| 0 <= i < at ==> (#[trigger] all@[i]).is_link_of(*cached@[i]),
            decreases cached.len() - at,
        {
            all.push(cached[at].link());
            at += 1;
        }
        proof {
            lemma_linked_listing(
                all@,
                referents(cached@),
                self@.cache.departments.entries,
                |linked: models::Department, net: nmodels::Department| linked.is_link_of(net),
            );
        }
        all
    }

    /// Takes the answer to the request that lists all departments: every one is filed under
    /// its own key, the collection counts as listed, and the answer is everything that
    /// is cached of the collection now. Where no listing came, nothing changes.
    pub fn put_departments(&mut self, response: Result<Vec<nmodels::Department>, Error>) -> (outcome: Result<
        Vec<models::Department>,
        Error,
    >)
        ensures
            match response {
                Ok(net) => {
                    &&& final(self)@ == (SupernovaView {
                        cache: CacheView {
                            departments: old(self)@.cache.departments.mark_populated(net@),
                            ..old(self)@.cache
                        },
                        ..old(self)@
                    })
                    &&& outcome matches Ok(all) && is_linked_listing(
                        all@,
                        final(self)@.cache.departments.entries,
                        |linked: models::Department, net: nmodels::Department| linked.is_link_of(net),
                    )
                },
                Err(error) => final(self)@ == old(self)@ && outcome == Err::<
                    Vec<models::Department>,
                    Error,
                >(error),
            },
    {
        match response {
            Ok(net) => {
                self.cache.departments.mark_populated(net);
                let cached = self.cache.departments.get_all();
                Ok(self.link_departments(cached))
            },
            Err(error) => Err(error),
        }
    }

    /// All buildings: from the cache, if they were listed before and the caller does not
    /// want the cache left aside, or else the request that lists them.
    pub fn get_buildings(&self, conf: &RequestConfig) -> (outcome: Result<
        Step<Vec<models::Building>>,
        Error,
    >)
        ensures
            list_through(
                self@.cache.buildings,
                conf.evade_cache,
                plain_get(Endpoint::Buildings.address(self@.upstream)),
                |linked: models::Building, net: nmodels::Building| linked.is_link_of(net),
                outcome,
            ),
    {
        if !conf.evade_cache {
            if let Some(cached) = self.cache.buildings.get_all_if_populated() {
                return Ok(Step::Ready(self.link_buildings(cached)));
            }
        }
        Ok(Step::Fetch(self.base.fetch_buildings(self.upstream.as_str())))
    }

    /// Every cached entity of a listing, linked.
    fn link_buildings(&self, cached: Vec<&nmodels::Building>) -> (all: Vec<models::Building>)
        requires
            crate::network::cache::is_listing(referents(cached@), self@.cache.buildings.entries),
        ensures
            is_linked_listing(
                all@,
                self@.cache.buildings.entries,
                |linked: models::Building, net: nmodels::Building| linked.is_link_of(net),
            ),
    {
        let mut all: Vec<models::Building> = Vec::new();
        let mut at: usize = 0;
        while at < cached.len()
            invariant
                at <= cached.len(),
                all@.len() == at,
                forall|i: int| 0 <= i < at ==> (#[trigger] all@[i]).is_link_of(*cached@[i]),
            decreases cached.len() - at,
        {
            all.push(cached[at].link());
            at += 1;
        }
        proof {
            lemma_linked_listing(
                all@,
                referents(cached@),
                self@.cache.buildings.entries,
                |linked: models::Building, net: nmodels::Building| linked.is_link_of(net),
            );
        }
        all
    }

    /// Takes the answer to the request that lists all buildings: every one is filed under
    /// its own key, the collection counts as listed, and the answer is everything that
    /// is cached of the collection now. Where no listing came, nothing changes.
    pub fn put_buildings(&mut self, response: Result<Vec<nmodels::Building>, Error>) -> (outcome: Result<
        Vec<models::Building>,
        Error,
    >)
        ensures
            match response {
                Ok(net) => {
                    &&& final(self)@ == (SupernovaView {
                        cache: CacheView {
                            buildings: old(self)@.cache.buildings.mark_populated(net@),
                            ..old(self)@.cache
                        },
                        ..old(self)@
                    })
                    &&& outcome matches Ok(all) && is_linked_listing(
                        all@,
                        final(self)@.cache.buildings.entries,
                        |linked: models::Building, net: nmodels::Building| linked.is_link_of(net),
                    )
                },
                Err(error) => final(self)@ == old(self)@ && outcome == Err::<
                    Vec<models::Building>,
                    Error,
                >(error),
            },
    {
        match response {
            Ok(net) => {
                self.cache.buildings.mark_populated(net);
                let cached = self.cache.buildings.get_all();
                Ok(self.link_buildings(cached))
            },
            Err(error) => Err(error),
        }
    }

    /// All places: from the cache, if they were listed before and the caller does not
    /// want the cache left aside, or else the request that lists them.
    pub fn get_places(&self, conf: &RequestConfig) -> (outcome: Result<
        Step<Vec<models::Place>>,
        Error,
    >)
        ensures
            list_through(
                self@.cache.places,
                conf.evade_cache,
                plain_get(Endpoint::Places.address(self@.upstream)),
                |linked: models::Place, net: nmodels::Place| linked.is_link_of(net),
                outcome,
            ),
    {
        if !conf.evade_cache {
            if let Some(cached) = self.cache.places.get_all_if_populated() {
                return Ok(Step::Ready(self.link_places(cached)));
            }
        }
        Ok(Step::Fetch(self.base.fetch_places(self.upstream.as_str())))
    }

    /// Every cached entity of a listing, linked.
    fn link_places(&self, cached: Vec<&nmodels::Place>) -> (all: Vec<models::Place>)
        requires
            crate::network::cache::is_listing(referents(cached@), self@.cache.places.entries),
        ensures
            is_linked_listing(
                all@,
                self@.cache.places.entries,
                |linked: models::Place, net: nmodels::Place| linked.is_link_of(net),
            ),
    {
        let mut all: Vec<models::Place> = Vec::new();
        let mut at: usize = 0;
        while at < cached.len()
            invariant
                at <= cached.len(),
                all@.len() == at,
                forall|i: int| 0 <= i < at ==> (#[trigger] all@[i]).is_link_of(*cached@[i]),
            decreases cached.len() - at,
        {
            all.push(cached[at].link());
            at += 1;
        }
        proof {
            lemma_linked_listing(
                all@,
                referents(cached@),
                self@.cache.places.entries,
                |linked: models::Place, net: nmodels::Place| linked.is_link_of(net),
            );
        }
        all
    }

    /// Takes the answer to the request that lists all places: every one is filed under
    /// its own key, the collection counts as listed, and the answer is everything that
    /// is cached of the collection now. Where no listing came, nothing changes.
    pub fn put_places(&mut self, response: Result<Vec<nmodels::Place>, Error>) -> (outcome: Result<
        Vec<models::Place>,
        Error,
    >)
        ensures
            match response {
                Ok(net) => {
                    &&& final(self)@ == (SupernovaView {
                        cache: CacheView {
                            places: old(self)@.cache.places.mark_populated(net@),
                            ..old(self)@.cache
                        },
                        ..old(self)@
                    })
                    &&& outcome matches Ok(all) && is_linked_listing(
                        all@,
                        final(self)@.cache.places.entries,
                        |linked: models::Place, net: nmodels::Place| linked.is_link_of(net),
                    )
                },
                Err(error) => final(self)@ == old(self)@ && outcome == Err::<
                    Vec<models::Place>,
                    Error,
                >(error),
            },
    {
        match response {
            Ok(net) => {
                self.cache.places.mark_populated(net);
                let cached = self.cache.places.get_all();
                Ok(self.link_places(cached))
            },
            Err(error) => Err(error),
        }
    }

    /// All classes: from the cache, if they were listed before and the caller does not
    /// want the cache left aside, or else the request that lists them.
    pub fn get_classes(&self, conf: &RequestConfig) -> (outcome: Result<
        Step<Vec<models::Class>>,
        Error,
    >)
        ensures
            list_through(
                self@.cache.classes,
                conf.evade_cache,
                plain_get(Endpoint::Classes.address(self@.upstream)),
                |linked: models::Class, net: nmodels::Class| linked.is_link_of(net),
                outcome,
            ),
    {
        if !conf.evade_cache {
            if let Some(cached) = self.cache.classes.get_all_if_populated() {
                return Ok(Step::Ready(self.link_classes(cached)));
            }
        }
        Ok(Step::Fetch(self.base.fetch_classes(self.upstream.as_str())))
    }

    /// Every cached entity of a listing, linked.
    fn link_classes(&self, cached: Vec<&nmodels::Class>) -> (all: Vec<models::Class>)
        requires
            crate::network::cache::is_listing(referents(cached@), self@.cache.classes.entries),
        ensures
            is_linked_listing(
                all@,
                self@.cache.classes.entries,
                |linked: models::Class, net: nmodels::Class| linked.is_link_of(net),
            ),
    {
        let mut all: Vec<models::Class> = Vec::new();
        let mut at: usize = 0;
        while at < cached.len()
            invariant
                at <= cached.len(),
                all@.len() == at,
                forall|i: int| 0 <= i < at ==> (#[trigger] all@[i]).is_link_of(*cached@[i]),
            decreases cached.len() - at,
        {
            all.push(cached[at].link());
            at += 1;
        }
        proof {
            lemma_linked_listing(
                all@,
                referents(cached@),
                self@.cache.classes.entries,
                |linked: models::Class, net: nmodels::Class| linked.is_link_of(net),
            );
        }
        all
    }

    /// Takes the answer to the request that lists all classes: every one is filed under
    /// its own key, the collection counts as listed, and the answer is everything that
    /// is cached of the collection now. Where no listing came, nothing changes.
    pub fn put_classes(&mut self, response: Result<Vec<nmodels::Class>, Error>) -> (outcome: Result<
        Vec<models::Class>,
        Error,
    >)
        ensures
            match response {
                Ok(net) => {
                    &&& final(self)@ == (SupernovaView {
                        cache: CacheView {
                            classes: old(self)@.cache.classes.mark_populated(net@),
                            ..old(self)@.cache
                        },
                        ..old(self)@
                    })
                    &&& outcome matches Ok(all) && is_linked_listing(
                        all@,
                        final(self)@.cache.classes.entries,
                        |linked: models::Class, net: nmodels::Class| linked.is_link_of(net),
                    )
                },
                Err(error) => final(self)@ == old(self)@ && outcome == Err::<
                    Vec<models::Class>,
                    Error,
                >(error),
            },
    {
        match response {
            Ok(net) => {
                self.cache.classes.mark_populated(net);
                let cached = self.cache.classes.get_all();
                Ok(self.link_classes(cached))
            },
            Err(error) => Err(error),
        }
    }

    /// All courses: from the cache, if they were listed before and the caller does not
    /// want the cache left aside, or else the request that lists them.
    pub fn get_courses(&self, conf: &RequestConfig) -> (outcome: Result<
        Step<Vec<models::Course>>,
        Error,
    >)
        ensures
            list_through(
                self@.cache.courses,
                conf.evade_cache,
                plain_get(Endpoint::Courses.address(self@.upstream)),
                |linked: models::Course, net: nmodels::Course| linked.is_link_of(net),
                outcome,
            ),
    {
        if !conf.evade_cache {
            if let Some(cached) = self.cache.courses.get_all_if_populated() {
                return Ok(Step::Ready(self.link_courses(cached)));
            }
        }
        Ok(Step::Fetch(self.base.fetch_courses(self.upstream.as_str())))
    }

    /// Every cached entity of a listing, linked.
    fn link_courses(&self, cached: Vec<&nmodels::Course>) -> (all: Vec<models::Course>)
        requires
            crate::network::cache::is_listing(referents(cached@), self@.cache.courses.entries),
        ensures
            is_linked_listing(
                all@,
                self@.cache.courses.entries,
                |linked: models::Course, net: nmodels::Course| linked.is_link_of(net),
            ),
    {
        let mut all: Vec<models::Course> = Vec::new();
        let mut at: usize = 0;
        while at < cached.len()
            invariant
                at <= cached.len(),
                all@.len() == at,
                forall|i: int| 0 <= i < at ==> (#[trigger] all@[i]).is_link_of(*cached@[i]),
            decreases cached.len() - at,
        {
            all.push(cached[at].link());
            at += 1;
        }
        proof {
            lemma_linked_listing(
                all@,
                referents(cached@),
                self@.cache.courses.entries,
                |linked: models::Course, net: nmodels::Course| linked.is_link_of(net),
            );
        }
        all
    }

    /// Takes the answer to the request that lists all courses: every one is filed under
    /// its own key, the collection counts as listed, and the answer is everything that
    /// is cached of the collection now. Where no listing came, nothing changes.
    pub fn put_courses(&mut self, response: Result<Vec<nmodels::Course>, Error>) -> (outcome: Result<
        Vec<models::Course>,
        Error,
    >)
        ensures
            match response {
                Ok(net) => {
                    &&& final(self)@ == (SupernovaView {
                        cache: CacheView {
                            courses: old(self)@.cache.courses.mark_populated(net@),
                            ..old(self)@.cache
                        },
                        ..old(self)@
                    })
                    &&& outcome matches Ok(all) && is_linked_listing(
                        all@,
                        final(self)@.cache.courses.entries,
                        |linked: models::Course, net: nmodels::Course| linked.is_link_of(net),
                    )
                },
                Err(error) => final(self)@ == old(self)@ && outcome == Err::<
                    Vec<models::Course>,
                    Error,
                >(error),
            },
    {
        match response {
            Ok(net) => {
                self.cache.courses.mark_populated(net);
                let cached = self.cache.courses.get_all();
                Ok(self.link_courses(cached))
            },
            Err(error) => Err(error),
        }
    }

    /// All groups: from the cache, if they were listed before and the caller does not
    /// want the cache left aside, or else the request that lists them.
    pub fn get_groups(&self, conf: &RequestConfig) -> (outcome: Result<
        Step<Vec<models::Group>>,
        Error,
    >)
        ensures
            list_through(
                self@.cache.groups,
                conf.evade_cache,
                plain_get(Endpoint::Groups.address(self@.upstream)),
                |linked: models::Group, net: nmodels::WeakGroup| linked.is_link_of_weak(net, self@.upstream),
                outcome,
            ),
    {
        if !conf.evade_cache {
            if let Some(cached) = self.cache.groups.get_all_if_populated() {
                return Ok(Step::Ready(self.link_groups(cached)));
            }
        }
        Ok(Step::Fetch(self.base.fetch_groups(self.upstream.as_str())))
    }

    /// Every cached entity of a listing, linked.
    fn link_groups(&self, cached: Vec<&nmodels::WeakGroup>) -> (all: Vec<models::Group>)
        requires
            crate::network::cache::is_listing(referents(cached@), self@.cache.groups.entries),
        ensures
            is_linked_listing(
                all@,
                self@.cache.groups.entries,
                |linked: models::Group, net: nmodels::WeakGroup| linked.is_link_of_weak(net, self@.upstream),
            ),
    {
        let mut all: Vec<models::Group> = Vec::new();
        let mut at: usize = 0;
        while at < cached.len()
            invariant
                at <= cached.len(),
                all@.len() == at,
                forall|i: int| 0 <= i < at ==> (#[trigger] all@[i]).is_link_of_weak(*cached@[i], self@.upstream),
            decreases cached.len() - at,
        {
            all.push(cached[at].link(self.upstream.as_str()));
            at += 1;
        }
        proof {
            lemma_linked_listing(
                all@,
                referents(cached@),
                self@.cache.groups.entries,
                |linked: models::Group, net: nmodels::WeakGroup| linked.is_link_of_weak(net, self@.upstream),
            );
        }
        all
    }

    /// Takes the answer to the request that lists all groups: every one is filed under
    /// its own key, the collection counts as listed, and the answer is everything that
    /// is cached of the collection now. Where no listing came, nothing changes.
    pub fn put_groups(&mut self, response: Result<Vec<nmodels::WeakGroup>, Error>) -> (outcome: Result<
        Vec<models::Group>,
        Error,
    >)
        ensures
            match response {
                Ok(net) => {
                    &&& final(self)@ == (SupernovaView {
                        cache: CacheView {
                            groups: old(self)@.cache.groups.mark_populated(net@),
                            ..old(self)@.cache
                        },
                        ..old(self)@
                    })
                    &&& outcome matches Ok(all) && is_linked_listing(
                        all@,
                        final(self)@.cache.groups.entries,
                        |linked: models::Group, net: nmodels::WeakGroup| linked.is_link_of_weak(net, final(self)@.upstream),
                    )
                },
                Err(error) => final(self)@ == old(self)@ && outcome == Err::<
                    Vec<models::Group>,
                    Error,
                >(error),
            },
    {
        match response {
            Ok(net) => {
                self.cache.groups.mark_populated(net);
                let cached = self.cache.groups.get_all();
                Ok(self.link_groups(cached))
            },
            Err(error) => Err(error),
        }
    }

    /// The building with the key `id`: from the cache, if it is there and the caller
    /// does not want the cache left aside, or else
    /// the request that asks for it.
    pub fn get_building(&self, id: keys::BuildingKey, conf: &RequestConfig) -> (outcome: Result<
        Step<models::Building>,
        Error,
    >)
        ensures
            read_through(
                self@.cache.buildings,
                id,
                conf.evade_cache,
                Ok(plain_get(Endpoint::Building(id).address(self@.upstream))),
                |linked: models::Building, net: nmodels::Building| linked.is_link_of(net),
                outcome,
            ),
    {
        if !conf.evade_cache {
            if let Some(net) = self.cache.buildings.get(id) {
                return Ok(Step::Ready(net.link()));
            }
        }
        Ok(Step::Fetch(self.base.fetch_building(self.upstream.as_str(), id)))
    }

    /// Takes the answer to the request for the building with the key `id`: what came is
    /// filed under `id`, in place of what was there, and handed out linked.
    /// Where nothing came, nothing changes.
    pub fn put_building(&mut self, id: keys::BuildingKey, response: Result<nmodels::Building, Error>) -> (outcome:
        Result<models::Building, Error>)
        ensures
            match response {
                Ok(net) => {
                    &&& final(self)@ == (SupernovaView {
                        cache: CacheView {
                            buildings: old(self)@.cache.buildings.insert(id, net),
                            ..old(self)@.cache
                        },
                        ..old(self)@
                    })
                    &&& outcome matches Ok(linked) && linked.is_link_of(net)
                },
                Err(error) => final(self)@ == old(self)@ && outcome == Err::<
                    models::Building,
                    Error,
                >(error),
            },
    {
        match response {
            Ok(net) => {
                let linked = net.link();
                self.cache.buildings.insert(id, net);
                Ok(linked)
            },
            Err(error) => Err(error),
        }
    }

    /// The place with the key `id`: from the cache, if it is there and the caller
    /// does not want the cache left aside, or else
    /// the request that asks for it.
    pub fn get_place(&self, id: keys::PlaceKey, conf: &RequestConfig) -> (outcome: Result<
        Step<models::Place>,
        Error,
    >)
        ensures
            read_through(
                self@.cache.places,
                id,
                conf.evade_cache,
                Ok(plain_get(Endpoint::Place(id).address(self@.upstream))),
                |linked: models::Place, net: nmodels::Place| linked.is_link_of(net),
                outcome,
            ),
    {
        if !conf.evade_cache {
            if let Some(net) = self.cache.places.get(id) {
                return Ok(Step::Ready(net.link()));
            }
        }
        Ok(Step::Fetch(self.base.fetch_place(self.upstream.as_str(), id)))
    }

    /// Takes the answer to the request for the place with the key `id`: what came is
    /// filed under `id`, in place of what was there, and handed out linked.
    /// Where nothing came, nothing changes.
    pub fn put_place(&mut self, id: keys::PlaceKey, response: Result<nmodels::Place, Error>) -> (outcome:
        Result<models::Place, Error>)
        ensures
            match response {
                Ok(net) => {
                    &&& final(self)@ == (SupernovaView {
                        cache: CacheView {
                            places: old(self)@.cache.places.insert(id, net),
                            ..old(self)@.cache
                        },
                        ..old(self)@
                    })
                    &&& outcome matches Ok(linked) && linked.is_link_of(net)
                },
                Err(error) => final(self)@ == old(self)@ && outcome == Err::<
                    models::Place,
                    Error,
                >(error),
            },
    {
        match response {
            Ok(net) => {
                let linked = net.link();
                self.cache.places.insert(id, net);
                Ok(linked)
            },
            Err(error) => Err(error),
        }
    }

    /// The department with the key `id`: from the cache, if it is there and the caller
    /// does not want the cache left aside, or else
    /// the request that asks for it.
    pub fn get_department(&self, id: keys::DepartmentKey, conf: &RequestConfig) -> (outcome: Result<
        Step<models::Department>,
        Error,
    >)
        ensures
            read_through(
                self@.cache.departments,
                id,
                conf.evade_cache,
                Ok(plain_get(Endpoint::Department(id).address(self@.upstream))),
                |linked: models::Department, net: nmodels::Department| linked.is_link_of(net),
                outcome,
            ),
    {
        if !conf.evade_cache {
            if let Some(net) = self.cache.departments.get(id) {
                return Ok(Step::Ready(net.link()));
            }
        }
        Ok(Step::Fetch(self.base.fetch_department(self.upstream.as_str(), id)))
    }

    /// Takes the answer to the request for the department with the key `id`: what came is
    /// filed under `id`, in place of what was there, and handed out linked.
    /// Where nothing came, nothing changes.
    pub fn put_department(&mut self, id: keys::DepartmentKey, response: Result<nmodels::Department, Error>) -> (outcome:
        Result<models::Department, Error>)
        ensures
            match response {
                Ok(net) => {
                    &&& final(self)@ == (SupernovaView {
                        cache: CacheView {
                            departments: old(self)@.cache.departments.insert(id, net),
                            ..old(self)@.cache
                        },
                        ..old(self)@
                    })
                    &&& outcome matches Ok(linked) && linked.is_link_of(net)
                },
                Err(error) => final(self)@ == old(self)@ && outcome == Err::<
                    models::Department,
                    Error,
                >(error),
            },
    {
        match response {
            Ok(net) => {
                let linked = net.link();
                self.cache.departments.insert(id, net);
                Ok(linked)
            },
            Err(error) => Err(error),
        }
    }

    /// The course with the key `id`: from the cache, if it is there and the caller
    /// does not want the cache left aside, or else
    /// the request that asks for it.
    pub fn get_course(&self, id: keys::CourseKey, conf: &RequestConfig) -> (outcome: Result<
        Step<models::Course>,
        Error,
    >)
        ensures
            read_through(
                self@.cache.courses,
                id,
                conf.evade_cache,
                Ok(plain_get(Endpoint::Course(id).address(self@.upstream))),
                |linked: models::Course, net: nmodels::Course| linked.is_link_of(net),
                outcome,
            ),
    {
        if !conf.evade_cache {
            if let Some(net) = self.cache.courses.get(id) {
                return Ok(Step::Ready(net.link()));
            }
        }
        Ok(Step::Fetch(self.base.fetch_course(self.upstream.as_str(), id)))
    }

    /// Takes the answer to the request for the course with the key `id`: what came is
    /// filed under `id`, in place of what was there, and handed out linked.
    /// Where nothing came, nothing changes.
    pub fn put_course(&mut self, id: keys::CourseKey, response: Result<nmodels::Course, Error>) -> (outcome:
        Result<models::Course, Error>)
        ensures
            match response {
                Ok(net) => {
                    &&& final(self)@ == (SupernovaView {
                        cache: CacheView {
                            courses: old(self)@.cache.courses.insert(id, net),
                            ..old(self)@.cache
                        },
                        ..old(self)@
                    })
                    &&& outcome matches Ok(linked) && linked.is_link_of(net)
                },
                Err(error) => final(self)@ == old(self)@ && outcome == Err::<
                    models::Course,
                    Error,
                >(error),
            },
    {
        match response {
            Ok(net) => {
                let linked = net.link();
                self.cache.courses.insert(id, net);
                Ok(linked)
            },
            Err(error) => Err(error),
        }
    }

    /// The class with the key `id`: from the cache, if it is there and the caller
    /// does not want the cache left aside, or else
    /// the request that asks for it.
    pub fn get_class(&self, id: keys::ClassKey, conf: &RequestConfig) -> (outcome: Result<
        Step<models::Class>,
        Error,
    >)
        ensures
            read_through(
                self@.cache.classes,
                id,
                conf.evade_cache,
                Ok(plain_get(Endpoint::Class(id).address(self@.upstream))),
                |linked: models::Class, net: nmodels::Class| linked.is_link_of(net),
                outcome,
            ),
    {
        if !conf.evade_cache {
            if let Some(net) = self.cache.classes.get(id) {
                return Ok(Step::Ready(net.link()));
            }
        }
        Ok(Step::Fetch(self.base.fetch_class(self.upstream.as_str(), id)))
    }

    /// Takes the answer to the request for the class with the key `id`: what came is
    /// filed under `id`, in place of what was there, and handed out linked.
    /// Where nothing came, nothing changes.
    pub fn put_class(&mut self, id: keys::ClassKey, response: Result<nmodels::Class, Error>) -> (outcome:
        Result<models::Class, Error>)
        ensures
            match response {
                Ok(net) => {
                    &&& final(self)@ == (SupernovaView {
                        cache: CacheView {
                            classes: old(self)@.cache.classes.insert(id, net),
                            ..old(self)@.cache
                        },
                        ..old(self)@
                    })
                    &&& outcome matches Ok(linked) && linked.is_link_of(net)
                },
                Err(error) => final(self)@ == old(self)@ && outcome == Err::<
                    models::Class,
                    Error,
                >(error),
            },
    {
        match response {
            Ok(net) => {
                let linked = net.link();
                self.cache.classes.insert(id, net);
                Ok(linked)
            },
            Err(error) => Err(error),
        }
    }

    /// The class instance with the key `id`: from the cache, if it is there and the caller
    /// does not want the cache left aside, or the request
    /// that asks for it in the session's name, or, without a session, the complaint that
    /// there is none.
    pub fn get_class_instance(&self, id: keys::ClassInstanceKey, conf: &RequestConfig) -> (outcome: Result<
        Step<models::ClassInstance>,
        Error,
    >)
        ensures
            read_through(
                self@.cache.class_instances,
                id,
                conf.evade_cache,
                authorized(self@.credentials, Endpoint::ClassInstance(id).address(self@.upstream)),
                |linked: models::ClassInstance, net: nmodels::ClassInstance| linked.is_link_of(net),
                outcome,
            ),
    {
        if !conf.evade_cache {
            if let Some(net) = self.cache.class_instances.get(id) {
                return Ok(Step::Ready(net.link()));
            }
        }
        match self.authenticated.fetch_class_instance(self.upstream.as_str(), id) {
            Ok(request) => Ok(Step::Fetch(request)),
            Err(error) => Err(error),
        }
    }

    /// Takes the answer to the request for the class instance with the key `id`: what
    /// came is filed under `id`, and the enrollments and the shifts that came with it are
    /// filed too, each under its own key. Where nothing came, nothing changes.
    pub fn put_class_instance(
        &mut self,
        id: keys::ClassInstanceKey,
        response: Result<nmodels::ClassInstance, Error>,
    ) -> (outcome: Result<models::ClassInstance, Error>)
        ensures
            match response {
                Ok(net) => {
                    &&& exists|shifts: Seq<nmodels::ClassShift>|
                        same_shifts(shifts, net.shifts@) && final(self)@
                            == #[trigger] old(self)@.with_class_instance(id, net, shifts)
                    &&& outcome matches Ok(linked) && linked.is_link_of(net)
                },
                Err(error) => final(self)@ == old(self)@ && outcome == Err::<
                    models::ClassInstance,
                    Error,
                >(error),
            },
    {
        match response {
            Ok(net) => {
                let mut enrollments: Vec<nmodels::Enrollment> = Vec::new();
                let mut at: usize = 0;
                while at < net.enrollments.len()
                    invariant
                        at <= net.enrollments.len(),
                        enrollments@ == net.enrollments@.take(at as int),
                    decreases net.enrollments.len() - at,
                {
                    enrollments.push(net.enrollments[at].duplicate());
                    at += 1;
                }
                assert(net.enrollments@.take(at as int) =~= net.enrollments@);
                let mut shifts: Vec<nmodels::ClassShift> = Vec::new();
                let mut at: usize = 0;
                while at < net.shifts.len()
                    invariant
                        at <= net.shifts.len(),
                        same_shifts(shifts@, net.shifts@.take(at as int)),
                    decreases net.shifts.len() - at,
                {
                    shifts.push(net.shifts[at].duplicate());
                    at += 1;
                }
                assert(net.shifts@.take(at as int) =~= net.shifts@);
                let ghost filed_shifts = shifts@;
                self.cache.enrollments.insert_all(enrollments);
                self.cache.class_shifts.insert_all(shifts);
                let linked = net.link();
                self.cache.class_instances.insert(id, net);
                assert(final(self)@ == old(self)@.with_class_instance(id, net, filed_shifts));
                Ok(linked)
            },
            Err(error) => Err(error),
        }
    }

    /// The student with the key `id`: from the cache, if it is there and the caller
    /// does not want the cache left aside, or the request
    /// that asks for it in the session's name, or, without a session, the complaint that
    /// there is none.
    pub fn get_student(&self, id: keys::StudentKey, conf: &RequestConfig) -> (outcome: Result<
        Step<models::Student>,
        Error,
    >)
        ensures
            read_through(
                self@.cache.students,
                id,
                conf.evade_cache,
                authorized(self@.credentials, Endpoint::Student(id).address(self@.upstream)),
                |linked: models::Student, net: nmodels::Student| linked.is_link_of(net, self@.upstream),
                outcome,
            ),
    {
        if !conf.evade_cache {
            if let Some(net) = self.cache.students.get(id) {
                return Ok(Step::Ready(net.link(self.upstream.as_str())));
            }
        }
        match self.authenticated.fetch_student(self.upstream.as_str(), id) {
            Ok(request) => Ok(Step::Fetch(request)),
            Err(error) => Err(error),
        }
    }

    /// Takes the answer to the request for the student with the key `id`: what came is
    /// filed under `id`, in place of what was there, and handed out linked.
    /// Where nothing came, nothing changes.
    pub fn put_student(&mut self, id: keys::StudentKey, response: Result<nmodels::Student, Error>) -> (outcome:
        Result<models::Student, Error>)
        ensures
            match response {
                Ok(net) => {
                    &&& final(self)@ == (SupernovaView {
                        cache: CacheView {
                            students: old(self)@.cache.students.insert(id, net),
                            ..old(self)@.cache
                        },
                        ..old(self)@
                    })
                    &&& outcome matches Ok(linked) && linked.is_link_of(net, old(self)@.upstream)
                },
                Err(error) => final(self)@ == old(self)@ && outcome == Err::<
                    models::Student,
                    Error,
                >(error),
            },
    {
        match response {
            Ok(net) => {
                let linked = net.link(self.upstream.as_str());
                self.cache.students.insert(id, net);
                Ok(linked)
            },
            Err(error) => Err(error),
        }
    }

    /// The teacher with the key `id`: from the cache, if it is there and the caller
    /// does not want the cache left aside, or the request
    /// that asks for it in the session's name, or, without a session, the complaint that
    /// there is none.
    pub fn get_teacher(&self, id: keys::TeacherKey, conf: &RequestConfig) -> (outcome: Result<
        Step<models::Teacher>,
        Error,
    >)
        ensures
            read_through(
                self@.cache.teachers,
                id,
                conf.evade_cache,
                authorized(self@.credentials, Endpoint::Teacher(id).address(self@.upstream)),
                |linked: models::Teacher, net: nmodels::Teacher| linked.is_link_of(net, self@.upstream),
                outcome,
            ),
    {
        if !conf.evade_cache {
            if let Some(net) = self.cache.teachers.get(id) {
                return Ok(Step::Ready(net.link(self.upstream.as_str())));
            }
        }
        match self.authenticated.fetch_teacher(self.upstream.as_str(), id) {
            Ok(request) => Ok(Step::Fetch(request)),
            Err(error) => Err(error),
        }
    }

    /// Takes the answer to the request for the teacher with the key `id`: what came is
    /// filed under `id`, in place of what was there, and handed out linked.
    /// Where nothing came, nothing changes.
    pub fn put_teacher(&mut self, id: keys::TeacherKey, response: Result<nmodels::Teacher, Error>) -> (outcome:
        Result<models::Teacher, Error>)
        ensures
            match response {
                Ok(net) => {
                    &&& final(self)@ == (SupernovaView {
                        cache: CacheView {
                            teachers: old(self)@.cache.teachers.insert(id, net),
                            ..old(self)@.cache
                        },
                        ..old(self)@
                    })
                    &&& outcome matches Ok(linked) && linked.is_link_of(net, old(self)@.upstream)
                },
                Err(error) => final(self)@ == old(self)@ && outcome == Err::<
                    models::Teacher,
                    Error,
                >(error),
            },
    {
        match response {
            Ok(net) => {
                let linked = net.link(self.upstream.as_str());
                self.cache.teachers.insert(id, net);
                Ok(linked)
            },
            Err(error) => Err(error),
        }
    }

    /// The enrollment with the key `id`: from the cache, if it is there and the caller
    /// does not want the cache left aside, or the request
    /// that asks for it in the session's name, or, without a session, the complaint that
    /// there is none.
    pub fn get_enrollment(&self, id: keys::EnrollmentKey, conf: &RequestConfig) -> (outcome: Result<
        Step<models::Enrollment>,
        Error,
    >)
        ensures
            read_through(
                self@.cache.enrollments,
                id,
                conf.evade_cache,
                authorized(self@.credentials, Endpoint::Enrollment(id).address(self@.upstream)),
                |linked: models::Enrollment, net: nmodels::Enrollment| linked.is_link_of(net),
                outcome,
            ),
    {
        if !conf.evade_cache {
            if let Some(net) = self.cache.enrollments.get(id) {
                return Ok(Step::Ready(net.link()));
            }
        }
        match self.authenticated.fetch_enrollment(self.upstream.as_str(), id) {
            Ok(request) => Ok(Step::Fetch(request)),
            Err(error) => Err(error),
        }
    }

    /// Takes the answer to the request for the enrollment with the key `id`: what came is
    /// filed under `id`, in place of what was there, and handed out linked.
    /// Where nothing came, nothing changes.
    pub fn put_enrollment(&mut self, id: keys::EnrollmentKey, response: Result<nmodels::Enrollment, Error>) -> (outcome:
        Result<models::Enrollment, Error>)
        ensures
            match response {
                Ok(net) => {
                    &&& final(self)@ == (SupernovaView {
                        cache: CacheView {
                            enrollments: old(self)@.cache.enrollments.insert(id, net),
                            ..old(self)@.cache
                        },
                        ..old(self)@
                    })
                    &&& outcome matches Ok(linked) && linked.is_link_of(net)
                },
                Err(error) => final(self)@ == old(self)@ && outcome == Err::<
                    models::Enrollment,
                    Error,
                >(error),
            },
    {
        match response {
            Ok(net) => {
                let linked = net.link();
                self.cache.enrollments.insert(id, net);
                Ok(linked)
            },
            Err(error) => Err(error),
        }
    }

    /// The shift with the key `id`: from the cache, if it is there and the caller
    /// does not want the cache left aside, or the request
    /// that asks for it in the session's name, or, without a session, the complaint that
    /// there is none.
    pub fn get_shift(&self, id: keys::ShiftKey, conf: &RequestConfig) -> (outcome: Result<
        Step<models::ClassShift>,
        Error,
    >)
        ensures
            read_through(
                self@.cache.class_shifts,
                id,
                conf.evade_cache,
                authorized(self@.credentials, Endpoint::Shift(id).address(self@.upstream)),
                |linked: models::ClassShift, net: nmodels::ClassShift| linked.is_link_of(net),
                outcome,
            ),
    {
        if !conf.evade_cache {
            if let Some(net) = self.cache.class_shifts.get(id) {
                return Ok(Step::Ready(net.link()));
            }
        }
        match self.authenticated.fetch_shift(self.upstream.as_str(), id) {
            Ok(request) => Ok(Step::Fetch(request)),
            Err(error) => Err(error),
        }
    }

    /// Takes the answer to the request for the shift with the key `id`: what came is
    /// filed under `id`, in place of what was there, and handed out linked.
    /// Where nothing came, nothing changes.
    pub fn put_shift(&mut self, id: keys::ShiftKey, response: Result<nmodels::ClassShift, Error>) -> (outcome:
        Result<models::ClassShift, Error>)
        ensures
            match response {
                Ok(net) => {
                    &&& final(self)@ == (SupernovaView {
                        cache: CacheView {
                            class_shifts: old(self)@.cache.class_shifts.insert(id, net),
                            ..old(self)@.cache
                        },
                        ..old(self)@
                    })
                    &&& outcome matches Ok(linked) && linked.is_link_of(net)
                },
                Err(error) => final(self)@ == old(self)@ && outcome == Err::<
                    models::ClassShift,
                    Error,
                >(error),
            },
    {
        match response {
            Ok(net) => {
                let linked = net.link();
                self.cache.class_shifts.insert(id, net);
                Ok(linked)
            },
            Err(error) => Err(error),
        }
    }

    /// The request for the group with the key `id`. Groups are not cached one by one.
    pub fn get_group(&self, id: keys::GroupKey) -> (outcome: Result<Step<models::Group>, Error>)
        ensures
            outcome matches Ok(step) && step.asks(
                plain_get(Endpoint::Group(id).address(self@.upstream)),
            ),
    {
        Ok(Step::Fetch(self.group_request(id)))
    }

    /// The request for the page of the group with the key `id`.
    pub fn group_request(&self, id: keys::GroupKey) -> (request: Request)
        ensures
            request@ == plain_get(Endpoint::Group(id).address(self@.upstream)),
    {
        self.base.fetch_group(self.upstream.as_str(), id)
    }

    /// Takes the answer to the request for a group, and hands it out linked.
    pub fn put_group(&self, response: Result<nmodels::Group, Error>) -> (outcome: Result<
        models::Group,
        Error,
    >)
        ensures
            match response {
                Ok(net) => outcome matches Ok(linked) && linked.is_link_of(net, self@.upstream),
                Err(error) => outcome == Err::<models::Group, Error>(error),
            },
    {
        match response {
            Ok(net) => Ok(net.link(self.upstream.as_str())),
            Err(error) => Err(error),
        }
    }

    /// The request for the first page of the feed of events.
    pub fn get_events_front_page(&self, conf: &RequestConfig) -> (outcome: Result<
        Step<Option<Arc<models::EventsPage>>>,
        Error,
    >)
        ensures
            outcome matches Ok(step) && step.asks(
                plain_get(
                    Endpoint::EventsPage((DEFAULT_PAGE_ITEM_LIMIT, 0)).address(self@.upstream),
                ),
            ),
    {
        let key: keys::EventsPageKey = (DEFAULT_PAGE_ITEM_LIMIT, 0);
        self.get_events_page(key, conf)
    }

    /// The request for the page `key` of the feed of events. Pages are not cached.
    pub fn get_events_page(&self, key: keys::EventsPageKey, _conf: &RequestConfig) -> (outcome:
        Result<Step<Option<Arc<models::EventsPage>>>, Error>)
        ensures
            outcome matches Ok(step) && step.asks(
                plain_get(Endpoint::EventsPage(key).address(self@.upstream)),
            ),
    {
        Ok(Step::Fetch(self.base.fetch_events(self.upstream.as_str(), key)))
    }

    /// Takes the answer to the request for the page `key` of the feed of events.
    /// `previous` is the page from which this one was reached, and nothing for a page
    /// that was asked for by itself. A page without items means that the feed has ended:
    /// then there is no page. A page with items holds `previous` as the page before it.
    ///
    /// Only a page with items has a page after it, so only then must the key of that
    /// page be a key.
    pub fn put_events_page(
        &self,
        key: keys::EventsPageKey,
        previous: Option<Arc<models::EventsPage>>,
        response: Result<nmodels::EventsPage, Error>,
    ) -> (outcome: Result<Option<Arc<models::EventsPage>>, Error>)
        requires
            response matches Ok(net) && net.results@.len() > 0 ==> key.1 + key.0 <= u32::MAX,
        ensures
            match response {
                Ok(net) => match outcome {
                    Ok(Some(page)) => net.results@.len() > 0 && page.is_link_of(
                        net,
                        key,
                        previous,
                    ),
                    Ok(None) => net.results@.len() == 0,
                    Err(_) => false,
                },
                Err(error) => outcome == Err::<Option<Arc<models::EventsPage>>, Error>(error),
            },
    {
        match response {
            Ok(net) => {
                if net.results.len() == 0 {
                    Ok(None)
                } else {
                    Ok(Some(net.link(key, previous)))
                }
            },
            Err(error) => Err(error),
        }
    }

    /// The request for the first page of the feed of news.
    pub fn get_news_front_page(&self, conf: &RequestConfig) -> (outcome: Result<
        Step<Option<Arc<models::NewsPage>>>,
        Error,
    >)
        ensures
            outcome matches Ok(step) && step.asks(
                plain_get(
                    Endpoint::NewsItemPage((DEFAULT_PAGE_ITEM_LIMIT, 0)).address(self@.upstream),
                ),
            ),
    {
        let key: keys::NewsPageKey = (DEFAULT_PAGE_ITEM_LIMIT, 0);
        self.get_news_page(key, conf)
    }

    /// The request for the page `key` of the feed of news. Pages are not cached.
    pub fn get_news_page(&self, key: keys::NewsPageKey, _conf: &RequestConfig) -> (outcome: Result<
        Step<Option<Arc<models::NewsPage>>>,
        Error,
    >)
        ensures
            outcome matches Ok(step) && step.asks(
                plain_get(Endpoint::NewsItemPage(key).address(self@.upstream)),
            ),
    {
        Ok(Step::Fetch(self.base.fetch_news(self.upstream.as_str(), key)))
    }

    /// Takes the answer to the request for the page `key` of the feed of news.
    /// `previous` is the page from which this one was reached, and nothing for a page
    /// that was asked for by itself. A page without items means that the feed has ended:
    /// then there is no page. A page with items holds `previous` as the page before it.
    ///
    /// Only a page with items has a page after it, so only then must the key of that
    /// page be a key.
    pub fn put_news_page(
        &self,
        key: keys::NewsPageKey,
        previous: Option<Arc<models::NewsPage>>,
        response: Result<nmodels::NewsPage, Error>,
    ) -> (outcome: Result<Option<Arc<models::NewsPage>>, Error>)
        requires
            response matches Ok(net) && net.results@.len() > 0 ==> key.1 + key.0 <= u32::MAX,
        ensures
            match response {
                Ok(net) => match outcome {
                    Ok(Some(page)) => net.results@.len() > 0 && page.is_link_of(
                        net,
                        self@.upstream,
                        key,
                        previous,
                    ),
                    Ok(None) => net.results@.len() == 0,
                    Err(_) => false,
                },
                Err(error) => outcome == Err::<Option<Arc<models::NewsPage>>, Error>(error),
            },
    {
        match response {
            Ok(net) => {
                if net.results.len() == 0 {
                    Ok(None)
                } else {
                    Ok(Some(net.link(self.upstream.as_str(), key, previous)))
                }
            },
            Err(error) => Err(error),
        }
    }

    /// The request for the bytes found at the path `url` of the service,
    /// in the session's name while there is one.
    pub fn load_resource(&self, url: &str) -> (request: Request)
        ensures
            request@ == match self@.credentials {
                Some(token) => authorized_get(
                    resolved(self@.upstream, self@.upstream + url@),
                    token@,
                ),
                None => plain_get(resolved(self@.upstream, self@.upstream + url@)),
            },
    {
        let url = join(self.upstream.as_str(), url);
        match self.authenticated.fetch_bytes(self.upstream.as_str(), url.as_str()) {
            Ok(request) => request,
            Err(_) => self.base.fetch_bytes(self.upstream.as_str(), url.as_str()),
        }
    }

    /// The request for the bytes of the thumbnail found at `url`, in nobody's name.
    pub fn thumb_request(&self, url: &str) -> (request: Request)
        ensures
            request@ == plain_get(resolved(self@.upstream, url@)),
    {
        self.base.fetch_bytes(self.upstream.as_str(), url)
    }

    /// The next step of a warm-up: the first collection that was not listed yet, with the
    /// request that lists it, or nothing once all of them were listed.
    pub fn warmup(&self) -> (next: Option<(Collection, Request)>)
        ensures
            match next {
                Some((collection, request)) => first_unlisted(self@.cache) == Some(collection)
                    && request@ == plain_get(
                    listing_endpoint(collection).address(self@.upstream),
                ),
                None => first_unlisted(self@.cache) is None,
            },
    {
        let upstream = self.upstream.as_str();
        if !self.cache.buildings.is_populated() {
            Some((Collection::Buildings, self.base.fetch_buildings(upstream)))
        } else if !self.cache.courses.is_populated() {
            Some((Collection::Courses, self.base.fetch_courses(upstream)))
        } else if !self.cache.classes.is_populated() {
            Some((Collection::Classes, self.base.fetch_classes(upstream)))
        } else if !self.cache.departments.is_populated() {
            Some((Collection::Departments, self.base.fetch_departments(upstream)))
        } else if !self.cache.places.is_populated() {
            Some((Collection::Places, self.base.fetch_places(upstream)))
        } else if !self.cache.groups.is_populated() {
            Some((Collection::Groups, self.base.fetch_groups(upstream)))
        } else {
            None
        }
    }
}

} // verus!
