//! Where the service answers, and the requests that the library asks for.
use crate::errors::Error;
use crate::keys::{
    BuildingKey, ClassInstanceKey, ClassKey, CourseKey, DepartmentKey, EnrollmentKey,
    EventsPageKey, GroupKey, LearningAreaKey, LearningSectionKey, LearningSubareaKey,
    NewsPageKey, QuestionKey, RoomKey, ServiceKey, ShiftKey, StudentKey, TeacherKey, UserKey,
};
use crate::network::http::{authorized_get, plain_get, Method, Request, RequestView, StatusCode};
use crate::network::models::AuthToken;
use crate::text::{append_decimal, decimal, join};
use vstd::prelude::*;
use vstd::string::*;

verus! {

/// Where the service is found, unless a caller says otherwise.
pub const UPSTREAM: &'static str = "https://supernova.nunl.pt";

/// The places of the service that a request can go to.
#[derive(Debug, Clone, Copy, PartialEq, Eq)]
pub enum Endpoint {
    Login,
    Logout,
    TokenValidation,
    Profile(UserKey),
    Buildings,
    Building(BuildingKey),
    Places,
    Place(RoomKey),
    Departments,
    Department(DepartmentKey),
    Courses,
    Course(CourseKey),
    Classes,
    Class(ClassKey),
    ClassInstance(ClassInstanceKey),
    Student(StudentKey),
    Teacher(TeacherKey),
    Enrollment(EnrollmentKey),
    Shift(ShiftKey),
    Groups,
    Group(GroupKey),
    EventsPage(EventsPageKey),
    NewsItemPage(NewsPageKey),
    LearningAreas,
    LearningArea(LearningAreaKey),
    LearningSubarea(LearningSubareaKey),
    LearningSection(LearningSectionKey),
    Question(QuestionKey),
    Transportation,
    Weather,
    Services,
    Service(ServiceKey),
}

/// The path of a page of a feed: at most `limit` items, behind the first `offset` ones.
pub open spec fn page_path(feed: Seq<char>, limit: u16, offset: u32) -> Seq<char> {
    feed + "?limit="@ + decimal(limit as nat) + "&offset="@ + decimal(offset as nat)
}

impl Endpoint {
    /// The path of this endpoint below the root of the service's interface.
    pub open spec fn path(&self) -> Seq<char> {
        match *self {
            Endpoint::Login => "login"@,
            Endpoint::Logout => "logout"@,
            Endpoint::TokenValidation => "validation"@,
            Endpoint::Profile(id) => "services/"@ + decimal(id as nat),
            Endpoint::Buildings => "buildings"@,
            Endpoint::Building(id) => "building/"@ + decimal(id as nat),
            Endpoint::Places => "places"@,
            Endpoint::Place(id) => "place/"@ + decimal(id as nat),
            Endpoint::Departments => "departments"@,
            Endpoint::Department(id) => "department/"@ + decimal(id as nat),
            Endpoint::Courses => "courses"@,
            Endpoint::Course(id) => "course/"@ + decimal(id as nat),
            Endpoint::Classes => "classes"@,
            Endpoint::Class(id) => "class/"@ + decimal(id as nat),
            Endpoint::ClassInstance(id) => "class/i/"@ + decimal(id as nat),
            Endpoint::Student(id) => "student/"@ + decimal(id as nat),
            Endpoint::Teacher(id) => "teacher/"@ + decimal(id as nat),
            Endpoint::Enrollment(id) => "enrollment/"@ + decimal(id as nat),
            Endpoint::Shift(id) => "shift/"@ + decimal(id as nat),
            Endpoint::Groups => "groups"@,
            Endpoint::Group(id) => "group/"@ + decimal(id as nat),
            Endpoint::EventsPage((limit, offset)) => page_path("events"@, limit, offset),
            Endpoint::NewsItemPage((limit, offset)) => page_path("news"@, limit, offset),
            Endpoint::LearningAreas => "learning/areas"@,
            Endpoint::LearningArea(id) => "learning/area/"@ + decimal(id as nat),
            Endpoint::LearningSubarea(id) => "learning/subarea/"@ + decimal(id as nat),
            Endpoint::LearningSection(id) => "learning/section/"@ + decimal(id as nat),
            Endpoint::Question(id) => "learning/question/"@ + decimal(id as nat),
            Endpoint::Transportation => "transportation/day"@,
            Endpoint::Weather => "weather"@,
            Endpoint::Services => "services"@,
            Endpoint::Service(id) => "services/"@ + decimal(id as nat),
        }
    }

    /// The address of this endpoint at the service found at `upstream`.
    pub open spec fn address(&self, upstream: Seq<char>) -> Seq<char> {
        upstream + "/api/"@ + self.path()
    }

    /// The address of this endpoint at the service found at `upstream`.
    pub fn to_string(&self, upstream: &str) -> (address: String)
        ensures
            address@ == self.address(upstream@),
    {
        let mut out = String::from_str(upstream);
        out.append("/api/");
        let ghost root = out@;
        match self {
            Endpoint::Login => {
                out.append("login");
            },
            Endpoint::Logout => {
                out.append("logout");
            },
            Endpoint::TokenValidation => {
                out.append("validation");
            },
            Endpoint::Profile(id) => {
                out.append("services/");
                append_decimal(&mut out, *id);
            },
            Endpoint::Buildings => {
                out.append("buildings");
            },
            Endpoint::Building(id) => {
                out.append("building/");
                append_decimal(&mut out, *id);
            },
            Endpoint::Places => {
                out.append("places");
            },
            Endpoint::Place(id) => {
                out.append("place/");
                append_decimal(&mut out, *id);
            },
            Endpoint::Departments => {
                out.append("departments");
            },
            Endpoint::Department(id) => {
                out.append("department/");
                append_decimal(&mut out, *id);
            },
            Endpoint::Courses => {
                out.append("courses");
            },
            Endpoint::Course(id) => {
                out.append("course/");
                append_decimal(&mut out, *id);
            },
            Endpoint::Classes => {
                out.append("classes");
            },
            Endpoint::Class(id) => {
                out.append("class/");
                append_decimal(&mut out, *id);
            },
            Endpoint::ClassInstance(id) => {
                out.append("class/i/");
                append_decimal(&mut out, *id);
            },
            Endpoint::Student(id) => {
                out.append("student/");
                append_decimal(&mut out, *id);
            },
            Endpoint::Teacher(id) => {
                out.append("teacher/");
                append_decimal(&mut out, *id);
            },
            Endpoint::Enrollment(id) => {
                out.append("enrollment/");
                append_decimal(&mut out, *id);
            },
            Endpoint::Shift(id) => {
                out.append("shift/");
                append_decimal(&mut out, *id);
            },
            Endpoint::Groups => {
                out.append("groups");
            },
            Endpoint::Group(id) => {
                out.append("group/");
                append_decimal(&mut out, *id);
            },
            Endpoint::EventsPage((limit, offset)) => {
                out.append("events");
                out.append("?limit=");
                append_decimal(&mut out, *limit as u32);
                out.append("&offset=");
                append_decimal(&mut out, *offset);
            },
            Endpoint::NewsItemPage((limit, offset)) => {
                out.append("news");
                out.append("?limit=");
                append_decimal(&mut out, *limit as u32);
                out.append("&offset=");
                append_decimal(&mut out, *offset);
            },
            Endpoint::LearningAreas => {
                out.append("learning/areas");
            },
            Endpoint::LearningArea(id) => {
                out.append("learning/area/");
                append_decimal(&mut out, *id);
            },
            Endpoint::LearningSubarea(id) => {
                out.append("learning/subarea/");
                append_decimal(&mut out, *id);
            },
            Endpoint::LearningSection(id) => {
                out.append("learning/section/");
                append_decimal(&mut out, *id);
            },
            Endpoint::Question(id) => {
                out.append("learning/question/");
                append_decimal(&mut out, *id);
            },
            Endpoint::Transportation => {
                out.append("transportation/day");
            },
            Endpoint::Weather => {
                out.append("weather");
            },
            Endpoint::Services => {
                out.append("services");
            },
            Endpoint::Service(id) => {
                out.append("services/");
                append_decimal(&mut out, *id);
            },
        }
        assert(out@ =~= root + self.path());
        out
    }
}

/// The address that `url` stands for: a path that begins with a slash is a path
/// at the service found at `upstream`, anything else is an address already.
pub open spec fn resolved(upstream: Seq<char>, url: Seq<char>) -> Seq<char> {
    if url.len() > 0 && url[0] == '/' {
        upstream + url
    } else {
        url
    }
}

/// The address that `url` stands for.
pub fn resolve(upstream: &str, url: &str) -> (address: String)
    ensures
        address@ == resolved(upstream@, url@),
{
    if url.unicode_len() > 0 && url.get_char(0) == '/' {
        join(upstream, url)
    } else {
        String::from_str(url)
    }
}

/// The part of the client that asks in nobody's name.
#[derive(Debug, Clone, Copy, PartialEq, Eq)]
pub struct BaseSupernova {
}

impl BaseSupernova {
    pub fn new() -> (base: BaseSupernova)
        ensures
            base == (BaseSupernova {  }),
    {
        BaseSupernova {  }
    }

    /// The request for what is found at `url`.
    pub fn generic_fetch(&self, url: String) -> (request: Request)
        ensures
            request@ == plain_get(url@),
    {
        Request::new(url)
    }

    /// The request for the bytes that `url` stands for.
    pub fn fetch_bytes(&self, upstream: &str, url: &str) -> (request: Request)
        ensures
            request@ == plain_get(resolved(upstream@, url@)),
    {
        Request::new(resolve(upstream, url))
    }

    /// The request that opens a session. The name and the password travel in its body.
    pub fn login(&self, upstream: &str) -> (request: Request)
        ensures
            request@ == plain_get(Endpoint::Login.address(upstream@)),
    {
        Request::new(Endpoint::Login.to_string(upstream))
    }

    /// The request that asks whether `token` stands for a session.
    pub fn verify(&self, upstream: &str, token: &str) -> (request: Request)
        ensures
            request@ == authorized_get(Endpoint::TokenValidation.address(upstream@), token@),
    {
        Request::new(Endpoint::TokenValidation.to_string(upstream)).attach_token(token)
    }

    /// What the answer to a validation means: the token stands for a session
    /// if and only if the answer is the word `Success`.
    pub fn verified(&self, response_text: &str) -> (outcome: Result<(), Error>)
        ensures
            outcome == if response_text@ == "Success"@ {
                Ok::<(), Error>(())
            } else {
                Err::<(), Error>(Error::Authentication)
            },
    {
        let answer = String::from_str(response_text);
        let success = String::from_str("Success");
        if answer.eq(&success) {
            Ok(())
        } else {
            Err(Error::Authentication)
        }
    }

    pub fn fetch_departments(&self, upstream: &str) -> (request: Request)
        ensures
            request@ == plain_get(Endpoint::Departments.address(upstream@)),
    {
        self.generic_fetch(Endpoint::Departments.to_string(upstream))
    }

    pub fn fetch_buildings(&self, upstream: &str) -> (request: Request)
        ensures
            request@ == plain_get(Endpoint::Buildings.address(upstream@)),
    {
        self.generic_fetch(Endpoint::Buildings.to_string(upstream))
    }

    pub fn fetch_classes(&self, upstream: &str) -> (request: Request)
        ensures
            request@ == plain_get(Endpoint::Classes.address(upstream@)),
    {
        self.generic_fetch(Endpoint::Classes.to_string(upstream))
    }

    pub fn fetch_courses(&self, upstream: &str) -> (request: Request)
        ensures
            request@ == plain_get(Endpoint::Courses.address(upstream@)),
    {
        self.generic_fetch(Endpoint::Courses.to_string(upstream))
    }

    pub fn fetch_places(&self, upstream: &str) -> (request: Request)
        ensures
            request@ == plain_get(Endpoint::Places.address(upstream@)),
    {
        self.generic_fetch(Endpoint::Places.to_string(upstream))
    }

    pub fn fetch_groups(&self, upstream: &str) -> (request: Request)
        ensures
            request@ == plain_get(Endpoint::Groups.address(upstream@)),
    {
        self.generic_fetch(Endpoint::Groups.to_string(upstream))
    }

    pub fn fetch_building(&self, upstream: &str, key: BuildingKey) -> (request: Request)
        ensures
            request@ == plain_get(Endpoint::Building(key).address(upstream@)),
    {
        self.generic_fetch(Endpoint::Building(key).to_string(upstream))
    }

    pub fn fetch_place(&self, upstream: &str, key: RoomKey) -> (request: Request)
        ensures
            request@ == plain_get(Endpoint::Place(key).address(upstream@)),
    {
        self.generic_fetch(Endpoint::Place(key).to_string(upstream))
    }

    pub fn fetch_department(&self, upstream: &str, key: DepartmentKey) -> (request: Request)
        ensures
            request@ == plain_get(Endpoint::Department(key).address(upstream@)),
    {
        self.generic_fetch(Endpoint::Department(key).to_string(upstream))
    }

    pub fn fetch_course(&self, upstream: &str, key: CourseKey) -> (request: Request)
        ensures
            request@ == plain_get(Endpoint::Course(key).address(upstream@)),
    {
        self.generic_fetch(Endpoint::Course(key).to_string(upstream))
    }

    pub fn fetch_class(&self, upstream: &str, key: ClassKey) -> (request: Request)
        ensures
            request@ == plain_get(Endpoint::Class(key).address(upstream@)),
    {
        self.generic_fetch(Endpoint::Class(key).to_string(upstream))
    }

    pub fn fetch_group(&self, upstream: &str, key: GroupKey) -> (request: Request)
        ensures
            request@ == plain_get(Endpoint::Group(key).address(upstream@)),
    {
        self.generic_fetch(Endpoint::Group(key).to_string(upstream))
    }

    pub fn fetch_events(&self, upstream: &str, key: EventsPageKey) -> (request: Request)
        ensures
            request@ == plain_get(Endpoint::EventsPage(key).address(upstream@)),
    {
        self.generic_fetch(Endpoint::EventsPage(key).to_string(upstream))
    }

    pub fn fetch_news(&self, upstream: &str, key: NewsPageKey) -> (request: Request)
        ensures
            request@ == plain_get(Endpoint::NewsItemPage(key).address(upstream@)),
    {
        self.generic_fetch(Endpoint::NewsItemPage(key).to_string(upstream))
    }
}

/// The part of the client that asks in the name of a session, once there is one.
#[derive(Debug, Clone, PartialEq, Eq)]
pub struct AuthenticatedSupernova {
    pub credentials: Option<AuthToken>,
}

/// The request that gets `url` in the name of the session of `credentials`,
/// or the complaint that there is no session.
pub open spec fn authorized(credentials: Option<AuthToken>, url: Seq<char>) -> Result<
    RequestView,
    Error,
> {
    match credentials {
        Some(token) => Ok(authorized_get(url, token@)),
        None => Err(Error::MissingAuthentication),
    }
}

/// `outcome` is the request `expected`, or the same error.
pub open spec fn is_request(outcome: Result<Request, Error>, expected: Result<RequestView, Error>)
    -> bool {
    match outcome {
        Ok(request) => expected == Ok::<RequestView, Error>(request@),
        Err(error) => expected == Err::<RequestView, Error>(error),
    }
}

/// What the status of the answer to a logout means.
pub open spec fn logout_outcome(status: u16) -> Result<(), Error> {
    if 200 <= status < 300 {
        Ok(())
    } else if 500 <= status < 600 {
        Err(Error::Server)
    } else if 400 <= status < 500 {
        Err(Error::Client)
    } else {
        Err(Error::Generic)
    }
}

impl AuthenticatedSupernova {
    /// No session yet.
    pub fn new() -> (authenticated: AuthenticatedSupernova)
        ensures
            authenticated.credentials is None,
    {
        AuthenticatedSupernova { credentials: None }
    }

    /// From now on requests are made in the name of the session that `token` stands for.
    pub fn set_token(&mut self, token: AuthToken)
        ensures
            final(self).credentials == Some(token),
    {
        self.credentials = Some(token);
    }

    /// From now on there is no session.
    pub fn clear_token(&mut self)
        ensures
            final(self).credentials is None,
    {
        self.credentials = None;
    }

    /// The request for what is found at `url`, in the session's name.
    pub fn generic_fetch(&self, url: String) -> (outcome: Result<Request, Error>)
        ensures
            is_request(outcome, authorized(self.credentials, url@)),
    {
        match &self.credentials {
            Some(token) => Ok(Request::new(url).attach_token(token.as_str())),
            None => Err(Error::MissingAuthentication),
        }
    }

    /// The request for the bytes that `url` stands for, in the session's name.
    pub fn fetch_bytes(&self, upstream: &str, url: &str) -> (outcome: Result<Request, Error>)
        ensures
            is_request(outcome, authorized(self.credentials, resolved(upstream@, url@))),
    {
        match &self.credentials {
            Some(token) => Ok(Request::new(resolve(upstream, url)).attach_token(token.as_str())),
            None => Err(Error::MissingAuthentication),
        }
    }

    /// The request that closes the session.
    pub fn logout(&self, upstream: &str) -> (outcome: Result<Request, Error>)
        ensures
            is_request(
                outcome,
                match authorized(self.credentials, Endpoint::Logout.address(upstream@)) {
                    Ok(request) => Ok(RequestView { method: Method::Delete, ..request }),
                    Err(error) => Err(error),
                },
            ),
    {
        match &self.credentials {
            Some(token) => Ok(
                Request::new(Endpoint::Logout.to_string(upstream)).attach_token(
                    token.as_str(),
                ).method(Method::Delete),
            ),
            None => Err(Error::MissingAuthentication),
        }
    }

    /// What the status of the answer to a logout means.
    pub fn logged_out(&self, status: StatusCode) -> (outcome: Result<(), Error>)
        ensures
            outcome == logout_outcome(status.value()),
    {
        if status.is_success() {
            Ok(())
        } else if status.is_server_error() {
            Err(Error::Server)
        } else if status.is_client_error() {
            Err(Error::Client)
        } else {
            Err(Error::Generic)
        }
    }

    pub fn fetch_class_instance(&self, upstream: &str, key: ClassInstanceKey) -> (outcome: Result<Request, Error>)
        ensures
            is_request(outcome, authorized(self.credentials, Endpoint::ClassInstance(key).address(upstream@))),
    {
        self.generic_fetch(Endpoint::ClassInstance(key).to_string(upstream))
    }

    pub fn fetch_student(&self, upstream: &str, key: StudentKey) -> (outcome: Result<Request, Error>)
        ensures
            is_request(outcome, authorized(self.credentials, Endpoint::Student(key).address(upstream@))),
    {
        self.generic_fetch(Endpoint::Student(key).to_string(upstream))
    }

    pub fn fetch_teacher(&self, upstream: &str, key: TeacherKey) -> (outcome: Result<Request, Error>)
        ensures
            is_request(outcome, authorized(self.credentials, Endpoint::Teacher(key).address(upstream@))),
    {
        self.generic_fetch(Endpoint::Teacher(key).to_string(upstream))
    }

    pub fn fetch_enrollment(&self, upstream: &str, key: EnrollmentKey) -> (outcome: Result<Request, Error>)
        ensures
            is_request(outcome, authorized(self.credentials, Endpoint::Enrollment(key).address(upstream@))),
    {
        self.generic_fetch(Endpoint::Enrollment(key).to_string(upstream))
    }

    pub fn fetch_shift(&self, upstream: &str, key: ShiftKey) -> (outcome: Result<Request, Error>)
        ensures
            is_request(outcome, authorized(self.credentials, Endpoint::Shift(key).address(upstream@))),
    {
        self.generic_fetch(Endpoint::Shift(key).to_string(upstream))
    }
}

} // verus!
