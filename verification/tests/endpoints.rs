use iron_planet::errors::Error;
use iron_planet::network::endpoints::{
    resolve, AuthenticatedSupernova, BaseSupernova, Endpoint, UPSTREAM,
};
use iron_planet::network::http::{check_error, Method, Request, StatusCode};
use iron_planet::network::models::{BasicAuthCredentials, ClientMeta, TokenCredentials};

const UP: &str = "https://supernova.nunl.pt";

fn status(code: u16) -> StatusCode {
    StatusCode::from_u16(code).unwrap()
}

#[test]
fn upstream_is_the_usual_place() {
    assert_eq!(UPSTREAM, "https://supernova.nunl.pt");
}

#[test]
fn endpoints_without_keys() {
    assert_eq!(Endpoint::Login.to_string(UP), "https://supernova.nunl.pt/api/login");
    assert_eq!(Endpoint::Logout.to_string(UP), "https://supernova.nunl.pt/api/logout");
    assert_eq!(Endpoint::TokenValidation.to_string(UP), "https://supernova.nunl.pt/api/validation");
    assert_eq!(Endpoint::Buildings.to_string(UP), "https://supernova.nunl.pt/api/buildings");
    assert_eq!(Endpoint::Places.to_string(UP), "https://supernova.nunl.pt/api/places");
    assert_eq!(Endpoint::Departments.to_string(UP), "https://supernova.nunl.pt/api/departments");
    assert_eq!(Endpoint::Courses.to_string(UP), "https://supernova.nunl.pt/api/courses");
    assert_eq!(Endpoint::Classes.to_string(UP), "https://supernova.nunl.pt/api/classes");
    assert_eq!(Endpoint::Groups.to_string(UP), "https://supernova.nunl.pt/api/groups");
    assert_eq!(Endpoint::LearningAreas.to_string(UP), "https://supernova.nunl.pt/api/learning/areas");
    assert_eq!(Endpoint::Transportation.to_string(UP), "https://supernova.nunl.pt/api/transportation/day");
    assert_eq!(Endpoint::Weather.to_string(UP), "https://supernova.nunl.pt/api/weather");
    assert_eq!(Endpoint::Services.to_string(UP), "https://supernova.nunl.pt/api/services");
}

#[test]
fn endpoints_with_keys() {
    assert_eq!(Endpoint::Profile(3).to_string(UP), "https://supernova.nunl.pt/api/services/3");
    assert_eq!(Endpoint::Building(2).to_string(UP), "https://supernova.nunl.pt/api/building/2");
    assert_eq!(Endpoint::Place(120).to_string(UP), "https://supernova.nunl.pt/api/place/120");
    assert_eq!(Endpoint::Department(12).to_string(UP), "https://supernova.nunl.pt/api/department/12");
    assert_eq!(Endpoint::Course(123).to_string(UP), "https://supernova.nunl.pt/api/course/123");
    assert_eq!(Endpoint::Class(449).to_string(UP), "https://supernova.nunl.pt/api/class/449");
    assert_eq!(Endpoint::ClassInstance(24772).to_string(UP), "https://supernova.nunl.pt/api/class/i/24772");
    assert_eq!(Endpoint::Student(1).to_string(UP), "https://supernova.nunl.pt/api/student/1");
    assert_eq!(Endpoint::Teacher(879).to_string(UP), "https://supernova.nunl.pt/api/teacher/879");
    assert_eq!(Endpoint::Enrollment(0).to_string(UP), "https://supernova.nunl.pt/api/enrollment/0");
    assert_eq!(Endpoint::Shift(42211).to_string(UP), "https://supernova.nunl.pt/api/shift/42211");
    assert_eq!(Endpoint::Group(5).to_string(UP), "https://supernova.nunl.pt/api/group/5");
    assert_eq!(Endpoint::LearningArea(1).to_string(UP), "https://supernova.nunl.pt/api/learning/area/1");
    assert_eq!(Endpoint::LearningSubarea(2).to_string(UP), "https://supernova.nunl.pt/api/learning/subarea/2");
    assert_eq!(Endpoint::LearningSection(3).to_string(UP), "https://supernova.nunl.pt/api/learning/section/3");
    assert_eq!(Endpoint::Question(4).to_string(UP), "https://supernova.nunl.pt/api/learning/question/4");
    assert_eq!(Endpoint::Service(u32::MAX).to_string(UP), "https://supernova.nunl.pt/api/services/4294967295");
}

#[test]
fn endpoints_of_pages() {
    assert_eq!(
        Endpoint::EventsPage((100, 0)).to_string(UP),
        "https://supernova.nunl.pt/api/events?limit=100&offset=0"
    );
    assert_eq!(
        Endpoint::NewsItemPage((25, 300)).to_string(UP),
        "https://supernova.nunl.pt/api/news?limit=25&offset=300"
    );
    assert_eq!(
        Endpoint::EventsPage((u16::MAX, u32::MAX)).to_string("x"),
        "x/api/events?limit=65535&offset=4294967295"
    );
}

#[test]
fn endpoint_at_another_upstream() {
    assert_eq!(Endpoint::Course(7).to_string("http://localhost:8000"), "http://localhost:8000/api/course/7");
    assert_eq!(Endpoint::Login.to_string(""), "/api/login");
}

#[test]
fn resolve_prefixes_paths_only() {
    assert_eq!(resolve(UP, "/media/thumb.png"), "https://supernova.nunl.pt/media/thumb.png");
    assert_eq!(resolve(UP, "https://elsewhere.example/x.png"), "https://elsewhere.example/x.png");
    assert_eq!(resolve(UP, ""), "");
    assert_eq!(resolve(UP, "/"), "https://supernova.nunl.pt/");
    assert_eq!(resolve(UP, "media/x"), "media/x");
}

#[test]
fn request_new_is_a_plain_get() {
    let request = Request::new("https://a/b".to_string());
    assert_eq!(request.method, Method::Get);
    assert_eq!(request.url, "https://a/b");
    assert_eq!(request.token, None);
    assert_eq!(request.authorization(), None);
}

#[test]
fn request_attach_token_and_method() {
    let request = Request::new("u".to_string()).attach_token("abc").method(Method::Delete);
    assert_eq!(request.method, Method::Delete);
    assert_eq!(request.url, "u");
    assert_eq!(request.token, Some("abc".to_string()));
    assert_eq!(request.authorization(), Some("Token abc".to_string()));
}

#[test]
fn status_code_has_three_digits() {
    assert!(StatusCode::from_u16(99).is_none());
    assert!(StatusCode::from_u16(0).is_none());
    assert!(StatusCode::from_u16(1000).is_none());
    assert!(StatusCode::from_u16(u16::MAX).is_none());
    assert_eq!(StatusCode::from_u16(100).unwrap().as_u16(), 100);
    assert_eq!(StatusCode::from_u16(999).unwrap().as_u16(), 999);
    assert_eq!(StatusCode::from_u16(404).unwrap().as_u16(), 404);
}

#[test]
fn status_code_classes() {
    assert!(status(200).is_success() && status(299).is_success());
    assert!(!status(199).is_success() && !status(300).is_success());
    assert!(status(300).is_redirection() && status(399).is_redirection());
    assert!(!status(400).is_redirection());
    assert!(status(400).is_client_error() && status(499).is_client_error());
    assert!(!status(500).is_client_error());
    assert!(status(500).is_server_error() && status(599).is_server_error());
    assert!(!status(600).is_server_error() && !status(499).is_server_error());
}

#[test]
fn check_error_accepts_success_and_information() {
    assert!(matches!(check_error(status(200)), Ok(())));
    assert!(matches!(check_error(status(204)), Ok(())));
    assert!(matches!(check_error(status(100)), Ok(())));
    assert!(matches!(check_error(status(600)), Ok(())));
    assert!(matches!(check_error(status(999)), Ok(())));
}

#[test]
fn check_error_server() {
    assert!(matches!(check_error(status(500)), Err(Error::Server)));
    assert!(matches!(check_error(status(503)), Err(Error::Server)));
    assert!(matches!(check_error(status(599)), Err(Error::Server)));
}

#[test]
fn check_error_missing_resource() {
    assert!(matches!(check_error(status(404)), Err(Error::ResourceMissing)));
    assert!(matches!(check_error(status(301)), Err(Error::ResourceMissing)));
    assert!(matches!(check_error(status(300)), Err(Error::ResourceMissing)));
    assert!(matches!(check_error(status(399)), Err(Error::ResourceMissing)));
}

#[test]
fn check_error_client() {
    assert!(matches!(check_error(status(400)), Err(Error::Client)));
    assert!(matches!(check_error(status(403)), Err(Error::Client)));
    assert!(matches!(check_error(status(405)), Err(Error::Client)));
    assert!(matches!(check_error(status(499)), Err(Error::Client)));
}

#[test]
fn base_requests_are_plain() {
    let base = BaseSupernova::new();
    let request = base.fetch_departments(UP);
    assert_eq!(request, Request::new("https://supernova.nunl.pt/api/departments".to_string()));
    assert_eq!(base.fetch_buildings(UP).url, "https://supernova.nunl.pt/api/buildings");
    assert_eq!(base.fetch_classes(UP).url, "https://supernova.nunl.pt/api/classes");
    assert_eq!(base.fetch_courses(UP).url, "https://supernova.nunl.pt/api/courses");
    assert_eq!(base.fetch_places(UP).url, "https://supernova.nunl.pt/api/places");
    assert_eq!(base.fetch_groups(UP).url, "https://supernova.nunl.pt/api/groups");
    assert_eq!(base.fetch_building(UP, 2).url, "https://supernova.nunl.pt/api/building/2");
    assert_eq!(base.fetch_place(UP, 3).url, "https://supernova.nunl.pt/api/place/3");
    assert_eq!(base.fetch_department(UP, 12).url, "https://supernova.nunl.pt/api/department/12");
    assert_eq!(base.fetch_course(UP, 4).url, "https://supernova.nunl.pt/api/course/4");
    assert_eq!(base.fetch_class(UP, 449).url, "https://supernova.nunl.pt/api/class/449");
    assert_eq!(base.fetch_group(UP, 9).url, "https://supernova.nunl.pt/api/group/9");
    assert_eq!(base.fetch_events(UP, (100, 200)).url, "https://supernova.nunl.pt/api/events?limit=100&offset=200");
    assert_eq!(base.fetch_news(UP, (10, 0)).url, "https://supernova.nunl.pt/api/news?limit=10&offset=0");
    assert_eq!(base.generic_fetch("anything".to_string()), Request::new("anything".to_string()));
}

#[test]
fn base_fetch_bytes_resolves_the_address() {
    let base = BaseSupernova::new();
    assert_eq!(base.fetch_bytes(UP, "/t.png"), Request::new("https://supernova.nunl.pt/t.png".to_string()));
    assert_eq!(base.fetch_bytes(UP, "http://x/t.png"), Request::new("http://x/t.png".to_string()));
}

#[test]
fn base_login_and_verify_requests() {
    let base = BaseSupernova::new();
    assert_eq!(base.login(UP), Request::new("https://supernova.nunl.pt/api/login".to_string()));
    let verify = base.verify(UP, "tok");
    assert_eq!(verify.url, "https://supernova.nunl.pt/api/validation");
    assert_eq!(verify.token, Some("tok".to_string()));
    assert_eq!(verify.method, Method::Get);
}

#[test]
fn verified_accepts_only_the_word_success() {
    let base = BaseSupernova::new();
    assert!(matches!(base.verified("Success"), Ok(())));
    assert!(matches!(base.verified("success"), Err(Error::Authentication)));
    assert!(matches!(base.verified(""), Err(Error::Authentication)));
    assert!(matches!(base.verified("Success "), Err(Error::Authentication)));
}

#[test]
fn authenticated_without_session_complains() {
    let authenticated = AuthenticatedSupernova::new();
    assert!(authenticated.credentials.is_none());
    assert!(matches!(authenticated.fetch_student(UP, 1), Err(Error::MissingAuthentication)));
    assert!(matches!(authenticated.fetch_teacher(UP, 1), Err(Error::MissingAuthentication)));
    assert!(matches!(authenticated.fetch_enrollment(UP, 1), Err(Error::MissingAuthentication)));
    assert!(matches!(authenticated.fetch_shift(UP, 1), Err(Error::MissingAuthentication)));
    assert!(matches!(authenticated.fetch_class_instance(UP, 1), Err(Error::MissingAuthentication)));
    assert!(matches!(authenticated.fetch_bytes(UP, "/x"), Err(Error::MissingAuthentication)));
    assert!(matches!(authenticated.logout(UP), Err(Error::MissingAuthentication)));
    assert!(matches!(authenticated.generic_fetch("u".to_string()), Err(Error::MissingAuthentication)));
}

#[test]
fn authenticated_with_session_attaches_the_token() {
    let mut authenticated = AuthenticatedSupernova::new();
    authenticated.set_token("secret".to_string());
    assert_eq!(authenticated.credentials, Some("secret".to_string()));
    let request = authenticated.fetch_student(UP, 77).unwrap();
    assert_eq!(request.url, "https://supernova.nunl.pt/api/student/77");
    assert_eq!(request.token, Some("secret".to_string()));
    assert_eq!(request.method, Method::Get);
    assert_eq!(authenticated.fetch_teacher(UP, 879).unwrap().url, "https://supernova.nunl.pt/api/teacher/879");
    assert_eq!(authenticated.fetch_enrollment(UP, 5).unwrap().url, "https://supernova.nunl.pt/api/enrollment/5");
    assert_eq!(authenticated.fetch_shift(UP, 6).unwrap().url, "https://supernova.nunl.pt/api/shift/6");
    assert_eq!(authenticated.fetch_class_instance(UP, 8).unwrap().url, "https://supernova.nunl.pt/api/class/i/8");
    let bytes = authenticated.fetch_bytes(UP, "/pic").unwrap();
    assert_eq!(bytes.url, "https://supernova.nunl.pt/pic");
    assert_eq!(bytes.token, Some("secret".to_string()));
    let logout = authenticated.logout(UP).unwrap();
    assert_eq!(logout.method, Method::Delete);
    assert_eq!(logout.url, "https://supernova.nunl.pt/api/logout");
    assert_eq!(logout.authorization(), Some("Token secret".to_string()));
    authenticated.clear_token();
    assert!(authenticated.credentials.is_none());
}

#[test]
fn logged_out_reads_the_status() {
    let authenticated = AuthenticatedSupernova::new();
    assert!(matches!(authenticated.logged_out(status(200)), Ok(())));
    assert!(matches!(authenticated.logged_out(status(204)), Ok(())));
    assert!(matches!(authenticated.logged_out(status(500)), Err(Error::Server)));
    assert!(matches!(authenticated.logged_out(status(404)), Err(Error::Client)));
    assert!(matches!(authenticated.logged_out(status(302)), Err(Error::Generic)));
    assert!(matches!(authenticated.logged_out(status(100)), Err(Error::Generic)));
}

#[test]
fn credentials_hold_what_they_are_made_of() {
    let meta = ClientMeta {
        system: Some("Linux".to_string()),
        hostname: None,
        release: None,
        version: None,
        client: Some("iron_planet 0.1.0".to_string()),
    };
    let credentials = BasicAuthCredentials::new("ana", "pw", Some(meta));
    assert_eq!(credentials.username, "ana");
    assert_eq!(credentials.password, "pw");
    assert_eq!(credentials.client_meta.unwrap().system, Some("Linux".to_string()));
    let none = BasicAuthCredentials::new("", "", None);
    assert!(none.client_meta.is_none());
    assert_eq!(TokenCredentials::new("t".to_string()).token, "t");
}
