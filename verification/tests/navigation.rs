use iron_planet::coersion::{
    follow, follow_all, reference, references, CoersibleEntity, ObjRef, Step, Steps,
};
use iron_planet::errors::Error;
use iron_planet::models;
use iron_planet::network::http::Request;
use iron_planet::network::models::{
    Building, ClassShift, Course, Degree, Department, Event, Group, GroupEventType, GroupType,
    GroupVisibility, NewsItem, Place, ShiftType, Teacher, TokenResult, WeakGroup,
};
use iron_planet::time::{Date, Instant, TimeOfDay};
use iron_planet::{RequestConfig, Supernova};
use std::sync::Arc;

fn asked<T>(outcome: Result<Step<T>, Error>) -> Request {
    match outcome {
        Ok(Step::Fetch(request)) => request,
        Ok(Step::Ready(_)) => panic!("answered from the cache"),
        Err(error) => panic!("failed: {:?}", error),
    }
}

fn known<T>(outcome: Result<Step<T>, Error>) -> T {
    match outcome {
        Ok(Step::Ready(entity)) => entity,
        Ok(Step::Fetch(request)) => panic!("asked for {:?}", request),
        Err(error) => panic!("failed: {:?}", error),
    }
}

fn first_unknown<T>(outcome: Result<Steps<T>, Error>) -> (usize, Request) {
    match outcome {
        Ok(Steps::Fetch(at, request)) => (at, request),
        Ok(Steps::Ready(_)) => panic!("answered from the cache"),
        Err(error) => panic!("failed: {:?}", error),
    }
}

fn all_known<T>(outcome: Result<Steps<T>, Error>) -> Vec<T> {
    match outcome {
        Ok(Steps::Ready(all)) => all,
        Ok(Steps::Fetch(at, request)) => panic!("asked for {:?} at {}", request, at),
        Err(error) => panic!("failed: {:?}", error),
    }
}

fn net_department(id: u32, courses: Vec<u32>, building: Option<u32>) -> Department {
    Department { id, name: "Informática".to_string(), description: None, courses, building }
}

fn net_course(id: u32) -> Course {
    Course { id, abbreviation: "C".to_string(), name: "Course".to_string(), degree: Degree::BSc, department: Some(12) }
}

fn net_building(id: u32, places: Vec<u32>) -> Building {
    Building { id, name: "Edifício II".to_string(), abbreviation: "II".to_string(), places }
}

fn net_teacher(id: u32, thumb: Option<&str>) -> Teacher {
    Teacher {
        id,
        name: "Rui".to_string(),
        short_name: "R".to_string(),
        abbreviation: None,
        first_year: None,
        last_year: None,
        phone: None,
        email: None,
        thumb: thumb.map(|t| t.to_string()),
        rank: None,
        departments: vec![12, 13],
        shifts: vec![],
        url: "/p/".to_string(),
    }
}

fn net_group(id: u32) -> Group {
    Group {
        id,
        name: "Núcleo".to_string(),
        abbreviation: "NI".to_string(),
        group_type: GroupType::Nuclei,
        url: "/g/".to_string(),
        thumb: None,
        outsiders_openness: GroupVisibility::Request,
        official: false,
        activities: vec![],
        schedule_entries: vec![],
        events: vec![Event {
            id: 3,
            title: "t".to_string(),
            description: "d".to_string(),
            start_date: Date { day: 1 },
            duration: None,
            place: None,
            capacity: None,
            cost: None,
            event_type: GroupEventType::Party,
        }],
    }
}

#[test]
fn a_reference_is_its_key() {
    let r: ObjRef<models::Department, u32> = ObjRef::new(12);
    assert_eq!(r.identifier, 12);
    assert_eq!(r.clone().identifier, 12);
    let page: ObjRef<Option<Arc<models::EventsPage>>, (u16, u32)> = ObjRef::new((100, 200));
    assert_eq!(page.identifier, (100, 200));
}

#[test]
fn references_keep_the_order_of_the_keys() {
    let refs: Vec<ObjRef<models::Course, u32>> = references(&vec![3, 1, 2, 1]);
    assert_eq!(refs.iter().map(|r| r.identifier).collect::<Vec<u32>>(), vec![3, 1, 2, 1]);
    let none: Vec<ObjRef<models::Course, u32>> = references(&vec![]);
    assert!(none.is_empty());
    let one: Option<ObjRef<models::Building, u32>> = reference(&Some(9));
    assert_eq!(one.unwrap().identifier, 9);
    let absent: Option<ObjRef<models::Building, u32>> = reference(&None);
    assert!(absent.is_none());
}

#[test]
fn coerce_asks_when_nothing_is_cached() {
    let client = Supernova::new();
    let r: ObjRef<models::Department, u32> = ObjRef::new(12);
    assert_eq!(asked(r.coerce(&client)).url, "https://supernova.nunl.pt/api/department/12");
    assert_eq!(
        asked(<models::Building as CoersibleEntity<u32>>::coerce(&2, &client)).url,
        "https://supernova.nunl.pt/api/building/2"
    );
    let r: ObjRef<models::Place, u32> = ObjRef::new(3);
    assert_eq!(asked(r.coerce(&client)).url, "https://supernova.nunl.pt/api/place/3");
    let r: ObjRef<models::Course, u32> = ObjRef::new(4);
    assert_eq!(asked(r.coerce(&client)).url, "https://supernova.nunl.pt/api/course/4");
    let r: ObjRef<models::Class, u32> = ObjRef::new(5);
    assert_eq!(asked(r.coerce(&client)).url, "https://supernova.nunl.pt/api/class/5");
}

#[test]
fn coerce_of_protected_entities_needs_a_session() {
    let mut client = Supernova::new();
    let student: ObjRef<models::Student, u32> = ObjRef::new(1);
    let teacher: ObjRef<models::Teacher, u32> = ObjRef::new(2);
    let enrollment: ObjRef<models::Enrollment, u32> = ObjRef::new(3);
    let shift: ObjRef<models::ClassShift, u32> = ObjRef::new(4);
    let instance: ObjRef<models::ClassInstance, u32> = ObjRef::new(5);
    assert!(matches!(student.coerce(&client), Err(Error::MissingAuthentication)));
    assert!(matches!(teacher.coerce(&client), Err(Error::MissingAuthentication)));
    assert!(matches!(enrollment.coerce(&client), Err(Error::MissingAuthentication)));
    assert!(matches!(shift.coerce(&client), Err(Error::MissingAuthentication)));
    assert!(matches!(instance.coerce(&client), Err(Error::MissingAuthentication)));
    client.put_login(Ok(TokenResult { token: "k".to_string() })).unwrap();
    assert_eq!(asked(student.coerce(&client)).url, "https://supernova.nunl.pt/api/student/1");
    assert_eq!(asked(teacher.coerce(&client)).url, "https://supernova.nunl.pt/api/teacher/2");
    assert_eq!(asked(enrollment.coerce(&client)).url, "https://supernova.nunl.pt/api/enrollment/3");
    assert_eq!(asked(shift.coerce(&client)).url, "https://supernova.nunl.pt/api/shift/4");
    let request = asked(instance.coerce(&client));
    assert_eq!(request.url, "https://supernova.nunl.pt/api/class/i/5");
    assert_eq!(request.token, Some("k".to_string()));
}

#[test]
fn coerce_answers_from_the_cache() {
    let mut client = Supernova::new();
    client.put_department(12, Ok(net_department(12, vec![], None))).unwrap();
    let r: ObjRef<models::Department, u32> = ObjRef::new(12);
    assert_eq!(known(r.coerce(&client)).name, "Informática");
}

#[test]
fn follow_of_no_reference_is_nothing() {
    let client = Supernova::new();
    let department = net_department(12, vec![], None).link();
    assert!(matches!(department.get_building(&client), Ok(None)));
    let none: Option<ObjRef<models::Place, u32>> = None;
    assert!(matches!(follow(&none, &client), Ok(None)));
}

#[test]
fn follow_asks_or_answers() {
    let mut client = Supernova::new();
    let department = net_department(12, vec![], Some(2)).link();
    match department.get_building(&client) {
        Ok(Some(Step::Fetch(request))) => assert_eq!(request.url, "https://supernova.nunl.pt/api/building/2"),
        _ => panic!("should have asked"),
    }
    client.put_building(2, Ok(net_building(2, vec![]))).unwrap();
    match department.get_building(&client) {
        Ok(Some(Step::Ready(building))) => assert_eq!(building.name, "Edifício II"),
        _ => panic!("should have answered"),
    }
}

#[test]
fn follow_all_of_no_references_is_ready() {
    let client = Supernova::new();
    let department = net_department(12, vec![], None).link();
    assert!(all_known(department.get_courses(&client)).is_empty());
}

#[test]
fn follow_all_stops_at_the_first_unknown() {
    let mut client = Supernova::new();
    let department = net_department(12, vec![5, 6, 7], None).link();
    let (at, request) = first_unknown(department.get_courses(&client));
    assert_eq!(at, 0);
    assert_eq!(request.url, "https://supernova.nunl.pt/api/course/5");
    client.put_course(5, Ok(net_course(5))).unwrap();
    let (at, request) = first_unknown(department.get_courses(&client));
    assert_eq!(at, 1);
    assert_eq!(request.url, "https://supernova.nunl.pt/api/course/6");
    client.put_course(7, Ok(net_course(7))).unwrap();
    let (at, request) = first_unknown(department.get_courses(&client));
    assert_eq!(at, 1);
    assert_eq!(department.courses[at].identifier, 6);
    assert_eq!(request.url, "https://supernova.nunl.pt/api/course/6");
    client.put_course(6, Ok(net_course(6))).unwrap();
    let courses = all_known(department.get_courses(&client));
    assert_eq!(courses.iter().map(|c| c.id).collect::<Vec<u32>>(), vec![5, 6, 7]);
    let refs: Vec<ObjRef<models::Course, u32>> = references(&vec![7, 5]);
    assert_eq!(all_known(follow_all(&refs, &client)).iter().map(|c| c.id).collect::<Vec<u32>>(), vec![7, 5]);
    let refs: Vec<ObjRef<models::Course, u32>> = references(&vec![7, 5, 9, 8]);
    let (at, request) = first_unknown(follow_all(&refs, &client));
    assert_eq!(at, 2);
    assert_eq!(request.url, "https://supernova.nunl.pt/api/course/9");
}

#[test]
fn follow_all_fails_where_the_first_unknown_fails() {
    let mut client = Supernova::new();
    let shift = ClassShift { id: 1, number: 1, shift_type: ShiftType::Practical, teachers: vec![879, 880], instances: vec![] }.link();
    assert!(matches!(shift.get_teachers(&client), Err(Error::MissingAuthentication)));
    client.put_teacher(879, Ok(net_teacher(879, None))).unwrap();
    assert!(matches!(shift.get_teachers(&client), Err(Error::MissingAuthentication)));
    client.put_teacher(880, Ok(net_teacher(880, None))).unwrap();
    assert_eq!(all_known(shift.get_teachers(&client)).len(), 2);
}

#[test]
fn navigation_of_every_kind() {
    let mut client = Supernova::new();
    client.put_login(Ok(TokenResult { token: "k".to_string() })).unwrap();
    let building = net_building(2, vec![7]).link();
    assert_eq!(first_unknown(building.get_rooms(&client)).1.url, "https://supernova.nunl.pt/api/place/7");
    let place = Place {
        id: 7,
        name: "Sala".to_string(),
        floor: 1,
        building: Some(2),
        picture: None,
        picture_cover: None,
        features: vec![],
        room_meta: None,
    };
    client.put_place(7, Ok(place)).unwrap();
    let rooms = all_known(building.get_rooms(&client));
    assert_eq!(rooms.len(), 1);
    match rooms[0].get_building(&client) {
        Ok(Some(Step::Fetch(request))) => assert_eq!(request.url, "https://supernova.nunl.pt/api/building/2"),
        _ => panic!("should have asked"),
    }
    let course = net_course(4).link();
    match course.get_department(&client) {
        Ok(Some(Step::Fetch(request))) => assert_eq!(request.url, "https://supernova.nunl.pt/api/department/12"),
        _ => panic!("should have asked"),
    }
    let teacher = net_teacher(879, None).link("u");
    assert_eq!(first_unknown(teacher.get_departments(&client)).1.url, "https://supernova.nunl.pt/api/department/12");
    assert!(all_known(teacher.get_shifts(&client)).is_empty());
}

#[test]
fn thumb_bytes_without_a_thumbnail() {
    let client = Supernova::new();
    let mut teacher = net_teacher(1, None).link("https://supernova.nunl.pt");
    assert!(teacher.thumb_bytes(&client).is_none());
    assert_eq!(teacher.put_thumb_bytes(Ok(vec![1, 2])).unwrap(), vec![1, 2]);
    assert!(teacher.thumb_bytes(&client).is_none());
}

#[test]
fn thumb_bytes_are_fetched_once_and_kept() {
    let client = Supernova::new();
    let mut teacher = net_teacher(1, Some("/media/rui.png")).link("https://supernova.nunl.pt");
    match teacher.thumb_bytes(&client) {
        Some(Step::Fetch(request)) => {
            assert_eq!(request.url, "https://supernova.nunl.pt/media/rui.png");
            assert_eq!(request.token, None);
        }
        _ => panic!("should have asked"),
    }
    assert!(matches!(teacher.put_thumb_bytes(Err(Error::Network)), Err(Error::Network)));
    assert!(matches!(teacher.thumb_bytes(&client), Some(Step::Fetch(_))));
    assert_eq!(teacher.put_thumb_bytes(Ok(vec![1, 2, 3])).unwrap(), vec![1, 2, 3]);
    match teacher.thumb_bytes(&client) {
        Some(Step::Ready(bytes)) => assert_eq!(bytes, vec![1, 2, 3]),
        _ => panic!("should have been kept"),
    }
    assert_eq!(teacher.put_thumb_bytes(Ok(vec![9])).unwrap(), vec![9]);
    match teacher.thumb_bytes(&client) {
        Some(Step::Ready(bytes)) => assert_eq!(bytes, vec![1, 2, 3]),
        _ => panic!("should have been kept"),
    }
    assert_eq!(teacher.name, "Rui");
    assert_eq!(teacher.id, 1);
}

#[test]
fn thumb_bytes_of_news_and_groups() {
    let client = Supernova::new();
    let mut item = NewsItem {
        id: 1,
        title: "t".to_string(),
        summary: "s".to_string(),
        datetime: Instant { date: Date { day: 1 }, time: TimeOfDay { second: 0, nanosecond: 0 } },
        thumb: Some("https://cdn.example/n.png".to_string()),
        url: "/n/".to_string(),
    }
    .link("https://supernova.nunl.pt");
    match item.thumb_bytes(&client) {
        Some(Step::Fetch(request)) => assert_eq!(request.url, "https://supernova.nunl.pthttps://cdn.example/n.png"),
        _ => panic!("should have asked"),
    }
    item.put_thumb_bytes(Ok(vec![])).unwrap();
    assert!(matches!(item.thumb_bytes(&client), Some(Step::Ready(bytes)) if bytes.is_empty()));
    let mut group = WeakGroup {
        id: 5,
        name: "n".to_string(),
        abbreviation: "a".to_string(),
        group_type: GroupType::Praxis,
        official: false,
        url: "/g/".to_string(),
        thumb: Some("/g.png".to_string()),
    }
    .link("https://supernova.nunl.pt");
    match group.thumb_bytes(&client) {
        Some(Step::Fetch(request)) => assert_eq!(request.url, "https://supernova.nunl.pt/g.png"),
        _ => panic!("should have asked"),
    }
    group.put_thumb_bytes(Ok(vec![7])).unwrap();
    assert!(matches!(group.thumb_bytes(&client), Some(Step::Ready(bytes)) if bytes == vec![7]));
}

#[test]
fn a_listed_group_is_upgraded_on_demand() {
    let client = Supernova::new();
    let mut group = WeakGroup {
        id: 5,
        name: "n".to_string(),
        abbreviation: "a".to_string(),
        group_type: GroupType::Community,
        official: true,
        url: "/g/".to_string(),
        thumb: None,
    }
    .link("https://supernova.nunl.pt");
    assert!(group.details.is_none());
    match group.upgrade(&client) {
        Step::Fetch(request) => assert_eq!(request.url, "https://supernova.nunl.pt/api/group/5"),
        Step::Ready(()) => panic!("should have asked"),
    }
    assert!(matches!(group.outsider_openness(&client), Step::Fetch(_)));
    assert!(matches!(group.activities(&client), Step::Fetch(_)));
    assert!(matches!(group.schedulings(&client), Step::Fetch(_)));
    match group.events(&client) {
        Step::Fetch(request) => assert_eq!(request.url, "https://supernova.nunl.pt/api/group/5"),
        Step::Ready(_) => panic!("should have asked"),
    }
    assert!(matches!(group.put_upgrade(Err(Error::Server)), Err(Error::Server)));
    assert!(group.details.is_none());
    assert!(matches!(group.put_upgrade(Ok(net_group(5))), Ok(())));
    assert!(matches!(group.upgrade(&client), Step::Ready(())));
    assert!(matches!(group.outsider_openness(&client), Step::Ready(models::GroupVisibility::Request)));
    assert!(matches!(group.activities(&client), Step::Ready(activities) if activities.is_empty()));
    assert!(matches!(group.schedulings(&client), Step::Ready(schedulings) if schedulings.is_empty()));
    assert!(matches!(group.events(&client), Step::Ready(events) if events.len() == 1 && events[0].id == 3));
    assert_eq!(group.name, "n");
    let mut other = net_group(5);
    other.outsiders_openness = GroupVisibility::Secret;
    assert!(matches!(group.put_upgrade(Ok(other)), Ok(())));
    assert!(matches!(group.outsider_openness(&client), Step::Ready(models::GroupVisibility::Request)));
}

#[test]
fn a_group_from_its_own_page_needs_no_upgrade() {
    let client = Supernova::new();
    let group = net_group(5).link("https://supernova.nunl.pt");
    assert!(matches!(group.upgrade(&client), Step::Ready(())));
    assert!(matches!(group.outsider_openness(&client), Step::Ready(models::GroupVisibility::Request)));
}

#[test]
fn predecessor_is_the_page_that_is_held() {
    let first = Arc::new(models::EventsPage { previous_page: None, next_page: ObjRef::new((10, 10)), items: vec![] });
    let second = models::EventsPage { previous_page: Some(first.clone()), next_page: ObjRef::new((10, 20)), items: vec![] };
    let before = second.predecessor().unwrap();
    assert!(Arc::ptr_eq(&before, &first));
    assert_eq!(before.next_page.identifier, (10, 10));
    assert!(first.predecessor().is_none());
    let news = Arc::new(models::NewsPage { previous_page: None, next_page: ObjRef::new((5, 5)), items: vec![] });
    let later = models::NewsPage { previous_page: Some(news.clone()), next_page: ObjRef::new((5, 10)), items: vec![] };
    assert!(Arc::ptr_eq(&later.predecessor().unwrap(), &news));
    assert!(later.items().is_empty());
}

#[test]
fn enrollment_references_are_followed() {
    let mut client = Supernova::new();
    client.put_login(Ok(TokenResult { token: "k".to_string() })).unwrap();
    let enrollment = iron_planet::network::models::Enrollment {
        id: 70,
        class_instance: 24772,
        student: 9,
        attendance: None,
        attendance_date: None,
        normal_grade: None,
        normal_grade_date: None,
        recourse_grade: None,
        recourse_grade_date: None,
        special_grade: None,
        special_grade_date: None,
        improvement_grade: None,
        improvement_grade_date: None,
        approved: None,
        grade: None,
    }
    .link();
    assert_eq!(asked(enrollment.get_student(&client)).url, "https://supernova.nunl.pt/api/student/9");
    assert_eq!(asked(enrollment.get_class_instance(&client)).url, "https://supernova.nunl.pt/api/class/i/24772");
    let _ = RequestConfig::default();
}
