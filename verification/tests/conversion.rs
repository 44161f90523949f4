use iron_planet::models;
use iron_planet::network::model_conversion::{address, copy_text};
use iron_planet::network::models::{
    Building, Class, ClassInfo, ClassInfoEntry, ClassInfoSources, ClassInstance, ClassShift,
    ClassShiftInstance, Course, Degree, Department, Enrollment, Event, EventAnnouncement,
    EventsPage, GalleryItem, GalleryUpload, Group, GroupActivity, GroupAnnouncement,
    GroupEventType, GroupScheduling, GroupSchedulingOnce, GroupSchedulingPeriodic, GroupType,
    GroupVisibility, NewsItem, NewsPage, Period, Place, Room, RoomType, ShiftType, Student,
    User, WeakGroup, Weekday,
};
use iron_planet::time::{Date, Instant, TimeOfDay};

const UP: &str = "https://supernova.nunl.pt";

fn moment(day: i32, second: u32) -> Instant {
    Instant { date: Date { day }, time: TimeOfDay { second, nanosecond: 0 } }
}

fn entry() -> ClassInfoEntry {
    ClassInfoEntry { pt: Some("pt".to_string()), en: None, time: None, editor: Some("ed".to_string()) }
}

fn info() -> ClassInfo {
    ClassInfo {
        program: entry(),
        assistance: entry(),
        extra_info: entry(),
        objectives: entry(),
        competences: entry(),
        description: entry(),
        bibliography: entry(),
        requirements: entry(),
        teaching_methods: entry(),
        evaluation_methods: ClassInfoEntry { pt: None, en: Some("en".to_string()), time: None, editor: None },
    }
}

#[test]
fn copy_text_and_address() {
    assert_eq!(copy_text(&Some("a".to_string())), Some("a".to_string()));
    assert_eq!(copy_text(&None), None);
    assert_eq!(address(UP, &Some("/x".to_string())), Some("https://supernova.nunl.pt/x".to_string()));
    assert_eq!(address(UP, &None), None);
}

#[test]
fn kinds_keep_their_names() {
    assert_eq!(models::Degree::from(Degree::BSc), models::Degree::BSc);
    assert_eq!(models::Degree::from(Degree::PreGraduation), models::Degree::PreGraduation);
    assert_eq!(models::Degree::from(Degree::IntegratedMSc), models::Degree::IntegratedMSc);
    assert_eq!(models::Period::from(Period::Year), models::Period::Year);
    assert_eq!(models::Period::from(Period::FourthTrimester), models::Period::FourthTrimester);
    assert_eq!(models::Weekday::from(Weekday::Thursday), models::Weekday::Thursday);
    assert_eq!(models::Weekday::from(Weekday::Tuesday), models::Weekday::Tuesday);
    assert_eq!(models::Weekday::from(Weekday::Sunday), models::Weekday::Sunday);
    assert_eq!(models::RoomType::from(RoomType::Generic), models::RoomType::Generic);
    assert_eq!(models::RoomType::from(RoomType::Cabinet), models::RoomType::Cabinet);
    assert_eq!(models::ShiftType::from(ShiftType::Theoretical), models::ShiftType::Theoretical);
    assert_eq!(
        models::ShiftType::from(ShiftType::OnlinePracticalTheoretical),
        models::ShiftType::OnlinePracticalTheoretical
    );
    assert_eq!(models::GroupType::from(GroupType::AcademicAssociation), models::GroupType::AcademicAssociation);
    assert_eq!(models::GroupVisibility::from(GroupVisibility::Closed), models::GroupVisibility::Closed);
    assert_eq!(models::GroupEventType::from(GroupEventType::Workshop), models::GroupEventType::Workshop);
    let degree: models::Degree = Degree::PhD.into();
    assert_eq!(degree, models::Degree::PhD);
}

#[test]
fn link_building() {
    let linked = Building { id: 2, name: "Edifício II".to_string(), abbreviation: "II".to_string(), places: vec![4, 5] }.link();
    assert_eq!(linked.id, 2);
    assert_eq!(linked.name, "Edifício II");
    assert_eq!(linked.abbreviation, "II");
    assert_eq!(linked.places.iter().map(|r| r.identifier).collect::<Vec<u32>>(), vec![4, 5]);
}

#[test]
fn link_place_keeps_floor_and_pictures() {
    let net = Place {
        id: 7,
        name: "Sala 127".to_string(),
        floor: -1,
        building: Some(2),
        picture: Some("/p.png".to_string()),
        picture_cover: Some("/c.png".to_string()),
        features: vec![],
        room_meta: Some(Room {
            department: Some(12),
            capacity: Some(40),
            door_number: Some(127),
            room_type: RoomType::Laboratory,
            description: Some("d".to_string()),
            equipment: None,
        }),
    };
    let linked = net.link();
    assert_eq!(linked.id, 7);
    assert_eq!(linked.name, "Sala 127");
    assert_eq!(linked.floor, -1);
    assert_eq!(linked.picture, Some("/p.png".to_string()));
    assert_eq!(linked.picture_cover, Some("/c.png".to_string()));
    assert_eq!(linked.building.unwrap().identifier, 2);
    match linked.variant {
        models::PlaceVariant::Room(room) => {
            assert_eq!(room.department.unwrap().identifier, 12);
            assert_eq!(room.capacity, Some(40));
            assert_eq!(room.door_number, Some(127));
            assert_eq!(room.room_type, models::RoomType::Laboratory);
            assert_eq!(room.description, Some("d".to_string()));
            assert_eq!(room.equipment, None);
        }
        models::PlaceVariant::Generic => panic!("should be a room"),
    }
}

#[test]
fn link_place_without_room() {
    let net = Place {
        id: 8,
        name: "Jardim".to_string(),
        floor: 0,
        building: None,
        picture: None,
        picture_cover: None,
        features: vec![],
        room_meta: None,
    };
    let linked = net.link();
    assert!(linked.building.is_none());
    assert!(matches!(linked.variant, models::PlaceVariant::Generic));
    assert_eq!(linked.floor, 0);
    assert_eq!(linked.picture, None);
    assert_eq!(linked.picture_cover, None);
    assert_eq!(linked.name, "Jardim");
}

#[test]
fn link_department_course_class() {
    let department = Department {
        id: 12,
        name: "Informática".to_string(),
        description: Some("Foo Bar Baz".to_string()),
        courses: vec![],
        building: Some(123),
    }
    .link();
    assert_eq!(department.id, 12);
    assert_eq!(department.description, Some("Foo Bar Baz".to_string()));
    assert!(department.courses.is_empty());
    assert_eq!(department.building.unwrap().identifier, 123);
    let course = Course { id: 3, abbreviation: "MIEI".to_string(), name: "Eng".to_string(), degree: Degree::IntegratedMSc, department: None }.link();
    assert_eq!(course.id, 3);
    assert_eq!(course.abbreviation, "MIEI");
    assert_eq!(course.name, "Eng");
    assert_eq!(course.degree, models::Degree::IntegratedMSc);
    assert!(course.department.is_none());
    let class = Class {
        id: 449,
        name: "Atividade Prática de Desenvolvimento Curricular".to_string(),
        abbreviation: "APDC".to_string(),
        credits: 10,
        department: Some(123),
        instances: vec![1, 2, 3],
    }
    .link();
    assert_eq!(class.id, 449);
    assert_eq!(class.credits, 10);
    assert_eq!(class.department.unwrap().identifier, 123);
    assert_eq!(class.instances.iter().map(|r| r.identifier).collect::<Vec<u32>>(), vec![1, 2, 3]);
}

#[test]
fn link_class_instance() {
    let shift = ClassShift {
        id: 42211,
        number: 1,
        shift_type: ShiftType::Seminar,
        teachers: vec![879],
        instances: vec![ClassShiftInstance { weekday: Weekday::Wednesday, start: 540, duration: 120, room: Some(5) }],
    };
    let enrollment = Enrollment {
        id: 70,
        class_instance: 24772,
        student: 1,
        attendance: None,
        attendance_date: None,
        normal_grade: Some(12),
        normal_grade_date: Some("d".to_string()),
        recourse_grade: None,
        recourse_grade_date: None,
        special_grade: None,
        special_grade_date: None,
        improvement_grade: None,
        improvement_grade_date: None,
        approved: Some(false),
        grade: None,
    };
    assert_eq!(enrollment.duplicate(), enrollment);
    assert_eq!(shift.duplicate(), shift);
    let net = ClassInstance {
        id: 24772,
        year: 2021,
        parent: 449,
        department: Some(12),
        period: Period::SecondSemester,
        enrollments: vec![enrollment.clone()],
        shifts: vec![shift.clone()],
        information: ClassInfoSources { upstream: Some(info()) },
        avg_grade: Some(0x41600000),
    };
    let linked = net.link();
    assert_eq!(linked.id, 24772);
    assert_eq!(linked.year, 2021);
    assert_eq!(linked.period, models::Period::SecondSemester);
    assert_eq!(linked.enrollments.len(), 1);
    assert_eq!(linked.enrollments[0].identifier, 70);
    assert_eq!(linked.shifts[0].identifier, 42211);
    assert_eq!(linked.department.unwrap().identifier, 12);
    assert_eq!(linked.avg_grade, Some(0x41600000));
    assert_eq!(linked.information, Some(info()));
    assert_eq!(info().duplicate(), info());
    assert_eq!(entry().duplicate(), entry());
    let linked_shift = shift.link();
    assert_eq!(linked_shift.id, 42211);
    assert_eq!(linked_shift.number, 1);
    assert_eq!(linked_shift.shift_type, models::ShiftType::Seminar);
    assert_eq!(linked_shift.teachers[0].identifier, 879);
    assert_eq!(linked_shift.instances[0].weekday, models::Weekday::Wednesday);
    assert_eq!(linked_shift.instances[0].start, 540);
    assert_eq!(linked_shift.instances[0].duration, 120);
    assert_eq!(linked_shift.instances[0].room.as_ref().unwrap().identifier, 5);
    let model = ClassShiftInstance { weekday: Weekday::Monday, start: 1, duration: 2, room: None }.to_model();
    assert!(model.room.is_none());
    let linked_enrollment = enrollment.link();
    assert_eq!(linked_enrollment.id, 70);
    assert_eq!(linked_enrollment.class_instance.identifier, 24772);
    assert_eq!(linked_enrollment.student.identifier, 1);
    assert_eq!(linked_enrollment.normal_grade, Some(12));
    assert_eq!(linked_enrollment.normal_grade_date, Some("d".to_string()));
    assert_eq!(linked_enrollment.approved, Some(false));
    assert_eq!(linked_enrollment.grade, None);
}

#[test]
fn link_student_makes_the_address_absolute() {
    let linked = Student {
        id: 1,
        name: "Ana".to_string(),
        abbreviation: Some("A".to_string()),
        number: 40000,
        enrollments: vec![5, 6],
        shifts: vec![7],
        first_year: Some(2019),
        last_year: Some(2022),
        course: None,
        avg_grade: Some(14),
        url: "/faculdade/aluno/1/".to_string(),
    }
    .link(UP);
    assert_eq!(linked.url, "https://supernova.nunl.pt/faculdade/aluno/1/");
    assert_eq!(linked.abbreviation, Some("A".to_string()));
    assert_eq!(linked.number, 40000);
    assert_eq!(linked.first_year, Some(2019));
    assert_eq!(linked.last_year, Some(2022));
    assert_eq!(linked.avg_grade, Some(14));
    assert!(linked.course.is_none());
    assert_eq!(linked.enrollments.iter().map(|r| r.identifier).collect::<Vec<u32>>(), vec![5, 6]);
    assert_eq!(linked.shifts[0].identifier, 7);
}

#[test]
fn link_user_is_the_user_zero() {
    assert_eq!(User { id: 55 }.to_model().id, 0);
    assert_eq!(GalleryItem {}.to_model(), models::GalleryItem {});
}

#[test]
fn link_group_with_everything() {
    let net = Group {
        id: 5,
        name: "Núcleo".to_string(),
        abbreviation: "NI".to_string(),
        group_type: GroupType::Nuclei,
        url: "/g/".to_string(),
        thumb: Some("/t.png".to_string()),
        outsiders_openness: GroupVisibility::Closed,
        official: true,
        activities: vec![
            GroupActivity::Announcement(GroupAnnouncement { author: 1, title: "t".to_string(), content: "c".to_string(), datetime: moment(10, 5) }),
            GroupActivity::EventAnnouncement(EventAnnouncement { author: 2, datetime: moment(11, 0), event: 9 }),
            GroupActivity::GalleryUpload(GalleryUpload { author: 3, datetime: moment(12, 0), item: GalleryItem {} }),
        ],
        schedule_entries: vec![
            GroupScheduling::ScheduleOnce(GroupSchedulingOnce { title: Some("once".to_string()), datetime: moment(20, 1), duration: 60, revoked: false }),
            GroupScheduling::SchedulePeriodic(GroupSchedulingPeriodic {
                title: None,
                weekday: Weekday::Friday,
                time: TimeOfDay { second: 3600, nanosecond: 0 },
                start_date: Date { day: 1 },
                end_date: Date { day: 2 },
                duration: 90,
                revoked: true,
            }),
        ],
        events: vec![],
    };
    let linked = net.link(UP);
    assert_eq!(linked.id, 5);
    assert_eq!(linked.name, "Núcleo");
    assert_eq!(linked.abbreviation, "NI");
    assert_eq!(linked.group_type, models::GroupType::Nuclei);
    assert!(linked.official);
    assert_eq!(linked.url, "https://supernova.nunl.pt/g/");
    assert_eq!(linked.thumb, Some("https://supernova.nunl.pt/t.png".to_string()));
    let details = linked.details.unwrap();
    assert_eq!(details.outsiders_openness, models::GroupVisibility::Closed);
    assert_eq!(details.activities.len(), 3);
    match &details.activities[0] {
        models::GroupActivity::Announcement(a) => {
            assert_eq!(a.author.identifier, 1);
            assert_eq!(a.title, "t");
            assert_eq!(a.content, "c");
            assert_eq!(a.datetime, moment(10, 5));
        }
        _ => panic!("wrong kind"),
    }
    match &details.activities[1] {
        models::GroupActivity::EventAnnouncement(a) => {
            assert_eq!(a.author.identifier, 2);
            assert_eq!(a.event.identifier, 9);
            assert_eq!(a.datetime, moment(11, 0));
        }
        _ => panic!("wrong kind"),
    }
    match &details.activities[2] {
        models::GroupActivity::GalleryUpload(a) => {
            assert_eq!(a.author.identifier, 3);
            assert_eq!(a.datetime, moment(12, 0));
        }
        _ => panic!("wrong kind"),
    }
    match &details.schedulings[0] {
        models::GroupScheduling::Once(s) => {
            assert_eq!(s.title, Some("once".to_string()));
            assert_eq!(s.datetime, moment(20, 1));
            assert_eq!(s.duration, 60);
            assert!(!s.revoked);
        }
        _ => panic!("wrong kind"),
    }
    match &details.schedulings[1] {
        models::GroupScheduling::Periodic(s) => {
            assert_eq!(s.title, None);
            assert_eq!(s.weekday, models::Weekday::Friday);
            assert_eq!(s.time, TimeOfDay { second: 3600, nanosecond: 0 });
            assert_eq!(s.start_date, Date { day: 1 });
            assert_eq!(s.end_date, Date { day: 2 });
            assert_eq!(s.duration, 90);
            assert!(s.revoked);
        }
        _ => panic!("wrong kind"),
    }
    assert!(details.events.is_empty());
}

#[test]
fn link_weak_group_has_no_details() {
    let linked = WeakGroup {
        id: 5,
        name: "n".to_string(),
        abbreviation: "a".to_string(),
        group_type: GroupType::Pedagogic,
        official: false,
        url: "/g/".to_string(),
        thumb: None,
    }
    .link("http://local");
    assert!(linked.details.is_none());
    assert_eq!(linked.url, "http://local/g/");
    assert_eq!(linked.thumb, None);
    assert_eq!(linked.group_type, models::GroupType::Pedagogic);
    assert!(!linked.official);
}

#[test]
fn link_event() {
    let linked = Event {
        id: 3,
        title: "Talk".to_string(),
        description: "About".to_string(),
        start_date: Date { day: 738000 },
        duration: Some(45),
        place: Some(8),
        capacity: Some(100),
        cost: Some(0),
        event_type: GroupEventType::Talk,
    }
    .link();
    assert_eq!(linked.id, 3);
    assert_eq!(linked.title, "Talk");
    assert_eq!(linked.description, "About");
    assert_eq!(linked.start_date, Date { day: 738000 });
    assert_eq!(linked.duration, Some(45));
    assert_eq!(linked.place.unwrap().identifier, 8);
    assert_eq!(linked.capacity, Some(100));
    assert_eq!(linked.cost, Some(0));
    assert_eq!(linked.event_type, models::GroupEventType::Talk);
}

#[test]
fn link_pages_point_to_the_next_key() {
    let net = EventsPage { count: 0, next: None, previous: None, results: vec![] };
    let page = net.link((100, 0), None);
    assert_eq!(page.next_page.identifier, (100, 100));
    assert!(page.previous_page.is_none());
    assert!(page.items.is_empty());
    let later = net.link((100, 100), Some(page.clone()));
    assert!(std::sync::Arc::ptr_eq(later.previous_page.as_ref().unwrap(), &page));
    assert_eq!(later.next_page.identifier, (100, 200));
    let page = net.link((7, 21), None);
    assert_eq!(page.next_page.identifier, (7, 28));
    let page = net.link((0, 5), None);
    assert_eq!(page.next_page.identifier, (0, 5));
    let page = net.link((u16::MAX, u32::MAX - 65535), None);
    assert_eq!(page.next_page.identifier, (u16::MAX, u32::MAX));
    let news = NewsPage {
        count: 1,
        next: None,
        previous: None,
        results: vec![NewsItem {
            id: 4,
            title: "t".to_string(),
            summary: "s".to_string(),
            datetime: moment(1, 2),
            thumb: None,
            url: "/n/4/".to_string(),
        }],
    };
    let page = news.link(UP, (10, 90), None);
    assert!(page.previous_page.is_none());
    let later = news.link(UP, (10, 100), Some(page.clone()));
    assert!(std::sync::Arc::ptr_eq(later.previous_page.as_ref().unwrap(), &page));
    assert_eq!(later.next_page.identifier, (10, 110));
    assert_eq!(page.next_page.identifier, (10, 100));
    assert_eq!(page.items.len(), 1);
    assert_eq!(page.items[0].id, 4);
    assert_eq!(page.items[0].title, "t");
    assert_eq!(page.items[0].summary, "s");
    assert_eq!(page.items[0].datetime, moment(1, 2));
    assert_eq!(page.items[0].thumb, None);
    assert_eq!(page.items[0].url, "https://supernova.nunl.pt/n/4/");
}
