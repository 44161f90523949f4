use iron_planet::coersion::ObjRef;
use iron_planet::models::{
    ClassShift, ClassShiftInstance, Department, Event, EventAnnouncement, GalleryItem,
    GalleryUpload, GroupActivity, GroupAnnouncement, GroupEventType, GroupScheduling,
    GroupSchedulingOnce, GroupSchedulingPeriodic, Place, PlaceVariant, ShiftType, Weekday,
};
use iron_planet::network::models as net;
use iron_planet::order::is_same_text;
use iron_planet::time::{compare_i32, compare_i8, compare_u16, compare_u32, then, Date, Instant, TimeOfDay};
use std::cmp::Ordering;
use std::collections::hash_map::DefaultHasher;
use std::hash::{Hash, Hasher};

fn moment(day: i32, second: u32, nanosecond: u32) -> Instant {
    Instant { date: Date { day }, time: TimeOfDay { second, nanosecond } }
}

fn department(id: u32, name: &str) -> Department {
    net::Department { id, name: name.to_string(), description: None, courses: vec![], building: None }.link()
}

fn place(id: u32, name: &str, floor: i8) -> Place {
    Place { id, variant: PlaceVariant::Generic, name: name.to_string(), floor, building: None, picture: None, picture_cover: None }
}

fn meeting(weekday: Weekday, start: u16, duration: u16) -> ClassShiftInstance {
    ClassShiftInstance { weekday, start, duration, room: None }
}

fn periodic(weekday: Weekday, second: u32, duration: u16) -> GroupSchedulingPeriodic {
    GroupSchedulingPeriodic {
        title: None,
        weekday,
        time: TimeOfDay { second, nanosecond: 0 },
        start_date: Date { day: 1 },
        end_date: Date { day: 2 },
        duration,
        revoked: false,
    }
}

fn announcement(day: i32) -> GroupActivity {
    GroupActivity::Announcement(GroupAnnouncement { author: ObjRef::new(1), title: "t".to_string(), content: "c".to_string(), datetime: moment(day, 0, 0) })
}

#[test]
fn numbers_are_ordered() {
    assert_eq!(compare_u32(1, 2), Ordering::Less);
    assert_eq!(compare_u32(2, 2), Ordering::Equal);
    assert_eq!(compare_u32(3, 2), Ordering::Greater);
    assert_eq!(compare_u16(0, u16::MAX), Ordering::Less);
    assert_eq!(compare_u16(5, 5), Ordering::Equal);
    assert_eq!(compare_i32(-1, 0), Ordering::Less);
    assert_eq!(compare_i32(i32::MAX, i32::MIN), Ordering::Greater);
    assert_eq!(compare_i8(-3, -3), Ordering::Equal);
    assert_eq!(compare_i8(-128, 127), Ordering::Less);
    assert_eq!(then(Ordering::Equal, Ordering::Greater), Ordering::Greater);
    assert_eq!(then(Ordering::Less, Ordering::Greater), Ordering::Less);
    assert_eq!(then(Ordering::Equal, Ordering::Equal), Ordering::Equal);
}

#[test]
fn moments_are_ordered_by_day_then_time() {
    assert_eq!(moment(1, 5, 0).compare(&moment(2, 0, 0)), Ordering::Less);
    assert_eq!(moment(2, 5, 0).compare(&moment(2, 6, 0)), Ordering::Less);
    assert_eq!(moment(2, 5, 9).compare(&moment(2, 5, 3)), Ordering::Greater);
    assert_eq!(moment(2, 5, 9).compare(&moment(2, 5, 9)), Ordering::Equal);
    assert_eq!(moment(-5, 0, 0).partial_cmp(&moment(0, 0, 0)), Some(Ordering::Less));
    assert!(moment(3, 0, 0) > moment(2, 86399, 999_999_999));
    assert!(Date { day: 1 } < Date { day: 2 });
    assert_eq!(Date { day: 4 }.compare(&Date { day: 4 }), Ordering::Equal);
    assert!(TimeOfDay { second: 1, nanosecond: 0 } > TimeOfDay { second: 0, nanosecond: 5 });
    assert_eq!(TimeOfDay { second: 1, nanosecond: 1 }.compare(&TimeOfDay { second: 1, nanosecond: 2 }), Ordering::Less);
}

#[test]
fn entities_are_the_same_by_key() {
    assert!(department(1, "a") == department(1, "b"));
    assert!(department(1, "a") != department(2, "a"));
    assert!(place(3, "x", 1) == place(3, "y", 2));
    assert!(place(3, "x", 1) != place(4, "x", 1));
}

fn hash_of<T: Hash>(value: &T) -> u64 {
    let mut hasher = DefaultHasher::new();
    value.hash(&mut hasher);
    hasher.finish()
}

#[test]
fn entities_hash_by_key() {
    assert_eq!(hash_of(&department(1, "a")), hash_of(&department(1, "b")));
    assert_eq!(hash_of(&department(7, "a")), hash_of(&7u32));
    assert_eq!(hash_of(&place(3, "x", 1)), hash_of(&place(3, "y", 2)));
    assert_eq!(hash_of(&meeting(Weekday::Monday, 1, 2)), hash_of(&meeting(Weekday::Monday, 1, 2)));
    assert_eq!(hash_of(&meeting(Weekday::Friday, 1, 2)), hash_of(&(4u32, 1u16, 2u16)));
}

#[test]
fn departments_are_ordered_by_name() {
    assert_eq!(department(2, "Apoio").partial_cmp(&department(1, "Biologia")), Some(Ordering::Less));
    assert_eq!(department(1, "Biologia").partial_cmp(&department(2, "Apoio")), Some(Ordering::Greater));
    assert_eq!(department(1, "x").partial_cmp(&department(2, "x")), Some(Ordering::Equal));
    assert_eq!(department(1, "").partial_cmp(&department(2, "a")), Some(Ordering::Less));
    assert_eq!(department(1, "ab").partial_cmp(&department(2, "a")), Some(Ordering::Greater));
    assert_eq!(department(1, "Zoo").partial_cmp(&department(2, "abc")), Some(Ordering::Less));
    assert_eq!(department(1, "Área").partial_cmp(&department(2, "Zoo")), Some(Ordering::Greater));
    assert!(department(1, "a") < department(1, "b"));
}

#[test]
fn places_are_ordered_by_floor_then_name() {
    assert_eq!(place(1, "z", -1).partial_cmp(&place(2, "a", 0)), Some(Ordering::Less));
    assert_eq!(place(1, "a", 2).partial_cmp(&place(2, "z", 1)), Some(Ordering::Greater));
    assert_eq!(place(1, "a", 1).partial_cmp(&place(2, "b", 1)), Some(Ordering::Less));
    assert_eq!(place(1, "a", 1).partial_cmp(&place(2, "a", 1)), Some(Ordering::Equal));
}

#[test]
fn ranks_follow_the_listing() {
    assert_eq!(Weekday::Monday.position(), 0);
    assert_eq!(Weekday::Thursday.position(), 1);
    assert_eq!(Weekday::Wednesday.position(), 2);
    assert_eq!(Weekday::Tuesday.position(), 3);
    assert_eq!(Weekday::Friday.position(), 4);
    assert_eq!(Weekday::Saturday.position(), 5);
    assert_eq!(Weekday::Sunday.position(), 6);
    assert_eq!(ShiftType::Theoretical.position(), 0);
    assert_eq!(ShiftType::Seminar.position(), 3);
    assert_eq!(ShiftType::OnlinePracticalTheoretical.position(), 8);
    assert!(Weekday::Thursday < Weekday::Wednesday);
    assert!(ShiftType::Practical < ShiftType::Seminar);
}

#[test]
fn meetings_are_the_same_by_day_and_time() {
    assert!(meeting(Weekday::Monday, 540, 120) == meeting(Weekday::Monday, 540, 120));
    assert!(meeting(Weekday::Monday, 540, 120) != meeting(Weekday::Monday, 540, 60));
    assert!(meeting(Weekday::Monday, 540, 120) != meeting(Weekday::Monday, 600, 120));
    assert!(meeting(Weekday::Monday, 540, 120) != meeting(Weekday::Friday, 540, 120));
}

#[test]
fn meetings_are_ordered_as_stated() {
    let m = meeting;
    assert_eq!(m(Weekday::Monday, 1, 1).partial_cmp(&m(Weekday::Monday, 9, 9)), Some(Ordering::Equal));
    assert_eq!(m(Weekday::Monday, 5, 1).partial_cmp(&m(Weekday::Friday, 5, 9)), Some(Ordering::Equal));
    assert_eq!(m(Weekday::Monday, 5, 1).partial_cmp(&m(Weekday::Friday, 6, 9)), Some(Ordering::Less));
    assert_eq!(m(Weekday::Friday, 5, 9).partial_cmp(&m(Weekday::Monday, 6, 1)), Some(Ordering::Greater));
    assert_eq!(m(Weekday::Friday, 5, 9).partial_cmp(&m(Weekday::Monday, 6, 9)), Some(Ordering::Equal));
}

#[test]
fn shifts_are_ordered_as_stated() {
    let shift = |id: u32, number: u16, shift_type: ShiftType| ClassShift { id, number, shift_type, teachers: vec![], instances: vec![] };
    assert_eq!(shift(1, 1, ShiftType::Practical).partial_cmp(&shift(2, 9, ShiftType::Practical)), Some(Ordering::Equal));
    assert_eq!(shift(1, 1, ShiftType::Practical).partial_cmp(&shift(2, 9, ShiftType::Seminar)), Some(Ordering::Less));
    assert_eq!(shift(1, 9, ShiftType::Practical).partial_cmp(&shift(2, 1, ShiftType::Seminar)), Some(Ordering::Greater));
    assert_eq!(shift(1, 4, ShiftType::FieldWork).partial_cmp(&shift(2, 4, ShiftType::Seminar)), Some(Ordering::Equal));
    assert!(shift(1, 1, ShiftType::Practical) == shift(1, 2, ShiftType::Seminar));
}

#[test]
fn activities_are_ordered_by_moment() {
    let upload = GroupActivity::GalleryUpload(GalleryUpload { author: ObjRef::new(1), datetime: moment(5, 0, 0), item: GalleryItem {} });
    let event = GroupActivity::EventAnnouncement(EventAnnouncement { author: ObjRef::new(1), event: ObjRef::new(2), datetime: moment(7, 0, 0) });
    assert_eq!(announcement(6).partial_cmp(&upload), Some(Ordering::Greater));
    assert_eq!(announcement(6).partial_cmp(&event), Some(Ordering::Less));
    assert_eq!(announcement(7).partial_cmp(&event), Some(Ordering::Equal));
    assert_eq!(upload.partial_cmp(&event), Some(Ordering::Less));
    assert_eq!(upload.datetime(), moment(5, 0, 0));
}

#[test]
fn activities_are_the_same_within_a_kind() {
    let upload = |day: i32| GroupActivity::GalleryUpload(GalleryUpload { author: ObjRef::new(day as u32), datetime: moment(day, 0, 0), item: GalleryItem {} });
    let event = |id: u32, day: i32| GroupActivity::EventAnnouncement(EventAnnouncement { author: ObjRef::new(1), event: ObjRef::new(id), datetime: moment(day, 0, 0) });
    assert!(announcement(1) == announcement(1));
    assert!(announcement(1) != announcement(2));
    assert!(upload(1) == upload(1));
    assert!(upload(1) != upload(2));
    assert!(event(1, 1) == event(1, 1));
    assert!(event(1, 1) != event(2, 1));
    assert!(event(1, 1) != event(1, 2));
    assert!(announcement(1) != upload(1));
    assert!(upload(1) != event(1, 1));
    let other = GroupActivity::Announcement(GroupAnnouncement { author: ObjRef::new(9), title: "t".to_string(), content: "other".to_string(), datetime: moment(1, 0, 0) });
    assert!(announcement(1) != other);
}

#[test]
fn schedulings_compare() {
    let once = |day: i32, title: Option<&str>| GroupSchedulingOnce { title: title.map(|t| t.to_string()), datetime: moment(day, 0, 0), duration: 60, revoked: false };
    assert!(once(1, None) == once(1, None));
    assert!(once(1, Some("a")) == once(1, Some("a")));
    assert!(once(1, Some("a")) != once(1, Some("b")));
    assert!(once(1, Some("a")) != once(1, None));
    assert!(once(1, None) != once(2, None));
    assert_eq!(once(1, None).partial_cmp(&once(2, Some("x"))), Some(Ordering::Less));
    assert_eq!(once(2, None).partial_cmp(&once(2, Some("x"))), Some(Ordering::Equal));
    assert!(periodic(Weekday::Monday, 1, 1) == periodic(Weekday::Monday, 1, 1));
    assert!(periodic(Weekday::Monday, 1, 1) != periodic(Weekday::Monday, 1, 2));
    assert_eq!(periodic(Weekday::Monday, 9, 9).partial_cmp(&periodic(Weekday::Thursday, 1, 1)), Some(Ordering::Less));
    assert_eq!(periodic(Weekday::Tuesday, 1, 1).partial_cmp(&periodic(Weekday::Wednesday, 9, 9)), Some(Ordering::Greater));
    assert_eq!(periodic(Weekday::Monday, 1, 9).partial_cmp(&periodic(Weekday::Monday, 2, 1)), Some(Ordering::Less));
    assert_eq!(periodic(Weekday::Monday, 2, 1).partial_cmp(&periodic(Weekday::Monday, 2, 9)), Some(Ordering::Less));
    assert_eq!(periodic(Weekday::Monday, 2, 9).partial_cmp(&periodic(Weekday::Monday, 2, 9)), Some(Ordering::Equal));
    let a = GroupScheduling::Once(once(9, None));
    let b = GroupScheduling::Periodic(periodic(Weekday::Monday, 0, 0));
    assert_eq!(a.partial_cmp(&b), Some(Ordering::Less));
    assert_eq!(b.partial_cmp(&a), Some(Ordering::Greater));
    assert_eq!(a.partial_cmp(&GroupScheduling::Once(once(3, None))), Some(Ordering::Greater));
    assert_eq!(b.partial_cmp(&GroupScheduling::Periodic(periodic(Weekday::Monday, 0, 1))), Some(Ordering::Less));
    assert!(a != b);
    assert!(a == GroupScheduling::Once(once(9, None)));
    assert!(b == GroupScheduling::Periodic(periodic(Weekday::Monday, 0, 0)));
}

#[test]
fn events_compare() {
    let event = |id: u32, day: i32| Event {
        id,
        title: "t".to_string(),
        description: "d".to_string(),
        start_date: Date { day },
        duration: None,
        place: None,
        capacity: None,
        cost: None,
        event_type: GroupEventType::Fair,
    };
    assert!(event(1, 1) == event(1, 2));
    assert!(event(1, 1) != event(2, 1));
    assert_eq!(event(1, 1).partial_cmp(&event(2, 2)), Some(Ordering::Less));
    assert_eq!(event(1, 2).partial_cmp(&event(2, 2)), Some(Ordering::Equal));
}

#[test]
fn same_text_tells_texts_apart() {
    assert!(is_same_text(&None, &None));
    assert!(is_same_text(&Some("a".to_string()), &Some("a".to_string())));
    assert!(!is_same_text(&Some("a".to_string()), &Some("b".to_string())));
    assert!(!is_same_text(&Some("a".to_string()), &None));
    assert!(!is_same_text(&None, &Some("".to_string())));
}
