//! When two entities count as the same, and which of two comes first.
use crate::models::{
    Building, Class, ClassInstance, ClassInstanceFile, ClassShift, ClassShiftInstance, Course,
    Department, Event, EventAnnouncement, GalleryUpload, Group, GroupActivity,
    GroupAnnouncement, GroupScheduling, GroupSchedulingOnce, GroupSchedulingPeriodic, NewsItem,
    Place, ShiftType, Student, Teacher, Weekday,
};
use crate::text::code;
use crate::time::{
    compare_i8, compare_u16, compare_u32, order_i8, order_u16, order_u32, then, then_order,
    Instant,
};
use std::cmp::Ordering;
use std::hash::{Hash, Hasher};
use vstd::prelude::*;
use vstd::std_specs::cmp::{PartialEqSpec, PartialEqSpecImpl, PartialOrdSpecImpl};

verus! {

/// `u32::hash` feeds the number to the hasher. Nothing is claimed of what the hasher makes of it.
pub assume_specification<H: Hasher>[ <u32 as Hash>::hash ](number: &u32, state: &mut H);

/// `u16::hash` feeds the number to the hasher. Nothing is claimed of what the hasher makes of it.
pub assume_specification<H: Hasher>[ <u16 as Hash>::hash ](number: &u16, state: &mut H);

/// How `left` stands to `right` in the order of the dictionary, where a character
/// comes before another if its number in the code charts is smaller.
pub open spec fn text_order(left: Seq<char>, right: Seq<char>) -> Ordering
    decreases left.len(),
{
    if left.len() == 0 {
        if right.len() == 0 {
            Ordering::Equal
        } else {
            Ordering::Less
        }
    } else if right.len() == 0 {
        Ordering::Greater
    } else if code(left[0]) < code(right[0]) {
        Ordering::Less
    } else if code(left[0]) > code(right[0]) {
        Ordering::Greater
    } else {
        text_order(left.drop_first(), right.drop_first())
    }
}

/// `str::cmp` orders texts as a dictionary does, byte by byte; in UTF-8 that
/// is character by character, by their numbers in the code charts.
#[verifier::external_body]
pub(crate) fn compare_text(left: &str, right: &str) -> (order: Ordering)
    ensures
        order == text_order(left@, right@),
{
    left.cmp(right)
}

/// Both texts are absent, or both are there and read the same.
pub open spec fn same_text(left: Option<String>, right: Option<String>) -> bool {
    match left {
        Some(left) => right matches Some(right) && left@ == right@,
        None => right is None,
    }
}

pub fn is_same_text(left: &Option<String>, right: &Option<String>) -> (same: bool)
    ensures
        same == same_text(*left, *right),
{
    match left {
        Some(left) => match right {
            Some(right) => left.eq(right),
            None => false,
        },
        None => right.is_none(),
    }
}

impl Weekday {
    /// The place of the day in the order in which the days are listed.
    pub open spec fn rank(&self) -> u32 {
        match self {
            Weekday::Monday => 0,
            Weekday::Thursday => 1,
            Weekday::Wednesday => 2,
            Weekday::Tuesday => 3,
            Weekday::Friday => 4,
            Weekday::Saturday => 5,
            Weekday::Sunday => 6,
        }
    }

    pub fn position(&self) -> (position: u32)
        ensures
            position == self.rank(),
    {
        match self {
            Weekday::Monday => 0,
            Weekday::Thursday => 1,
            Weekday::Wednesday => 2,
            Weekday::Tuesday => 3,
            Weekday::Friday => 4,
            Weekday::Saturday => 5,
            Weekday::Sunday => 6,
        }
    }
}

impl ShiftType {
    /// The place of the kind in the order in which the kinds are listed.
    pub open spec fn rank(&self) -> u32 {
        match self {
            ShiftType::Theoretical => 0,
            ShiftType::Practical => 1,
            ShiftType::PracticalTheoretical => 2,
            ShiftType::Seminar => 3,
            ShiftType::TutorialOrientation => 4,
            ShiftType::FieldWork => 5,
            ShiftType::OnlineTheoretical => 6,
            ShiftType::OnlinePractical => 7,
            ShiftType::OnlinePracticalTheoretical => 8,
        }
    }

    pub fn position(&self) -> (position: u32)
        ensures
            position == self.rank(),
    {
        match self {
            ShiftType::Theoretical => 0,
            ShiftType::Practical => 1,
            ShiftType::PracticalTheoretical => 2,
            ShiftType::Seminar => 3,
            ShiftType::TutorialOrientation => 4,
            ShiftType::FieldWork => 5,
            ShiftType::OnlineTheoretical => 6,
            ShiftType::OnlinePractical => 7,
            ShiftType::OnlinePracticalTheoretical => 8,
        }
    }
}

/// Two values are the same department if they have the same key.
impl PartialEq for Department {
    fn eq(&self, other: &Department) -> (same: bool) {
        self.id == other.id
    }
}

impl PartialEqSpecImpl for Department {
    open spec fn obeys_eq_spec() -> bool {
        true
    }

    open spec fn eq_spec(&self, other: &Department) -> bool {
        self.id == other.id
    }
}

impl Hash for Department {
    fn hash<H: Hasher>(&self, state: &mut H) {
        self.id.hash(state);
    }
}

/// Ordered by name.
impl PartialOrd for Department {
    fn partial_cmp(&self, other: &Department) -> (order: Option<Ordering>) {
        Some(compare_text(self.name.as_str(), other.name.as_str()))
    }
}

impl PartialOrdSpecImpl for Department {
    open spec fn obeys_partial_cmp_spec() -> bool {
        true
    }

    open spec fn partial_cmp_spec(&self, other: &Department) -> Option<Ordering> {
        Some(text_order(self.name@, other.name@))
    }
}

/// Two values are the same building if they have the same key.
impl PartialEq for Building {
    fn eq(&self, other: &Building) -> (same: bool) {
        self.id == other.id
    }
}

impl PartialEqSpecImpl for Building {
    open spec fn obeys_eq_spec() -> bool {
        true
    }

    open spec fn eq_spec(&self, other: &Building) -> bool {
        self.id == other.id
    }
}

impl Hash for Building {
    fn hash<H: Hasher>(&self, state: &mut H) {
        self.id.hash(state);
    }
}

/// Ordered by name.
impl PartialOrd for Building {
    fn partial_cmp(&self, other: &Building) -> (order: Option<Ordering>) {
        Some(compare_text(self.name.as_str(), other.name.as_str()))
    }
}

impl PartialOrdSpecImpl for Building {
    open spec fn obeys_partial_cmp_spec() -> bool {
        true
    }

    open spec fn partial_cmp_spec(&self, other: &Building) -> Option<Ordering> {
        Some(text_order(self.name@, other.name@))
    }
}

/// Two values are the same place if they have the same key.
impl PartialEq for Place {
    fn eq(&self, other: &Place) -> (same: bool) {
        self.id == other.id
    }
}

impl PartialEqSpecImpl for Place {
    open spec fn obeys_eq_spec() -> bool {
        true
    }

    open spec fn eq_spec(&self, other: &Place) -> bool {
        self.id == other.id
    }
}

impl Hash for Place {
    fn hash<H: Hasher>(&self, state: &mut H) {
        self.id.hash(state);
    }
}

/// Two values are the same course if they have the same key.
impl PartialEq for Course {
    fn eq(&self, other: &Course) -> (same: bool) {
        self.id == other.id
    }
}

impl PartialEqSpecImpl for Course {
    open spec fn obeys_eq_spec() -> bool {
        true
    }

    open spec fn eq_spec(&self, other: &Course) -> bool {
        self.id == other.id
    }
}

impl Hash for Course {
    fn hash<H: Hasher>(&self, state: &mut H) {
        self.id.hash(state);
    }
}

/// Ordered by name.
impl PartialOrd for Course {
    fn partial_cmp(&self, other: &Course) -> (order: Option<Ordering>) {
        Some(compare_text(self.name.as_str(), other.name.as_str()))
    }
}

impl PartialOrdSpecImpl for Course {
    open spec fn obeys_partial_cmp_spec() -> bool {
        true
    }

    open spec fn partial_cmp_spec(&self, other: &Course) -> Option<Ordering> {
        Some(text_order(self.name@, other.name@))
    }
}

/// Two values are the same class if they have the same key.
impl PartialEq for Class {
    fn eq(&self, other: &Class) -> (same: bool) {
        self.id == other.id
    }
}

impl PartialEqSpecImpl for Class {
    open spec fn obeys_eq_spec() -> bool {
        true
    }

    open spec fn eq_spec(&self, other: &Class) -> bool {
        self.id == other.id
    }
}

impl Hash for Class {
    fn hash<H: Hasher>(&self, state: &mut H) {
        self.id.hash(state);
    }
}

/// Ordered by name.
impl PartialOrd for Class {
    fn partial_cmp(&self, other: &Class) -> (order: Option<Ordering>) {
        Some(compare_text(self.name.as_str(), other.name.as_str()))
    }
}

impl PartialOrdSpecImpl for Class {
    open spec fn obeys_partial_cmp_spec() -> bool {
        true
    }

    open spec fn partial_cmp_spec(&self, other: &Class) -> Option<Ordering> {
        Some(text_order(self.name@, other.name@))
    }
}

/// Two values are the same class instance if they have the same key.
impl PartialEq for ClassInstance {
    fn eq(&self, other: &ClassInstance) -> (same: bool) {
        self.id == other.id
    }
}

impl PartialEqSpecImpl for ClassInstance {
    open spec fn obeys_eq_spec() -> bool {
        true
    }

    open spec fn eq_spec(&self, other: &ClassInstance) -> bool {
        self.id == other.id
    }
}

impl Hash for ClassInstance {
    fn hash<H: Hasher>(&self, state: &mut H) {
        self.id.hash(state);
    }
}

/// Two values are the same student if they have the same key.
impl PartialEq for Student {
    fn eq(&self, other: &Student) -> (same: bool) {
        self.id == other.id
    }
}

impl PartialEqSpecImpl for Student {
    open spec fn obeys_eq_spec() -> bool {
        true
    }

    open spec fn eq_spec(&self, other: &Student) -> bool {
        self.id == other.id
    }
}

impl Hash for Student {
    fn hash<H: Hasher>(&self, state: &mut H) {
        self.id.hash(state);
    }
}

/// Two values are the same teacher if they have the same key.
impl PartialEq for Teacher {
    fn eq(&self, other: &Teacher) -> (same: bool) {
        self.id == other.id
    }
}

impl PartialEqSpecImpl for Teacher {
    open spec fn obeys_eq_spec() -> bool {
        true
    }

    open spec fn eq_spec(&self, other: &Teacher) -> bool {
        self.id == other.id
    }
}

impl Hash for Teacher {
    fn hash<H: Hasher>(&self, state: &mut H) {
        self.id.hash(state);
    }
}

/// Ordered by name.
impl PartialOrd for Teacher {
    fn partial_cmp(&self, other: &Teacher) -> (order: Option<Ordering>) {
        Some(compare_text(self.name.as_str(), other.name.as_str()))
    }
}

impl PartialOrdSpecImpl for Teacher {
    open spec fn obeys_partial_cmp_spec() -> bool {
        true
    }

    open spec fn partial_cmp_spec(&self, other: &Teacher) -> Option<Ordering> {
        Some(text_order(self.name@, other.name@))
    }
}

/// Two values are the same shift if they have the same key.
impl PartialEq for ClassShift {
    fn eq(&self, other: &ClassShift) -> (same: bool) {
        self.id == other.id
    }
}

impl PartialEqSpecImpl for ClassShift {
    open spec fn obeys_eq_spec() -> bool {
        true
    }

    open spec fn eq_spec(&self, other: &ClassShift) -> bool {
        self.id == other.id
    }
}

impl Hash for ClassShift {
    fn hash<H: Hasher>(&self, state: &mut H) {
        self.id.hash(state);
    }
}

/// Two values are the same file if they have the same key.
impl PartialEq for ClassInstanceFile {
    fn eq(&self, other: &ClassInstanceFile) -> (same: bool) {
        self.id == other.id
    }
}

impl PartialEqSpecImpl for ClassInstanceFile {
    open spec fn obeys_eq_spec() -> bool {
        true
    }

    open spec fn eq_spec(&self, other: &ClassInstanceFile) -> bool {
        self.id == other.id
    }
}

impl Hash for ClassInstanceFile {
    fn hash<H: Hasher>(&self, state: &mut H) {
        self.id.hash(state);
    }
}

/// Two values are the same group if they have the same key.
impl PartialEq for Group {
    fn eq(&self, other: &Group) -> (same: bool) {
        self.id == other.id
    }
}

impl PartialEqSpecImpl for Group {
    open spec fn obeys_eq_spec() -> bool {
        true
    }

    open spec fn eq_spec(&self, other: &Group) -> bool {
        self.id == other.id
    }
}

/// Two values are the same event if they have the same key.
impl PartialEq for Event {
    fn eq(&self, other: &Event) -> (same: bool) {
        self.id == other.id
    }
}

impl PartialEqSpecImpl for Event {
    open spec fn obeys_eq_spec() -> bool {
        true
    }

    open spec fn eq_spec(&self, other: &Event) -> bool {
        self.id == other.id
    }
}

impl Hash for Event {
    fn hash<H: Hasher>(&self, state: &mut H) {
        self.id.hash(state);
    }
}

/// Two values are the same news item if they have the same key.
impl PartialEq for NewsItem {
    fn eq(&self, other: &NewsItem) -> (same: bool) {
        self.id == other.id
    }
}

impl PartialEqSpecImpl for NewsItem {
    open spec fn obeys_eq_spec() -> bool {
        true
    }

    open spec fn eq_spec(&self, other: &NewsItem) -> bool {
        self.id == other.id
    }
}

/// Ordered by floor, and on a floor by name.
impl PartialOrd for Place {
    fn partial_cmp(&self, other: &Place) -> (order: Option<Ordering>) {
        Some(then(compare_i8(self.floor, other.floor), compare_text(self.name.as_str(), other.name.as_str())))
    }
}

impl PartialOrdSpecImpl for Place {
    open spec fn obeys_partial_cmp_spec() -> bool {
        true
    }

    open spec fn partial_cmp_spec(&self, other: &Place) -> Option<Ordering> {
        Some(then_order(order_i8(self.floor, other.floor), text_order(self.name@, other.name@)))
    }
}

/// Ordered by year.
impl PartialOrd for ClassInstance {
    fn partial_cmp(&self, other: &ClassInstance) -> (order: Option<Ordering>) {
        Some(compare_u32(self.year, other.year))
    }
}

impl PartialOrdSpecImpl for ClassInstance {
    open spec fn obeys_partial_cmp_spec() -> bool {
        true
    }

    open spec fn partial_cmp_spec(&self, other: &ClassInstance) -> Option<Ordering> {
        Some(order_u32(self.year, other.year))
    }
}

/// Ordered by number.
impl PartialOrd for Student {
    fn partial_cmp(&self, other: &Student) -> (order: Option<Ordering>) {
        Some(compare_u32(self.number, other.number))
    }
}

impl PartialOrdSpecImpl for Student {
    open spec fn obeys_partial_cmp_spec() -> bool {
        true
    }

    open spec fn partial_cmp_spec(&self, other: &Student) -> Option<Ordering> {
        Some(order_u32(self.number, other.number))
    }
}

/// Ordered by key.
impl PartialOrd for ClassInstanceFile {
    fn partial_cmp(&self, other: &ClassInstanceFile) -> (order: Option<Ordering>) {
        Some(compare_u32(self.id, other.id))
    }
}

impl PartialOrdSpecImpl for ClassInstanceFile {
    open spec fn obeys_partial_cmp_spec() -> bool {
        true
    }

    open spec fn partial_cmp_spec(&self, other: &ClassInstanceFile) -> Option<Ordering> {
        Some(order_u32(self.id, other.id))
    }
}

/// Ordered by the day on which they start.
impl PartialOrd for Event {
    fn partial_cmp(&self, other: &Event) -> (order: Option<Ordering>) {
        Some(self.start_date.compare(&other.start_date))
    }
}

impl PartialOrdSpecImpl for Event {
    open spec fn obeys_partial_cmp_spec() -> bool {
        true
    }

    open spec fn partial_cmp_spec(&self, other: &Event) -> Option<Ordering> {
        Some(self.start_date.order(other.start_date))
    }
}

impl ClassShift {
    /// Shifts of the same kind count as equal; shifts of different kinds
    /// are ordered by their numbers.
    pub open spec fn order(&self, other: ClassShift) -> Ordering {
        if self.shift_type.rank() == other.shift_type.rank() {
            Ordering::Equal
        } else {
            order_u16(self.number, other.number)
        }
    }
}

/// Ordered as [`ClassShift::order`] says.
impl PartialOrd for ClassShift {
    fn partial_cmp(&self, other: &ClassShift) -> (order: Option<Ordering>) {
        let type_ord = compare_u32(self.shift_type.position(), other.shift_type.position());
        match type_ord {
            Ordering::Equal => Some(type_ord),
            _ => Some(compare_u16(self.number, other.number)),
        }
    }
}

impl PartialOrdSpecImpl for ClassShift {
    open spec fn obeys_partial_cmp_spec() -> bool {
        true
    }

    open spec fn partial_cmp_spec(&self, other: &ClassShift) -> Option<Ordering> {
        Some(self.order(*other))
    }
}

/// Two meetings are the same if they are on the same day, at the same time, for as long.
impl PartialEq for ClassShiftInstance {
    fn eq(&self, other: &ClassShiftInstance) -> (same: bool) {
        self.weekday == other.weekday && self.start == other.start && self.duration == other.duration
    }
}

impl PartialEqSpecImpl for ClassShiftInstance {
    open spec fn obeys_eq_spec() -> bool {
        true
    }

    open spec fn eq_spec(&self, other: &ClassShiftInstance) -> bool {
        self.weekday == other.weekday && self.start == other.start && self.duration == other.duration
    }
}

impl Hash for ClassShiftInstance {
    fn hash<H: Hasher>(&self, state: &mut H) {
        self.weekday.position().hash(state);
        self.start.hash(state);
        self.duration.hash(state);
    }
}

impl ClassShiftInstance {
    /// Meetings on the same day of the week count as equal. Meetings on different days
    /// that start at the same time count as equal too; the others are ordered by how
    /// long they take.
    pub open spec fn order(&self, other: ClassShiftInstance) -> Ordering {
        if self.weekday.rank() == other.weekday.rank() {
            Ordering::Equal
        } else if self.start == other.start {
            Ordering::Equal
        } else {
            order_u16(self.duration, other.duration)
        }
    }
}

/// Ordered as [`ClassShiftInstance::order`] says.
impl PartialOrd for ClassShiftInstance {
    fn partial_cmp(&self, other: &ClassShiftInstance) -> (order: Option<Ordering>) {
        let weekday_ord = compare_u32(self.weekday.position(), other.weekday.position());
        Some(
            match weekday_ord {
                Ordering::Equal => weekday_ord,
                _ => {
                    let start_ord = compare_u16(self.start, other.start);
                    match start_ord {
                        Ordering::Equal => start_ord,
                        _ => compare_u16(self.duration, other.duration),
                    }
                },
            },
        )
    }
}

impl PartialOrdSpecImpl for ClassShiftInstance {
    open spec fn obeys_partial_cmp_spec() -> bool {
        true
    }

    open spec fn partial_cmp_spec(&self, other: &ClassShiftInstance) -> Option<Ordering> {
        Some(self.order(*other))
    }
}

/// Two announcements are the same if they read the same and were made at the same moment.
impl PartialEq for GroupAnnouncement {
    fn eq(&self, other: &GroupAnnouncement) -> (same: bool) {
        self.title.eq(&other.title) && self.content.eq(&other.content) && self.datetime == other.datetime
    }
}

impl PartialEqSpecImpl for GroupAnnouncement {
    open spec fn obeys_eq_spec() -> bool {
        true
    }

    open spec fn eq_spec(&self, other: &GroupAnnouncement) -> bool {
        self.title@ == other.title@ && self.content@ == other.content@ && self.datetime == other.datetime
    }
}

/// Two announcements of events are the same if they announce the same event at the same moment.
impl PartialEq for EventAnnouncement {
    fn eq(&self, other: &EventAnnouncement) -> (same: bool) {
        self.event.identifier == other.event.identifier && self.datetime == other.datetime
    }
}

impl PartialEqSpecImpl for EventAnnouncement {
    open spec fn obeys_eq_spec() -> bool {
        true
    }

    open spec fn eq_spec(&self, other: &EventAnnouncement) -> bool {
        self.event.identifier == other.event.identifier && self.datetime == other.datetime
    }
}

/// Two uploads are the same if they hold the same item and were made at the same moment.
impl PartialEq for GalleryUpload {
    fn eq(&self, other: &GalleryUpload) -> (same: bool) {
        self.item == other.item && self.datetime == other.datetime
    }
}

impl PartialEqSpecImpl for GalleryUpload {
    open spec fn obeys_eq_spec() -> bool {
        true
    }

    open spec fn eq_spec(&self, other: &GalleryUpload) -> bool {
        self.item == other.item && self.datetime == other.datetime
    }
}

impl GroupActivity {
    /// The moment of the activity.
    pub open spec fn moment(&self) -> Instant {
        match *self {
            GroupActivity::Announcement(announcement) => announcement.datetime,
            GroupActivity::EventAnnouncement(event_announcement) => event_announcement.datetime,
            GroupActivity::GalleryUpload(gallery_upload) => gallery_upload.datetime,
        }
    }

    pub fn datetime(&self) -> (moment: Instant)
        ensures
            moment == self.moment(),
    {
        match self {
            GroupActivity::Announcement(announcement) => announcement.datetime,
            GroupActivity::EventAnnouncement(event_announcement) => event_announcement.datetime,
            GroupActivity::GalleryUpload(gallery_upload) => gallery_upload.datetime,
        }
    }

    /// Two activities are the same if they are of the same kind and the same as such.
    pub open spec fn same(&self, other: GroupActivity) -> bool {
        match *self {
            GroupActivity::Announcement(activity) => other matches GroupActivity::Announcement(
                second,
            ) && PartialEqSpec::eq_spec(&activity, &second),
            GroupActivity::EventAnnouncement(activity) => other matches GroupActivity::EventAnnouncement(
                second,
            ) && PartialEqSpec::eq_spec(&activity, &second),
            GroupActivity::GalleryUpload(activity) => other matches GroupActivity::GalleryUpload(
                second,
            ) && PartialEqSpec::eq_spec(&activity, &second),
        }
    }
}

/// The same as [`GroupActivity::same`] says.
impl PartialEq for GroupActivity {
    fn eq(&self, other: &GroupActivity) -> (same: bool) {
        match self {
            GroupActivity::Announcement(activity) => match other {
                GroupActivity::Announcement(second) => activity.eq(second),
                _ => false,
            },
            GroupActivity::EventAnnouncement(activity) => match other {
                GroupActivity::EventAnnouncement(second) => activity.eq(second),
                _ => false,
            },
            GroupActivity::GalleryUpload(activity) => match other {
                GroupActivity::GalleryUpload(second) => activity.eq(second),
                _ => false,
            },
        }
    }
}

impl PartialEqSpecImpl for GroupActivity {
    open spec fn obeys_eq_spec() -> bool {
        true
    }

    open spec fn eq_spec(&self, other: &GroupActivity) -> bool {
        self.same(*other)
    }
}

/// Ordered by their moments, whatever their kinds.
impl PartialOrd for GroupActivity {
    fn partial_cmp(&self, other: &GroupActivity) -> (order: Option<Ordering>) {
        Some(self.datetime().compare(&other.datetime()))
    }
}

impl PartialOrdSpecImpl for GroupActivity {
    open spec fn obeys_partial_cmp_spec() -> bool {
        true
    }

    open spec fn partial_cmp_spec(&self, other: &GroupActivity) -> Option<Ordering> {
        Some(self.moment().order(other.moment()))
    }
}

/// Two schedulings are the same if they agree in everything.
impl PartialEq for GroupSchedulingOnce {
    fn eq(&self, other: &GroupSchedulingOnce) -> (same: bool) {
        is_same_text(&self.title, &other.title)
            && self.datetime == other.datetime
            && self.duration == other.duration
            && self.revoked == other.revoked
    }
}

impl PartialEqSpecImpl for GroupSchedulingOnce {
    open spec fn obeys_eq_spec() -> bool {
        true
    }

    open spec fn eq_spec(&self, other: &GroupSchedulingOnce) -> bool {
        same_text(self.title, other.title)
            && self.datetime == other.datetime
            && self.duration == other.duration
            && self.revoked == other.revoked
    }
}

/// Ordered by their moments.
impl PartialOrd for GroupSchedulingOnce {
    fn partial_cmp(&self, other: &GroupSchedulingOnce) -> (order: Option<Ordering>) {
        Some(self.datetime.compare(&other.datetime))
    }
}

impl PartialOrdSpecImpl for GroupSchedulingOnce {
    open spec fn obeys_partial_cmp_spec() -> bool {
        true
    }

    open spec fn partial_cmp_spec(&self, other: &GroupSchedulingOnce) -> Option<Ordering> {
        Some(self.datetime.order(other.datetime))
    }
}

/// Two schedulings are the same if they agree in everything.
impl PartialEq for GroupSchedulingPeriodic {
    fn eq(&self, other: &GroupSchedulingPeriodic) -> (same: bool) {
        is_same_text(&self.title, &other.title)
            && self.weekday == other.weekday
            && self.time == other.time
            && self.start_date == other.start_date
            && self.end_date == other.end_date
            && self.duration == other.duration
            && self.revoked == other.revoked
    }
}

impl PartialEqSpecImpl for GroupSchedulingPeriodic {
    open spec fn obeys_eq_spec() -> bool {
        true
    }

    open spec fn eq_spec(&self, other: &GroupSchedulingPeriodic) -> bool {
        same_text(self.title, other.title)
            && self.weekday == other.weekday
            && self.time == other.time
            && self.start_date == other.start_date
            && self.end_date == other.end_date
            && self.duration == other.duration
            && self.revoked == other.revoked
    }
}

impl GroupSchedulingPeriodic {
    /// By the day of the week, then by the time of day, then by how long they take.
    pub open spec fn order(&self, other: GroupSchedulingPeriodic) -> Ordering {
        then_order(
            order_u32(self.weekday.rank(), other.weekday.rank()),
            then_order(self.time.order(other.time), order_u16(self.duration, other.duration)),
        )
    }
}

/// Ordered as [`GroupSchedulingPeriodic::order`] says.
impl PartialOrd for GroupSchedulingPeriodic {
    fn partial_cmp(&self, other: &GroupSchedulingPeriodic) -> (order: Option<Ordering>) {
        let weekday_ord = compare_u32(self.weekday.position(), other.weekday.position());
        Some(
            match weekday_ord {
                Ordering::Equal => {
                    let time_ord = self.time.compare(&other.time);
                    match time_ord {
                        Ordering::Equal => compare_u16(self.duration, other.duration),
                        _ => time_ord,
                    }
                },
                _ => weekday_ord,
            },
        )
    }
}

impl PartialOrdSpecImpl for GroupSchedulingPeriodic {
    open spec fn obeys_partial_cmp_spec() -> bool {
        true
    }

    open spec fn partial_cmp_spec(&self, other: &GroupSchedulingPeriodic) -> Option<Ordering> {
        Some(self.order(*other))
    }
}

impl GroupScheduling {
    /// Two schedulings are the same if they are of the same kind and the same as such.
    pub open spec fn same(&self, other: GroupScheduling) -> bool {
        match *self {
            GroupScheduling::Once(scheduling) => other matches GroupScheduling::Once(second)
                && PartialEqSpec::eq_spec(&scheduling, &second),
            GroupScheduling::Periodic(scheduling) => other matches GroupScheduling::Periodic(
                second,
            ) && PartialEqSpec::eq_spec(&scheduling, &second),
        }
    }

    /// Schedulings for one time come before those that repeat;
    /// two of a kind are ordered as their kind is.
    pub open spec fn order(&self, other: GroupScheduling) -> Ordering {
        match *self {
            GroupScheduling::Once(scheduling) => match other {
                GroupScheduling::Once(second) => scheduling.datetime.order(second.datetime),
                GroupScheduling::Periodic(_) => Ordering::Less,
            },
            GroupScheduling::Periodic(scheduling) => match other {
                GroupScheduling::Once(_) => Ordering::Greater,
                GroupScheduling::Periodic(second) => scheduling.order(second),
            },
        }
    }
}

/// The same as [`GroupScheduling::same`] says.
impl PartialEq for GroupScheduling {
    fn eq(&self, other: &GroupScheduling) -> (same: bool) {
        match self {
            GroupScheduling::Once(scheduling) => match other {
                GroupScheduling::Once(second) => scheduling.eq(second),
                _ => false,
            },
            GroupScheduling::Periodic(scheduling) => match other {
                GroupScheduling::Periodic(second) => scheduling.eq(second),
                _ => false,
            },
        }
    }
}

impl PartialEqSpecImpl for GroupScheduling {
    open spec fn obeys_eq_spec() -> bool {
        true
    }

    open spec fn eq_spec(&self, other: &GroupScheduling) -> bool {
        self.same(*other)
    }
}

/// Ordered as [`GroupScheduling::order`] says.
impl PartialOrd for GroupScheduling {
    fn partial_cmp(&self, other: &GroupScheduling) -> (order: Option<Ordering>) {
        match self {
            GroupScheduling::Once(scheduling) => match other {
                GroupScheduling::Once(second) => scheduling.partial_cmp(second),
                GroupScheduling::Periodic(_) => Some(Ordering::Less),
            },
            GroupScheduling::Periodic(scheduling) => match other {
                GroupScheduling::Once(_) => Some(Ordering::Greater),
                GroupScheduling::Periodic(second) => scheduling.partial_cmp(second),
            },
        }
    }
}

impl PartialOrdSpecImpl for GroupScheduling {
    open spec fn obeys_partial_cmp_spec() -> bool {
        true
    }

    open spec fn partial_cmp_spec(&self, other: &GroupScheduling) -> Option<Ordering> {
        Some(self.order(*other))
    }
}

} // verus!
