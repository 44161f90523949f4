//! The entities as a caller sees them: relations are references that can be followed.
use crate::coersion::{
    follow, follow_all, followed, followed_all, CoersibleEntity, ObjRef, Step, Steps,
};
use crate::errors::Error;
use crate::keys::{
    BuildingKey, ClassInstanceKey, CourseKey, DepartmentKey, EnrollmentKey, EventKey,
    EventsPageKey, GroupKey, NewsItemKey, NewsPageKey, PlaceKey, ShiftKey, StudentKey, TeacherKey,
    UserKey,
};
use crate::network::endpoints::Endpoint;
use crate::network::http::plain_get;
use crate::network::models as nmodels;
pub use crate::network::models::{ClassInfo, ClassInfoEntry, ClassInfoSources};
use crate::once::held;
use crate::shared::share;
use crate::thumbs::{put_thumb_bytes, thumb_answer, thumb_bytes, thumb_kept};
use crate::time::{Date, Instant, TimeOfDay};
use crate::{Supernova, SupernovaView};
use once_cell::sync::OnceCell;
use std::sync::Arc;
use vstd::prelude::*;

verus! {

#[derive(Debug, PartialEq, Eq, Hash, Clone, Copy, Ord, PartialOrd, Structural)]
pub enum Weekday {
    Monday,
    Thursday,
    Wednesday,
    Tuesday,
    Friday,
    Saturday,
    Sunday,
}

#[derive(Debug, PartialEq, Eq, Hash, Clone, Copy, Ord, PartialOrd, Structural)]
pub enum Period {
    Year,
    FirstSemester,
    SecondSemester,
    FirstTrimester,
    SecondTrimester,
    ThirdTrimester,
    FourthTrimester,
}

#[derive(Debug, PartialEq, Eq, Hash, Clone, Copy, Ord, PartialOrd, Structural)]
pub enum Degree {
    BSc,
    MSc,
    PhD,
    IntegratedMSc,
    PostGraduation,
    AdvancedStudies,
    PreGraduation,
}

#[derive(Debug, PartialEq, Eq, Hash, Clone, Copy, Ord, PartialOrd, Structural)]
pub enum ShiftType {
    Theoretical,
    Practical,
    PracticalTheoretical,
    Seminar,
    TutorialOrientation,
    FieldWork,
    OnlineTheoretical,
    OnlinePractical,
    OnlinePracticalTheoretical,
}

#[derive(Debug, PartialEq, Eq, Hash, Clone, Copy, Ord, PartialOrd, Structural)]
pub enum FileCategory {
    Image,
    Slides,
    Problems,
    Protocol,
    Seminar,
    Exam,
    Test,
    Support,
    Others,
}

#[derive(Debug, PartialEq, Eq, Hash, Clone, Copy, Ord, PartialOrd, Structural)]
pub enum FileLicense {
    RightsReserved,
    PublicDomain,
    GPL,
    MIT,
    BSD,
    CCBy,
    CCBySa,
    CCByNc,
    CCBySaNc,
    GenericPermissive,
}

#[derive(Debug, PartialEq, Eq, Hash, Clone, Copy, Ord, PartialOrd, Structural)]
pub enum FileVisibility {
    Public,
    Students,
    Enrolled,
    Nobody,
}

#[derive(Debug, PartialEq, Eq, Hash, Clone, Copy, Ord, PartialOrd, Structural)]
pub enum Season {
    Normal,
    Exam,
    Special,
}

#[derive(Debug, PartialEq, Eq, Hash, Clone, Copy, Ord, PartialOrd, Structural)]
pub enum ClassEventType {
    Test,
    Exam,
    Discussion,
    FieldTrip,
    ProjectAnnouncement,
    ProjectDelivery,
    AdditionalClass,
    Presentation,
    Seminar,
    Talk,
}

#[derive(Debug, PartialEq, Eq, Hash, Clone, Copy, Ord, PartialOrd, Structural)]
pub enum RoomType {
    Generic,
    Classroom,
    Auditorium,
    Laboratory,
    Computer,
    Meeting,
    Masters,
    Cabinet,
}

#[derive(Debug, Clone)]
pub struct Department {
    pub id: u32,
    pub name: String,
    pub description: Option<String>,
    pub courses: Vec<ObjRef<Course, CourseKey>>,
    pub building: Option<ObjRef<Building, BuildingKey>>,
}

#[derive(Debug, Clone)]
pub struct Building {
    pub id: u32,
    pub name: String,
    pub abbreviation: String,
    pub places: Vec<ObjRef<Place, PlaceKey>>,
}

#[derive(Debug, Clone)]
pub struct Place {
    pub id: PlaceKey,
    pub variant: PlaceVariant,
    pub name: String,
    pub floor: i8,
    pub building: Option<ObjRef<Building, BuildingKey>>,
    pub picture: Option<String>,
    pub picture_cover: Option<String>,
}

#[derive(Debug, Clone)]
pub enum PlaceVariant {
    Generic,
    Room(Room),
}

#[derive(Debug, Clone)]
pub struct Room {
    pub department: Option<ObjRef<Department, DepartmentKey>>,
    pub capacity: Option<u16>,
    pub door_number: Option<u16>,
    pub room_type: RoomType,
    pub description: Option<String>,
    pub equipment: Option<String>,
}

#[derive(Debug, Clone)]
pub struct Course {
    pub id: u32,
    pub abbreviation: String,
    pub name: String,
    pub degree: Degree,
    pub department: Option<ObjRef<Department, DepartmentKey>>,
}

#[derive(Debug, Clone)]
pub struct Class {
    pub id: u32,
    pub name: String,
    pub abbreviation: String,
    pub credits: u32,
    pub department: Option<ObjRef<Department, DepartmentKey>>,
    pub instances: Vec<ObjRef<ClassInstance, ClassInstanceKey>>,
}

#[derive(Debug, Clone)]
pub struct ClassInstance {
    pub id: u32,
    pub year: u32,
    pub period: Period,
    pub enrollments: Vec<ObjRef<Enrollment, EnrollmentKey>>,
    pub information: Option<ClassInfo>,
    /// The average grade, as the bits of a 32-bit binary floating-point number.
    pub avg_grade: Option<u32>,
    pub shifts: Vec<ObjRef<ClassShift, ShiftKey>>,
    pub department: Option<ObjRef<Department, DepartmentKey>>,
}

#[derive(Debug, Clone)]
pub struct ClassShift {
    pub id: u32,
    pub number: u16,
    pub shift_type: ShiftType,
    pub teachers: Vec<ObjRef<Teacher, TeacherKey>>,
    pub instances: Vec<ClassShiftInstance>,
}

#[derive(Debug, Clone)]
pub struct ClassShiftInstance {
    pub weekday: Weekday,
    pub start: u16,
    pub duration: u16,
    pub room: Option<ObjRef<Place, PlaceKey>>,
}

#[derive(Debug, Clone)]
pub struct ClassInstanceFiles {
    pub official: Vec<ClassInstanceFile>,
    pub community: Vec<ClassInstanceFile>,
}

#[derive(Debug, Clone)]
pub struct ClassInstanceFile {
    pub id: u32,
    pub file: File,
    pub name: String,
    pub category: FileCategory,
    pub upload_datetime: String,
    pub uploader: Option<u32>,
    pub uploader_teacher: Option<u32>,
    pub url: String,
}

#[derive(Debug, Clone)]
pub struct File {
    pub hash: String,
    pub size: u32,
    pub mime: String,
    pub license: String,
    pub url: String,
}

#[derive(Debug, Clone)]
pub struct Student {
    pub id: StudentKey,
    pub name: String,
    pub abbreviation: Option<String>,
    pub number: u32,
    pub enrollments: Vec<ObjRef<Enrollment, EnrollmentKey>>,
    pub shifts: Vec<ObjRef<ClassShift, ShiftKey>>,
    pub first_year: Option<u32>,
    pub last_year: Option<u32>,
    pub course: Option<ObjRef<Course, CourseKey>>,
    pub avg_grade: Option<u32>,
    pub url: String,
}

#[derive(Debug, Clone)]
pub struct Teacher {
    pub id: u32,
    pub name: String,
    pub abbreviation: Option<String>,
    pub first_year: Option<u32>,
    pub last_year: Option<u32>,
    pub phone: Option<String>,
    pub email: Option<String>,
    pub thumb: Option<String>,
    pub rank: Option<String>,
    pub departments: Vec<ObjRef<Department, DepartmentKey>>,
    pub shifts: Vec<ObjRef<ClassShift, ShiftKey>>,
    pub url: String,
    /// The bytes of the thumbnail, once they were fetched.
    pub thumb_cache: OnceCell<Vec<u8>>,
}

#[derive(Debug, Clone)]
pub struct Enrollment {
    pub id: EnrollmentKey,
    pub class_instance: ObjRef<ClassInstance, ClassInstanceKey>,
    pub student: ObjRef<Student, StudentKey>,
    pub attendance: Option<bool>,
    pub attendance_date: Option<String>,
    pub normal_grade: Option<u8>,
    pub normal_grade_date: Option<String>,
    pub recourse_grade: Option<u8>,
    pub recourse_grade_date: Option<String>,
    pub special_grade: Option<u8>,
    pub special_grade_date: Option<String>,
    pub improvement_grade: Option<u8>,
    pub improvement_grade_date: Option<String>,
    pub approved: Option<bool>,
    pub grade: Option<u8>,
}

#[derive(Debug, PartialEq, Eq, Copy, Clone, Structural)]
pub struct User {
    pub id: UserKey,
}

#[derive(Debug, PartialEq, Eq, Copy, Clone, Structural)]
pub enum GroupType {
    Institutional,
    Nuclei,
    AcademicAssociation,
    Pedagogic,
    Praxis,
    Community,
}

#[derive(Debug, PartialEq, Eq, Copy, Clone, Structural)]
pub enum GroupVisibility {
    Secret,
    Closed,
    Request,
    Open,
}

#[derive(Debug, PartialEq, Eq, Copy, Clone, Structural)]
pub enum GroupEventType {
    Generic,
    Talk,
    Workshop,
    Party,
    Contest,
    Fair,
    Meeting,
}

/// A group. What a listing of all groups does not tell of it is there
/// once the group was asked for by itself.
#[derive(Debug, Clone)]
pub struct Group {
    pub id: GroupKey,
    pub name: String,
    pub abbreviation: String,
    pub url: String,
    pub thumb: Option<String>,
    pub group_type: GroupType,
    pub official: bool,
    /// What only the group's own page tells, once it was fetched.
    pub details: Option<GroupDetails>,
    /// The bytes of the thumbnail, once they were fetched.
    pub thumb_cache: OnceCell<Vec<u8>>,
}

/// What only a group's own page tells of it.
#[derive(Debug, Clone)]
pub struct GroupDetails {
    pub outsiders_openness: GroupVisibility,
    pub activities: Vec<GroupActivity>,
    pub schedulings: Vec<GroupScheduling>,
    pub events: Vec<Event>,
}

#[derive(Debug, Clone)]
pub enum GroupActivity {
    Announcement(GroupAnnouncement),
    EventAnnouncement(EventAnnouncement),
    GalleryUpload(GalleryUpload),
}

#[derive(Debug, Clone)]
pub struct GroupAnnouncement {
    pub author: ObjRef<User, UserKey>,
    pub title: String,
    pub content: String,
    pub datetime: Instant,
}

#[derive(Debug, Clone)]
pub struct EventAnnouncement {
    pub author: ObjRef<User, UserKey>,
    pub event: ObjRef<Event, EventKey>,
    pub datetime: Instant,
}

#[derive(Debug, Clone)]
pub struct GalleryUpload {
    pub author: ObjRef<User, UserKey>,
    pub datetime: Instant,
    pub item: GalleryItem,
}

#[derive(Debug, PartialEq, Eq, Hash, Clone, PartialOrd, Structural)]
pub struct GalleryItem {
}

#[derive(Debug, Eq, Hash, Clone)]
pub enum GroupScheduling {
    Once(GroupSchedulingOnce),
    Periodic(GroupSchedulingPeriodic),
}

#[derive(Debug, Eq, Hash, Clone)]
pub struct GroupSchedulingOnce {
    pub title: Option<String>,
    pub datetime: Instant,
    pub duration: u16,
    pub revoked: bool,
}

#[derive(Debug, Eq, Hash, Clone)]
pub struct GroupSchedulingPeriodic {
    pub title: Option<String>,
    pub weekday: Weekday,
    pub time: TimeOfDay,
    pub start_date: Date,
    pub end_date: Date,
    pub duration: u16,
    pub revoked: bool,
}

#[derive(Debug, Clone)]
pub struct Event {
    pub id: EventKey,
    pub title: String,
    pub description: String,
    pub start_date: Date,
    pub duration: Option<u16>,
    pub place: Option<ObjRef<Place, PlaceKey>>,
    pub capacity: Option<u32>,
    pub cost: Option<u32>,
    pub event_type: GroupEventType,
}

/// One page of the feed of events.
#[derive(Debug, Clone)]
pub struct EventsPage {
    pub previous_page: Option<Arc<EventsPage>>,
    pub next_page: ObjRef<Option<Arc<EventsPage>>, EventsPageKey>,
    pub items: Vec<Arc<Event>>,
}

/// One page of the feed of news.
#[derive(Debug, Clone)]
pub struct NewsPage {
    pub previous_page: Option<Arc<NewsPage>>,
    pub next_page: ObjRef<Option<Arc<NewsPage>>, NewsPageKey>,
    pub items: Vec<Arc<NewsItem>>,
}

#[derive(Debug, Clone)]
pub struct NewsItem {
    pub id: NewsItemKey,
    pub title: String,
    pub summary: String,
    pub datetime: Instant,
    pub thumb: Option<String>,
    pub url: String,
    /// The bytes of the thumbnail, once they were fetched.
    pub thumb_cache: OnceCell<Vec<u8>>,
}

impl Department {
    /// The building of the department, if it has one: the entity, where the cache knows it,
    /// or the request for it.
    pub fn get_building(&self, client: &Supernova) -> (outcome: Result<Option<Step<Building>>, Error>)
        ensures
            followed(self.building, client@, outcome),
    {
        follow(&self.building, client)
    }

    /// The courses of the department: all of them, where the cache knows them all, or what the
    /// first one that it does not know comes to, with its place among them.
    pub fn get_courses(&self, client: &Supernova) -> (outcome: Result<Steps<Course>, Error>)
        ensures
            followed_all(self.courses@, client@, outcome),
    {
        follow_all(&self.courses, client)
    }
}

impl Place {
    /// The building of the place, if it has one: the entity, where the cache knows it,
    /// or the request for it.
    pub fn get_building(&self, client: &Supernova) -> (outcome: Result<Option<Step<Building>>, Error>)
        ensures
            followed(self.building, client@, outcome),
    {
        follow(&self.building, client)
    }
}

impl Room {
    /// The department of the room, if it has one: the entity, where the cache knows it,
    /// or the request for it.
    pub fn get_department(&self, client: &Supernova) -> (outcome: Result<Option<Step<Department>>, Error>)
        ensures
            followed(self.department, client@, outcome),
    {
        follow(&self.department, client)
    }
}

impl Course {
    /// The department of the course, if it has one: the entity, where the cache knows it,
    /// or the request for it.
    pub fn get_department(&self, client: &Supernova) -> (outcome: Result<Option<Step<Department>>, Error>)
        ensures
            followed(self.department, client@, outcome),
    {
        follow(&self.department, client)
    }
}

impl Class {
    /// The department of the class, if it has one: the entity, where the cache knows it,
    /// or the request for it.
    pub fn get_department(&self, client: &Supernova) -> (outcome: Result<Option<Step<Department>>, Error>)
        ensures
            followed(self.department, client@, outcome),
    {
        follow(&self.department, client)
    }

    /// The instances of the class: all of them, where the cache knows them all, or what the
    /// first one that it does not know comes to, with its place among them.
    pub fn get_instances(&self, client: &Supernova) -> (outcome: Result<Steps<ClassInstance>, Error>)
        ensures
            followed_all(self.instances@, client@, outcome),
    {
        follow_all(&self.instances, client)
    }
}

impl ClassInstance {
    /// The department of the class instance, if it has one: the entity, where the cache knows it,
    /// or the request for it.
    pub fn get_department(&self, client: &Supernova) -> (outcome: Result<Option<Step<Department>>, Error>)
        ensures
            followed(self.department, client@, outcome),
    {
        follow(&self.department, client)
    }

    /// The enrollments in the class instance: all of them, where the cache knows them all, or what the
    /// first one that it does not know comes to, with its place among them.
    pub fn get_enrollments(&self, client: &Supernova) -> (outcome: Result<Steps<Enrollment>, Error>)
        ensures
            followed_all(self.enrollments@, client@, outcome),
    {
        follow_all(&self.enrollments, client)
    }

    /// The shifts of the class instance: all of them, where the cache knows them all, or what the
    /// first one that it does not know comes to, with its place among them.
    pub fn get_shifts(&self, client: &Supernova) -> (outcome: Result<Steps<ClassShift>, Error>)
        ensures
            followed_all(self.shifts@, client@, outcome),
    {
        follow_all(&self.shifts, client)
    }
}

impl Student {
    /// The course of the student, if it has one: the entity, where the cache knows it,
    /// or the request for it.
    pub fn get_course(&self, client: &Supernova) -> (outcome: Result<Option<Step<Course>>, Error>)
        ensures
            followed(self.course, client@, outcome),
    {
        follow(&self.course, client)
    }

    /// The enrollments of the student: all of them, where the cache knows them all, or what the
    /// first one that it does not know comes to, with its place among them.
    pub fn get_enrollments(&self, client: &Supernova) -> (outcome: Result<Steps<Enrollment>, Error>)
        ensures
            followed_all(self.enrollments@, client@, outcome),
    {
        follow_all(&self.enrollments, client)
    }

    /// The shifts of the student: all of them, where the cache knows them all, or what the
    /// first one that it does not know comes to, with its place among them.
    pub fn get_shifts(&self, client: &Supernova) -> (outcome: Result<Steps<ClassShift>, Error>)
        ensures
            followed_all(self.shifts@, client@, outcome),
    {
        follow_all(&self.shifts, client)
    }
}

impl ClassShiftInstance {
    /// The place where the shift meets, if it has one: the entity, where the cache knows it,
    /// or the request for it.
    pub fn get_place(&self, client: &Supernova) -> (outcome: Result<Option<Step<Place>>, Error>)
        ensures
            followed(self.room, client@, outcome),
    {
        follow(&self.room, client)
    }
}

impl Event {
    /// The place of the event, if it has one: the entity, where the cache knows it,
    /// or the request for it.
    pub fn place(&self, client: &Supernova) -> (outcome: Result<Option<Step<Place>>, Error>)
        ensures
            followed(self.place, client@, outcome),
    {
        follow(&self.place, client)
    }
}

impl Building {
    /// The places of the building: all of them, where the cache knows them all, or what the
    /// first one that it does not know comes to, with its place among them.
    pub fn get_rooms(&self, client: &Supernova) -> (outcome: Result<Steps<Place>, Error>)
        ensures
            followed_all(self.places@, client@, outcome),
    {
        follow_all(&self.places, client)
    }
}

impl Teacher {
    /// The departments of the teacher: all of them, where the cache knows them all, or what the
    /// first one that it does not know comes to, with its place among them.
    pub fn get_departments(&self, client: &Supernova) -> (outcome: Result<Steps<Department>, Error>)
        ensures
            followed_all(self.departments@, client@, outcome),
    {
        follow_all(&self.departments, client)
    }

    /// The shifts of the teacher: all of them, where the cache knows them all, or what the
    /// first one that it does not know comes to, with its place among them.
    pub fn get_shifts(&self, client: &Supernova) -> (outcome: Result<Steps<ClassShift>, Error>)
        ensures
            followed_all(self.shifts@, client@, outcome),
    {
        follow_all(&self.shifts, client)
    }

    /// The bytes of the thumbnail, if there is a thumbnail: those that are kept,
    /// or the request for them.
    pub fn thumb_bytes(&self, client: &Supernova) -> (answer: Option<Step<Vec<u8>>>)
        ensures
            thumb_answer(self.thumb, held(self.thumb_cache), client@, answer),
    {
        thumb_bytes(&self.thumb, &self.thumb_cache, client)
    }

    /// Takes the answer to the request for the bytes of the thumbnail: a copy of the
    /// bytes is kept, unless some are kept already, and the answer is handed on.
    pub fn put_thumb_bytes(&mut self, response: Result<Vec<u8>, Error>) -> (outcome: Result<
        Vec<u8>,
        Error,
    >)
        ensures
            *final(self) == (Teacher { thumb_cache: final(self).thumb_cache, ..*old(self) }),
            held(final(self).thumb_cache) == thumb_kept(held(old(self).thumb_cache), response),
            outcome == response,
    {
        put_thumb_bytes(&mut self.thumb_cache, response)
    }
}

impl ClassShift {
    /// The teachers of the shift: all of them, where the cache knows them all, or what the
    /// first one that it does not know comes to, with its place among them.
    pub fn get_teachers(&self, client: &Supernova) -> (outcome: Result<Steps<Teacher>, Error>)
        ensures
            followed_all(self.teachers@, client@, outcome),
    {
        follow_all(&self.teachers, client)
    }
}

impl Enrollment {
    /// The student who is enrolled: the entity, where the cache knows it, or the request for it.
    pub fn get_student(&self, client: &Supernova) -> (outcome: Result<Step<Student>, Error>)
        ensures
            Student::coerced(self.student.identifier, client@, outcome),
    {
        self.student.coerce(client)
    }

    /// The class instance that the enrollment is in: the entity, where the cache knows it, or the request for it.
    pub fn get_class_instance(&self, client: &Supernova) -> (outcome: Result<Step<ClassInstance>, Error>)
        ensures
            ClassInstance::coerced(self.class_instance.identifier, client@, outcome),
    {
        self.class_instance.coerce(client)
    }
}

impl NewsItem {
    /// The bytes of the thumbnail, if there is a thumbnail: those that are kept,
    /// or the request for them.
    pub fn thumb_bytes(&self, client: &Supernova) -> (answer: Option<Step<Vec<u8>>>)
        ensures
            thumb_answer(self.thumb, held(self.thumb_cache), client@, answer),
    {
        thumb_bytes(&self.thumb, &self.thumb_cache, client)
    }

    /// Takes the answer to the request for the bytes of the thumbnail: a copy of the
    /// bytes is kept, unless some are kept already, and the answer is handed on.
    pub fn put_thumb_bytes(&mut self, response: Result<Vec<u8>, Error>) -> (outcome: Result<
        Vec<u8>,
        Error,
    >)
        ensures
            *final(self) == (NewsItem { thumb_cache: final(self).thumb_cache, ..*old(self) }),
            held(final(self).thumb_cache) == thumb_kept(held(old(self).thumb_cache), response),
            outcome == response,
    {
        put_thumb_bytes(&mut self.thumb_cache, response)
    }
}

impl Group {
    /// What asking for something that only the group's own page tells comes to:
    /// `told`, where the page was fetched already, and else the request for the page.
    pub open spec fn tells<T>(
        &self,
        client: SupernovaView,
        told: spec_fn(GroupDetails, T) -> bool,
        step: Step<T>,
    ) -> bool {
        match self.details {
            Some(details) => step matches Step::Ready(value) && told(details, value),
            None => step.asks(plain_get(Endpoint::Group(self.id).address(client.upstream))),
        }
    }

    /// Makes sure that what only the group's own page tells is there:
    /// the request for the page, unless it was fetched already.
    pub fn upgrade(&self, client: &Supernova) -> (step: Step<()>)
        ensures
            self.tells(client@, |details: GroupDetails, nothing: ()| true, step),
    {
        match &self.details {
            Some(_) => Step::Ready(()),
            None => self.page_request(client),
        }
    }

    /// The request for the group's own page.
    fn page_request<T>(&self, client: &Supernova) -> (step: Step<T>)
        ensures
            step.asks(plain_get(Endpoint::Group(self.id).address(client@.upstream))),
    {
        Step::Fetch(client.group_request(self.id))
    }

    /// Takes the answer to the request for the group's own page: what the page tells is
    /// there from now on, unless it was there already. Where no page came, nothing changes.
    pub fn put_upgrade(&mut self, response: Result<nmodels::Group, Error>) -> (outcome: Result<
        (),
        Error,
    >)
        ensures
            *final(self) == (Group { details: final(self).details, ..*old(self) }),
            match response {
                Ok(net) => outcome is Ok && match old(self).details {
                    Some(details) => final(self).details == Some(details),
                    None => final(self).details matches Some(details) && details.is_link_of(net),
                },
                Err(error) => final(self).details == old(self).details && outcome == Err::<
                    (),
                    Error,
                >(error),
            },
    {
        match response {
            Ok(net) => {
                if self.details.is_none() {
                    self.details = Some(net.link_details());
                }
                Ok(())
            },
            Err(error) => Err(error),
        }
    }

    /// How open the group is to outsiders.
    pub fn outsider_openness(&self, client: &Supernova) -> (step: Step<GroupVisibility>)
        ensures
            self.tells(
                client@,
                |details: GroupDetails, openness: GroupVisibility|
                    openness == details.outsiders_openness,
                step,
            ),
    {
        match &self.details {
            Some(details) => Step::Ready(details.outsiders_openness),
            None => self.page_request(client),
        }
    }

    /// What the group has done of late.
    pub fn activities(&self, client: &Supernova) -> (step: Step<&[GroupActivity]>)
        ensures
            self.tells(
                client@,
                |details: GroupDetails, activities: &[GroupActivity]|
                    activities@ == details.activities@,
                step,
            ),
    {
        match &self.details {
            Some(details) => Step::Ready(details.activities.as_slice()),
            None => self.page_request(client),
        }
    }

    /// When the group meets.
    pub fn schedulings(&self, client: &Supernova) -> (step: Step<&[GroupScheduling]>)
        ensures
            self.tells(
                client@,
                |details: GroupDetails, schedulings: &[GroupScheduling]|
                    schedulings@ == details.schedulings@,
                step,
            ),
    {
        match &self.details {
            Some(details) => Step::Ready(details.schedulings.as_slice()),
            None => self.page_request(client),
        }
    }

    /// The events of the group.
    pub fn events(&self, client: &Supernova) -> (step: Step<&[Event]>)
        ensures
            self.tells(
                client@,
                |details: GroupDetails, events: &[Event]| events@ == details.events@,
                step,
            ),
    {
        match &self.details {
            Some(details) => Step::Ready(details.events.as_slice()),
            None => self.page_request(client),
        }
    }

    /// The bytes of the thumbnail, if there is a thumbnail: those that are kept,
    /// or the request for them.
    pub fn thumb_bytes(&self, client: &Supernova) -> (answer: Option<Step<Vec<u8>>>)
        ensures
            thumb_answer(self.thumb, held(self.thumb_cache), client@, answer),
    {
        thumb_bytes(&self.thumb, &self.thumb_cache, client)
    }

    /// Takes the answer to the request for the bytes of the thumbnail: a copy of the
    /// bytes is kept, unless some are kept already, and the answer is handed on.
    pub fn put_thumb_bytes(&mut self, response: Result<Vec<u8>, Error>) -> (outcome: Result<
        Vec<u8>,
        Error,
    >)
        ensures
            *final(self) == (Group { thumb_cache: final(self).thumb_cache, ..*old(self) }),
            held(final(self).thumb_cache) == thumb_kept(held(old(self).thumb_cache), response),
            outcome == response,
    {
        put_thumb_bytes(&mut self.thumb_cache, response)
    }
}

impl EventsPage {
    /// The items of this page, in their order.
    pub fn items(&self) -> (items: &[Arc<Event>])
        ensures
            items@ == self.items@,
    {
        self.items.as_slice()
    }

    /// The page before this one, if this page holds it.
    pub fn predecessor(&self) -> (page: Option<Arc<EventsPage>>)
        ensures
            page == self.previous_page,
    {
        match &self.previous_page {
            Some(page) => Some(share(page)),
            None => None,
        }
    }

    /// The page after this one: always the request for it, since no page is known
    /// before it is fetched. Whether there is such a page shows when the answer comes.
    pub fn successor(&self, client: &Supernova) -> (outcome: Result<
        Step<Option<Arc<EventsPage>>>,
        Error,
    >)
        ensures
            <Option<Arc<EventsPage>>>::coerced(self.next_page.identifier, client@, outcome),
    {
        self.next_page.coerce(client)
    }

    /// Takes the answer to the request for the page after `page`. No items mean that
    /// `page` is the last one: then there is no page after it. A page with items is the
    /// page after `page`, and holds `page` as the page before it.
    pub fn put_successor(
        page: &Arc<EventsPage>,
        client: &Supernova,
        response: Result<nmodels::EventsPage, Error>,
    ) -> (outcome: Result<Option<Arc<EventsPage>>, Error>)
        requires
            response matches Ok(net) && net.results@.len() > 0 ==> page.next_page.identifier.1
                + page.next_page.identifier.0 <= u32::MAX,
        ensures
            match response {
                Ok(net) => match outcome {
                    Ok(Some(next)) => net.results@.len() > 0 && next.is_link_of(net, page.next_page.identifier, Some(*page)),
                    Ok(None) => net.results@.len() == 0,
                    Err(_) => false,
                },
                Err(error) => outcome == Err::<Option<Arc<EventsPage>>, Error>(error),
            },
    {
        client.put_events_page(page.next_page.identifier, Some(share(page)), response)
    }
}

impl NewsPage {
    /// The items of this page, in their order.
    pub fn items(&self) -> (items: &[Arc<NewsItem>])
        ensures
            items@ == self.items@,
    {
        self.items.as_slice()
    }

    /// The page before this one, if this page holds it.
    pub fn predecessor(&self) -> (page: Option<Arc<NewsPage>>)
        ensures
            page == self.previous_page,
    {
        match &self.previous_page {
            Some(page) => Some(share(page)),
            None => None,
        }
    }

    /// The page after this one: always the request for it, since no page is known
    /// before it is fetched. Whether there is such a page shows when the answer comes.
    pub fn successor(&self, client: &Supernova) -> (outcome: Result<
        Step<Option<Arc<NewsPage>>>,
        Error,
    >)
        ensures
            <Option<Arc<NewsPage>>>::coerced(self.next_page.identifier, client@, outcome),
    {
        self.next_page.coerce(client)
    }

    /// Takes the answer to the request for the page after `page`. No items mean that
    /// `page` is the last one: then there is no page after it. A page with items is the
    /// page after `page`, and holds `page` as the page before it.
    pub fn put_successor(
        page: &Arc<NewsPage>,
        client: &Supernova,
        response: Result<nmodels::NewsPage, Error>,
    ) -> (outcome: Result<Option<Arc<NewsPage>>, Error>)
        requires
            response matches Ok(net) && net.results@.len() > 0 ==> page.next_page.identifier.1
                + page.next_page.identifier.0 <= u32::MAX,
        ensures
            match response {
                Ok(net) => match outcome {
                    Ok(Some(next)) => net.results@.len() > 0 && next.is_link_of(
                        net,
                        client@.upstream,
                        page.next_page.identifier,
                        Some(*page),
                    ),
                    Ok(None) => net.results@.len() == 0,
                    Err(_) => false,
                },
                Err(error) => outcome == Err::<Option<Arc<NewsPage>>, Error>(error),
            },
    {
        client.put_news_page(page.next_page.identifier, Some(share(page)), response)
    }
}

} // verus!
