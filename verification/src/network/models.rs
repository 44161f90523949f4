//! The entities as the service sends them: relations are bare keys.
use crate::keys::{
    BuildingKey, ClassInstanceKey, ClassKey, CourseKey, DepartmentKey, EnrollmentKey, EventKey,
    GroupKey, NewsItemKey, PlaceKey, RoomKey, ShiftKey, StudentKey, TeacherKey, UserKey,
};
use crate::network::cache::Identified;
use crate::time::{Date, Instant, TimeOfDay};
use vstd::prelude::*;

verus! {

/// What the service is told at a login with a name and a password.
pub struct BasicAuthCredentials<'a> {
    pub username: &'a str,
    pub password: &'a str,
    pub client_meta: Option<ClientMeta>,
}

/// What a client tells of the machine it runs on.
pub struct ClientMeta {
    pub system: Option<String>,
    pub hostname: Option<String>,
    pub release: Option<String>,
    pub version: Option<String>,
    pub client: Option<String>,
}

impl<'a> BasicAuthCredentials<'a> {
    pub fn new(username: &'a str, password: &'a str, client_meta: Option<ClientMeta>) -> (credentials:
        BasicAuthCredentials<'a>)
        ensures
            credentials.username == username,
            credentials.password == password,
            credentials.client_meta == client_meta,
    {
        BasicAuthCredentials { username, password, client_meta }
    }
}

pub type AuthToken = String;

/// What the service is told when a token is to be validated.
pub struct TokenCredentials {
    pub token: AuthToken,
}

impl TokenCredentials {
    pub fn new(token: AuthToken) -> (credentials: TokenCredentials)
        ensures
            credentials.token == token,
    {
        TokenCredentials { token }
    }
}

/// What the service answers to a login.
pub struct TokenResult {
    pub token: AuthToken,
}

#[derive(Debug, PartialEq, Eq, Copy, Clone)]
pub enum Weekday {
    Monday,
    Thursday,
    Wednesday,
    Tuesday,
    Friday,
    Saturday,
    Sunday,
}

#[derive(Debug, PartialEq, Eq, Copy, Clone)]
pub enum Period {
    Year,
    FirstSemester,
    SecondSemester,
    FirstTrimester,
    SecondTrimester,
    ThirdTrimester,
    FourthTrimester,
}

#[derive(Debug, PartialEq, Eq, Copy, Clone)]
pub enum Degree {
    BSc,
    MSc,
    PhD,
    IntegratedMSc,
    PostGraduation,
    AdvancedStudies,
    PreGraduation,
}

#[derive(Debug, PartialEq, Eq, Copy, Clone)]
pub enum Language {
    PT,
    EN,
}

#[derive(Debug, PartialEq, Eq, Copy, Clone)]
pub enum ShiftType {
    Theoretical,
    Practical,
    PracticalTheoretical,
    Seminar,
    TutorialOrientation,
    FieldWork,
    OnlineTheoretical,
    OnlinePractical,
    OnlinePracticalTheoretical,
}

#[derive(Debug, PartialEq, Eq, Copy, Clone)]
pub enum FileCategory {
    Image,
    Slides,
    Problems,
    Protocol,
    Seminar,
    Exam,
    Test,
    Support,
    Others,
}

#[derive(Debug, PartialEq, Eq, Copy, Clone)]
pub enum FileLicense {
    RightsReserved,
    PublicDomain,
    Gpl,
    Mit,
    Bsd,
    CcBy,
    CcBySa,
    CcByNc,
    CcBySaNc,
    GenericPermissive,
}

#[derive(Debug, PartialEq, Eq, Copy, Clone)]
pub enum FileVisibility {
    Public,
    Students,
    Enrolled,
    Nobody,
}

#[derive(Debug, PartialEq, Eq, Copy, Clone)]
pub enum Season {
    Normal,
    Exam,
    Special,
}

#[derive(Debug, PartialEq, Eq, Copy, Clone)]
pub enum ClassEventType {
    Test,
    Exam,
    Discussion,
    FieldTrip,
    ProjectAnnouncement,
    ProjectDelivery,
    AdditionalClass,
    Presentation,
    Seminar,
    Talk,
}

#[derive(Debug, PartialEq, Eq, Copy, Clone)]
pub enum RoomType {
    Generic,
    Classroom,
    Auditorium,
    Laboratory,
    Computer,
    Meeting,
    Masters,
    Cabinet,
}

#[derive(Debug, PartialEq)]
pub struct Department {
    pub id: u32,
    pub name: String,
    pub description: Option<String>,
    pub courses: Vec<CourseKey>,
    pub building: Option<BuildingKey>,
}

#[derive(Debug, PartialEq)]
pub struct Building {
    pub id: BuildingKey,
    pub name: String,
    pub abbreviation: String,
    pub places: Vec<RoomKey>,
}

#[derive(Debug, PartialEq)]
pub struct Place {
    pub id: PlaceKey,
    pub name: String,
    pub floor: i8,
    pub building: Option<BuildingKey>,
    pub picture: Option<String>,
    pub picture_cover: Option<String>,
    pub features: Vec<PlaceFeature>,
    pub room_meta: Option<Room>,
}

#[derive(Debug, PartialEq)]
pub struct PlaceFeature {
    pub id: u32,
    pub name: String,
    pub description: String,
    pub icon: Option<String>,
}

#[derive(Debug, PartialEq)]
pub struct Room {
    pub department: Option<DepartmentKey>,
    pub capacity: Option<u16>,
    pub door_number: Option<u16>,
    pub room_type: RoomType,
    pub description: Option<String>,
    pub equipment: Option<String>,
}

#[derive(Debug, PartialEq)]
pub struct Course {
    pub id: CourseKey,
    pub abbreviation: String,
    pub name: String,
    pub degree: Degree,
    pub department: Option<DepartmentKey>,
}

#[derive(Debug, PartialEq)]
pub struct Class {
    pub id: ClassKey,
    pub name: String,
    pub abbreviation: String,
    pub credits: u32,
    pub department: Option<DepartmentKey>,
    pub instances: Vec<ClassInstanceKey>,
}

#[derive(Debug, PartialEq, Clone)]
pub struct ClassInstance {
    pub id: ClassInstanceKey,
    pub year: u32,
    pub parent: ClassKey,
    pub department: Option<DepartmentKey>,
    pub period: Period,
    pub enrollments: Vec<Enrollment>,
    pub shifts: Vec<ClassShift>,
    pub information: ClassInfoSources,
    /// The average grade, as the bits of a 32-bit binary floating-point number.
    pub avg_grade: Option<u32>,
}

#[derive(Debug, PartialEq, Clone)]
pub struct ClassInfoSources {
    pub upstream: Option<ClassInfo>,
}

#[derive(Debug, PartialEq, Clone)]
pub struct ClassInfo {
    pub program: ClassInfoEntry,
    pub assistance: ClassInfoEntry,
    pub extra_info: ClassInfoEntry,
    pub objectives: ClassInfoEntry,
    pub competences: ClassInfoEntry,
    pub description: ClassInfoEntry,
    pub bibliography: ClassInfoEntry,
    pub requirements: ClassInfoEntry,
    pub teaching_methods: ClassInfoEntry,
    pub evaluation_methods: ClassInfoEntry,
}

#[derive(Debug, PartialEq, Clone)]
pub struct ClassInfoEntry {
    pub pt: Option<String>,
    pub en: Option<String>,
    pub time: Option<String>,
    pub editor: Option<String>,
}

#[derive(Debug, PartialEq, Clone)]
pub struct ClassShift {
    pub id: ShiftKey,
    pub number: u16,
    pub shift_type: ShiftType,
    pub teachers: Vec<TeacherKey>,
    pub instances: Vec<ClassShiftInstance>,
}

#[derive(Debug, PartialEq, Clone, Copy)]
pub struct ClassShiftInstance {
    pub weekday: Weekday,
    pub start: u16,
    pub duration: u16,
    pub room: Option<RoomKey>,
}

#[derive(Debug, PartialEq, Clone)]
pub struct ClassInstanceFiles {
    pub official: Vec<ClassInstanceFile>,
    pub community: Vec<ClassInstanceFile>,
}

#[derive(Debug, PartialEq, Clone)]
pub struct ClassInstanceFile {
    pub id: u32,
    pub file: File,
    pub name: String,
    pub category: FileCategory,
    pub upload_datetime: String,
    pub uploader: Option<u32>,
    pub uploader_teacher: Option<TeacherKey>,
    pub url: String,
}

#[derive(Debug, PartialEq, Clone)]
pub struct File {
    pub hash: String,
    pub size: u32,
    pub mime: String,
    pub license: String,
    pub url: String,
}

#[derive(Debug, PartialEq, Clone)]
pub struct Student {
    pub id: StudentKey,
    pub name: String,
    pub abbreviation: Option<String>,
    pub number: u32,
    pub enrollments: Vec<EnrollmentKey>,
    pub shifts: Vec<ShiftKey>,
    pub first_year: Option<u32>,
    pub last_year: Option<u32>,
    pub course: Option<CourseKey>,
    pub avg_grade: Option<u32>,
    pub url: String,
}

#[derive(Debug, PartialEq, Clone)]
pub struct Teacher {
    pub id: TeacherKey,
    pub name: String,
    pub short_name: String,
    pub abbreviation: Option<String>,
    pub first_year: Option<u32>,
    pub last_year: Option<u32>,
    pub phone: Option<String>,
    pub email: Option<String>,
    pub thumb: Option<String>,
    pub rank: Option<String>,
    pub departments: Vec<DepartmentKey>,
    pub shifts: Vec<ShiftKey>,
    pub url: String,
}

#[derive(Debug, PartialEq, Clone)]
pub struct Enrollment {
    pub id: EnrollmentKey,
    pub class_instance: ClassInstanceKey,
    pub student: StudentKey,
    pub attendance: Option<bool>,
    pub attendance_date: Option<String>,
    pub normal_grade: Option<u8>,
    pub normal_grade_date: Option<String>,
    pub recourse_grade: Option<u8>,
    pub recourse_grade_date: Option<String>,
    pub special_grade: Option<u8>,
    pub special_grade_date: Option<String>,
    pub improvement_grade: Option<u8>,
    pub improvement_grade_date: Option<String>,
    pub approved: Option<bool>,
    pub grade: Option<u8>,
}

#[derive(Debug, PartialEq, Copy, Clone)]
pub struct User {
    pub id: UserKey,
}

#[derive(Debug, PartialEq, Eq, Copy, Clone)]
pub enum GroupType {
    Institutional,
    Nuclei,
    AcademicAssociation,
    Pedagogic,
    Praxis,
    Community,
}

#[derive(Debug, PartialEq, Eq, Copy, Clone)]
pub enum GroupVisibility {
    Secret,
    Closed,
    Request,
    Open,
}

#[derive(Debug, PartialEq, Eq, Copy, Clone)]
pub enum GroupEventType {
    Generic,
    Talk,
    Workshop,
    Party,
    Contest,
    Fair,
    Meeting,
}

/// A group as a listing of all groups shows it.
#[derive(Debug, PartialEq, Clone)]
pub struct WeakGroup {
    pub id: GroupKey,
    pub name: String,
    pub abbreviation: String,
    pub group_type: GroupType,
    pub official: bool,
    pub url: String,
    pub thumb: Option<String>,
}

/// A group with all that the service knows of it.
#[derive(Debug, PartialEq, Clone)]
pub struct Group {
    pub id: GroupKey,
    pub name: String,
    pub abbreviation: String,
    pub group_type: GroupType,
    pub url: String,
    pub thumb: Option<String>,
    pub outsiders_openness: GroupVisibility,
    pub official: bool,
    pub activities: Vec<GroupActivity>,
    pub schedule_entries: Vec<GroupScheduling>,
    pub events: Vec<Event>,
}

#[derive(Debug, PartialEq, Clone)]
pub enum GroupActivity {
    Announcement(GroupAnnouncement),
    EventAnnouncement(EventAnnouncement),
    GalleryUpload(GalleryUpload),
}

#[derive(Debug, PartialEq, Clone)]
pub struct GroupAnnouncement {
    pub author: UserKey,
    pub title: String,
    pub content: String,
    pub datetime: Instant,
}

#[derive(Debug, PartialEq, Clone)]
pub struct EventAnnouncement {
    pub author: UserKey,
    pub datetime: Instant,
    pub event: EventKey,
}

#[derive(Debug, PartialEq, Clone)]
pub struct GalleryUpload {
    pub author: UserKey,
    pub datetime: Instant,
    pub item: GalleryItem,
}

#[derive(Debug, PartialEq, Clone)]
pub struct GalleryItem {
}

#[derive(Debug, PartialEq, Clone)]
pub enum GroupScheduling {
    ScheduleOnce(GroupSchedulingOnce),
    SchedulePeriodic(GroupSchedulingPeriodic),
}

#[derive(Debug, PartialEq, Clone)]
pub struct GroupSchedulingOnce {
    pub title: Option<String>,
    pub datetime: Instant,
    pub duration: u16,
    pub revoked: bool,
}

#[derive(Debug, PartialEq, Clone)]
pub struct GroupSchedulingPeriodic {
    pub title: Option<String>,
    pub weekday: Weekday,
    pub time: TimeOfDay,
    pub start_date: Date,
    pub end_date: Date,
    pub duration: u16,
    pub revoked: bool,
}

#[derive(Debug, PartialEq, Clone)]
pub struct Event {
    pub id: EventKey,
    pub title: String,
    pub description: String,
    pub start_date: Date,
    pub duration: Option<u16>,
    pub place: Option<PlaceKey>,
    pub capacity: Option<u32>,
    pub cost: Option<u32>,
    pub event_type: GroupEventType,
}

#[derive(Debug, PartialEq, Clone)]
pub struct EventsPage {
    pub count: u32,
    pub next: Option<String>,
    pub previous: Option<String>,
    pub results: Vec<Event>,
}

#[derive(Debug, PartialEq, Clone)]
pub struct NewsPage {
    pub count: u32,
    pub next: Option<String>,
    pub previous: Option<String>,
    pub results: Vec<NewsItem>,
}

#[derive(Debug, PartialEq, Clone)]
pub struct NewsItem {
    pub id: NewsItemKey,
    pub title: String,
    pub summary: String,
    pub datetime: Instant,
    pub thumb: Option<String>,
    pub url: String,
}

impl Identified for Department {
    open spec fn key_of(&self) -> u32 {
        self.id
    }

    fn key(&self) -> u32 {
        self.id
    }
}

impl Identified for Building {
    open spec fn key_of(&self) -> u32 {
        self.id
    }

    fn key(&self) -> u32 {
        self.id
    }
}

impl Identified for Place {
    open spec fn key_of(&self) -> u32 {
        self.id
    }

    fn key(&self) -> u32 {
        self.id
    }
}

impl Identified for Course {
    open spec fn key_of(&self) -> u32 {
        self.id
    }

    fn key(&self) -> u32 {
        self.id
    }
}

impl Identified for Class {
    open spec fn key_of(&self) -> u32 {
        self.id
    }

    fn key(&self) -> u32 {
        self.id
    }
}

impl Identified for ClassInstance {
    open spec fn key_of(&self) -> u32 {
        self.id
    }

    fn key(&self) -> u32 {
        self.id
    }
}

impl Identified for ClassShift {
    open spec fn key_of(&self) -> u32 {
        self.id
    }

    fn key(&self) -> u32 {
        self.id
    }
}

impl Identified for Student {
    open spec fn key_of(&self) -> u32 {
        self.id
    }

    fn key(&self) -> u32 {
        self.id
    }
}

impl Identified for Teacher {
    open spec fn key_of(&self) -> u32 {
        self.id
    }

    fn key(&self) -> u32 {
        self.id
    }
}

impl Identified for Enrollment {
    open spec fn key_of(&self) -> u32 {
        self.id
    }

    fn key(&self) -> u32 {
        self.id
    }
}

impl Identified for WeakGroup {
    open spec fn key_of(&self) -> u32 {
        self.id
    }

    fn key(&self) -> u32 {
        self.id
    }
}

} // verus!
