//! From the entities that the service sends to the entities that a caller sees:
//! every key of a relation becomes a reference, every path an address.
use crate::coersion::{refer_to, reference, references, refers_to, ObjRef};
use crate::keys::{EnrollmentKey, EventsPageKey, NewsPageKey, ShiftKey};
use crate::models;
use crate::network::models as nmodels;
use crate::once::{empty_cell, held};
use crate::text::join;
use std::sync::Arc;
use vstd::prelude::*;
use vstd::std_specs::convert::FromSpec;

verus! {

/// `address` is `path` behind `upstream`, or both are absent.
pub open spec fn is_address_of(
    address: Option<String>,
    upstream: Seq<char>,
    path: Option<String>,
) -> bool {
    match address {
        Some(address) => path matches Some(path) && address@ == upstream + path@,
        None => path is None,
    }
}

/// A copy of a text that may be absent.
pub fn copy_text(text: &Option<String>) -> (copy: Option<String>)
    ensures
        copy == *text,
{
    match text {
        Some(text) => Some(text.clone()),
        None => None,
    }
}

/// The address of a path that may be absent.
pub fn address(upstream: &str, path: &Option<String>) -> (address: Option<String>)
    ensures
        is_address_of(address, upstream@, *path),
{
    match path {
        Some(path) => Some(join(upstream, path.as_str())),
        None => None,
    }
}

impl models::Building {
    pub open spec fn is_link_of(&self, net: nmodels::Building) -> bool {
        &&& self.id == net.id
        &&& self.name == net.name
        &&& self.abbreviation == net.abbreviation
        &&& refer_to(self.places@, net.places@)
    }
}

impl nmodels::Building {
    pub fn link(&self) -> (linked: models::Building)
        ensures
            linked.is_link_of(*self),
    {
        models::Building {
            id: self.id,
            name: self.name.clone(),
            abbreviation: self.abbreviation.clone(),
            places: references(&self.places),
        }
    }
}

impl models::Room {
    pub open spec fn is_link_of(&self, net: nmodels::Room) -> bool {
        &&& refers_to(self.department, net.department)
        &&& self.capacity == net.capacity
        &&& self.door_number == net.door_number
        &&& self.room_type == models::RoomType::from_spec(net.room_type)
        &&& self.description == net.description
        &&& self.equipment == net.equipment
    }
}

impl models::Place {
    pub open spec fn is_link_of(&self, net: nmodels::Place) -> bool {
        &&& self.id == net.id
        &&& self.name == net.name
        &&& self.floor == net.floor
        &&& refers_to(self.building, net.building)
        &&& self.picture == net.picture
        &&& self.picture_cover == net.picture_cover
        &&& match self.variant {
            models::PlaceVariant::Room(room) => net.room_meta matches Some(meta) && room.is_link_of(
                meta,
            ),
            models::PlaceVariant::Generic => net.room_meta is None,
        }
    }
}

impl nmodels::Place {
    pub fn link(&self) -> (linked: models::Place)
        ensures
            linked.is_link_of(*self),
    {
        models::Place {
            id: self.id,
            name: self.name.clone(),
            floor: self.floor,
            building: reference(&self.building),
            picture: copy_text(&self.picture),
            picture_cover: copy_text(&self.picture_cover),
            variant: if let Some(meta) = &self.room_meta {
                models::PlaceVariant::Room(
                    models::Room {
                        department: reference(&meta.department),
                        capacity: meta.capacity,
                        door_number: meta.door_number,
                        room_type: models::RoomType::from(meta.room_type),
                        description: copy_text(&meta.description),
                        equipment: copy_text(&meta.equipment),
                    },
                )
            } else {
                models::PlaceVariant::Generic
            },
        }
    }
}

impl models::Department {
    pub open spec fn is_link_of(&self, net: nmodels::Department) -> bool {
        &&& self.id == net.id
        &&& self.name == net.name
        &&& self.description == net.description
        &&& refer_to(self.courses@, net.courses@)
        &&& refers_to(self.building, net.building)
    }
}

impl nmodels::Department {
    pub fn link(&self) -> (linked: models::Department)
        ensures
            linked.is_link_of(*self),
    {
        models::Department {
            id: self.id,
            name: self.name.clone(),
            description: copy_text(&self.description),
            courses: references(&self.courses),
            building: reference(&self.building),
        }
    }
}

impl models::Course {
    pub open spec fn is_link_of(&self, net: nmodels::Course) -> bool {
        &&& self.id == net.id
        &&& self.abbreviation == net.abbreviation
        &&& self.name == net.name
        &&& self.degree == models::Degree::from_spec(net.degree)
        &&& refers_to(self.department, net.department)
    }
}

impl nmodels::Course {
    pub fn link(&self) -> (linked: models::Course)
        ensures
            linked.is_link_of(*self),
    {
        models::Course {
            id: self.id,
            abbreviation: self.abbreviation.clone(),
            name: self.name.clone(),
            degree: models::Degree::from(self.degree),
            department: reference(&self.department),
        }
    }
}

impl models::Class {
    pub open spec fn is_link_of(&self, net: nmodels::Class) -> bool {
        &&& self.id == net.id
        &&& self.name == net.name
        &&& self.abbreviation == net.abbreviation
        &&& self.credits == net.credits
        &&& refers_to(self.department, net.department)
        &&& refer_to(self.instances@, net.instances@)
    }
}

impl nmodels::Class {
    pub fn link(&self) -> (linked: models::Class)
        ensures
            linked.is_link_of(*self),
    {
        models::Class {
            id: self.id,
            name: self.name.clone(),
            abbreviation: self.abbreviation.clone(),
            credits: self.credits,
            department: reference(&self.department),
            instances: references(&self.instances),
        }
    }
}

/// The keys of the enrollments, in their order.
pub open spec fn enrollment_keys(enrollments: Seq<nmodels::Enrollment>) -> Seq<EnrollmentKey> {
    enrollments.map_values(|enrollment: nmodels::Enrollment| enrollment.id)
}

/// The keys of the shifts, in their order.
pub open spec fn shift_keys(shifts: Seq<nmodels::ClassShift>) -> Seq<ShiftKey> {
    shifts.map_values(|shift: nmodels::ClassShift| shift.id)
}

impl models::ClassInstance {
    pub open spec fn is_link_of(&self, net: nmodels::ClassInstance) -> bool {
        &&& self.id == net.id
        &&& self.year == net.year
        &&& self.period == models::Period::from_spec(net.period)
        &&& refer_to(self.enrollments@, enrollment_keys(net.enrollments@))
        &&& self.information == net.information.upstream
        &&& self.avg_grade == net.avg_grade
        &&& refer_to(self.shifts@, shift_keys(net.shifts@))
        &&& refers_to(self.department, net.department)
    }
}

impl nmodels::ClassInfoEntry {
    pub fn duplicate(&self) -> (copy: nmodels::ClassInfoEntry)
        ensures
            copy == *self,
    {
        nmodels::ClassInfoEntry {
            pt: copy_text(&self.pt),
            en: copy_text(&self.en),
            time: copy_text(&self.time),
            editor: copy_text(&self.editor),
        }
    }
}

impl nmodels::ClassInfo {
    pub fn duplicate(&self) -> (copy: nmodels::ClassInfo)
        ensures
            copy == *self,
    {
        nmodels::ClassInfo {
            program: self.program.duplicate(),
            assistance: self.assistance.duplicate(),
            extra_info: self.extra_info.duplicate(),
            objectives: self.objectives.duplicate(),
            competences: self.competences.duplicate(),
            description: self.description.duplicate(),
            bibliography: self.bibliography.duplicate(),
            requirements: self.requirements.duplicate(),
            teaching_methods: self.teaching_methods.duplicate(),
            evaluation_methods: self.evaluation_methods.duplicate(),
        }
    }
}

impl nmodels::ClassInstance {
    pub fn link(&self) -> (linked: models::ClassInstance)
        ensures
            linked.is_link_of(*self),
    {
        let mut enrollments: Vec<ObjRef<models::Enrollment, EnrollmentKey>> = Vec::new();
        let mut at: usize = 0;
        while at < self.enrollments.len()
            invariant
                at <= self.enrollments.len(),
                refer_to(enrollments@, enrollment_keys(self.enrollments@.take(at as int))),
            decreases self.enrollments.len() - at,
        {
            enrollments.push(ObjRef::new(self.enrollments[at].id));
            at += 1;
        }
        assert(self.enrollments@.take(at as int) =~= self.enrollments@);
        let mut shifts: Vec<ObjRef<models::ClassShift, ShiftKey>> = Vec::new();
        let mut at: usize = 0;
        while at < self.shifts.len()
            invariant
                at <= self.shifts.len(),
                refer_to(shifts@, shift_keys(self.shifts@.take(at as int))),
            decreases self.shifts.len() - at,
        {
            shifts.push(ObjRef::new(self.shifts[at].id));
            at += 1;
        }
        assert(self.shifts@.take(at as int) =~= self.shifts@);
        models::ClassInstance {
            id: self.id,
            year: self.year,
            period: models::Period::from(self.period),
            enrollments,
            information: match &self.information.upstream {
                Some(information) => Some(information.duplicate()),
                None => None,
            },
            avg_grade: self.avg_grade,
            shifts,
            department: reference(&self.department),
        }
    }
}

impl models::Student {
    pub open spec fn is_link_of(&self, net: nmodels::Student, upstream: Seq<char>) -> bool {
        &&& self.id == net.id
        &&& self.name == net.name
        &&& self.abbreviation == net.abbreviation
        &&& self.number == net.number
        &&& refer_to(self.enrollments@, net.enrollments@)
        &&& refer_to(self.shifts@, net.shifts@)
        &&& self.first_year == net.first_year
        &&& self.last_year == net.last_year
        &&& refers_to(self.course, net.course)
        &&& self.avg_grade == net.avg_grade
        &&& self.url@ == upstream + net.url@
    }
}

impl nmodels::Student {
    pub fn link(&self, upstream: &str) -> (linked: models::Student)
        ensures
            linked.is_link_of(*self, upstream@),
    {
        models::Student {
            id: self.id,
            name: self.name.clone(),
            abbreviation: copy_text(&self.abbreviation),
            number: self.number,
            enrollments: references(&self.enrollments),
            shifts: references(&self.shifts),
            first_year: self.first_year,
            last_year: self.last_year,
            course: reference(&self.course),
            avg_grade: self.avg_grade,
            url: join(upstream, self.url.as_str()),
        }
    }
}

impl models::Teacher {
    /// A teacher that was just linked has no thumbnail bytes yet.
    pub open spec fn is_link_of(&self, net: nmodels::Teacher, upstream: Seq<char>) -> bool {
        &&& self.id == net.id
        &&& self.name == net.name
        &&& self.abbreviation == net.abbreviation
        &&& self.first_year == net.first_year
        &&& self.last_year == net.last_year
        &&& self.phone == net.phone
        &&& self.email == net.email
        &&& is_address_of(self.thumb, upstream, net.thumb)
        &&& self.rank == net.rank
        &&& refer_to(self.departments@, net.departments@)
        &&& refer_to(self.shifts@, net.shifts@)
        &&& self.url@ == upstream + net.url@
        &&& held(self.thumb_cache) == Seq::<Seq<u8>>::empty()
    }
}

impl nmodels::Teacher {
    pub fn link(&self, upstream: &str) -> (linked: models::Teacher)
        ensures
            linked.is_link_of(*self, upstream@),
    {
        models::Teacher {
            id: self.id,
            name: self.name.clone(),
            abbreviation: copy_text(&self.abbreviation),
            first_year: self.first_year,
            last_year: self.last_year,
            phone: copy_text(&self.phone),
            email: copy_text(&self.email),
            thumb: address(upstream, &self.thumb),
            rank: copy_text(&self.rank),
            departments: references(&self.departments),
            shifts: references(&self.shifts),
            url: join(upstream, self.url.as_str()),
            thumb_cache: empty_cell(),
        }
    }
}

impl models::Enrollment {
    pub open spec fn is_link_of(&self, net: nmodels::Enrollment) -> bool {
        &&& self.id == net.id
        &&& self.class_instance.identifier == net.class_instance
        &&& self.student.identifier == net.student
        &&& self.attendance == net.attendance
        &&& self.attendance_date == net.attendance_date
        &&& self.normal_grade == net.normal_grade
        &&& self.normal_grade_date == net.normal_grade_date
        &&& self.recourse_grade == net.recourse_grade
        &&& self.recourse_grade_date == net.recourse_grade_date
        &&& self.special_grade == net.special_grade
        &&& self.special_grade_date == net.special_grade_date
        &&& self.improvement_grade == net.improvement_grade
        &&& self.improvement_grade_date == net.improvement_grade_date
        &&& self.approved == net.approved
        &&& self.grade == net.grade
    }
}

impl nmodels::Enrollment {
    pub fn link(&self) -> (linked: models::Enrollment)
        ensures
            linked.is_link_of(*self),
    {
        models::Enrollment {
            id: self.id,
            class_instance: ObjRef::new(self.class_instance),
            student: ObjRef::new(self.student),
            attendance: self.attendance,
            attendance_date: copy_text(&self.attendance_date),
            normal_grade: self.normal_grade,
            normal_grade_date: copy_text(&self.normal_grade_date),
            recourse_grade: self.recourse_grade,
            recourse_grade_date: copy_text(&self.recourse_grade_date),
            special_grade: self.special_grade,
            special_grade_date: copy_text(&self.special_grade_date),
            improvement_grade: self.improvement_grade,
            improvement_grade_date: copy_text(&self.improvement_grade_date),
            approved: self.approved,
            grade: self.grade,
        }
    }
}

impl nmodels::Enrollment {
    pub fn duplicate(&self) -> (copy: nmodels::Enrollment)
        ensures
            copy == *self,
    {
        nmodels::Enrollment {
            id: self.id,
            class_instance: self.class_instance,
            student: self.student,
            attendance: self.attendance,
            attendance_date: copy_text(&self.attendance_date),
            normal_grade: self.normal_grade,
            normal_grade_date: copy_text(&self.normal_grade_date),
            recourse_grade: self.recourse_grade,
            recourse_grade_date: copy_text(&self.recourse_grade_date),
            special_grade: self.special_grade,
            special_grade_date: copy_text(&self.special_grade_date),
            improvement_grade: self.improvement_grade,
            improvement_grade_date: copy_text(&self.improvement_grade_date),
            approved: self.approved,
            grade: self.grade,
        }
    }
}

impl nmodels::ClassShift {
    /// The two shifts tell the same.
    pub open spec fn same_as(&self, other: nmodels::ClassShift) -> bool {
        &&& self.id == other.id
        &&& self.number == other.number
        &&& self.shift_type == other.shift_type
        &&& self.teachers@ == other.teachers@
        &&& self.instances@ == other.instances@
    }

    pub fn duplicate(&self) -> (copy: nmodels::ClassShift)
        ensures
            copy.same_as(*self),
    {
        let mut teachers: Vec<u32> = Vec::new();
        let mut at: usize = 0;
        while at < self.teachers.len()
            invariant
                at <= self.teachers.len(),
                teachers@ == self.teachers@.take(at as int),
            decreases self.teachers.len() - at,
        {
            teachers.push(self.teachers[at]);
            at += 1;
        }
        assert(self.teachers@.take(at as int) =~= self.teachers@);
        let mut instances: Vec<nmodels::ClassShiftInstance> = Vec::new();
        let mut at: usize = 0;
        while at < self.instances.len()
            invariant
                at <= self.instances.len(),
                instances@ == self.instances@.take(at as int),
            decreases self.instances.len() - at,
        {
            instances.push(self.instances[at]);
            at += 1;
        }
        assert(self.instances@.take(at as int) =~= self.instances@);
        nmodels::ClassShift {
            id: self.id,
            number: self.number,
            shift_type: self.shift_type,
            teachers,
            instances,
        }
    }
}

impl models::ClassShiftInstance {
    pub open spec fn is_model_of(&self, net: nmodels::ClassShiftInstance) -> bool {
        &&& self.weekday == models::Weekday::from_spec(net.weekday)
        &&& self.start == net.start
        &&& self.duration == net.duration
        &&& refers_to(self.room, net.room)
    }
}

impl nmodels::ClassShiftInstance {
    pub fn to_model(&self) -> (model: models::ClassShiftInstance)
        ensures
            model.is_model_of(*self),
    {
        models::ClassShiftInstance {
            weekday: models::Weekday::from(self.weekday),
            start: self.start,
            duration: self.duration,
            room: reference(&self.room),
        }
    }
}

impl models::ClassShift {
    pub open spec fn is_link_of(&self, net: nmodels::ClassShift) -> bool {
        &&& self.id == net.id
        &&& self.number == net.number
        &&& self.shift_type == models::ShiftType::from_spec(net.shift_type)
        &&& refer_to(self.teachers@, net.teachers@)
        &&& self.instances@.len() == net.instances@.len()
        &&& forall|i: int|
            0 <= i < net.instances@.len() ==> (#[trigger] self.instances@[i]).is_model_of(
                net.instances@[i],
            )
    }
}

impl nmodels::ClassShift {
    pub fn link(&self) -> (linked: models::ClassShift)
        ensures
            linked.is_link_of(*self),
    {
        let mut instances: Vec<models::ClassShiftInstance> = Vec::new();
        let mut at: usize = 0;
        while at < self.instances.len()
            invariant
                at <= self.instances.len(),
                instances@.len() == at,
                forall|i: int|
                    0 <= i < at ==> (#[trigger] instances@[i]).is_model_of(self.instances@[i]),
            decreases self.instances.len() - at,
        {
            instances.push(self.instances[at].to_model());
            at += 1;
        }
        models::ClassShift {
            id: self.id,
            number: self.number,
            shift_type: models::ShiftType::from(self.shift_type),
            teachers: references(&self.teachers),
            instances,
        }
    }
}

impl nmodels::User {
    /// Users are not told apart yet: every user is shown as the user 0.
    pub fn to_model(&self) -> (model: models::User)
        ensures
            model.id == 0,
    {
        models::User { id: 0 }
    }
}

impl models::Group {
    /// The part of a group that a listing of all groups tells, and no thumbnail bytes yet.
    pub open spec fn has_outline(
        &self,
        id: u32,
        name: String,
        abbreviation: String,
        url: String,
        thumb: Option<String>,
        group_type: nmodels::GroupType,
        official: bool,
        upstream: Seq<char>,
    ) -> bool {
        &&& self.id == id
        &&& self.name == name
        &&& self.abbreviation == abbreviation
        &&& self.url@ == upstream + url@
        &&& is_address_of(self.thumb, upstream, thumb)
        &&& self.group_type == models::GroupType::from_spec(group_type)
        &&& self.official == official
        &&& held(self.thumb_cache) == Seq::<Seq<u8>>::empty()
    }

    /// A group as linked from a listing: what only its own page tells is not there.
    pub open spec fn is_link_of_weak(&self, net: nmodels::WeakGroup, upstream: Seq<char>) -> bool {
        &&& self.has_outline(
            net.id,
            net.name,
            net.abbreviation,
            net.url,
            net.thumb,
            net.group_type,
            net.official,
            upstream,
        )
        &&& self.details is None
    }

    /// A group as linked from its own page: everything is there.
    pub open spec fn is_link_of(&self, net: nmodels::Group, upstream: Seq<char>) -> bool {
        &&& self.has_outline(
            net.id,
            net.name,
            net.abbreviation,
            net.url,
            net.thumb,
            net.group_type,
            net.official,
            upstream,
        )
        &&& self.details matches Some(details) && details.is_link_of(net)
    }
}

impl models::GroupDetails {
    pub open spec fn is_link_of(&self, net: nmodels::Group) -> bool {
        &&& self.outsiders_openness == models::GroupVisibility::from_spec(net.outsiders_openness)
        &&& self.activities@.len() == net.activities@.len()
        &&& forall|i: int|
            0 <= i < net.activities@.len() ==> (#[trigger] self.activities@[i]).is_link_of(
                net.activities@[i],
            )
        &&& self.schedulings@.len() == net.schedule_entries@.len()
        &&& forall|i: int|
            0 <= i < net.schedule_entries@.len() ==> (#[trigger] self.schedulings@[i]).is_model_of(
                net.schedule_entries@[i],
            )
        &&& self.events@.len() == net.events@.len()
        &&& forall|i: int|
            0 <= i < net.events@.len() ==> (#[trigger] self.events@[i]).is_link_of(net.events@[i])
    }
}

impl nmodels::WeakGroup {
    pub fn link(&self, upstream: &str) -> (linked: models::Group)
        ensures
            linked.is_link_of_weak(*self, upstream@),
    {
        models::Group {
            id: self.id,
            name: self.name.clone(),
            abbreviation: self.abbreviation.clone(),
            url: join(upstream, self.url.as_str()),
            thumb: address(upstream, &self.thumb),
            group_type: models::GroupType::from(self.group_type),
            official: self.official,
            details: None,
            thumb_cache: empty_cell(),
        }
    }
}

impl nmodels::Group {
    /// What only the group's own page tells, linked.
    pub fn link_details(&self) -> (details: models::GroupDetails)
        ensures
            details.is_link_of(*self),
    {
        let mut activities: Vec<models::GroupActivity> = Vec::new();
        let mut at: usize = 0;
        while at < self.activities.len()
            invariant
                at <= self.activities.len(),
                activities@.len() == at,
                forall|i: int|
                    0 <= i < at ==> (#[trigger] activities@[i]).is_link_of(self.activities@[i]),
            decreases self.activities.len() - at,
        {
            activities.push(self.activities[at].link());
            at += 1;
        }
        let mut schedulings: Vec<models::GroupScheduling> = Vec::new();
        let mut at: usize = 0;
        while at < self.schedule_entries.len()
            invariant
                at <= self.schedule_entries.len(),
                schedulings@.len() == at,
                forall|i: int|
                    0 <= i < at ==> (#[trigger] schedulings@[i]).is_model_of(
                        self.schedule_entries@[i],
                    ),
            decreases self.schedule_entries.len() - at,
        {
            schedulings.push(self.schedule_entries[at].to_model());
            at += 1;
        }
        let mut events: Vec<models::Event> = Vec::new();
        let mut at: usize = 0;
        while at < self.events.len()
            invariant
                at <= self.events.len(),
                events@.len() == at,
                forall|i: int| 0 <= i < at ==> (#[trigger] events@[i]).is_link_of(self.events@[i]),
            decreases self.events.len() - at,
        {
            events.push(self.events[at].link());
            at += 1;
        }
        models::GroupDetails {
            outsiders_openness: models::GroupVisibility::from(self.outsiders_openness),
            activities,
            schedulings,
            events,
        }
    }

    pub fn link(&self, upstream: &str) -> (linked: models::Group)
        ensures
            linked.is_link_of(*self, upstream@),
    {
        models::Group {
            id: self.id,
            name: self.name.clone(),
            abbreviation: self.abbreviation.clone(),
            url: join(upstream, self.url.as_str()),
            thumb: address(upstream, &self.thumb),
            group_type: models::GroupType::from(self.group_type),
            official: self.official,
            details: Some(self.link_details()),
            thumb_cache: empty_cell(),
        }
    }
}

impl models::GroupActivity {
    pub open spec fn is_link_of(&self, net: nmodels::GroupActivity) -> bool {
        match *self {
            models::GroupActivity::Announcement(linked) => net matches nmodels::GroupActivity::Announcement(
                activity,
            ) && linked.is_link_of(activity),
            models::GroupActivity::EventAnnouncement(linked) => net matches nmodels::GroupActivity::EventAnnouncement(
                activity,
            ) && linked.is_link_of(activity),
            models::GroupActivity::GalleryUpload(linked) => net matches nmodels::GroupActivity::GalleryUpload(
                activity,
            ) && linked.is_link_of(activity),
        }
    }
}

impl nmodels::GroupActivity {
    pub fn link(&self) -> (linked: models::GroupActivity)
        ensures
            linked.is_link_of(*self),
    {
        match self {
            nmodels::GroupActivity::Announcement(activity) => {
                models::GroupActivity::Announcement(activity.link())
            },
            nmodels::GroupActivity::EventAnnouncement(activity) => {
                models::GroupActivity::EventAnnouncement(activity.link())
            },
            nmodels::GroupActivity::GalleryUpload(activity) => {
                models::GroupActivity::GalleryUpload(activity.link())
            },
        }
    }
}

impl models::Event {
    pub open spec fn is_link_of(&self, net: nmodels::Event) -> bool {
        &&& self.id == net.id
        &&& self.title == net.title
        &&& self.description == net.description
        &&& self.start_date == net.start_date
        &&& self.duration == net.duration
        &&& refers_to(self.place, net.place)
        &&& self.capacity == net.capacity
        &&& self.cost == net.cost
        &&& self.event_type == models::GroupEventType::from_spec(net.event_type)
    }
}

impl nmodels::Event {
    pub fn link(&self) -> (linked: models::Event)
        ensures
            linked.is_link_of(*self),
    {
        models::Event {
            id: self.id,
            title: self.title.clone(),
            description: self.description.clone(),
            start_date: self.start_date,
            duration: self.duration,
            place: reference(&self.place),
            capacity: self.capacity,
            cost: self.cost,
            event_type: models::GroupEventType::from(self.event_type),
        }
    }
}

impl models::GroupAnnouncement {
    pub open spec fn is_link_of(&self, net: nmodels::GroupAnnouncement) -> bool {
        &&& self.author.identifier == net.author
        &&& self.title == net.title
        &&& self.content == net.content
        &&& self.datetime == net.datetime
    }
}

impl nmodels::GroupAnnouncement {
    pub fn link(&self) -> (linked: models::GroupAnnouncement)
        ensures
            linked.is_link_of(*self),
    {
        models::GroupAnnouncement {
            author: ObjRef::new(self.author),
            title: self.title.clone(),
            content: self.content.clone(),
            datetime: self.datetime,
        }
    }
}

impl models::EventAnnouncement {
    pub open spec fn is_link_of(&self, net: nmodels::EventAnnouncement) -> bool {
        &&& self.author.identifier == net.author
        &&& self.event.identifier == net.event
        &&& self.datetime == net.datetime
    }
}

impl nmodels::EventAnnouncement {
    pub fn link(&self) -> (linked: models::EventAnnouncement)
        ensures
            linked.is_link_of(*self),
    {
        models::EventAnnouncement {
            author: ObjRef::new(self.author),
            event: ObjRef::new(self.event),
            datetime: self.datetime,
        }
    }
}

impl models::GalleryUpload {
    pub open spec fn is_link_of(&self, net: nmodels::GalleryUpload) -> bool {
        &&& self.author.identifier == net.author
        &&& self.datetime == net.datetime
    }
}

impl nmodels::GalleryUpload {
    pub fn link(&self) -> (linked: models::GalleryUpload)
        ensures
            linked.is_link_of(*self),
    {
        models::GalleryUpload {
            author: ObjRef::new(self.author),
            datetime: self.datetime,
            item: self.item.to_model(),
        }
    }
}

impl nmodels::GalleryItem {
    pub fn to_model(&self) -> (model: models::GalleryItem)
        ensures
            model == (models::GalleryItem {  }),
    {
        models::GalleryItem {  }
    }
}

impl models::GroupScheduling {
    pub open spec fn is_model_of(&self, net: nmodels::GroupScheduling) -> bool {
        match *self {
            models::GroupScheduling::Once(model) => net matches nmodels::GroupScheduling::ScheduleOnce(
                scheduling,
            ) && model.is_model_of(scheduling),
            models::GroupScheduling::Periodic(model) => net matches nmodels::GroupScheduling::SchedulePeriodic(
                scheduling,
            ) && model.is_model_of(scheduling),
        }
    }
}

impl nmodels::GroupScheduling {
    pub fn to_model(&self) -> (model: models::GroupScheduling)
        ensures
            model.is_model_of(*self),
    {
        match self {
            nmodels::GroupScheduling::ScheduleOnce(scheduling) => {
                models::GroupScheduling::Once(scheduling.to_model())
            },
            nmodels::GroupScheduling::SchedulePeriodic(scheduling) => {
                models::GroupScheduling::Periodic(scheduling.to_model())
            },
        }
    }
}

impl models::GroupSchedulingOnce {
    pub open spec fn is_model_of(&self, net: nmodels::GroupSchedulingOnce) -> bool {
        &&& self.title == net.title
        &&& self.datetime == net.datetime
        &&& self.duration == net.duration
        &&& self.revoked == net.revoked
    }
}

impl nmodels::GroupSchedulingOnce {
    pub fn to_model(&self) -> (model: models::GroupSchedulingOnce)
        ensures
            model.is_model_of(*self),
    {
        models::GroupSchedulingOnce {
            title: copy_text(&self.title),
            datetime: self.datetime,
            duration: self.duration,
            revoked: self.revoked,
        }
    }
}

impl models::GroupSchedulingPeriodic {
    pub open spec fn is_model_of(&self, net: nmodels::GroupSchedulingPeriodic) -> bool {
        &&& self.title == net.title
        &&& self.weekday == models::Weekday::from_spec(net.weekday)
        &&& self.time == net.time
        &&& self.start_date == net.start_date
        &&& self.end_date == net.end_date
        &&& self.duration == net.duration
        &&& self.revoked == net.revoked
    }
}

impl nmodels::GroupSchedulingPeriodic {
    pub fn to_model(&self) -> (model: models::GroupSchedulingPeriodic)
        ensures
            model.is_model_of(*self),
    {
        models::GroupSchedulingPeriodic {
            title: copy_text(&self.title),
            weekday: models::Weekday::from(self.weekday),
            time: self.time,
            start_date: self.start_date,
            end_date: self.end_date,
            duration: self.duration,
            revoked: self.revoked,
        }
    }
}

/// The key of the page that follows the page `key`: as many items per page,
/// and the items of this page skipped as well.
pub open spec fn next_page_key(key: (u16, u32)) -> (u16, u32) {
    (key.0, (key.1 + key.0) as u32)
}

impl models::EventsPage {
    /// A page linked from what came for the key `key`, reached from the page `previous`:
    /// it holds `previous` as the page before it, the reference to the next page is the
    /// key that follows `key`, and the items are the linked results.
    pub open spec fn is_link_of(
        &self,
        net: nmodels::EventsPage,
        key: EventsPageKey,
        previous: Option<Arc<models::EventsPage>>,
    ) -> bool {
        &&& self.previous_page == previous
        &&& self.next_page.identifier == next_page_key(key)
        &&& self.items@.len() == net.results@.len()
        &&& forall|i: int|
            0 <= i < net.results@.len() ==> (*#[trigger] self.items@[i]).is_link_of(
                net.results@[i],
            )
    }
}

impl nmodels::EventsPage {
    /// The page that came for the key `key`, linked. `previous` is the page from which
    /// this one was reached, if it was reached from one.
    pub fn link(&self, key: EventsPageKey, previous: Option<Arc<models::EventsPage>>) -> (linked:
        Arc<models::EventsPage>)
        requires
            key.1 + key.0 <= u32::MAX,
        ensures
            linked.is_link_of(*self, key, previous),
    {
        let (limit, offset) = key;
        let next_page_key: EventsPageKey = (limit, offset + limit as u32);
        let mut items: Vec<Arc<models::Event>> = Vec::new();
        let mut at: usize = 0;
        while at < self.results.len()
            invariant
                at <= self.results.len(),
                items@.len() == at,
                forall|i: int|
                    0 <= i < at ==> (*#[trigger] items@[i]).is_link_of(self.results@[i]),
            decreases self.results.len() - at,
        {
            items.push(Arc::new(self.results[at].link()));
            at += 1;
        }
        Arc::new(
            models::EventsPage {
                previous_page: previous,
                next_page: ObjRef::new(next_page_key),
                items,
            },
        )
    }
}

impl models::NewsItem {
    /// A news item that was just linked has no thumbnail bytes yet.
    pub open spec fn is_link_of(&self, net: nmodels::NewsItem, upstream: Seq<char>) -> bool {
        &&& self.id == net.id
        &&& self.title == net.title
        &&& self.summary == net.summary
        &&& self.datetime == net.datetime
        &&& is_address_of(self.thumb, upstream, net.thumb)
        &&& self.url@ == upstream + net.url@
        &&& held(self.thumb_cache) == Seq::<Seq<u8>>::empty()
    }
}

impl nmodels::NewsItem {
    pub fn link(&self, upstream: &str) -> (linked: models::NewsItem)
        ensures
            linked.is_link_of(*self, upstream@),
    {
        models::NewsItem {
            id: self.id,
            title: self.title.clone(),
            summary: self.summary.clone(),
            datetime: self.datetime,
            thumb: address(upstream, &self.thumb),
            url: join(upstream, self.url.as_str()),
            thumb_cache: empty_cell(),
        }
    }
}

impl models::NewsPage {
    /// A page linked from what came for the key `key`, reached from the page `previous`:
    /// it holds `previous` as the page before it, the reference to the next page is the
    /// key that follows `key`, and the items are the linked results.
    pub open spec fn is_link_of(
        &self,
        net: nmodels::NewsPage,
        upstream: Seq<char>,
        key: NewsPageKey,
        previous: Option<Arc<models::NewsPage>>,
    ) -> bool {
        &&& self.previous_page == previous
        &&& self.next_page.identifier == next_page_key(key)
        &&& self.items@.len() == net.results@.len()
        &&& forall|i: int|
            0 <= i < net.results@.len() ==> (*#[trigger] self.items@[i]).is_link_of(
                net.results@[i],
                upstream,
            )
    }
}

impl nmodels::NewsPage {
    /// The page that came for the key `key`, linked. `previous` is the page from which
    /// this one was reached, if it was reached from one.
    pub fn link(
        &self,
        upstream: &str,
        key: NewsPageKey,
        previous: Option<Arc<models::NewsPage>>,
    ) -> (linked: Arc<models::NewsPage>)
        requires
            key.1 + key.0 <= u32::MAX,
        ensures
            linked.is_link_of(*self, upstream@, key, previous),
    {
        let (limit, offset) = key;
        let next_page_key: NewsPageKey = (limit, offset + limit as u32);
        let mut items: Vec<Arc<models::NewsItem>> = Vec::new();
        let mut at: usize = 0;
        while at < self.results.len()
            invariant
                at <= self.results.len(),
                items@.len() == at,
                forall|i: int|
                    0 <= i < at ==> (*#[trigger] items@[i]).is_link_of(
                        self.results@[i],
                        upstream@,
                    ),
            decreases self.results.len() - at,
        {
            items.push(Arc::new(self.results[at].link(upstream)));
            at += 1;
        }
        Arc::new(
            models::NewsPage {
                previous_page: previous,
                next_page: ObjRef::new(next_page_key),
                items,
            },
        )
    }
}

} // verus!
