use vstd::prelude::*;

verus! {

pub type UserKey = u32;

pub type GroupKey = u32;

pub type CourseKey = u32;

pub type DepartmentKey = u32;

pub type BuildingKey = u32;

pub type RoomKey = u32;

pub type TeacherKey = u32;

pub type StudentKey = u32;

pub type ClassKey = u32;

pub type ClassInstanceKey = u32;

pub type ShiftKey = u32;

pub type EnrollmentKey = u32;

pub type FileKey = u32;

pub type PlaceKey = u32;

pub type PlaceFeatureKey = u32;

/// A page of the news feed: how many items it holds at most, and how many items precede it.
pub type NewsPageKey = (u16, u32);

pub type NewsItemKey = u32;

/// A page of the events feed: how many items it holds at most, and how many items precede it.
pub type EventsPageKey = (u16, u32);

pub type EventKey = u32;

pub type LearningAreaKey = u32;

pub type LearningSubareaKey = u32;

pub type LearningSectionKey = u32;

pub type QuestionKey = u32;

pub type ServiceKey = u32;

} // verus!
