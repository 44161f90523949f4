//! The kinds that the service numbers, turned into the kinds that a caller sees.
use crate::models;
use crate::network::models as nmodels;
use vstd::prelude::*;
use vstd::std_specs::convert::FromSpecImpl;

verus! {

impl From<nmodels::Degree> for models::Degree {
    fn from(kind: nmodels::Degree) -> (same: Self) {
        match kind {
            nmodels::Degree::BSc => models::Degree::BSc,
            nmodels::Degree::MSc => models::Degree::MSc,
            nmodels::Degree::PhD => models::Degree::PhD,
            nmodels::Degree::IntegratedMSc => models::Degree::IntegratedMSc,
            nmodels::Degree::PostGraduation => models::Degree::PostGraduation,
            nmodels::Degree::AdvancedStudies => models::Degree::AdvancedStudies,
            nmodels::Degree::PreGraduation => models::Degree::PreGraduation,
        }
    }
}

impl FromSpecImpl<nmodels::Degree> for models::Degree {
    open spec fn obeys_from_spec() -> bool {
        true
    }

    open spec fn from_spec(kind: nmodels::Degree) -> Self {
        match kind {
            nmodels::Degree::BSc => models::Degree::BSc,
            nmodels::Degree::MSc => models::Degree::MSc,
            nmodels::Degree::PhD => models::Degree::PhD,
            nmodels::Degree::IntegratedMSc => models::Degree::IntegratedMSc,
            nmodels::Degree::PostGraduation => models::Degree::PostGraduation,
            nmodels::Degree::AdvancedStudies => models::Degree::AdvancedStudies,
            nmodels::Degree::PreGraduation => models::Degree::PreGraduation,
        }
    }
}

impl From<nmodels::Period> for models::Period {
    fn from(kind: nmodels::Period) -> (same: Self) {
        match kind {
            nmodels::Period::Year => models::Period::Year,
            nmodels::Period::FirstSemester => models::Period::FirstSemester,
            nmodels::Period::SecondSemester => models::Period::SecondSemester,
            nmodels::Period::FirstTrimester => models::Period::FirstTrimester,
            nmodels::Period::SecondTrimester => models::Period::SecondTrimester,
            nmodels::Period::ThirdTrimester => models::Period::ThirdTrimester,
            nmodels::Period::FourthTrimester => models::Period::FourthTrimester,
        }
    }
}

impl FromSpecImpl<nmodels::Period> for models::Period {
    open spec fn obeys_from_spec() -> bool {
        true
    }

    open spec fn from_spec(kind: nmodels::Period) -> Self {
        match kind {
            nmodels::Period::Year => models::Period::Year,
            nmodels::Period::FirstSemester => models::Period::FirstSemester,
            nmodels::Period::SecondSemester => models::Period::SecondSemester,
            nmodels::Period::FirstTrimester => models::Period::FirstTrimester,
            nmodels::Period::SecondTrimester => models::Period::SecondTrimester,
            nmodels::Period::ThirdTrimester => models::Period::ThirdTrimester,
            nmodels::Period::FourthTrimester => models::Period::FourthTrimester,
        }
    }
}

impl From<nmodels::Weekday> for models::Weekday {
    fn from(kind: nmodels::Weekday) -> (same: Self) {
        match kind {
            nmodels::Weekday::Monday => models::Weekday::Monday,
            nmodels::Weekday::Thursday => models::Weekday::Thursday,
            nmodels::Weekday::Wednesday => models::Weekday::Wednesday,
            nmodels::Weekday::Tuesday => models::Weekday::Tuesday,
            nmodels::Weekday::Friday => models::Weekday::Friday,
            nmodels::Weekday::Saturday => models::Weekday::Saturday,
            nmodels::Weekday::Sunday => models::Weekday::Sunday,
        }
    }
}

impl FromSpecImpl<nmodels::Weekday> for models::Weekday {
    open spec fn obeys_from_spec() -> bool {
        true
    }

    open spec fn from_spec(kind: nmodels::Weekday) -> Self {
        match kind {
            nmodels::Weekday::Monday => models::Weekday::Monday,
            nmodels::Weekday::Thursday => models::Weekday::Thursday,
            nmodels::Weekday::Wednesday => models::Weekday::Wednesday,
            nmodels::Weekday::Tuesday => models::Weekday::Tuesday,
            nmodels::Weekday::Friday => models::Weekday::Friday,
            nmodels::Weekday::Saturday => models::Weekday::Saturday,
            nmodels::Weekday::Sunday => models::Weekday::Sunday,
        }
    }
}

impl From<nmodels::RoomType> for models::RoomType {
    fn from(kind: nmodels::RoomType) -> (same: Self) {
        match kind {
            nmodels::RoomType::Generic => models::RoomType::Generic,
            nmodels::RoomType::Classroom => models::RoomType::Classroom,
            nmodels::RoomType::Auditorium => models::RoomType::Auditorium,
            nmodels::RoomType::Laboratory => models::RoomType::Laboratory,
            nmodels::RoomType::Computer => models::RoomType::Computer,
            nmodels::RoomType::Meeting => models::RoomType::Meeting,
            nmodels::RoomType::Masters => models::RoomType::Masters,
            nmodels::RoomType::Cabinet => models::RoomType::Cabinet,
        }
    }
}

impl FromSpecImpl<nmodels::RoomType> for models::RoomType {
    open spec fn obeys_from_spec() -> bool {
        true
    }

    open spec fn from_spec(kind: nmodels::RoomType) -> Self {
        match kind {
            nmodels::RoomType::Generic => models::RoomType::Generic,
            nmodels::RoomType::Classroom => models::RoomType::Classroom,
            nmodels::RoomType::Auditorium => models::RoomType::Auditorium,
            nmodels::RoomType::Laboratory => models::RoomType::Laboratory,
            nmodels::RoomType::Computer => models::RoomType::Computer,
            nmodels::RoomType::Meeting => models::RoomType::Meeting,
            nmodels::RoomType::Masters => models::RoomType::Masters,
            nmodels::RoomType::Cabinet => models::RoomType::Cabinet,
        }
    }
}

impl From<nmodels::ShiftType> for models::ShiftType {
    fn from(kind: nmodels::ShiftType) -> (same: Self) {
        match kind {
            nmodels::ShiftType::Theoretical => models::ShiftType::Theoretical,
            nmodels::ShiftType::Practical => models::ShiftType::Practical,
            nmodels::ShiftType::PracticalTheoretical => models::ShiftType::PracticalTheoretical,
            nmodels::ShiftType::Seminar => models::ShiftType::Seminar,
            nmodels::ShiftType::TutorialOrientation => models::ShiftType::TutorialOrientation,
            nmodels::ShiftType::FieldWork => models::ShiftType::FieldWork,
            nmodels::ShiftType::OnlineTheoretical => models::ShiftType::OnlineTheoretical,
            nmodels::ShiftType::OnlinePractical => models::ShiftType::OnlinePractical,
            nmodels::ShiftType::OnlinePracticalTheoretical => models::ShiftType::OnlinePracticalTheoretical,
        }
    }
}

impl FromSpecImpl<nmodels::ShiftType> for models::ShiftType {
    open spec fn obeys_from_spec() -> bool {
        true
    }

    open spec fn from_spec(kind: nmodels::ShiftType) -> Self {
        match kind {
            nmodels::ShiftType::Theoretical => models::ShiftType::Theoretical,
            nmodels::ShiftType::Practical => models::ShiftType::Practical,
            nmodels::ShiftType::PracticalTheoretical => models::ShiftType::PracticalTheoretical,
            nmodels::ShiftType::Seminar => models::ShiftType::Seminar,
            nmodels::ShiftType::TutorialOrientation => models::ShiftType::TutorialOrientation,
            nmodels::ShiftType::FieldWork => models::ShiftType::FieldWork,
            nmodels::ShiftType::OnlineTheoretical => models::ShiftType::OnlineTheoretical,
            nmodels::ShiftType::OnlinePractical => models::ShiftType::OnlinePractical,
            nmodels::ShiftType::OnlinePracticalTheoretical => models::ShiftType::OnlinePracticalTheoretical,
        }
    }
}

impl From<nmodels::GroupType> for models::GroupType {
    fn from(kind: nmodels::GroupType) -> (same: Self) {
        match kind {
            nmodels::GroupType::Institutional => models::GroupType::Institutional,
            nmodels::GroupType::Nuclei => models::GroupType::Nuclei,
            nmodels::GroupType::AcademicAssociation => models::GroupType::AcademicAssociation,
            nmodels::GroupType::Pedagogic => models::GroupType::Pedagogic,
            nmodels::GroupType::Praxis => models::GroupType::Praxis,
            nmodels::GroupType::Community => models::GroupType::Community,
        }
    }
}

impl FromSpecImpl<nmodels::GroupType> for models::GroupType {
    open spec fn obeys_from_spec() -> bool {
        true
    }

    open spec fn from_spec(kind: nmodels::GroupType) -> Self {
        match kind {
            nmodels::GroupType::Institutional => models::GroupType::Institutional,
            nmodels::GroupType::Nuclei => models::GroupType::Nuclei,
            nmodels::GroupType::AcademicAssociation => models::GroupType::AcademicAssociation,
            nmodels::GroupType::Pedagogic => models::GroupType::Pedagogic,
            nmodels::GroupType::Praxis => models::GroupType::Praxis,
            nmodels::GroupType::Community => models::GroupType::Community,
        }
    }
}

impl From<nmodels::GroupVisibility> for models::GroupVisibility {
    fn from(kind: nmodels::GroupVisibility) -> (same: Self) {
        match kind {
            nmodels::GroupVisibility::Secret => models::GroupVisibility::Secret,
            nmodels::GroupVisibility::Closed => models::GroupVisibility::Closed,
            nmodels::GroupVisibility::Request => models::GroupVisibility::Request,
            nmodels::GroupVisibility::Open => models::GroupVisibility::Open,
        }
    }
}

impl FromSpecImpl<nmodels::GroupVisibility> for models::GroupVisibility {
    open spec fn obeys_from_spec() -> bool {
        true
    }

    open spec fn from_spec(kind: nmodels::GroupVisibility) -> Self {
        match kind {
            nmodels::GroupVisibility::Secret => models::GroupVisibility::Secret,
            nmodels::GroupVisibility::Closed => models::GroupVisibility::Closed,
            nmodels::GroupVisibility::Request => models::GroupVisibility::Request,
            nmodels::GroupVisibility::Open => models::GroupVisibility::Open,
        }
    }
}

impl From<nmodels::GroupEventType> for models::GroupEventType {
    fn from(kind: nmodels::GroupEventType) -> (same: Self) {
        match kind {
            nmodels::GroupEventType::Generic => models::GroupEventType::Generic,
            nmodels::GroupEventType::Talk => models::GroupEventType::Talk,
            nmodels::GroupEventType::Workshop => models::GroupEventType::Workshop,
            nmodels::GroupEventType::Party => models::GroupEventType::Party,
            nmodels::GroupEventType::Contest => models::GroupEventType::Contest,
            nmodels::GroupEventType::Fair => models::GroupEventType::Fair,
            nmodels::GroupEventType::Meeting => models::GroupEventType::Meeting,
        }
    }
}

impl FromSpecImpl<nmodels::GroupEventType> for models::GroupEventType {
    open spec fn obeys_from_spec() -> bool {
        true
    }

    open spec fn from_spec(kind: nmodels::GroupEventType) -> Self {
        match kind {
            nmodels::GroupEventType::Generic => models::GroupEventType::Generic,
            nmodels::GroupEventType::Talk => models::GroupEventType::Talk,
            nmodels::GroupEventType::Workshop => models::GroupEventType::Workshop,
            nmodels::GroupEventType::Party => models::GroupEventType::Party,
            nmodels::GroupEventType::Contest => models::GroupEventType::Contest,
            nmodels::GroupEventType::Fair => models::GroupEventType::Fair,
            nmodels::GroupEventType::Meeting => models::GroupEventType::Meeting,
        }
    }
}

} // verus!
