//! The values that the service hands out, and their mathematical views.
use vstd::prelude::*;

verus! {

/// A school.
#[derive(Debug)]
#[allow(non_snake_case)]
pub struct School {
    /// Human readable name of the school.
    pub name: String,
    /// The id to use for further inquiries.
    pub schoolID: String,
}

/// A class of a school.
#[derive(Debug)]
#[allow(non_snake_case)]
pub struct Class {
    /// Human readable name of the class.
    pub className: String,
    /// The id to use for further inquiries.
    pub classID: String,
}

/// One week of a schedule.
#[derive(Debug)]
#[allow(non_snake_case)]
pub struct ScheduleWeek {
    /// The week's number, as the service writes it.
    pub weekNr: String,
    /// The days of the week, in the service's order.
    pub days: Vec<ScheduleDay>,
}

/// One day of a schedule.
#[derive(Debug)]
pub struct ScheduleDay {
    /// Name of the day of the week, e.g. "Fredag".
    pub name: String,
    /// The date, e.g. "Fri Oct 21 2022".
    pub date: String,
    /// The lessons of the day, in the service's order.
    pub classes: Vec<ScheduleClass>,
}

/// One lesson of a schedule.
#[derive(Debug)]
pub struct ScheduleClass {
    /// The date of the lesson, e.g. "21. oktober 2022"; it is written
    /// otherwise than the date of the day.
    pub date: String,
    /// The time of the lesson, e.g. "13:15-14:15".
    pub time: String,
    /// The room, e.g. "553".
    pub room: String,
    /// The subject, e.g. "Naturfag".
    pub name: String,
    /// The teacher.
    pub teacher: String,
}

/// What the service answered to a registration: its status code and body,
/// uninterpreted. A 200 does not mean that the registration was accepted.
#[derive(Debug)]
pub struct AddUserResponse {
    /// The HTTP status code of the answer.
    pub code: u16,
    /// The body of the answer.
    pub response: String,
}

pub struct SchoolView {
    pub name: Seq<char>,
    pub school_id: Seq<char>,
}

pub struct ClassView {
    pub class_name: Seq<char>,
    pub class_id: Seq<char>,
}

pub struct ScheduleClassView {
    pub date: Seq<char>,
    pub time: Seq<char>,
    pub room: Seq<char>,
    pub name: Seq<char>,
    pub teacher: Seq<char>,
}

pub struct ScheduleDayView {
    pub name: Seq<char>,
    pub date: Seq<char>,
    pub classes: Seq<ScheduleClassView>,
}

pub struct ScheduleWeekView {
    pub week_nr: Seq<char>,
    pub days: Seq<ScheduleDayView>,
}

impl View for School {
    type V = SchoolView;

    open spec fn view(&self) -> SchoolView {
        SchoolView { name: self.name@, school_id: self.schoolID@ }
    }
}

impl View for Class {
    type V = ClassView;

    open spec fn view(&self) -> ClassView {
        ClassView { class_name: self.className@, class_id: self.classID@ }
    }
}

impl View for ScheduleClass {
    type V = ScheduleClassView;

    open spec fn view(&self) -> ScheduleClassView {
        ScheduleClassView {
            date: self.date@,
            time: self.time@,
            room: self.room@,
            name: self.name@,
            teacher: self.teacher@,
        }
    }
}

impl View for ScheduleDay {
    type V = ScheduleDayView;

    open spec fn view(&self) -> ScheduleDayView {
        ScheduleDayView {
            name: self.name@,
            date: self.date@,
            classes: self.classes@.map_values(|c: ScheduleClass| c@),
        }
    }
}

impl View for ScheduleWeek {
    type V = ScheduleWeekView;

    open spec fn view(&self) -> ScheduleWeekView {
        ScheduleWeekView { week_nr: self.weekNr@, days: self.days@.map_values(|d: ScheduleDay| d@) }
    }
}

impl AddUserResponse {
    /// Records the service's answer to a registration as it came.
    pub fn new(code: u16, response: String) -> (r: AddUserResponse)
        ensures
            r.code == code,
            r.response == response,
    {
        AddUserResponse { code, response }
    }
}

} // verus!
