use vstd::prelude::*;
use crate::common::{MissingInfo, SchedulingClass, code_num, spec_code_num};
use crate::schema::{
    ColumnSpec, ColumnType, DecodeError, EnumDomain, FieldV, RowDecodable, decode_row,
    field_as_code, field_as_opt_bool, field_as_opt_code, field_as_opt_float, field_as_opt_text,
    field_as_opt_u64, field_as_u64, lemma_row_ok_columns, pop_field, spec_decode_column,
};

verus! {

/// Number of shard files of the task-events trace table.
pub const TASK_EVENT_FILE_COUNT: usize = 500;

/// Lifecycle event types of tasks, codes 0-8; the codes carry the same
/// meaning as for job events.
#[derive(Clone, Copy, Debug, PartialEq, Eq, Structural)]
pub enum TaskEventType {
    /// Code 0: the task became eligible for scheduling.
    Submit,
    /// Code 1: the task was scheduled on a machine.
    Schedule,
    /// Code 2: the task was descheduled in favour of higher-priority work or
    /// because its machine or data became unavailable.
    Evict,
    /// Code 3: the task was descheduled due to a failure.
    Fail,
    /// Code 4: the task completed normally.
    Finish,
    /// Code 5: the task was cancelled by the user, a driver program, or the
    /// death of a job or task it depended on.
    Kill,
    /// Code 6: the task was presumably terminated, but the terminating
    /// record is missing from the source data.
    Lost,
    /// Code 7: the task's class, resource requirements, or constraints were
    /// updated while it was waiting to be scheduled.
    UpdatePending,
    /// Code 8: the same update while the task was scheduled.
    UpdateRunning,
}

impl TaskEventType {
    /// The variant for an in-range code index.
    pub open spec fn spec_from_index(i: u8) -> TaskEventType
        recommends
            i < 9,
    {
        if i == 0 {
            TaskEventType::Submit
        } else if i == 1 {
            TaskEventType::Schedule
        } else if i == 2 {
            TaskEventType::Evict
        } else if i == 3 {
            TaskEventType::Fail
        } else if i == 4 {
            TaskEventType::Finish
        } else if i == 5 {
            TaskEventType::Kill
        } else if i == 6 {
            TaskEventType::Lost
        } else if i == 7 {
            TaskEventType::UpdatePending
        } else {
            TaskEventType::UpdateRunning
        }
    }

    /// Closed-set decoding: exactly the codes "0" through "8" map to a
    /// variant; every other text is outside the set.
    pub open spec fn spec_from_code(code: Seq<char>) -> Option<TaskEventType> {
        match spec_code_num(code) {
            Some(i) => if i < 9 {
                Some(TaskEventType::spec_from_index(i))
            } else {
                None
            },
            None => None,
        }
    }

    pub fn from_index(i: u8) -> (r: TaskEventType)
        requires
            i < 9,
        ensures
            r == TaskEventType::spec_from_index(i),
    {
        if i == 0 {
            TaskEventType::Submit
        } else if i == 1 {
            TaskEventType::Schedule
        } else if i == 2 {
            TaskEventType::Evict
        } else if i == 3 {
            TaskEventType::Fail
        } else if i == 4 {
            TaskEventType::Finish
        } else if i == 5 {
            TaskEventType::Kill
        } else if i == 6 {
            TaskEventType::Lost
        } else if i == 7 {
            TaskEventType::UpdatePending
        } else {
            TaskEventType::UpdateRunning
        }
    }

    /// Decode a code text; `None` means the code is outside the closed set.
    pub fn from_code(code: &str) -> (r: Option<TaskEventType>)
        ensures
            r == TaskEventType::spec_from_code(code@),
    {
        match code_num(code) {
            Some(i) => if i < 9 {
                Some(TaskEventType::from_index(i))
            } else {
                None
            },
            None => None,
        }
    }
}

/// One row of the task-events table.  The resource-request columns hold the
/// raw text of their floating-point values, checked against the literal
/// grammar; no precision is decided here.
#[derive(Debug, Clone, PartialEq)]
pub struct TaskEvent {
    pub time: u64,
    pub missing_info: Option<MissingInfo>,
    pub job_id: u64,
    pub task_index: u64,
    pub machine_id: Option<u64>,
    pub event_type: TaskEventType,
    pub user: Option<String>,
    pub scheduling_class: Option<SchedulingClass>,
    pub priority: u64,
    pub cpu_request: Option<String>,
    pub memory_request: Option<String>,
    pub disk_space_request: Option<String>,
    pub different_machines_restrict: Option<bool>,
}

/// Mathematical value of a task-event record.
pub struct TaskEventV {
    pub time: u64,
    pub missing_info: Option<MissingInfo>,
    pub job_id: u64,
    pub task_index: u64,
    pub machine_id: Option<u64>,
    pub event_type: TaskEventType,
    pub user: Option<Seq<char>>,
    pub scheduling_class: Option<SchedulingClass>,
    pub priority: u64,
    pub cpu_request: Option<Seq<char>>,
    pub memory_request: Option<Seq<char>>,
    pub disk_space_request: Option<Seq<char>>,
    pub different_machines_restrict: Option<bool>,
}

impl DeepView for TaskEvent {
    type V = TaskEventV;

    open spec fn deep_view(&self) -> TaskEventV {
        TaskEventV {
            time: self.time,
            missing_info: self.missing_info,
            job_id: self.job_id,
            task_index: self.task_index,
            machine_id: self.machine_id,
            event_type: self.event_type,
            user: self.user.deep_view(),
            scheduling_class: self.scheduling_class,
            priority: self.priority,
            cpu_request: self.cpu_request.deep_view(),
            memory_request: self.memory_request.deep_view(),
            disk_space_request: self.disk_space_request.deep_view(),
            different_machines_restrict: self.different_machines_restrict,
        }
    }
}

/// Column schema of a task-event row: time, missing info, job ID, task
/// index, machine ID, event type, user, scheduling class, priority, CPU
/// request, memory request, disk space request, different-machines
/// restriction.
pub open spec fn spec_task_event_schema() -> Seq<ColumnSpec> {
    seq![
        ColumnSpec { ty: ColumnType::UInt, optional: false },
        ColumnSpec { ty: ColumnType::Enum(EnumDomain::MissingInfo), optional: true },
        ColumnSpec { ty: ColumnType::UInt, optional: false },
        ColumnSpec { ty: ColumnType::UInt, optional: false },
        ColumnSpec { ty: ColumnType::UInt, optional: true },
        ColumnSpec { ty: ColumnType::Enum(EnumDomain::EventType), optional: false },
        ColumnSpec { ty: ColumnType::Text, optional: true },
        ColumnSpec { ty: ColumnType::Enum(EnumDomain::SchedulingClass), optional: true },
        ColumnSpec { ty: ColumnType::UInt, optional: false },
        ColumnSpec { ty: ColumnType::Float, optional: true },
        ColumnSpec { ty: ColumnType::Float, optional: true },
        ColumnSpec { ty: ColumnType::Float, optional: true },
        ColumnSpec { ty: ColumnType::Boolean, optional: true },
    ]
}

pub fn task_event_schema() -> (r: Vec<ColumnSpec>)
    ensures
        r@ == spec_task_event_schema(),
{
    let mut v: Vec<ColumnSpec> = Vec::new();
    v.push(ColumnSpec { ty: ColumnType::UInt, optional: false });
    v.push(ColumnSpec { ty: ColumnType::Enum(EnumDomain::MissingInfo), optional: true });
    v.push(ColumnSpec { ty: ColumnType::UInt, optional: false });
    v.push(ColumnSpec { ty: ColumnType::UInt, optional: false });
    v.push(ColumnSpec { ty: ColumnType::UInt, optional: true });
    v.push(ColumnSpec { ty: ColumnType::Enum(EnumDomain::EventType), optional: false });
    v.push(ColumnSpec { ty: ColumnType::Text, optional: true });
    v.push(ColumnSpec { ty: ColumnType::Enum(EnumDomain::SchedulingClass), optional: true });
    v.push(ColumnSpec { ty: ColumnType::UInt, optional: false });
    v.push(ColumnSpec { ty: ColumnType::Float, optional: true });
    v.push(ColumnSpec { ty: ColumnType::Float, optional: true });
    v.push(ColumnSpec { ty: ColumnType::Float, optional: true });
    v.push(ColumnSpec { ty: ColumnType::Boolean, optional: true });
    proof {
        assert(v@ =~= spec_task_event_schema());
    }
    v
}

impl RowDecodable for TaskEvent {
    open spec fn spec_schema() -> Seq<ColumnSpec> {
        spec_task_event_schema()
    }

    /// The record's attributes against the decoded column values of its row.
    open spec fn fields_match(v: TaskEventV, fs: Seq<FieldV>) -> bool {
        &&& fs.len() == 13
        &&& fs[0] matches FieldV::UInt(t) && v.time == t
        &&& match fs[1] {
            FieldV::Null => v.missing_info is None,
            FieldV::Code(i) => i < 3 && v.missing_info == Some(MissingInfo::spec_from_index(i)),
            _ => false,
        }
        &&& fs[2] matches FieldV::UInt(id) && v.job_id == id
        &&& fs[3] matches FieldV::UInt(ix) && v.task_index == ix
        &&& match fs[4] {
            FieldV::Null => v.machine_id is None,
            FieldV::UInt(id) => v.machine_id == Some(id),
            _ => false,
        }
        &&& fs[5] matches FieldV::Code(i) && i < 9 && v.event_type
            == TaskEventType::spec_from_index(i)
        &&& match fs[6] {
            FieldV::Null => v.user is None,
            FieldV::Text(s) => v.user == Some(s),
            _ => false,
        }
        &&& match fs[7] {
            FieldV::Null => v.scheduling_class is None,
            FieldV::Code(i) => i < 4 && v.scheduling_class == Some(
                SchedulingClass::spec_from_index(i),
            ),
            _ => false,
        }
        &&& fs[8] matches FieldV::UInt(p) && v.priority == p
        &&& match fs[9] {
            FieldV::Null => v.cpu_request is None,
            FieldV::Float(s) => v.cpu_request == Some(s),
            _ => false,
        }
        &&& match fs[10] {
            FieldV::Null => v.memory_request is None,
            FieldV::Float(s) => v.memory_request == Some(s),
            _ => false,
        }
        &&& match fs[11] {
            FieldV::Null => v.disk_space_request is None,
            FieldV::Float(s) => v.disk_space_request == Some(s),
            _ => false,
        }
        &&& match fs[12] {
            FieldV::Null => v.different_machines_restrict is None,
            FieldV::Boolean(b) => v.different_machines_restrict == Some(b),
            _ => false,
        }
    }

    fn decode(row: &Vec<String>) -> (r: Result<TaskEvent, DecodeError>) {
        let schema = task_event_schema();
        let mut fields = match decode_row(&schema, row) {
            Ok(fs) => fs,
            Err(e) => {
                return Err(e);
            },
        };
        let ghost cols = spec_task_event_schema();
        let ghost cells = row.deep_view();
        proof {
            lemma_row_ok_columns(cols, cells);
            assert(spec_decode_column(cols[0], cells[0]) is Ok);
            assert(spec_decode_column(cols[1], cells[1]) is Ok);
            assert(spec_decode_column(cols[2], cells[2]) is Ok);
            assert(spec_decode_column(cols[3], cells[3]) is Ok);
            assert(spec_decode_column(cols[4], cells[4]) is Ok);
            assert(spec_decode_column(cols[5], cells[5]) is Ok);
            assert(spec_decode_column(cols[6], cells[6]) is Ok);
            assert(spec_decode_column(cols[7], cells[7]) is Ok);
            assert(spec_decode_column(cols[8], cells[8]) is Ok);
            assert(spec_decode_column(cols[9], cells[9]) is Ok);
            assert(spec_decode_column(cols[10], cells[10]) is Ok);
            assert(spec_decode_column(cols[11], cells[11]) is Ok);
            assert(spec_decode_column(cols[12], cells[12]) is Ok);
        }
        let f12 = pop_field(&mut fields);
        let different_machines_restrict = field_as_opt_bool(f12);
        let f11 = pop_field(&mut fields);
        let disk_space_request = field_as_opt_float(f11);
        let f10 = pop_field(&mut fields);
        let memory_request = field_as_opt_float(f10);
        let f9 = pop_field(&mut fields);
        let cpu_request = field_as_opt_float(f9);
        let f8 = pop_field(&mut fields);
        let priority = field_as_u64(f8);
        let f7 = pop_field(&mut fields);
        let scheduling_class = match field_as_opt_code(f7) {
            Some(i) => Some(SchedulingClass::from_index(i)),
            None => None,
        };
        let f6 = pop_field(&mut fields);
        let user = field_as_opt_text(f6);
        let f5 = pop_field(&mut fields);
        let event_type = TaskEventType::from_index(field_as_code(f5));
        let f4 = pop_field(&mut fields);
        let machine_id = field_as_opt_u64(f4);
        let f3 = pop_field(&mut fields);
        let task_index = field_as_u64(f3);
        let f2 = pop_field(&mut fields);
        let job_id = field_as_u64(f2);
        let f1 = pop_field(&mut fields);
        let missing_info = match field_as_opt_code(f1) {
            Some(i) => Some(MissingInfo::from_index(i)),
            None => None,
        };
        let f0 = pop_field(&mut fields);
        let time = field_as_u64(f0);
        Ok(
            TaskEvent {
                time,
                missing_info,
                job_id,
                task_index,
                machine_id,
                event_type,
                user,
                scheduling_class,
                priority,
                cpu_request,
                memory_request,
                disk_space_request,
                different_machines_restrict,
            },
        )
    }
}

/// The row's decoded column values determine the record: two task events
/// that match the same decoded row are equal.
pub proof fn lemma_task_event_unique(a: TaskEventV, b: TaskEventV, fs: Seq<FieldV>)
    requires
        TaskEvent::fields_match(a, fs),
        TaskEvent::fields_match(b, fs),
    ensures
        a == b,
{
}

} // verus!
