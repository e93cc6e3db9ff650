use vstd::prelude::*;
use crate::common::{MissingInfo, SchedulingClass, code_num, spec_code_num};
use crate::schema::{
    ColumnSpec, ColumnType, DecodeError, EnumDomain, FieldV, RowDecodable, decode_row,
    field_as_code, field_as_opt_code, field_as_opt_text, field_as_u64, lemma_row_ok_columns,
    pop_field, spec_decode_column,
};

verus! {

/// Number of shard files of the job-events trace table.
pub const JOB_EVENT_FILE_COUNT: usize = 500;

/// Lifecycle event types of jobs, codes 0-8.
#[derive(Clone, Copy, Debug, PartialEq, Eq, Structural)]
pub enum JobEventType {
    /// Code 0: the job became eligible for scheduling.
    Submit,
    /// Code 1: the first task of the job was scheduled on a machine.
    Schedule,
    /// Code 2: the job was descheduled in favour of higher-priority work or
    /// because its machine or data became unavailable.
    Evict,
    /// Code 3: the job was descheduled due to a task failure.
    Fail,
    /// Code 4: the job completed normally.
    Finish,
    /// Code 5: the job was cancelled by the user, a driver program, or the
    /// death of a job it depended on.
    Kill,
    /// Code 6: the job was presumably terminated, but the terminating record
    /// is missing from the source data.
    Lost,
    /// Code 7: the job's class, resource requirements, or constraints were
    /// updated while it was waiting to be scheduled.
    UpdatePending,
    /// Code 8: the same update while the job was scheduled.
    UpdateRunning,
}

impl JobEventType {
    /// The variant for an in-range code index.
    pub open spec fn spec_from_index(i: u8) -> JobEventType
        recommends
            i < 9,
    {
        if i == 0 {
            JobEventType::Submit
        } else if i == 1 {
            JobEventType::Schedule
        } else if i == 2 {
            JobEventType::Evict
        } else if i == 3 {
            JobEventType::Fail
        } else if i == 4 {
            JobEventType::Finish
        } else if i == 5 {
            JobEventType::Kill
        } else if i == 6 {
            JobEventType::Lost
        } else if i == 7 {
            JobEventType::UpdatePending
        } else {
            JobEventType::UpdateRunning
        }
    }

    /// Closed-set decoding: exactly the codes "0" through "8" map to a
    /// variant; every other text is outside the set.
    pub open spec fn spec_from_code(code: Seq<char>) -> Option<JobEventType> {
        match spec_code_num(code) {
            Some(i) => if i < 9 {
                Some(JobEventType::spec_from_index(i))
            } else {
                None
            },
            None => None,
        }
    }

    pub fn from_index(i: u8) -> (r: JobEventType)
        requires
            i < 9,
        ensures
            r == JobEventType::spec_from_index(i),
    {
        if i == 0 {
            JobEventType::Submit
        } else if i == 1 {
            JobEventType::Schedule
        } else if i == 2 {
            JobEventType::Evict
        } else if i == 3 {
            JobEventType::Fail
        } else if i == 4 {
            JobEventType::Finish
        } else if i == 5 {
            JobEventType::Kill
        } else if i == 6 {
            JobEventType::Lost
        } else if i == 7 {
            JobEventType::UpdatePending
        } else {
            JobEventType::UpdateRunning
        }
    }

    /// Decode a code text; `None` means the code is outside the closed set.
    pub fn from_code(code: &str) -> (r: Option<JobEventType>)
        ensures
            r == JobEventType::spec_from_code(code@),
    {
        match code_num(code) {
            Some(i) => if i < 9 {
                Some(JobEventType::from_index(i))
            } else {
                None
            },
            None => None,
        }
    }
}

/// One row of the job-events table.
#[derive(Debug, Clone, PartialEq)]
pub struct JobEvent {
    pub time: u64,
    pub missing_info: Option<MissingInfo>,
    pub job_id: u64,
    pub event_type: JobEventType,
    pub user: Option<String>,
    pub scheduling_class: Option<SchedulingClass>,
    pub job_name: Option<String>,
    pub logical_job_name: Option<String>,
}

/// Mathematical value of a job-event record.
pub struct JobEventV {
    pub time: u64,
    pub missing_info: Option<MissingInfo>,
    pub job_id: u64,
    pub event_type: JobEventType,
    pub user: Option<Seq<char>>,
    pub scheduling_class: Option<SchedulingClass>,
    pub job_name: Option<Seq<char>>,
    pub logical_job_name: Option<Seq<char>>,
}

impl DeepView for JobEvent {
    type V = JobEventV;

    open spec fn deep_view(&self) -> JobEventV {
        JobEventV {
            time: self.time,
            missing_info: self.missing_info,
            job_id: self.job_id,
            event_type: self.event_type,
            user: self.user.deep_view(),
            scheduling_class: self.scheduling_class,
            job_name: self.job_name.deep_view(),
            logical_job_name: self.logical_job_name.deep_view(),
        }
    }
}

/// Column schema of a job-event row: time, missing info, job ID, event
/// type, user, scheduling class, job name, logical job name.
pub open spec fn spec_job_event_schema() -> Seq<ColumnSpec> {
    seq![
        ColumnSpec { ty: ColumnType::UInt, optional: false },
        ColumnSpec { ty: ColumnType::Enum(EnumDomain::MissingInfo), optional: true },
        ColumnSpec { ty: ColumnType::UInt, optional: false },
        ColumnSpec { ty: ColumnType::Enum(EnumDomain::EventType), optional: false },
        ColumnSpec { ty: ColumnType::Text, optional: true },
        ColumnSpec { ty: ColumnType::Enum(EnumDomain::SchedulingClass), optional: true },
        ColumnSpec { ty: ColumnType::Text, optional: true },
        ColumnSpec { ty: ColumnType::Text, optional: true },
    ]
}

pub fn job_event_schema() -> (r: Vec<ColumnSpec>)
    ensures
        r@ == spec_job_event_schema(),
{
    let mut v: Vec<ColumnSpec> = Vec::new();
    v.push(ColumnSpec { ty: ColumnType::UInt, optional: false });
    v.push(ColumnSpec { ty: ColumnType::Enum(EnumDomain::MissingInfo), optional: true });
    v.push(ColumnSpec { ty: ColumnType::UInt, optional: false });
    v.push(ColumnSpec { ty: ColumnType::Enum(EnumDomain::EventType), optional: false });
    v.push(ColumnSpec { ty: ColumnType::Text, optional: true });
    v.push(ColumnSpec { ty: ColumnType::Enum(EnumDomain::SchedulingClass), optional: true });
    v.push(ColumnSpec { ty: ColumnType::Text, optional: true });
    v.push(ColumnSpec { ty: ColumnType::Text, optional: true });
    proof {
        assert(v@ =~= spec_job_event_schema());
    }
    v
}

impl RowDecodable for JobEvent {
    open spec fn spec_schema() -> Seq<ColumnSpec> {
        spec_job_event_schema()
    }

    /// The record's attributes against the decoded column values of its row.
    open spec fn fields_match(v: JobEventV, fs: Seq<FieldV>) -> bool {
        &&& fs.len() == 8
        &&& fs[0] matches FieldV::UInt(t) && v.time == t
        &&& match fs[1] {
            FieldV::Null => v.missing_info is None,
            FieldV::Code(i) => i < 3 && v.missing_info == Some(MissingInfo::spec_from_index(i)),
            _ => false,
        }
        &&& fs[2] matches FieldV::UInt(id) && v.job_id == id
        &&& fs[3] matches FieldV::Code(i) && i < 9 && v.event_type == JobEventType::spec_from_index(
            i,
        )
        &&& match fs[4] {
            FieldV::Null => v.user is None,
            FieldV::Text(s) => v.user == Some(s),
            _ => false,
        }
        &&& match fs[5] {
            FieldV::Null => v.scheduling_class is None,
            FieldV::Code(i) => i < 4 && v.scheduling_class == Some(
                SchedulingClass::spec_from_index(i),
            ),
            _ => false,
        }
        &&& match fs[6] {
            FieldV::Null => v.job_name is None,
            FieldV::Text(s) => v.job_name == Some(s),
            _ => false,
        }
        &&& match fs[7] {
            FieldV::Null => v.logical_job_name is None,
            FieldV::Text(s) => v.logical_job_name == Some(s),
            _ => false,
        }
    }

    fn decode(row: &Vec<String>) -> (r: Result<JobEvent, DecodeError>) {
        let schema = job_event_schema();
        let mut fields = match decode_row(&schema, row) {
            Ok(fs) => fs,
            Err(e) => {
                return Err(e);
            },
        };
        let ghost fs = fields.deep_view();
        let ghost cols = spec_job_event_schema();
        let ghost cells = row.deep_view();
        proof {
            lemma_row_ok_columns(cols, cells);
            assert(spec_decode_column(cols[0], cells[0]) is Ok);
            assert(spec_decode_column(cols[1], cells[1]) is Ok);
            assert(spec_decode_column(cols[2], cells[2]) is Ok);
            assert(spec_decode_column(cols[3], cells[3]) is Ok);
            assert(spec_decode_column(cols[4], cells[4]) is Ok);
            assert(spec_decode_column(cols[5], cells[5]) is Ok);
            assert(spec_decode_column(cols[6], cells[6]) is Ok);
            assert(spec_decode_column(cols[7], cells[7]) is Ok);
        }
        let f7 = pop_field(&mut fields);
        let logical_job_name = field_as_opt_text(f7);
        let f6 = pop_field(&mut fields);
        let job_name = field_as_opt_text(f6);
        let f5 = pop_field(&mut fields);
        let scheduling_class = match field_as_opt_code(f5) {
            Some(i) => Some(SchedulingClass::from_index(i)),
            None => None,
        };
        let f4 = pop_field(&mut fields);
        let user = field_as_opt_text(f4);
        let f3 = pop_field(&mut fields);
        let event_type = JobEventType::from_index(field_as_code(f3));
        let f2 = pop_field(&mut fields);
        let job_id = field_as_u64(f2);
        let f1 = pop_field(&mut fields);
        let missing_info = match field_as_opt_code(f1) {
            Some(i) => Some(MissingInfo::from_index(i)),
            None => None,
        };
        let f0 = pop_field(&mut fields);
        let time = field_as_u64(f0);
        Ok(
            JobEvent {
                time,
                missing_info,
                job_id,
                event_type,
                user,
                scheduling_class,
                job_name,
                logical_job_name,
            },
        )
    }
}

/// The row's decoded column values determine the record: two job events
/// that match the same decoded row are equal.
pub proof fn lemma_job_event_unique(a: JobEventV, b: JobEventV, fs: Seq<FieldV>)
    requires
        JobEvent::fields_match(a, fs),
        JobEvent::fields_match(b, fs),
    ensures
        a == b,
{
}

} // verus!
