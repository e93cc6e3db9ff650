use vstd::prelude::*;
use crate::schema::{
    ColumnSpec, ColumnType, DecodeError, FieldV, RowDecodable, decode_row, field_as_opt_bool,
    field_as_opt_float, field_as_u64, lemma_row_ok_columns, pop_field, spec_decode_column,
};

verus! {

/// Number of shard files of the task-usage trace table.
pub const TASK_USAGE_FILE_COUNT: usize = 500;

/// One row of the task-usage table: a resource-usage sample of one task
/// over a measurement window.  Every metric column holds the raw text of
/// its floating-point value, checked against the literal grammar; no
/// precision is decided here.
#[derive(Debug, Clone, PartialEq)]
pub struct TaskUsageRecord {
    pub start_time: u64,
    pub end_time: u64,
    pub job_id: u64,
    pub task_index: u64,
    pub machine_id: u64,
    pub cpu_rate: Option<String>,
    pub canonical_mem_usage: Option<String>,
    pub assigned_mem_usage: Option<String>,
    pub unmapped_page_cache: Option<String>,
    pub total_page_cache: Option<String>,
    pub max_mem_usage: Option<String>,
    pub disk_io_time: Option<String>,
    pub local_disk_space: Option<String>,
    pub max_cpu_rate: Option<String>,
    pub max_disk_io_tim: Option<String>,
    pub cpi: Option<String>,
    pub mapi: Option<String>,
    pub sample_portion: Option<String>,
    pub agg_type: Option<bool>,
    pub sampled_cpu_usage: Option<String>,
}

/// Mathematical value of a task-usage record.
pub struct TaskUsageRecordV {
    pub start_time: u64,
    pub end_time: u64,
    pub job_id: u64,
    pub task_index: u64,
    pub machine_id: u64,
    pub cpu_rate: Option<Seq<char>>,
    pub canonical_mem_usage: Option<Seq<char>>,
    pub assigned_mem_usage: Option<Seq<char>>,
    pub unmapped_page_cache: Option<Seq<char>>,
    pub total_page_cache: Option<Seq<char>>,
    pub max_mem_usage: Option<Seq<char>>,
    pub disk_io_time: Option<Seq<char>>,
    pub local_disk_space: Option<Seq<char>>,
    pub max_cpu_rate: Option<Seq<char>>,
    pub max_disk_io_tim: Option<Seq<char>>,
    pub cpi: Option<Seq<char>>,
    pub mapi: Option<Seq<char>>,
    pub sample_portion: Option<Seq<char>>,
    pub agg_type: Option<bool>,
    pub sampled_cpu_usage: Option<Seq<char>>,
}

impl DeepView for TaskUsageRecord {
    type V = TaskUsageRecordV;

    open spec fn deep_view(&self) -> TaskUsageRecordV {
        TaskUsageRecordV {
            start_time: self.start_time,
            end_time: self.end_time,
            job_id: self.job_id,
            task_index: self.task_index,
            machine_id: self.machine_id,
            cpu_rate: self.cpu_rate.deep_view(),
            canonical_mem_usage: self.canonical_mem_usage.deep_view(),
            assigned_mem_usage: self.assigned_mem_usage.deep_view(),
            unmapped_page_cache: self.unmapped_page_cache.deep_view(),
            total_page_cache: self.total_page_cache.deep_view(),
            max_mem_usage: self.max_mem_usage.deep_view(),
            disk_io_time: self.disk_io_time.deep_view(),
            local_disk_space: self.local_disk_space.deep_view(),
            max_cpu_rate: self.max_cpu_rate.deep_view(),
            max_disk_io_tim: self.max_disk_io_tim.deep_view(),
            cpi: self.cpi.deep_view(),
            mapi: self.mapi.deep_view(),
            sample_portion: self.sample_portion.deep_view(),
            agg_type: self.agg_type,
            sampled_cpu_usage: self.sampled_cpu_usage.deep_view(),
        }
    }
}

/// Column schema of a task-usage row: the five identifying integer columns,
/// then the resource and efficiency metrics, all optional.
pub open spec fn spec_task_usage_schema() -> Seq<ColumnSpec> {
    seq![
        ColumnSpec { ty: ColumnType::UInt, optional: false },
        ColumnSpec { ty: ColumnType::UInt, optional: false },
        ColumnSpec { ty: ColumnType::UInt, optional: false },
        ColumnSpec { ty: ColumnType::UInt, optional: false },
        ColumnSpec { ty: ColumnType::UInt, optional: false },
        ColumnSpec { ty: ColumnType::Float, optional: true },
        ColumnSpec { ty: ColumnType::Float, optional: true },
        ColumnSpec { ty: ColumnType::Float, optional: true },
        ColumnSpec { ty: ColumnType::Float, optional: true },
        ColumnSpec { ty: ColumnType::Float, optional: true },
        ColumnSpec { ty: ColumnType::Float, optional: true },
        ColumnSpec { ty: ColumnType::Float, optional: true },
        ColumnSpec { ty: ColumnType::Float, optional: true },
        ColumnSpec { ty: ColumnType::Float, optional: true },
        ColumnSpec { ty: ColumnType::Float, optional: true },
        ColumnSpec { ty: ColumnType::Float, optional: true },
        ColumnSpec { ty: ColumnType::Float, optional: true },
        ColumnSpec { ty: ColumnType::Float, optional: true },
        ColumnSpec { ty: ColumnType::Boolean, optional: true },
        ColumnSpec { ty: ColumnType::Float, optional: true },
    ]
}

pub fn task_usage_schema() -> (r: Vec<ColumnSpec>)
    ensures
        r@ == spec_task_usage_schema(),
{
    let mut v: Vec<ColumnSpec> = Vec::new();
    let mut i: usize = 0;
    while i < 5
        invariant
            i <= 5,
            v@ =~= Seq::new(i as nat, |j: int| ColumnSpec { ty: ColumnType::UInt, optional: false }),
        decreases 5 - i,
    {
        v.push(ColumnSpec { ty: ColumnType::UInt, optional: false });
        i += 1;
    }
    let mut k: usize = 0;
    while k < 13
        invariant
            k <= 13,
            v@.len() == 5 + k,
            forall|j: int|
                0 <= j < 5 ==> v@[j] == (ColumnSpec { ty: ColumnType::UInt, optional: false }),
            forall|j: int|
                5 <= j < 5 + k ==> v@[j] == (ColumnSpec { ty: ColumnType::Float, optional: true }),
        decreases 13 - k,
    {
        v.push(ColumnSpec { ty: ColumnType::Float, optional: true });
        k += 1;
    }
    v.push(ColumnSpec { ty: ColumnType::Boolean, optional: true });
    v.push(ColumnSpec { ty: ColumnType::Float, optional: true });
    proof {
        assert(v@ =~= spec_task_usage_schema());
    }
    v
}

impl RowDecodable for TaskUsageRecord {
    open spec fn spec_schema() -> Seq<ColumnSpec> {
        spec_task_usage_schema()
    }

    /// The record's attributes against the decoded column values of its row.
    open spec fn fields_match(v: TaskUsageRecordV, fs: Seq<FieldV>) -> bool {
        &&& fs.len() == 20
        &&& fs[0] matches FieldV::UInt(t) && v.start_time == t
        &&& fs[1] matches FieldV::UInt(t) && v.end_time == t
        &&& fs[2] matches FieldV::UInt(id) && v.job_id == id
        &&& fs[3] matches FieldV::UInt(ix) && v.task_index == ix
        &&& fs[4] matches FieldV::UInt(id) && v.machine_id == id
        &&& spec_opt_float_matches(fs[5], v.cpu_rate)
        &&& spec_opt_float_matches(fs[6], v.canonical_mem_usage)
        &&& spec_opt_float_matches(fs[7], v.assigned_mem_usage)
        &&& spec_opt_float_matches(fs[8], v.unmapped_page_cache)
        &&& spec_opt_float_matches(fs[9], v.total_page_cache)
        &&& spec_opt_float_matches(fs[10], v.max_mem_usage)
        &&& spec_opt_float_matches(fs[11], v.disk_io_time)
        &&& spec_opt_float_matches(fs[12], v.local_disk_space)
        &&& spec_opt_float_matches(fs[13], v.max_cpu_rate)
        &&& spec_opt_float_matches(fs[14], v.max_disk_io_tim)
        &&& spec_opt_float_matches(fs[15], v.cpi)
        &&& spec_opt_float_matches(fs[16], v.mapi)
        &&& spec_opt_float_matches(fs[17], v.sample_portion)
        &&& match fs[18] {
            FieldV::Null => v.agg_type is None,
            FieldV::Boolean(b) => v.agg_type == Some(b),
            _ => false,
        }
        &&& spec_opt_float_matches(fs[19], v.sampled_cpu_usage)
    }

    fn decode(row: &Vec<String>) -> (r: Result<TaskUsageRecord, DecodeError>) {
        let schema = task_usage_schema();
        let mut fields = match decode_row(&schema, row) {
            Ok(fs) => fs,
            Err(e) => {
                return Err(e);
            },
        };
        let ghost cols = spec_task_usage_schema();
        let ghost cells = row.deep_view();
        proof {
            lemma_row_ok_columns(cols, cells);
            assert(spec_decode_column(cols[0], cells[0]) is Ok);
            assert(spec_decode_column(cols[1], cells[1]) is Ok);
            assert(spec_decode_column(cols[2], cells[2]) is Ok);
            assert(spec_decode_column(cols[3], cells[3]) is Ok);
            assert(spec_decode_column(cols[4], cells[4]) is Ok);
            assert(spec_decode_column(cols[5], cells[5]) is Ok);
            assert(spec_decode_column(cols[6], cells[6]) is Ok);
            assert(spec_decode_column(cols[7], cells[7]) is Ok);
            assert(spec_decode_column(cols[8], cells[8]) is Ok);
            assert(spec_decode_column(cols[9], cells[9]) is Ok);
            assert(spec_decode_column(cols[10], cells[10]) is Ok);
            assert(spec_decode_column(cols[11], cells[11]) is Ok);
            assert(spec_decode_column(cols[12], cells[12]) is Ok);
            assert(spec_decode_column(cols[13], cells[13]) is Ok);
            assert(spec_decode_column(cols[14], cells[14]) is Ok);
            assert(spec_decode_column(cols[15], cells[15]) is Ok);
            assert(spec_decode_column(cols[16], cells[16]) is Ok);
            assert(spec_decode_column(cols[17], cells[17]) is Ok);
            assert(spec_decode_column(cols[18], cells[18]) is Ok);
            assert(spec_decode_column(cols[19], cells[19]) is Ok);
        }
        let c19 = pop_field(&mut fields);
        let sampled_cpu_usage = field_as_opt_float(c19);
        let c18 = pop_field(&mut fields);
        let agg_type = field_as_opt_bool(c18);
        let c17 = pop_field(&mut fields);
        let sample_portion = field_as_opt_float(c17);
        let c16 = pop_field(&mut fields);
        let mapi = field_as_opt_float(c16);
        let c15 = pop_field(&mut fields);
        let cpi = field_as_opt_float(c15);
        let c14 = pop_field(&mut fields);
        let max_disk_io_tim = field_as_opt_float(c14);
        let c13 = pop_field(&mut fields);
        let max_cpu_rate = field_as_opt_float(c13);
        let c12 = pop_field(&mut fields);
        let local_disk_space = field_as_opt_float(c12);
        let c11 = pop_field(&mut fields);
        let disk_io_time = field_as_opt_float(c11);
        let c10 = pop_field(&mut fields);
        let max_mem_usage = field_as_opt_float(c10);
        let c9 = pop_field(&mut fields);
        let total_page_cache = field_as_opt_float(c9);
        let c8 = pop_field(&mut fields);
        let unmapped_page_cache = field_as_opt_float(c8);
        let c7 = pop_field(&mut fields);
        let assigned_mem_usage = field_as_opt_float(c7);
        let c6 = pop_field(&mut fields);
        let canonical_mem_usage = field_as_opt_float(c6);
        let c5 = pop_field(&mut fields);
        let cpu_rate = field_as_opt_float(c5);
        let c4 = pop_field(&mut fields);
        let machine_id = field_as_u64(c4);
        let c3 = pop_field(&mut fields);
        let task_index = field_as_u64(c3);
        let c2 = pop_field(&mut fields);
        let job_id = field_as_u64(c2);
        let c1 = pop_field(&mut fields);
        let end_time = field_as_u64(c1);
        let c0 = pop_field(&mut fields);
        let start_time = field_as_u64(c0);
        Ok(
            TaskUsageRecord {
                start_time,
                end_time,
                job_id,
                task_index,
                machine_id,
                cpu_rate,
                canonical_mem_usage,
                assigned_mem_usage,
                unmapped_page_cache,
                total_page_cache,
                max_mem_usage,
                disk_io_time,
                local_disk_space,
                max_cpu_rate,
                max_disk_io_tim,
                cpi,
                mapi,
                sample_portion,
                agg_type,
                sampled_cpu_usage,
            },
        )
    }
}

/// How an optional floating-point attribute relates to its decoded column
/// value.
pub open spec fn spec_opt_float_matches(f: FieldV, v: Option<Seq<char>>) -> bool {
    match f {
        FieldV::Null => v is None,
        FieldV::Float(s) => v == Some(s),
        _ => false,
    }
}

/// The row's decoded column values determine the record: two task-usage
/// samples that match the same decoded row are equal.
pub proof fn lemma_task_usage_unique(a: TaskUsageRecordV, b: TaskUsageRecordV, fs: Seq<FieldV>)
    requires
        TaskUsageRecord::fields_match(a, fs),
        TaskUsageRecord::fields_match(b, fs),
    ensures
        a == b,
{
}

} // verus!
