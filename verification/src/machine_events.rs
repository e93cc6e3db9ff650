use vstd::prelude::*;
use crate::common::{code_num, spec_code_num};
use crate::schema::{
    ColumnSpec, ColumnType, DecodeError, EnumDomain, FieldV, RowDecodable, decode_row,
    field_as_code, field_as_opt_float, field_as_opt_text, field_as_u64, lemma_row_ok_columns,
    pop_field, spec_decode_column,
};

verus! {

/// Number of shard files of the machine-events trace table.
pub const MACHINE_EVENT_FILE_COUNT: usize = 1;

/// Machine availability event types, codes 0-2.
#[derive(Clone, Copy, Debug, PartialEq, Eq, Structural)]
pub enum MachineEventType {
    /// Code 0: a machine became available to the cluster.
    Add,
    /// Code 1: a machine was removed from the cluster.
    Remove,
    /// Code 2: an available machine had its resources changed.
    Update,
}

impl MachineEventType {
    /// The variant for an in-range code index.
    pub open spec fn spec_from_index(i: u8) -> MachineEventType
        recommends
            i < 3,
    {
        if i == 0 {
            MachineEventType::Add
        } else if i == 1 {
            MachineEventType::Remove
        } else {
            MachineEventType::Update
        }
    }

    /// Closed-set decoding: exactly the codes "0", "1" and "2" map to a
    /// variant; every other text is outside the set.
    pub open spec fn spec_from_code(code: Seq<char>) -> Option<MachineEventType> {
        match spec_code_num(code) {
            Some(i) => if i < 3 {
                Some(MachineEventType::spec_from_index(i))
            } else {
                None
            },
            None => None,
        }
    }

    pub fn from_index(i: u8) -> (r: MachineEventType)
        requires
            i < 3,
        ensures
            r == MachineEventType::spec_from_index(i),
    {
        if i == 0 {
            MachineEventType::Add
        } else if i == 1 {
            MachineEventType::Remove
        } else {
            MachineEventType::Update
        }
    }

    /// Decode a code text; `None` means the code is outside the closed set.
    pub fn from_code(code: &str) -> (r: Option<MachineEventType>)
        ensures
            r == MachineEventType::spec_from_code(code@),
    {
        match code_num(code) {
            Some(i) => if i < 3 {
                Some(MachineEventType::from_index(i))
            } else {
                None
            },
            None => None,
        }
    }
}

/// One row of the machine-events table.  The capacity columns hold the raw
/// text of their floating-point values, checked against the literal
/// grammar; no precision is decided here.
#[derive(Debug, Clone, PartialEq)]
pub struct MachineEvent {
    pub time: u64,
    pub machine_id: u64,
    pub event_type: MachineEventType,
    pub platform_id: Option<String>,
    pub cpus: Option<String>,
    pub memory: Option<String>,
}

/// Mathematical value of a machine-event record.
pub struct MachineEventV {
    pub time: u64,
    pub machine_id: u64,
    pub event_type: MachineEventType,
    pub platform_id: Option<Seq<char>>,
    pub cpus: Option<Seq<char>>,
    pub memory: Option<Seq<char>>,
}

impl DeepView for MachineEvent {
    type V = MachineEventV;

    open spec fn deep_view(&self) -> MachineEventV {
        MachineEventV {
            time: self.time,
            machine_id: self.machine_id,
            event_type: self.event_type,
            platform_id: self.platform_id.deep_view(),
            cpus: self.cpus.deep_view(),
            memory: self.memory.deep_view(),
        }
    }
}

/// Column schema of a machine-event row: time, machine ID, event type,
/// platform ID, CPU capacity, memory capacity.
pub open spec fn spec_machine_event_schema() -> Seq<ColumnSpec> {
    seq![
        ColumnSpec { ty: ColumnType::UInt, optional: false },
        ColumnSpec { ty: ColumnType::UInt, optional: false },
        ColumnSpec { ty: ColumnType::Enum(EnumDomain::MachineEventType), optional: false },
        ColumnSpec { ty: ColumnType::Text, optional: true },
        ColumnSpec { ty: ColumnType::Float, optional: true },
        ColumnSpec { ty: ColumnType::Float, optional: true },
    ]
}

pub fn machine_event_schema() -> (r: Vec<ColumnSpec>)
    ensures
        r@ == spec_machine_event_schema(),
{
    let mut v: Vec<ColumnSpec> = Vec::new();
    v.push(ColumnSpec { ty: ColumnType::UInt, optional: false });
    v.push(ColumnSpec { ty: ColumnType::UInt, optional: false });
    v.push(ColumnSpec { ty: ColumnType::Enum(EnumDomain::MachineEventType), optional: false });
    v.push(ColumnSpec { ty: ColumnType::Text, optional: true });
    v.push(ColumnSpec { ty: ColumnType::Float, optional: true });
    v.push(ColumnSpec { ty: ColumnType::Float, optional: true });
    proof {
        assert(v@ =~= spec_machine_event_schema());
    }
    v
}

impl RowDecodable for MachineEvent {
    open spec fn spec_schema() -> Seq<ColumnSpec> {
        spec_machine_event_schema()
    }

    /// The record's attributes against the decoded column values of its row.
    open spec fn fields_match(v: MachineEventV, fs: Seq<FieldV>) -> bool {
        &&& fs.len() == 6
        &&& fs[0] matches FieldV::UInt(t) && v.time == t
        &&& fs[1] matches FieldV::UInt(id) && v.machine_id == id
        &&& fs[2] matches FieldV::Code(i) && i < 3 && v.event_type
            == MachineEventType::spec_from_index(i)
        &&& match fs[3] {
            FieldV::Null => v.platform_id is None,
            FieldV::Text(s) => v.platform_id == Some(s),
            _ => false,
        }
        &&& match fs[4] {
            FieldV::Null => v.cpus is None,
            FieldV::Float(s) => v.cpus == Some(s),
            _ => false,
        }
        &&& match fs[5] {
            FieldV::Null => v.memory is None,
            FieldV::Float(s) => v.memory == Some(s),
            _ => false,
        }
    }

    fn decode(row: &Vec<String>) -> (r: Result<MachineEvent, DecodeError>) {
        let schema = machine_event_schema();
        let mut fields = match decode_row(&schema, row) {
            Ok(fs) => fs,
            Err(e) => {
                return Err(e);
            },
        };
        let ghost cols = spec_machine_event_schema();
        let ghost cells = row.deep_view();
        proof {
            lemma_row_ok_columns(cols, cells);
            assert(spec_decode_column(cols[0], cells[0]) is Ok);
            assert(spec_decode_column(cols[1], cells[1]) is Ok);
            assert(spec_decode_column(cols[2], cells[2]) is Ok);
            assert(spec_decode_column(cols[3], cells[3]) is Ok);
            assert(spec_decode_column(cols[4], cells[4]) is Ok);
            assert(spec_decode_column(cols[5], cells[5]) is Ok);
        }
        let f5 = pop_field(&mut fields);
        let memory = field_as_opt_float(f5);
        let f4 = pop_field(&mut fields);
        let cpus = field_as_opt_float(f4);
        let f3 = pop_field(&mut fields);
        let platform_id = field_as_opt_text(f3);
        let f2 = pop_field(&mut fields);
        let event_type = MachineEventType::from_index(field_as_code(f2));
        let f1 = pop_field(&mut fields);
        let machine_id = field_as_u64(f1);
        let f0 = pop_field(&mut fields);
        let time = field_as_u64(f0);
        Ok(MachineEvent { time, machine_id, event_type, platform_id, cpus, memory })
    }
}

/// The row's decoded column values determine the record: two machine events
/// that match the same decoded row are equal.
pub proof fn lemma_machine_event_unique(a: MachineEventV, b: MachineEventV, fs: Seq<FieldV>)
    requires
        MachineEvent::fields_match(a, fs),
        MachineEvent::fields_match(b, fs),
    ensures
        a == b,
{
}

} // verus!
