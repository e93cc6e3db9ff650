use vstd::prelude::*;
use crate::schema::{
    ColumnSpec, ColumnType, DecodeError, FieldV, RowDecodable, decode_row, field_as_bool,
    field_as_opt_text, field_as_text, field_as_u64, lemma_row_ok_columns, pop_field,
    spec_decode_column,
};

verus! {

/// One row of the machine-attributes table: a key-value property of a
/// machine, set or deleted at a point in time.
#[derive(Debug, Clone, PartialEq)]
pub struct MachineAttribute {
    pub time: u64,
    pub machine_id: u64,
    pub attribute_name: String,
    pub attribute_value: Option<String>,
    pub attributed_deleted: bool,
}

/// Mathematical value of a machine-attribute record.
pub struct MachineAttributeV {
    pub time: u64,
    pub machine_id: u64,
    pub attribute_name: Seq<char>,
    pub attribute_value: Option<Seq<char>>,
    pub attributed_deleted: bool,
}

impl DeepView for MachineAttribute {
    type V = MachineAttributeV;

    open spec fn deep_view(&self) -> MachineAttributeV {
        MachineAttributeV {
            time: self.time,
            machine_id: self.machine_id,
            attribute_name: self.attribute_name@,
            attribute_value: self.attribute_value.deep_view(),
            attributed_deleted: self.attributed_deleted,
        }
    }
}

/// Column schema of a machine-attribute row: time, machine ID, attribute
/// name, attribute value, attribute deleted.
pub open spec fn spec_machine_attribute_schema() -> Seq<ColumnSpec> {
    seq![
        ColumnSpec { ty: ColumnType::UInt, optional: false },
        ColumnSpec { ty: ColumnType::UInt, optional: false },
        ColumnSpec { ty: ColumnType::Text, optional: false },
        ColumnSpec { ty: ColumnType::Text, optional: true },
        ColumnSpec { ty: ColumnType::Boolean, optional: false },
    ]
}

pub fn machine_attribute_schema() -> (r: Vec<ColumnSpec>)
    ensures
        r@ == spec_machine_attribute_schema(),
{
    let mut v: Vec<ColumnSpec> = Vec::new();
    v.push(ColumnSpec { ty: ColumnType::UInt, optional: false });
    v.push(ColumnSpec { ty: ColumnType::UInt, optional: false });
    v.push(ColumnSpec { ty: ColumnType::Text, optional: false });
    v.push(ColumnSpec { ty: ColumnType::Text, optional: true });
    v.push(ColumnSpec { ty: ColumnType::Boolean, optional: false });
    proof {
        assert(v@ =~= spec_machine_attribute_schema());
    }
    v
}

impl RowDecodable for MachineAttribute {
    open spec fn spec_schema() -> Seq<ColumnSpec> {
        spec_machine_attribute_schema()
    }

    /// The record's attributes against the decoded column values of its row.
    open spec fn fields_match(v: MachineAttributeV, fs: Seq<FieldV>) -> bool {
        &&& fs.len() == 5
        &&& fs[0] matches FieldV::UInt(t) && v.time == t
        &&& fs[1] matches FieldV::UInt(id) && v.machine_id == id
        &&& fs[2] matches FieldV::Text(s) && v.attribute_name == s
        &&& match fs[3] {
            FieldV::Null => v.attribute_value is None,
            FieldV::Text(s) => v.attribute_value == Some(s),
            _ => false,
        }
        &&& fs[4] matches FieldV::Boolean(b) && v.attributed_deleted == b
    }

    fn decode(row: &Vec<String>) -> (r: Result<MachineAttribute, DecodeError>) {
        let schema = machine_attribute_schema();
        let mut fields = match decode_row(&schema, row) {
            Ok(fs) => fs,
            Err(e) => {
                return Err(e);
            },
        };
        let ghost cols = spec_machine_attribute_schema();
        let ghost cells = row.deep_view();
        proof {
            lemma_row_ok_columns(cols, cells);
            assert(spec_decode_column(cols[0], cells[0]) is Ok);
            assert(spec_decode_column(cols[1], cells[1]) is Ok);
            assert(spec_decode_column(cols[2], cells[2]) is Ok);
            assert(spec_decode_column(cols[3], cells[3]) is Ok);
            assert(spec_decode_column(cols[4], cells[4]) is Ok);
        }
        let f4 = pop_field(&mut fields);
        let attributed_deleted = field_as_bool(f4);
        let f3 = pop_field(&mut fields);
        let attribute_value = field_as_opt_text(f3);
        let f2 = pop_field(&mut fields);
        let attribute_name = field_as_text(f2);
        let f1 = pop_field(&mut fields);
        let machine_id = field_as_u64(f1);
        let f0 = pop_field(&mut fields);
        let time = field_as_u64(f0);
        Ok(MachineAttribute { time, machine_id, attribute_name, attribute_value, attributed_deleted })
    }
}

/// The row's decoded column values determine the record: two attribute
/// records that match the same decoded row are equal.
pub proof fn lemma_machine_attribute_unique(
    a: MachineAttributeV,
    b: MachineAttributeV,
    fs: Seq<FieldV>,
)
    requires
        MachineAttribute::fields_match(a, fs),
        MachineAttribute::fields_match(b, fs),
    ensures
        a == b,
{
}

} // verus!
