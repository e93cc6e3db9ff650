use cluster_trace::common::{MissingInfo, SchedulingClass};
use cluster_trace::job_events::{JobEvent, JobEventType};
use cluster_trace::machine_attributes::MachineAttribute;
use cluster_trace::machine_events::{MachineEvent, MachineEventType};
use cluster_trace::schema::{
    ColumnSpec, ColumnType, DecodeError, EnumDomain, Field, FieldError, RowDecodable,
    decode_column, decode_row,
};
use cluster_trace::task_events::{TaskEvent, TaskEventType};
use cluster_trace::task_usage::TaskUsageRecord;

fn row(fields: &[&str]) -> Vec<String> {
    fields.iter().map(|s| s.to_string()).collect()
}

#[test]
fn missing_info_codes() {
    assert_eq!(
        MissingInfo::from_code("0"),
        Some(MissingInfo::SnapshotButNoTransition)
    );
    assert_eq!(
        MissingInfo::from_code("1"),
        Some(MissingInfo::NoSnapshotOrTransition)
    );
    assert_eq!(
        MissingInfo::from_code("2"),
        Some(MissingInfo::ExistsButNoCreation)
    );
    assert_eq!(MissingInfo::from_code("3"), None);
    assert_eq!(MissingInfo::from_code(""), None);
    assert_eq!(MissingInfo::from_code("01"), None);
}

#[test]
fn scheduling_class_codes() {
    assert_eq!(
        SchedulingClass::from_code("0"),
        Some(SchedulingClass::Class0)
    );
    assert_eq!(
        SchedulingClass::from_code("3"),
        Some(SchedulingClass::Class3)
    );
    assert_eq!(SchedulingClass::from_code("4"), None);
    assert_eq!(SchedulingClass::from_code("x"), None);
}

#[test]
fn job_event_type_codes() {
    assert_eq!(JobEventType::from_code("0"), Some(JobEventType::Submit));
    assert_eq!(JobEventType::from_code("4"), Some(JobEventType::Finish));
    assert_eq!(
        JobEventType::from_code("8"),
        Some(JobEventType::UpdateRunning)
    );
    assert_eq!(JobEventType::from_code("9"), None);
    assert_eq!(JobEventType::from_code("-1"), None);
}

#[test]
fn task_event_type_codes() {
    assert_eq!(TaskEventType::from_code("5"), Some(TaskEventType::Kill));
    assert_eq!(TaskEventType::from_code("9"), None);
}

#[test]
fn machine_event_type_codes() {
    assert_eq!(
        MachineEventType::from_code("0"),
        Some(MachineEventType::Add)
    );
    assert_eq!(
        MachineEventType::from_code("2"),
        Some(MachineEventType::Update)
    );
    assert_eq!(MachineEventType::from_code("3"), None);
}

#[test]
fn job_event_finish_code() {
    let r = row(&["100", "", "42", "4", "alice", "2", "jn", "ljn"]);
    let ev = JobEvent::decode(&r).unwrap();
    assert_eq!(ev.time, 100);
    assert_eq!(ev.missing_info, None);
    assert_eq!(ev.job_id, 42);
    assert_eq!(ev.event_type, JobEventType::Finish);
    assert_eq!(ev.user, Some("alice".to_string()));
    assert_eq!(ev.scheduling_class, Some(SchedulingClass::Class2));
    assert_eq!(ev.job_name, Some("jn".to_string()));
    assert_eq!(ev.logical_job_name, Some("ljn".to_string()));
}

#[test]
fn job_event_code_outside_closed_set() {
    let r = row(&["100", "", "42", "9", "alice", "2", "jn", "ljn"]);
    assert_eq!(
        JobEvent::decode(&r),
        Err(DecodeError::UnknownEnumCode { column: 3 })
    );
}

#[test]
fn job_event_wrong_column_count() {
    let r = row(&["100", "", "42", "4", "alice", "2", "jn"]);
    assert_eq!(
        JobEvent::decode(&r),
        Err(DecodeError::WrongColumnCount {
            expected: 8,
            actual: 7
        })
    );
}

#[test]
fn job_event_empty_required_column() {
    let r = row(&["", "", "42", "4", "alice", "2", "jn", "ljn"]);
    assert_eq!(JobEvent::decode(&r), Err(DecodeError::FieldParse { column: 0 }));
}

#[test]
fn job_event_missing_info_code() {
    let r = row(&["1", "2", "42", "0", "", "", "", ""]);
    let ev = JobEvent::decode(&r).unwrap();
    assert_eq!(ev.missing_info, Some(MissingInfo::ExistsButNoCreation));
    assert_eq!(ev.user, None);
    assert_eq!(ev.scheduling_class, None);
    assert_eq!(ev.job_name, None);
    assert_eq!(ev.logical_job_name, None);
}

#[test]
fn decode_is_idempotent_on_success() {
    let r = row(&["100", "1", "42", "4", "alice", "2", "jn", "ljn"]);
    let a = JobEvent::decode(&r);
    let b = JobEvent::decode(&r);
    assert_eq!(a, b);
}

#[test]
fn decode_is_idempotent_on_failure() {
    let r = row(&["100", "", "42", "9", "alice", "2", "jn", "ljn"]);
    let a = JobEvent::decode(&r);
    let b = JobEvent::decode(&r);
    assert_eq!(a, b);
}

#[test]
fn u64_bounds() {
    let max = "18446744073709551615";
    let over = "18446744073709551616";
    let ok = row(&[max, "", "42", "4", "", "", "", ""]);
    assert_eq!(JobEvent::decode(&ok).unwrap().time, u64::MAX);
    let bad = row(&[over, "", "42", "4", "", "", "", ""]);
    assert_eq!(
        JobEvent::decode(&bad),
        Err(DecodeError::FieldParse { column: 0 })
    );
    let signed = row(&["-1", "", "42", "4", "", "", "", ""]);
    assert_eq!(
        JobEvent::decode(&signed),
        Err(DecodeError::FieldParse { column: 0 })
    );
}

#[test]
fn machine_event_row() {
    let r = row(&["10", "20", "1", "plat", "", "0.25"]);
    let ev = MachineEvent::decode(&r).unwrap();
    assert_eq!(ev.time, 10);
    assert_eq!(ev.machine_id, 20);
    assert_eq!(ev.event_type, MachineEventType::Remove);
    assert_eq!(ev.platform_id, Some("plat".to_string()));
    assert_eq!(ev.cpus, None);
    assert_eq!(ev.memory, Some("0.25".to_string()));
}

#[test]
fn machine_event_empty_capacity_is_null_not_zero() {
    let r = row(&["10", "20", "0", "", "", ""]);
    let ev = MachineEvent::decode(&r).unwrap();
    assert_eq!(ev.cpus, None);
    assert_ne!(ev.cpus, Some("0".to_string()));
    assert_ne!(ev.cpus, Some("0.0".to_string()));
    assert_eq!(ev.memory, None);
    assert_eq!(ev.platform_id, None);
}

#[test]
fn float_literal_grammar() {
    let good = ["0.5", "1e-3", ".5", "5.", "+5", "-0.75", "3.05E+05", "12"];
    for g in good {
        let r = row(&["10", "20", "0", "", g, ""]);
        let ev = MachineEvent::decode(&r).unwrap();
        assert_eq!(ev.cpus, Some(g.to_string()));
    }
    let bad = ["abc", "1.2.3", ".", "1e", "e5", "+", "1e+", "5 ", "0x1"];
    for b in bad {
        let r = row(&["10", "20", "0", "", b, ""]);
        assert_eq!(
            MachineEvent::decode(&r),
            Err(DecodeError::FieldParse { column: 4 })
        );
    }
}

#[test]
fn task_event_row() {
    let r = row(&[
        "1000", "1", "7", "3", "55", "1", "bob", "0", "9", "0.125", "0.25", "", "1",
    ]);
    let ev = TaskEvent::decode(&r).unwrap();
    assert_eq!(ev.time, 1000);
    assert_eq!(ev.missing_info, Some(MissingInfo::NoSnapshotOrTransition));
    assert_eq!(ev.job_id, 7);
    assert_eq!(ev.task_index, 3);
    assert_eq!(ev.machine_id, Some(55));
    assert_eq!(ev.event_type, TaskEventType::Schedule);
    assert_eq!(ev.user, Some("bob".to_string()));
    assert_eq!(ev.scheduling_class, Some(SchedulingClass::Class0));
    assert_eq!(ev.priority, 9);
    assert_eq!(ev.cpu_request, Some("0.125".to_string()));
    assert_eq!(ev.memory_request, Some("0.25".to_string()));
    assert_eq!(ev.disk_space_request, None);
    assert_eq!(ev.different_machines_restrict, Some(true));
}

#[test]
fn task_event_bad_boolean() {
    let r = row(&[
        "1000", "", "7", "3", "", "1", "", "", "9", "", "", "", "2",
    ]);
    assert_eq!(
        TaskEvent::decode(&r),
        Err(DecodeError::FieldParse { column: 12 })
    );
}

#[test]
fn task_usage_empty_ninth_column() {
    let r = row(&[
        "1", "2", "3", "4", "5", "0.1", "0.2", "0.3", "", "0.5", "0.6", "0.7", "0.8", "0.9",
        "1.0", "1.1", "1.2", "0.5", "1", "2.5",
    ]);
    let rec = TaskUsageRecord::decode(&r).unwrap();
    assert_eq!(rec.start_time, 1);
    assert_eq!(rec.end_time, 2);
    assert_eq!(rec.job_id, 3);
    assert_eq!(rec.task_index, 4);
    assert_eq!(rec.machine_id, 5);
    assert_eq!(rec.cpu_rate, Some("0.1".to_string()));
    assert_eq!(rec.canonical_mem_usage, Some("0.2".to_string()));
    assert_eq!(rec.assigned_mem_usage, Some("0.3".to_string()));
    assert_eq!(rec.unmapped_page_cache, None);
    assert_eq!(rec.total_page_cache, Some("0.5".to_string()));
    assert_eq!(rec.max_mem_usage, Some("0.6".to_string()));
    assert_eq!(rec.disk_io_time, Some("0.7".to_string()));
    assert_eq!(rec.local_disk_space, Some("0.8".to_string()));
    assert_eq!(rec.max_cpu_rate, Some("0.9".to_string()));
    assert_eq!(rec.max_disk_io_tim, Some("1.0".to_string()));
    assert_eq!(rec.cpi, Some("1.1".to_string()));
    assert_eq!(rec.mapi, Some("1.2".to_string()));
    assert_eq!(rec.sample_portion, Some("0.5".to_string()));
    assert_eq!(rec.agg_type, Some(true));
    assert_eq!(rec.sampled_cpu_usage, Some("2.5".to_string()));
}

#[test]
fn machine_attribute_row() {
    let r = row(&["5", "6", "name", "val", "0"]);
    let a = MachineAttribute::decode(&r).unwrap();
    assert_eq!(a.time, 5);
    assert_eq!(a.machine_id, 6);
    assert_eq!(a.attribute_name, "name".to_string());
    assert_eq!(a.attribute_value, Some("val".to_string()));
    assert!(!a.attributed_deleted);

    let r2 = row(&["5", "6", "name", "", "1"]);
    let a2 = MachineAttribute::decode(&r2).unwrap();
    assert_eq!(a2.attribute_value, None);
    assert!(a2.attributed_deleted);
}

#[test]
fn decode_column_null_and_unknown_code() {
    let optional_float = ColumnSpec {
        ty: ColumnType::Float,
        optional: true,
    };
    assert_eq!(decode_column(optional_float, ""), Ok(Field::Null));
    let required_uint = ColumnSpec {
        ty: ColumnType::UInt,
        optional: false,
    };
    assert_eq!(decode_column(required_uint, ""), Err(FieldError::Parse));
    let enum_col = ColumnSpec {
        ty: ColumnType::Enum(EnumDomain::EventType),
        optional: false,
    };
    assert_eq!(decode_column(enum_col, "9"), Err(FieldError::UnknownCode));
    assert_eq!(decode_column(enum_col, "8"), Ok(Field::Code(8)));
    let enum_opt = ColumnSpec {
        ty: ColumnType::Enum(EnumDomain::MissingInfo),
        optional: true,
    };
    assert_eq!(decode_column(enum_opt, ""), Ok(Field::Null));
}

#[test]
fn decode_row_first_error_wins() {
    let schema = vec![
        ColumnSpec {
            ty: ColumnType::UInt,
            optional: false,
        },
        ColumnSpec {
            ty: ColumnType::Enum(EnumDomain::MissingInfo),
            optional: false,
        },
    ];
    let bad_both = row(&["x", "9"]);
    assert_eq!(
        decode_row(&schema, &bad_both),
        Err(DecodeError::FieldParse { column: 0 })
    );
    let bad_second = row(&["1", "9"]);
    assert_eq!(
        decode_row(&schema, &bad_second),
        Err(DecodeError::UnknownEnumCode { column: 1 })
    );
    let good = row(&["1", "2"]);
    assert_eq!(
        decode_row(&schema, &good),
        Ok(vec![Field::UInt(1), Field::Code(2)])
    );
}
