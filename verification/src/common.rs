use vstd::prelude::*;
use vstd::string::*;

verus! {

/// Why an event record was synthesized although the underlying transition was
/// never observed directly in the trace.
#[derive(Clone, Copy, Debug, PartialEq, Eq, Structural)]
pub enum MissingInfo {
    /// Code 0: no record of the transition was found, but a later snapshot
    /// shows that it must have occurred.
    SnapshotButNoTransition,
    /// Code 1: no record of the termination was found, but the job or task
    /// disappeared from later snapshots.
    NoSnapshotOrTransition,
    /// Code 2: no record of the creation was found, so metadata about the job
    /// or task may be missing.
    ExistsButNoCreation,
}

/// Latency sensitivity of a job or task, from non-production (class 0) to
/// most latency-sensitive (class 3).
#[derive(Clone, Copy, Debug, PartialEq, Eq, Structural)]
pub enum SchedulingClass {
    Class0,
    Class1,
    Class2,
    Class3,
}

/// Numeric value of a decimal digit character, if it is one.
pub open spec fn spec_digit_val(c: char) -> Option<u8> {
    if c == '0' {
        Some(0u8)
    } else if c == '1' {
        Some(1u8)
    } else if c == '2' {
        Some(2u8)
    } else if c == '3' {
        Some(3u8)
    } else if c == '4' {
        Some(4u8)
    } else if c == '5' {
        Some(5u8)
    } else if c == '6' {
        Some(6u8)
    } else if c == '7' {
        Some(7u8)
    } else if c == '8' {
        Some(8u8)
    } else if c == '9' {
        Some(9u8)
    } else {
        None
    }
}

pub fn digit_val(c: char) -> (r: Option<u8>)
    ensures
        r == spec_digit_val(c),
{
    if c == '0' {
        Some(0u8)
    } else if c == '1' {
        Some(1u8)
    } else if c == '2' {
        Some(2u8)
    } else if c == '3' {
        Some(3u8)
    } else if c == '4' {
        Some(4u8)
    } else if c == '5' {
        Some(5u8)
    } else if c == '6' {
        Some(6u8)
    } else if c == '7' {
        Some(7u8)
    } else if c == '8' {
        Some(8u8)
    } else if c == '9' {
        Some(9u8)
    } else {
        None
    }
}

/// A compact enum code is exactly one decimal digit; its numeric value.
pub open spec fn spec_code_num(text: Seq<char>) -> Option<u8> {
    if text.len() == 1 {
        spec_digit_val(text[0])
    } else {
        None
    }
}

/// Numeric value of a one-digit enum code, `None` for any other text.
pub fn code_num(text: &str) -> (r: Option<u8>)
    ensures
        r == spec_code_num(text@),
{
    let n = text.unicode_len();
    if n == 1 {
        digit_val(text.get_char(0))
    } else {
        None
    }
}

impl MissingInfo {
    /// Number of codes in this closed set.
    pub open spec fn domain_size() -> u8 {
        3
    }

    /// The variant for an in-range code index.
    pub open spec fn spec_from_index(i: u8) -> MissingInfo
        recommends
            i < 3,
    {
        if i == 0 {
            MissingInfo::SnapshotButNoTransition
        } else if i == 1 {
            MissingInfo::NoSnapshotOrTransition
        } else {
            MissingInfo::ExistsButNoCreation
        }
    }

    /// Closed-set decoding: exactly the codes "0", "1" and "2" map to a
    /// variant; every other text is outside the set.
    pub open spec fn spec_from_code(code: Seq<char>) -> Option<MissingInfo> {
        match spec_code_num(code) {
            Some(i) => if i < 3 {
                Some(MissingInfo::spec_from_index(i))
            } else {
                None
            },
            None => None,
        }
    }

    pub fn from_index(i: u8) -> (r: MissingInfo)
        requires
            i < 3,
        ensures
            r == MissingInfo::spec_from_index(i),
    {
        if i == 0 {
            MissingInfo::SnapshotButNoTransition
        } else if i == 1 {
            MissingInfo::NoSnapshotOrTransition
        } else {
            MissingInfo::ExistsButNoCreation
        }
    }

    /// Decode a code text; `None` means the code is outside the closed set
    /// and the caller must treat the row as failed, never substitute a
    /// default variant.
    pub fn from_code(code: &str) -> (r: Option<MissingInfo>)
        ensures
            r == MissingInfo::spec_from_code(code@),
    {
        match code_num(code) {
            Some(i) => if i < 3 {
                Some(MissingInfo::from_index(i))
            } else {
                None
            },
            None => None,
        }
    }
}

impl SchedulingClass {
    /// Number of codes in this closed set.
    pub open spec fn domain_size() -> u8 {
        4
    }

    /// The variant for an in-range code index.
    pub open spec fn spec_from_index(i: u8) -> SchedulingClass
        recommends
            i < 4,
    {
        if i == 0 {
            SchedulingClass::Class0
        } else if i == 1 {
            SchedulingClass::Class1
        } else if i == 2 {
            SchedulingClass::Class2
        } else {
            SchedulingClass::Class3
        }
    }

    /// Closed-set decoding: exactly the codes "0" through "3" map to a
    /// variant; every other text is outside the set.
    pub open spec fn spec_from_code(code: Seq<char>) -> Option<SchedulingClass> {
        match spec_code_num(code) {
            Some(i) => if i < 4 {
                Some(SchedulingClass::spec_from_index(i))
            } else {
                None
            },
            None => None,
        }
    }

    pub fn from_index(i: u8) -> (r: SchedulingClass)
        requires
            i < 4,
        ensures
            r == SchedulingClass::spec_from_index(i),
    {
        if i == 0 {
            SchedulingClass::Class0
        } else if i == 1 {
            SchedulingClass::Class1
        } else if i == 2 {
            SchedulingClass::Class2
        } else {
            SchedulingClass::Class3
        }
    }

    /// Decode a code text; `None` means the code is outside the closed set.
    pub fn from_code(code: &str) -> (r: Option<SchedulingClass>)
        ensures
            r == SchedulingClass::spec_from_code(code@),
    {
        match code_num(code) {
            Some(i) => if i < 4 {
                Some(SchedulingClass::from_index(i))
            } else {
                None
            },
            None => None,
        }
    }
}

} // verus!
