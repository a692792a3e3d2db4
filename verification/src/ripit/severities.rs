//! How severe the messages of `makemkvcon` are taken to be.

use vstd::prelude::*;

use std::collections::HashMap;

verus! {

broadcast use vstd::std_specs::hash::group_hash_axioms;

/// How severe a message is.
#[derive(Clone, Copy, Debug, PartialEq, Eq, Structural)]
pub enum Severity {
    Info,
    Warn,
    Fail,
}

/// The severities of the message codes that ripping meets: version and
/// progress notes are informational; read and write errors, failed saves
/// and backups, and a disc that cannot be opened are failures; a failed
/// angle, a corrupt source file, an existing file, too little space and a
/// new version are warnings.
pub open spec fn default_severities() -> Map<u32, Severity> {
    map![
        1005u32 => Severity::Info,
        1011u32 => Severity::Info,
        2003u32 => Severity::Fail,
        2018u32 => Severity::Fail,
        2019u32 => Severity::Fail,
        3006u32 => Severity::Info,
        3007u32 => Severity::Info,
        3025u32 => Severity::Info,
        3026u32 => Severity::Info,
        3027u32 => Severity::Info,
        3028u32 => Severity::Info,
        3029u32 => Severity::Info,
        3030u32 => Severity::Info,
        3034u32 => Severity::Info,
        3037u32 => Severity::Info,
        3038u32 => Severity::Info,
        3041u32 => Severity::Warn,
        3307u32 => Severity::Info,
        3308u32 => Severity::Info,
        3309u32 => Severity::Info,
        3324u32 => Severity::Info,
        3328u32 => Severity::Info,
        3338u32 => Severity::Info,
        3344u32 => Severity::Info,
        4004u32 => Severity::Warn,
        5001u32 => Severity::Warn,
        5003u32 => Severity::Fail,
        5004u32 => Severity::Fail,
        5005u32 => Severity::Info,
        5010u32 => Severity::Fail,
        5011u32 => Severity::Info,
        5014u32 => Severity::Info,
        5036u32 => Severity::Info,
        5037u32 => Severity::Fail,
        5038u32 => Severity::Warn,
        5069u32 => Severity::Fail,
        5070u32 => Severity::Info,
        5072u32 => Severity::Info,
        5075u32 => Severity::Warn,
        5080u32 => Severity::Fail,
        5081u32 => Severity::Info,
        5085u32 => Severity::Info,
    ]
}

/// The severity of each known message code.
pub fn default_severity_map() -> (r: HashMap<u32, Severity>)
    ensures
        r@ == default_severities(),
{
    let mut m: HashMap<u32, Severity> = HashMap::new();
    m.insert(1005, Severity::Info);
    m.insert(1011, Severity::Info);
    m.insert(2003, Severity::Fail);
    m.insert(2018, Severity::Fail);
    m.insert(2019, Severity::Fail);
    m.insert(3006, Severity::Info);
    m.insert(3007, Severity::Info);
    m.insert(3025, Severity::Info);
    m.insert(3026, Severity::Info);
    m.insert(3027, Severity::Info);
    m.insert(3028, Severity::Info);
    m.insert(3029, Severity::Info);
    m.insert(3030, Severity::Info);
    m.insert(3034, Severity::Info);
    m.insert(3037, Severity::Info);
    m.insert(3038, Severity::Info);
    m.insert(3041, Severity::Warn);
    m.insert(3307, Severity::Info);
    m.insert(3308, Severity::Info);
    m.insert(3309, Severity::Info);
    m.insert(3324, Severity::Info);
    m.insert(3328, Severity::Info);
    m.insert(3338, Severity::Info);
    m.insert(3344, Severity::Info);
    m.insert(4004, Severity::Warn);
    m.insert(5001, Severity::Warn);
    m.insert(5003, Severity::Fail);
    m.insert(5004, Severity::Fail);
    m.insert(5005, Severity::Info);
    m.insert(5010, Severity::Fail);
    m.insert(5011, Severity::Info);
    m.insert(5014, Severity::Info);
    m.insert(5036, Severity::Info);
    m.insert(5037, Severity::Fail);
    m.insert(5038, Severity::Warn);
    m.insert(5069, Severity::Fail);
    m.insert(5070, Severity::Info);
    m.insert(5072, Severity::Info);
    m.insert(5075, Severity::Warn);
    m.insert(5080, Severity::Fail);
    m.insert(5081, Severity::Info);
    m.insert(5085, Severity::Info);
    assert(m@ =~= default_severities());
    m
}

} // verus!
