//! Temperature, fan and voltage readings from a sensor registry: a list of
//! sensor devices, each with a name and raw reading files.
use crate::text::{chars_of, contains, contains_chars, i64_text, read_i64, read_u32, trim, trim_chars, u32_text};
use vstd::prelude::*;

verus! {

/// The files of one sensor device; a file is `None` where it could not be read.
pub struct SensorEntry {
    /// Device name (`name`).
    pub name: Option<String>,
    /// First temperature, milli-degrees Celsius (`temp1_input`).
    pub temp_input: Option<String>,
    /// First fan speed, RPM (`fan1_input`).
    pub fan_input: Option<String>,
    /// Second voltage, millivolts (`in1_input`).
    pub voltage_input: Option<String>,
}

/// Which device the fan speed and voltage are read from.
#[derive(Clone, Copy, Debug, PartialEq, Eq, Structural)]
pub enum SensorSelection {
    /// Every device is read and the last one enumerated wins, whatever its
    /// name; temperatures come from the last device of their class.
    LastEnumerated,
    /// The first device of each class wins; fan speed and voltage come from
    /// the first CPU device.
    FirstMatch,
}

#[derive(Clone, Copy, Debug, PartialEq, Eq, Structural)]
pub struct HardwareSensors {
    pub cpu_temp_millicelsius: Option<i64>,
    pub motherboard_temp_millicelsius: Option<i64>,
    pub cpu_fan_rpm: Option<u32>,
    pub cpu_voltage_millivolts: Option<i64>,
}

/// The device's name, trimmed; empty when unreadable.
pub open spec fn sensor_name(e: SensorEntry) -> Seq<char> {
    match e.name {
        Some(t) => trim(t@),
        None => Seq::empty(),
    }
}

/// A device that measures the CPU.
pub open spec fn is_cpu_sensor(e: SensorEntry) -> bool {
    let n = sensor_name(e);
    contains(n, "coretemp"@) || contains(n, "k10temp"@) || contains(n, "cpu"@)
}

/// A device that measures the board.
pub open spec fn is_board_sensor(e: SensorEntry) -> bool {
    let n = sensor_name(e);
    contains(n, "acpitz"@) || contains(n, "board"@)
}

pub open spec fn any_sensor(e: SensorEntry) -> bool {
    true
}

pub open spec fn signed_reading(f: Option<String>) -> Option<i64> {
    match f {
        Some(t) => i64_text(trim(t@)),
        None => None,
    }
}

pub open spec fn unsigned_reading(f: Option<String>) -> Option<u32> {
    match f {
        Some(t) => u32_text(trim(t@)),
        None => None,
    }
}

/// Index of the last entry that satisfies `p`.
pub open spec fn last_index(s: Seq<SensorEntry>, p: spec_fn(SensorEntry) -> bool) -> Option<int>
    decreases s.len(),
{
    if s.len() == 0 {
        None
    } else if p(s.last()) {
        Some(s.len() - 1)
    } else {
        last_index(s.drop_last(), p)
    }
}

/// Index of the first entry that satisfies `p`.
pub open spec fn first_index(s: Seq<SensorEntry>, p: spec_fn(SensorEntry) -> bool) -> Option<int>
    decreases s.len(),
{
    if s.len() == 0 {
        None
    } else {
        match first_index(s.drop_last(), p) {
            Some(k) => Some(k),
            None => if p(s.last()) {
                Some(s.len() - 1)
            } else {
                None
            },
        }
    }
}

/// Index of the device that a temperature class is read from.
pub open spec fn class_index(
    s: Seq<SensorEntry>,
    p: spec_fn(SensorEntry) -> bool,
    sel: SensorSelection,
) -> Option<int> {
    match sel {
        SensorSelection::LastEnumerated => last_index(s, p),
        SensorSelection::FirstMatch => first_index(s, p),
    }
}

/// Index of the device that fan speed and voltage are read from.
pub open spec fn fan_index(s: Seq<SensorEntry>, sel: SensorSelection) -> Option<int> {
    match sel {
        SensorSelection::LastEnumerated => last_index(s, |e: SensorEntry| any_sensor(e)),
        SensorSelection::FirstMatch => first_index(s, |e: SensorEntry| is_cpu_sensor(e)),
    }
}

/// What a scan of `s` reports, `thermal` being the generic thermal zone's
/// file, read for the CPU temperature when no CPU device gave one.
pub open spec fn scan_result(
    s: Seq<SensorEntry>,
    thermal: Option<String>,
    sel: SensorSelection,
) -> HardwareSensors {
    let cpu = match class_index(s, |e: SensorEntry| is_cpu_sensor(e), sel) {
        Some(k) => signed_reading(s[k].temp_input),
        None => None,
    };
    let board = match class_index(s, |e: SensorEntry| is_board_sensor(e), sel) {
        Some(k) => signed_reading(s[k].temp_input),
        None => None,
    };
    let f = fan_index(s, sel);
    HardwareSensors {
        cpu_temp_millicelsius: if cpu is Some {
            cpu
        } else {
            signed_reading(thermal)
        },
        motherboard_temp_millicelsius: board,
        cpu_fan_rpm: match f {
            Some(k) => unsigned_reading(s[k].fan_input),
            None => None,
        },
        cpu_voltage_millivolts: match f {
            Some(k) => signed_reading(s[k].voltage_input),
            None => None,
        },
    }
}

pub open spec fn to_index(o: Option<int>) -> Option<usize> {
    match o {
        Some(k) => Some(k as usize),
        None => None,
    }
}

fn signed_file(f: &Option<String>) -> (r: Option<i64>)
    ensures
        r == signed_reading(*f),
{
    match f {
        Some(t) => read_i64(t.as_str()),
        None => None,
    }
}

fn unsigned_file(f: &Option<String>) -> (r: Option<u32>)
    ensures
        r == unsigned_reading(*f),
{
    match f {
        Some(t) => read_u32(t.as_str()),
        None => None,
    }
}

/// The classes of one device: (CPU, board).
fn classify_sensor(e: &SensorEntry) -> (r: (bool, bool))
    ensures
        r.0 == is_cpu_sensor(*e),
        r.1 == is_board_sensor(*e),
{
    let name = match &e.name {
        Some(t) => trim_chars(&chars_of(t.as_str())),
        None => Vec::new(),
    };
    assert(name@ =~= sensor_name(*e));
    let cpu = contains_chars(&name, &chars_of("coretemp")) || contains_chars(
        &name,
        &chars_of("k10temp"),
    ) || contains_chars(&name, &chars_of("cpu"));
    let board = contains_chars(&name, &chars_of("acpitz")) || contains_chars(
        &name,
        &chars_of("board"),
    );
    (cpu, board)
}

fn next_index(found: Option<usize>, i: usize, hit: bool, sel: SensorSelection) -> (r: Option<usize>)
    ensures
        r == if hit && (sel == SensorSelection::LastEnumerated || found is None) {
            Some(i)
        } else {
            found
        },
{
    if hit && (sel == SensorSelection::LastEnumerated || found.is_none()) {
        Some(i)
    } else {
        found
    }
}

proof fn lemma_index_step(s: Seq<SensorEntry>, i: int, p: spec_fn(SensorEntry) -> bool, sel: SensorSelection)
    requires
        0 <= i < s.len(),
    ensures
        class_index(s.take(i + 1), p, sel) == if p(s[i]) && (sel == SensorSelection::LastEnumerated
            || class_index(s.take(i), p, sel) is None) {
            Some(i)
        } else {
            class_index(s.take(i), p, sel)
        },
{
    let t = s.take(i + 1);
    assert(t.drop_last() =~= s.take(i));
    assert(t.last() == s[i]);
}

/// Reads the sensor registry `entries` in the order it enumerates them.
/// Devices are classed by name: one whose name holds `coretemp`, `k10temp`
/// or `cpu` gives the CPU temperature, one whose name holds `acpitz` or
/// `board` the board temperature; `sel` says which device of a class is
/// read, and which device fan speed and voltage come from. When no CPU
/// temperature was read, the generic thermal zone's file `thermal` gives it.
/// Readings stay in milli-units.
pub fn collect_hardware_sensors(
    entries: &Vec<SensorEntry>,
    thermal: &Option<String>,
    sel: SensorSelection,
) -> (r: HardwareSensors)
    ensures
        r == scan_result(entries@, *thermal, sel),
{
    let ghost s = entries@;
    let ghost cpu_p = |e: SensorEntry| is_cpu_sensor(e);
    let ghost board_p = |e: SensorEntry| is_board_sensor(e);
    let ghost any_p = |e: SensorEntry| any_sensor(e);
    let ghost fan_sel = if sel == SensorSelection::LastEnumerated {
        any_p
    } else {
        cpu_p
    };
    let mut cpu: Option<usize> = None;
    let mut board: Option<usize> = None;
    let mut fan: Option<usize> = None;
    let mut i: usize = 0;
    while i < entries.len()
        invariant
            s == entries@,
            i <= s.len(),
            cpu == to_index(class_index(s.take(i as int), cpu_p, sel)),
            board == to_index(class_index(s.take(i as int), board_p, sel)),
            fan == to_index(class_index(s.take(i as int), fan_sel, sel)),
            class_index(s.take(i as int), cpu_p, sel) matches Some(k) ==> 0 <= k < i,
            class_index(s.take(i as int), board_p, sel) matches Some(k) ==> 0 <= k < i,
            class_index(s.take(i as int), fan_sel, sel) matches Some(k) ==> 0 <= k < i,
            fan_sel == (if sel == SensorSelection::LastEnumerated {
                any_p
            } else {
                cpu_p
            }),
            cpu_p == (|e: SensorEntry| is_cpu_sensor(e)),
            board_p == (|e: SensorEntry| is_board_sensor(e)),
            any_p == (|e: SensorEntry| any_sensor(e)),
        decreases s.len() - i,
    {
        let (is_cpu, is_board) = classify_sensor(&entries[i]);
        proof {
            lemma_index_step(s, i as int, cpu_p, sel);
            lemma_index_step(s, i as int, board_p, sel);
            lemma_index_step(s, i as int, fan_sel, sel);
        }
        cpu = next_index(cpu, i, is_cpu, sel);
        board = next_index(board, i, is_board, sel);
        let fan_hit = sel == SensorSelection::LastEnumerated || is_cpu;
        fan = next_index(fan, i, fan_hit, sel);
        i = i + 1;
    }
    assert(s.take(i as int) =~= s);
    let cpu_temp = match cpu {
        Some(k) => signed_file(&entries[k].temp_input),
        None => None,
    };
    let board_temp = match board {
        Some(k) => signed_file(&entries[k].temp_input),
        None => None,
    };
    let cpu_temp = if cpu_temp.is_some() {
        cpu_temp
    } else {
        signed_file(thermal)
    };
    let (fan_rpm, volts) = match fan {
        Some(k) => (unsigned_file(&entries[k].fan_input), signed_file(&entries[k].voltage_input)),
        None => (None, None),
    };
    HardwareSensors {
        cpu_temp_millicelsius: cpu_temp,
        motherboard_temp_millicelsius: board_temp,
        cpu_fan_rpm: fan_rpm,
        cpu_voltage_millivolts: volts,
    }
}

/// An empty registry gives no board temperature, fan speed or voltage, and
/// the CPU temperature only from the generic thermal zone; with that file
/// unreadable too, nothing at all.
pub proof fn lemma_empty_registry(thermal: Option<String>, sel: SensorSelection)
    ensures
        scan_result(Seq::empty(), thermal, sel).motherboard_temp_millicelsius is None,
        scan_result(Seq::empty(), thermal, sel).cpu_fan_rpm is None,
        scan_result(Seq::empty(), thermal, sel).cpu_voltage_millivolts is None,
        scan_result(Seq::empty(), thermal, sel).cpu_temp_millicelsius == signed_reading(thermal),
        thermal is None ==> scan_result(Seq::empty(), thermal, sel) == (HardwareSensors {
            cpu_temp_millicelsius: None,
            motherboard_temp_millicelsius: None,
            cpu_fan_rpm: None,
            cpu_voltage_millivolts: None,
        }),
{
}

} // verus!
