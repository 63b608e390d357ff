//! The current-temperature readings of a device snapshot, one line per
//! matching device and status.
use vstd::prelude::*;
use crate::model::{Device, Status};

verus! {

/// The status codes that carry a current temperature.
pub open spec fn is_temperature_code(code: Seq<char>) -> bool {
    code == "va_temperature"@ || code == "temp_current"@
}

/// The line `<name>: <value>`.
pub open spec fn reading_line_of(name: Seq<char>, value: Seq<char>) -> Seq<char> {
    name + seq![':', ' '] + value
}

/// The lines of one device named `name` with `statuses`, in status order.
pub open spec fn status_lines(name: Seq<char>, statuses: Seq<Status>) -> Seq<Seq<char>>
    decreases statuses.len(),
{
    if statuses.len() == 0 {
        Seq::empty()
    } else {
        let rest = status_lines(name, statuses.drop_last());
        let last = statuses.last();
        if is_temperature_code(last.code@) {
            rest.push(reading_line_of(name, last.value@))
        } else {
            rest
        }
    }
}

/// The lines of all `devices`, device by device.
pub open spec fn device_lines(devices: Seq<Device>) -> Seq<Seq<char>>
    decreases devices.len(),
{
    if devices.len() == 0 {
        Seq::empty()
    } else {
        device_lines(devices.drop_last()) + status_lines(
            devices.last().name@,
            devices.last().status@,
        )
    }
}

/// The texts of `lines`.
pub open spec fn texts(lines: Seq<String>) -> Seq<Seq<char>> {
    lines.map_values(|s: String| s@)
}

fn text_equals(a: &str, b: &str) -> (r: bool)
    ensures
        r == (a@ == b@),
{
    let n = a.unicode_len();
    if n != b.unicode_len() {
        return false;
    }
    let mut i: usize = 0;
    while i < n
        invariant
            n == a@.len(),
            n == b@.len(),
            i <= n,
            a@.subrange(0, i as int) == b@.subrange(0, i as int),
        decreases n - i,
    {
        if a.get_char(i) != b.get_char(i) {
            return false;
        }
        assert(a@.subrange(0, i as int + 1) =~= a@.subrange(0, i as int).push(a@[i as int]));
        assert(b@.subrange(0, i as int + 1) =~= b@.subrange(0, i as int).push(b@[i as int]));
        i = i + 1;
    }
    assert(a@ =~= a@.subrange(0, n as int));
    assert(b@ =~= b@.subrange(0, n as int));
    true
}

/// Whether `code` names a current temperature (`va_temperature` or
/// `temp_current`).
pub fn is_temperature(code: &str) -> (r: bool)
    ensures
        r == is_temperature_code(code@),
{
    text_equals(code, "va_temperature") || text_equals(code, "temp_current")
}

/// The line `<name>: <value>`.
pub fn reading_line(name: &str, value: &str) -> (r: String)
    ensures
        r@ == reading_line_of(name@, value@),
{
    let mut line = String::from_str(name);
    line.append(": ");
    proof {
        reveal_strlit(": ");
    }
    line.append(value);
    line
}

/// One line `<name>: <value>` for each status of each device whose code
/// names a current temperature, in snapshot order.
pub fn temperature_lines(devices: &Vec<Device>) -> (r: Vec<String>)
    ensures
        texts(r@) == device_lines(devices@),
{
    let mut out: Vec<String> = Vec::new();
    let mut i: usize = 0;
    while i < devices.len()
        invariant
            i <= devices@.len(),
            texts(out@) == device_lines(devices@.subrange(0, i as int)),
        decreases devices@.len() - i,
    {
        let device = &devices[i];
        let ghost before = texts(out@);
        let mut j: usize = 0;
        while j < device.status.len()
            invariant
                i < devices@.len(),
                device == devices@[i as int],
                j <= device.status@.len(),
                texts(out@) == before + status_lines(
                    device.name@,
                    device.status@.subrange(0, j as int),
                ),
            decreases device.status@.len() - j,
        {
            let status = &device.status[j];
            let ghost prev = out@;
            let ghost sub = device.status@.subrange(0, j as int + 1);
            assert(sub.drop_last() =~= device.status@.subrange(0, j as int));
            assert(sub.last() == device.status@[j as int]);
            if is_temperature(status.code.as_str()) {
                let line = reading_line(device.name.as_str(), status.value.as_str());
                out.push(line);
                assert(texts(out@) =~= texts(prev).push(line@));
                assert(texts(out@) =~= before + status_lines(device.name@, sub));
            }
            j = j + 1;
        }
        proof {
            let sub = devices@.subrange(0, i as int + 1);
            assert(sub.drop_last() =~= devices@.subrange(0, i as int));
            assert(device.status@.subrange(0, device.status@.len() as int) =~= device.status@);
        }
        i = i + 1;
    }
    assert(devices@.subrange(0, devices@.len() as int) =~= devices@);
    out
}

} // verus!
