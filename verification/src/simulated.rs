//! The built-in simulated devices and filter selection by name.
use vstd::prelude::*;

use crate::text::{concat2, eq_ignore_ascii_case, str_eq, str_eq_ignore_ascii_case};

verus! {

/// State of the simulated filter wheel.
#[derive(Debug, Clone)]
pub struct SimulatedFilterWheel {
    pub connected: bool,
    /// Current slot, counted from 1
    pub position: i32,
    pub moving: bool,
    pub filter_count: i32,
    pub filter_names: Vec<String>,
}

/// The views of a list of texts.
pub open spec fn text_views(v: Seq<String>) -> Seq<Seq<char>> {
    v.map_values(|s: String| s@)
}

impl Default for SimulatedFilterWheel {
    /// Seven slots, L R G B Ha OIII SII, on the first slot.
    fn default() -> (r: Self)
        ensures
            !r.connected,
            r.position == 1,
            !r.moving,
            r.filter_count == 7,
            text_views(r.filter_names@) == seq![
                "L"@,
                "R"@,
                "G"@,
                "B"@,
                "Ha"@,
                "OIII"@,
                "SII"@,
            ],
    {
        let mut names: Vec<String> = Vec::new();
        names.push(String::from_str("L"));
        names.push(String::from_str("R"));
        names.push(String::from_str("G"));
        names.push(String::from_str("B"));
        names.push(String::from_str("Ha"));
        names.push(String::from_str("OIII"));
        names.push(String::from_str("SII"));
        let r = SimulatedFilterWheel {
            connected: false,
            position: 1,
            moving: false,
            filter_count: 7,
            filter_names: names,
        };
        assert(text_views(r.filter_names@) =~= seq!["L"@, "R"@, "G"@, "B"@, "Ha"@, "OIII"@, "SII"@]);
        r
    }
}

impl SimulatedFilterWheel {
    /// Moves to a slot at once.
    pub fn set_position(&mut self, position: i32)
        ensures
            final(self).position == position,
            !final(self).moving,
            final(self).connected == old(self).connected,
            final(self).filter_count == old(self).filter_count,
            final(self).filter_names == old(self).filter_names,
    {
        self.moving = true;
        self.position = -1;
        self.moving = false;
        self.position = position;
    }

    /// Moves to the slot whose name is exactly `name`.
    pub fn set_by_name(&mut self, name: &str) -> (r: Result<(), String>)
        requires
            old(self).filter_names@.len() < i32::MAX,
        ensures
            match r {
                Ok(_) => {
                    let p = final(self).position;
                    &&& 1 <= p <= old(self).filter_names@.len()
                    &&& old(self).filter_names@[p - 1]@ == name@
                    &&& forall|j: int| 0 <= j < p - 1 ==> #[trigger] old(self).filter_names@[j]@ != name@
                    &&& !final(self).moving
                    &&& final(self).filter_names == old(self).filter_names
                },
                Err(m) => m@ == filter_not_found_message(name@, false) && *final(self) == *old(self)
                    && forall|j: int| 0 <= j < old(self).filter_names@.len() ==> #[trigger] old(self).filter_names@[j]@ != name@,
            },
    {
        match select_filter_by_name(&self.filter_names, name, false) {
            Ok(p) => {
                self.set_position(p);
                Ok(())
            },
            Err(m) => Err(m),
        }
    }
}

/// Name equality as the filter lookup uses it: exact for the simulator, up to
/// ASCII case for real wheels.
pub open spec fn filter_name_matches(candidate: Seq<char>, name: Seq<char>, ignore_case: bool) -> bool {
    if ignore_case {
        eq_ignore_ascii_case(candidate, name)
    } else {
        candidate == name
    }
}

/// Position (from 0) of the first filter with the given name.
pub fn filter_index_by_name(names: &Vec<String>, name: &str, ignore_case: bool) -> (r: Option<usize>)
    ensures
        match r {
            Some(i) => i < names@.len() && filter_name_matches(names@[i as int]@, name@, ignore_case)
                && forall|j: int| 0 <= j < i ==> !filter_name_matches(#[trigger] names@[j]@, name@, ignore_case),
            None => forall|j: int| 0 <= j < names@.len() ==> !filter_name_matches(#[trigger] names@[j]@, name@, ignore_case),
        },
{
    let mut i: usize = 0;
    while i < names.len()
        invariant
            i <= names@.len(),
            forall|j: int| 0 <= j < i ==> !filter_name_matches(#[trigger] names@[j]@, name@, ignore_case),
        decreases names.len() - i,
    {
        let hit = if ignore_case {
            str_eq_ignore_ascii_case(names[i].as_str(), name)
        } else {
            str_eq(names[i].as_str(), name)
        };
        if hit {
            return Some(i);
        }
        i = i + 1;
    }
    None
}

/// The wheel position (counted from 1) of the filter with the given name.
pub open spec fn filter_not_found_message(name: Seq<char>, ignore_case: bool) -> Seq<char> {
    if ignore_case {
        "Filter '"@ + name + "' not found"@
    } else {
        "Filter "@ + name + " not found"@
    }
}

/// The wheel position (counted from 1) of the first filter with the given
/// name; the simulator compares names exactly, real wheels up to ASCII case.
pub fn select_filter_by_name(names: &Vec<String>, name: &str, ignore_case: bool) -> (r: Result<i32, String>)
    requires
        names@.len() < i32::MAX,
    ensures
        match r {
            Ok(p) => 1 <= p <= names@.len() && filter_name_matches(names@[p - 1]@, name@, ignore_case)
                && forall|j: int| 0 <= j < p - 1 ==> !filter_name_matches(#[trigger] names@[j]@, name@, ignore_case),
            Err(m) => m@ == filter_not_found_message(name@, ignore_case) && forall|j: int| 0 <= j < names@.len() ==> !filter_name_matches(#[trigger] names@[j]@, name@, ignore_case),
        },
{
    match filter_index_by_name(names, name, ignore_case) {
        Some(i) => Ok((i + 1) as i32),
        None => {
            if ignore_case {
                Err(String::from_str("Filter '").concat(name).concat("' not found"))
            } else {
                Err(String::from_str("Filter ").concat(name).concat(" not found"))
            }
        },
    }
}

/// The focuser target of a relative move.
pub fn focuser_relative_target(current: i32, delta: i32) -> (r: i32)
    requires
        i32::MIN <= current + delta <= i32::MAX,
    ensures
        r == current + delta,
{
    current + delta
}

/// The number of steps between two focuser positions.
pub fn focuser_move_distance(current: i32, target: i32) -> (r: i32)
    requires
        i32::MIN < target - current <= i32::MAX,
    ensures
        r == if target >= current {
            target - current
        } else {
            current - target
        },
{
    let d = target - current;
    if d < 0 {
        -d
    } else {
        d
    }
}

/// Full-frame size of the simulated camera's sensor.
pub const SIM_SENSOR_WIDTH: u32 = 4144;
pub const SIM_SENSOR_HEIGHT: u32 = 2822;

/// Size of a simulated frame under binning (the binning factors taken as unsigned).
pub fn simulated_frame_size(bin_x: i32, bin_y: i32) -> (r: (u32, u32))
    requires
        bin_x != 0,
        bin_y != 0,
    ensures
        r == (SIM_SENSOR_WIDTH / (bin_x as u32), SIM_SENSOR_HEIGHT / (bin_y as u32)),
{
    assert(bin_x as u32 != 0) by (bit_vector)
        requires
            bin_x != 0,
    ;
    assert(bin_y as u32 != 0) by (bit_vector)
        requires
            bin_y != 0,
    ;
    (SIM_SENSOR_WIDTH / (bin_x as u32), SIM_SENSOR_HEIGHT / (bin_y as u32))
}

} // verus!
