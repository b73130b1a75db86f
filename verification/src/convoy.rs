//! Convoy formation management: per-follower offsets from the leader for
//! the named formations, and target positions under the leader's heading.

use vstd::prelude::*;
use crate::domain::DroneId;
use crate::geo::{abs_val, cos_lat_spec, nrad_of_udeg, spec_cos_circle, spec_distance_m,
    spec_sin_circle, GeoPos};
use crate::kalman::{clamp_to, tz_div};

verus! {

/// An offset clamped into one thousand kilometres of millimetres.
pub open spec fn spec_clamp_mm(v: int) -> int {
    clamp_to(v, 1_000_000_000_000)
}

/// Product of a millimetre offset and a unit-scaled coefficient,
/// rescaled and rounded toward zero.
pub open spec fn spec_mul_unit(mm: int, coeff: int) -> int {
    tz_div(mm * coeff, 1_000_000_000)
}

/// Longitude scaling by the inverse cosine of the latitude, the
/// magnitude clamped to one thousand kilometres' worth.
pub open spec fn spec_scale_lng(mm: int, c1: int) -> int {
    let mag = abs_val(mm) * 1_000_000_000 / (111_000 * c1);
    let mag_c = if mag > 1_000_000_000_000 {
        1_000_000_000_000
    } else {
        mag
    };
    if mm < 0 {
        -mag_c
    } else {
        mag_c
    }
}

/// The slot a follower with the given offset should hold: the offset
/// rotated by the leader's heading, converted to degree offsets around
/// the leader, the vertical offset added to the altitude where it fits.
pub open spec fn spec_target_position(
    off: FormationOffset,
    leader: GeoPos,
    heading_mdeg: int,
) -> GeoPos {
    let h_nrad = nrad_of_udeg(heading_mdeg * 1000);
    let ch = spec_cos_circle(h_nrad);
    let sh = spec_sin_circle(h_nrad);
    let lon_c = spec_clamp_mm(off.longitudinal_mm as int);
    let lat_c = spec_clamp_mm(off.lateral_mm as int);
    let rot_lat_mm = spec_mul_unit(lon_c, ch) - spec_mul_unit(lat_c, sh);
    let rot_lng_mm = spec_mul_unit(lon_c, sh) + spec_mul_unit(lat_c, ch);
    let lat_off_udeg = tz_div(rot_lat_mm, 111_000);
    let c1 = cos_lat_spec(abs_val(leader.lat_udeg as int));
    let lng_off_udeg = if c1 == 0 {
        tz_div(rot_lng_mm, 111_000)
    } else {
        spec_scale_lng(rot_lng_mm, c1)
    };
    let v = spec_clamp_mm(off.vertical_mm as int);
    GeoPos {
        lat_udeg: (leader.lat_udeg - lat_off_udeg) as i64,
        lng_udeg: (leader.lng_udeg + lng_off_udeg) as i64,
        alt_mm: (if leader.alt_mm <= 9_000_000_000_000_000_000 - v && leader.alt_mm
            >= -9_000_000_000_000_000_000 + v {
            leader.alt_mm + v
        } else {
            leader.alt_mm as int
        }) as i64,
    }
}

/// The index of the first offset entry for the given drone id.
pub open spec fn find_offset(
    s: Seq<(DroneId, FormationOffset)>,
    id: Seq<char>,
    k: int,
) -> Option<int>
    decreases s.len() - k,
{
    if k < 0 || k >= s.len() {
        None
    } else if s[k].0.0@ == id {
        Some(k)
    } else {
        find_offset(s, id, k + 1)
    }
}

/// Convoy formation shapes.
#[derive(PartialEq, Eq, Structural, Clone, Copy, Debug)]
pub enum Formation {
    Line,
    Vee,
    Diamond,
    Echelon,
    Column,
    Spread,
}

impl Default for Formation {
    fn default() -> (r: Formation)
        ensures
            r == Formation::Line,
    {
        Formation::Line
    }
}

/// Offset from the leader, millimetres: lateral (positive right),
/// longitudinal (positive behind), vertical (positive above).
#[derive(PartialEq, Eq, Structural, Clone, Copy, Debug)]
pub struct FormationOffset {
    pub lateral_mm: i64,
    pub longitudinal_mm: i64,
    pub vertical_mm: i64,
}

/// The offset of follower `i` of `n` drones at the given spacing, by
/// formation, as `(lateral, longitudinal, vertical)` in millimetres. The
/// leader (index 0) has no offset.
pub open spec fn spec_offset(f: Formation, i: int, n: int, spacing_mm: int) -> (int, int, int) {
    if i == 0 {
        (0, 0, 0)
    } else {
        match f {
            Formation::Line => (0, spacing_mm * i, 0),
            Formation::Column => (0, spacing_mm * i, 0),
            Formation::Vee => {
                let side: int = if i % 2 == 1 {
                    1
                } else {
                    -1
                };
                let row = (i + 1) / 2;
                (side * (spacing_mm * row * 7 / 10), spacing_mm * row, 0)
            },
            Formation::Diamond => {
                // Quarter-turn steps: (sin, cos) of (i - 1) * pi / 2.
                let q = (i - 1) % 4;
                let (s, c): (int, int) = if q == 0 {
                    (0, 1)
                } else if q == 1 {
                    (1, 0)
                } else if q == 2 {
                    (0, -1)
                } else {
                    (-1, 0)
                };
                (spacing_mm * s, spacing_mm * c, 0)
            },
            Formation::Echelon => (spacing_mm * i / 2, spacing_mm * i, 0),
            Formation::Spread => (crate::kalman::tz_div(spacing_mm * (2 * i - n), 2), 0, 0),
        }
    }
}

/// Whether an offset record matches the formula value.
pub open spec fn offset_matches(o: FormationOffset, t: (int, int, int)) -> bool {
    o.lateral_mm as int == t.0 && o.longitudinal_mm as int == t.1 && o.vertical_mm as int == t.2
}

/// Manages the convoy's formation, order and per-drone offsets.
pub struct ConvoyManager {
    formation: Formation,
    leader: Option<DroneId>,
    order: Vec<DroneId>,
    offsets: Vec<(DroneId, FormationOffset)>,
    spacing_mm: i64,
}

impl ConvoyManager {
    pub closed spec fn spec_formation(self) -> Formation {
        self.formation
    }

    pub closed spec fn spec_leader(self) -> Option<DroneId> {
        self.leader
    }

    pub closed spec fn spec_order(self) -> Seq<DroneId> {
        self.order@
    }

    pub closed spec fn spec_offsets(self) -> Seq<(DroneId, FormationOffset)> {
        self.offsets@
    }

    pub closed spec fn spec_spacing_mm(self) -> int {
        self.spacing_mm as int
    }

    /// Offsets follow the formation formulas for the current order.
    pub closed spec fn wf(self) -> bool {
        &&& self.offsets@.len() == self.order@.len()
        &&& 1 <= self.spacing_mm <= 1_000_000_000
        &&& self.order@.len() <= 100_000
        &&& (forall|i: int|
            0 <= i < self.offsets@.len() ==> (#[trigger] self.offsets@[i]).0.0@
                == self.order@[i].0@ && offset_matches(
                self.offsets@[i].1,
                spec_offset(self.formation, i, self.order@.len() as int, self.spacing_mm as int),
            ))
    }

    pub fn new() -> (r: ConvoyManager)
        ensures
            r.wf(),
            r.spec_formation() == Formation::Line,
            r.spec_leader() is None,
            r.spec_order().len() == 0,
            r.spec_spacing_mm() == 50_000,
    {
        ConvoyManager {
            formation: Formation::Line,
            leader: None,
            order: Vec::new(),
            offsets: Vec::new(),
            spacing_mm: 50_000,
        }
    }

    /// Switches the formation and recomputes every offset.
    pub fn set_formation(&mut self, formation: Formation)
        requires
            old(self).wf(),
        ensures
            final(self).wf(),
            final(self).spec_formation() == formation,
            final(self).spec_order() == old(self).spec_order(),
    {
        self.formation = formation;
        self.recalculate_offsets();
    }

    pub fn get_formation(&self) -> (r: Formation)
        ensures
            r == self.spec_formation(),
    {
        self.formation
    }

    pub fn set_leader(&mut self, drone_id: DroneId)
        requires
            old(self).wf(),
        ensures
            final(self).wf(),
            final(self).spec_leader() is Some,
    {
        self.leader = Some(drone_id);
    }

    pub fn get_leader(&self) -> (r: Option<DroneId>)
        ensures
            r is Some <==> self.spec_leader() is Some,
    {
        match &self.leader {
            Some(l) => Some(l.clone()),
            None => None,
        }
    }

    /// Replaces the convoy order and recomputes every offset.
    pub fn set_order(&mut self, order: Vec<DroneId>)
        requires
            old(self).wf(),
            order@.len() <= 100_000,
        ensures
            final(self).wf(),
            final(self).spec_order() == order@,
            final(self).spec_formation() == old(self).spec_formation(),
    {
        self.order = order;
        self.recalculate_offsets();
    }

    pub fn get_order(&self) -> (r: Vec<DroneId>)
        ensures
            r@.len() == self.spec_order().len(),
            forall|i: int| 0 <= i < r@.len() ==> (#[trigger] r@[i]).0@ == self.spec_order()[i].0@,
    {
        let n: usize = self.order.len();
        let mut out: Vec<DroneId> = Vec::new();
        let mut i: usize = 0;
        while i < n
            invariant
                i <= n,
                n == self.order@.len(),
                out@.len() == i,
                forall|k: int| 0 <= k < i ==> (#[trigger] out@[k]).0@ == self.order@[k].0@,
            decreases n - i,
        {
            out.push(self.order[i].clone());
            i += 1;
        }
        out
    }

    /// Sets the spacing (clamped into `[1 mm, 1000 km]`) and recomputes
    /// every offset.
    pub fn set_spacing_mm(&mut self, spacing_mm: i64)
        requires
            old(self).wf(),
        ensures
            final(self).wf(),
            final(self).spec_spacing_mm() == (if spacing_mm < 1 {
                1int
            } else if spacing_mm > 1_000_000_000 {
                1_000_000_000int
            } else {
                spacing_mm as int
            }),
    {
        self.spacing_mm = if spacing_mm < 1 {
            1
        } else if spacing_mm > 1_000_000_000 {
            1_000_000_000
        } else {
            spacing_mm
        };
        self.recalculate_offsets();
    }

    /// Recomputes the offset of every drone in the order.
    fn recalculate_offsets(&mut self)
        requires
            1 <= old(self).spacing_mm <= 1_000_000_000,
            old(self).order@.len() <= 100_000,
        ensures
            final(self).wf(),
            final(self).order@ == old(self).order@,
            final(self).formation == old(self).formation,
            final(self).spacing_mm == old(self).spacing_mm,
            final(self).leader == old(self).leader,
    {
        let n: usize = self.order.len();
        let mut offsets: Vec<(DroneId, FormationOffset)> = Vec::new();
        let mut i: usize = 0;
        while i < n
            invariant
                i <= n,
                n == self.order@.len(),
                n <= 100_000,
                1 <= self.spacing_mm <= 1_000_000_000,
                offsets@.len() == i,
                forall|k: int|
                    0 <= k < i ==> (#[trigger] offsets@[k]).0.0@ == self.order@[k].0@
                        && offset_matches(
                        offsets@[k].1,
                        spec_offset(self.formation, k, n as int, self.spacing_mm as int),
                    ),
            decreases n - i,
        {
            let off = compute_offset(self.formation, i, n, self.spacing_mm);
            offsets.push((DroneId::from_string(self.order[i].0.clone()), off));
            i += 1;
        }
        self.offsets = offsets;
    }

    /// The formation offset of a drone: the entry of the first offset
    /// record with its id, exactly when one exists.
    pub fn get_offset(&self, drone_id: &DroneId) -> (r: Option<FormationOffset>)
        ensures
            r is Some <==> find_offset(self.spec_offsets(), drone_id.0@, 0) is Some,
            find_offset(self.spec_offsets(), drone_id.0@, 0) matches Some(i) ==> r == Some(
                self.spec_offsets()[i].1,
            ),
    {
        let n: usize = self.offsets.len();
        let mut i: usize = 0;
        while i < n
            invariant
                i <= n,
                n == self.offsets@.len(),
                find_offset(self.offsets@, drone_id.0@, 0) == find_offset(
                    self.offsets@,
                    drone_id.0@,
                    i as int,
                ),
            decreases n - i,
        {
            if self.offsets[i].0.0 == drone_id.0 {
                proof {
                    assert(find_offset(self.offsets@, drone_id.0@, i as int) == Some(i as int));
                }
                return Some(self.offsets[i].1);
            }
            proof {
                assert(find_offset(self.offsets@, drone_id.0@, i as int) == find_offset(
                    self.offsets@,
                    drone_id.0@,
                    i + 1,
                ));
            }
            i += 1;
        }
        None
    }

    /// The position a follower should hold, given the leader's position
    /// and heading: the follower's offset rotated by the heading and
    /// converted to degree offsets around the leader.
    pub fn get_target_position(
        &self,
        drone_id: &DroneId,
        leader_position: &GeoPos,
        leader_heading_mdeg: u32,
    ) -> (r: Option<GeoPos>)
        requires
            leader_position.valid(),
            leader_heading_mdeg < 360_000,
        ensures
            r is Some <==> find_offset(self.spec_offsets(), drone_id.0@, 0) is Some,
            find_offset(self.spec_offsets(), drone_id.0@, 0) matches Some(i) ==> r == Some(
                spec_target_position(
                    self.spec_offsets()[i].1,
                    *leader_position,
                    leader_heading_mdeg as int,
                ),
            ),
    {
        let off: FormationOffset = match self.get_offset(drone_id) {
            Some(o) => o,
            None => {
                return None;
            },
        };
        let h_nrad: u64 = crate::geo::udeg_to_nrad((leader_heading_mdeg as u64) * 1000);
        let ch: i64 = crate::geo::cos_circle(h_nrad);
        let sh: i64 = crate::geo::sin_circle(h_nrad);
        let lon_c: i64 = clamp_mm(off.longitudinal_mm);
        let lat_c: i64 = clamp_mm(off.lateral_mm);
        // Rotated ground offsets in millimetres (coefficients are scaled).
        let rot_lat_mm: i64 = mul_unit(lon_c, ch) - mul_unit(lat_c, sh);
        let rot_lng_mm: i64 = mul_unit(lon_c, sh) + mul_unit(lat_c, ch);
        let lat_off_udeg: i64 = rot_lat_mm / 111_000;
        let lat_mag: u64 = if leader_position.lat_udeg >= 0 {
            leader_position.lat_udeg as u64
        } else {
            (-leader_position.lat_udeg) as u64
        };
        let c1: u64 = crate::geo::cos_lat(lat_mag);
        let lng_off_udeg: i64 = if c1 == 0 {
            rot_lng_mm / 111_000
        } else {
            scale_lng(rot_lng_mm, c1)
        };
        Some(
            GeoPos {
                lat_udeg: leader_position.lat_udeg - lat_off_udeg,
                lng_udeg: leader_position.lng_udeg + lng_off_udeg,
                alt_mm: if leader_position.alt_mm <= 9_000_000_000_000_000_000i64
                    - clamp_mm(off.vertical_mm) && leader_position.alt_mm
                    >= -9_000_000_000_000_000_000i64 + clamp_mm(off.vertical_mm) {
                    leader_position.alt_mm + clamp_mm(off.vertical_mm)
                } else {
                    leader_position.alt_mm
                },
            },
        )
    }

    /// Whether the drone holds its slot: it has a target, the target is
    /// a valid position, and the drone is within the tolerance of it.
    pub fn is_in_position(
        &self,
        drone_id: &DroneId,
        current_position: &GeoPos,
        leader_position: &GeoPos,
        leader_heading_mdeg: u32,
        tolerance_m: u64,
    ) -> (r: bool)
        requires
            current_position.valid(),
            leader_position.valid(),
            leader_heading_mdeg < 360_000,
        ensures
            r == (find_offset(self.spec_offsets(), drone_id.0@, 0) matches Some(i) && {
                let t = spec_target_position(
                    self.spec_offsets()[i].1,
                    *leader_position,
                    leader_heading_mdeg as int,
                );
                t.valid() && spec_distance_m(*current_position, t) <= tolerance_m
            }),
    {
        match self.get_target_position(drone_id, leader_position, leader_heading_mdeg) {
            Some(target) => {
                if target.is_valid() {
                    let d: u64 = current_position.distance_m(&target);
                    d <= tolerance_m
                } else {
                    false
                }
            },
            None => false,
        }
    }
}

impl Default for ConvoyManager {
    fn default() -> (r: ConvoyManager)
        ensures
            r.wf(),
            r.spec_formation() == Formation::Line,
    {
        ConvoyManager::new()
    }
}

/// The formation offset formulas in executable form.
fn compute_offset(f: Formation, i: usize, n: usize, spacing_mm: i64) -> (r: FormationOffset)
    requires
        1 <= spacing_mm <= 1_000_000_000,
        i < n,
        n <= 100_000,
    ensures
        offset_matches(r, spec_offset(f, i as int, n as int, spacing_mm as int)),
{
    if i == 0 {
        return FormationOffset { lateral_mm: 0, longitudinal_mm: 0, vertical_mm: 0 };
    }
    proof {
        assert(0 <= (spacing_mm as int) * (i as int) <= 100_000_000_000_000int)
            by (nonlinear_arith)
            requires
                1 <= spacing_mm as int,
                (spacing_mm as int) <= 1_000_000_000int,
                0 <= i as int,
                (i as int) <= 100_000int,
        ;
    }
    match f {
        Formation::Line => {
            let lon: i64 = spacing_mm * (i as i64);
            let r = FormationOffset { lateral_mm: 0, longitudinal_mm: lon, vertical_mm: 0 };
            proof {
                assert(lon as int == (spacing_mm as int) * (i as int));
                assert(spec_offset(f, i as int, n as int, spacing_mm as int) == (
                    0int,
                    (spacing_mm as int) * (i as int),
                    0int,
                ));
                assert(offset_matches(r, spec_offset(f, i as int, n as int, spacing_mm as int)));
            }
            r
        },
        Formation::Column => {
            let r = FormationOffset {
                lateral_mm: 0,
                longitudinal_mm: spacing_mm * (i as i64),
                vertical_mm: 0,
            };
            proof {
                assert(offset_matches(r, spec_offset(f, i as int, n as int, spacing_mm as int)));
            }
            r
        },
        Formation::Vee => {
            let side: i64 = if i % 2 == 1 {
                1
            } else {
                -1
            };
            let row: i64 = ((i + 1) / 2) as i64;
            proof {
                assert(0 <= (spacing_mm as int) * (row as int) <= 100_000_000_000_000int && 0 <= (
                spacing_mm as int) * (row as int) * 7 <= 700_000_000_000_000int)
                    by (nonlinear_arith)
                    requires
                        1 <= spacing_mm as int,
                        (spacing_mm as int) <= 1_000_000_000int,
                        0 <= row as int,
                        (row as int) <= 100_000int,
                ;
            }
            let mag: i64 = spacing_mm * row * 7 / 10;
            let r = FormationOffset {
                lateral_mm: if side == 1 {
                    mag
                } else {
                    -mag
                },
                longitudinal_mm: spacing_mm * row,
                vertical_mm: 0,
            };
            proof {
                assert(offset_matches(r, spec_offset(f, i as int, n as int, spacing_mm as int)));
            }
            r
        },
        Formation::Diamond => {
            let q: usize = (i - 1) % 4;
            let (s, c): (i64, i64) = if q == 0 {
                (0, 1)
            } else if q == 1 {
                (1, 0)
            } else if q == 2 {
                (0, -1)
            } else {
                (-1, 0)
            };
            proof {
                assert((spacing_mm as int) * 0int == 0 && (spacing_mm as int) * 1int
                    == spacing_mm as int && (spacing_mm as int) * (-1int) == -(spacing_mm as int))
                    by (nonlinear_arith);
            }
            let r = FormationOffset {
                lateral_mm: spacing_mm * s,
                longitudinal_mm: spacing_mm * c,
                vertical_mm: 0,
            };
            proof {
                assert(offset_matches(r, spec_offset(f, i as int, n as int, spacing_mm as int)));
            }
            r
        },
        Formation::Echelon => {
            let r = FormationOffset {
                lateral_mm: spacing_mm * (i as i64) / 2,
                longitudinal_mm: spacing_mm * (i as i64),
                vertical_mm: 0,
            };
            proof {
                assert(offset_matches(r, spec_offset(f, i as int, n as int, spacing_mm as int)));
            }
            r
        },
        Formation::Spread => {
            let two_i_minus_n: i64 = 2 * (i as i64) - (n as i64);
            let mag: i64 = if two_i_minus_n >= 0 {
                two_i_minus_n
            } else {
                -two_i_minus_n
            };
            proof {
                assert(0 <= (spacing_mm as int) * (mag as int) <= 200_000_000_000_000int && (
                spacing_mm as int) * (two_i_minus_n as int) == (if two_i_minus_n as int >= 0 {
                    (spacing_mm as int) * (mag as int)
                } else {
                    -((spacing_mm as int) * (mag as int))
                })) by (nonlinear_arith)
                    requires
                        1 <= spacing_mm as int,
                        (spacing_mm as int) <= 1_000_000_000int,
                        0 <= mag as int,
                        (mag as int) <= 200_000int,
                        mag as int == (if two_i_minus_n as int >= 0 {
                            two_i_minus_n as int
                        } else {
                            -(two_i_minus_n as int)
                        }),
                ;
            }
            let lat: i64 = if two_i_minus_n >= 0 {
                spacing_mm * mag / 2
            } else {
                -(spacing_mm * mag / 2)
            };
            let r = FormationOffset { lateral_mm: lat, longitudinal_mm: 0, vertical_mm: 0 };
            proof {
                assert(offset_matches(r, spec_offset(f, i as int, n as int, spacing_mm as int)));
            }
            r
        },
    }
}

/// Clamp an offset into one thousand kilometres of millimetres.
fn clamp_mm(v: i64) -> (r: i64)
    ensures
        r == spec_clamp_mm(v as int),
        -1_000_000_000_000 <= r <= 1_000_000_000_000,
{
    if v > 1_000_000_000_000 {
        1_000_000_000_000
    } else if v < -1_000_000_000_000 {
        -1_000_000_000_000
    } else {
        v
    }
}

/// Product of a millimetre offset and a unit-scaled coefficient.
fn mul_unit(mm: i64, coeff: i64) -> (r: i64)
    requires
        -1_000_000_000_000 <= mm <= 1_000_000_000_000,
        -1_000_000_000 <= coeff <= 1_000_000_000,
    ensures
        r == spec_mul_unit(mm as int, coeff as int),
        -1_000_000_000_000 <= r <= 1_000_000_000_000,
{
    let mm_mag: i128 = if mm >= 0 {
        mm as i128
    } else {
        -(mm as i128)
    };
    let c_mag: i128 = if coeff >= 0 {
        coeff as i128
    } else {
        -(coeff as i128)
    };
    proof {
        assert(0 <= mm_mag * c_mag <= 1_000_000_000_000_000_000_000i128 && mm_mag * c_mag
            / 1_000_000_000 <= 1_000_000_000_000i128) by (nonlinear_arith)
            requires
                0 <= mm_mag <= 1_000_000_000_000i128,
                0 <= c_mag <= 1_000_000_000i128,
        ;
        assert((mm as int) * (coeff as int) == (if (mm < 0) != (coeff < 0) {
            -((mm_mag as int) * (c_mag as int))
        } else {
            (mm_mag as int) * (c_mag as int)
        })) by (nonlinear_arith)
            requires
                mm_mag as int == (if mm as int >= 0 {
                    mm as int
                } else {
                    -(mm as int)
                }),
                c_mag as int == (if coeff as int >= 0 {
                    coeff as int
                } else {
                    -(coeff as int)
                }),
        ;
    }
    let mag: i128 = mm_mag * c_mag / 1_000_000_000;
    if (mm < 0) != (coeff < 0) {
        -(mag as i64)
    } else {
        mag as i64
    }
}

/// Longitude scaling by the cosine of the latitude.
fn scale_lng(mm: i64, c1: u64) -> (r: i64)
    requires
        -2_000_000_000_000 <= mm <= 2_000_000_000_000,
        1 <= c1 <= 1_000_000_000,
    ensures
        r == spec_scale_lng(mm as int, c1 as int),
        -1_000_000_000_000 <= r <= 1_000_000_000_000,
{
    let mm_mag: i128 = if mm >= 0 {
        mm as i128
    } else {
        -(mm as i128)
    };
    proof {
        assert(0 <= mm_mag * 1_000_000_000i128 <= 2_000_000_000_000_000_000_000i128)
            by (nonlinear_arith)
            requires
                0 <= mm_mag <= 2_000_000_000_000i128,
        ;
        assert(111_000i128 * (c1 as i128) >= 111_000i128) by (nonlinear_arith)
            requires
                1 <= c1 as i128,
        ;
    }
    let den: i128 = 111_000i128 * (c1 as i128);
    let mag: i128 = mm_mag * 1_000_000_000i128 / den;
    let mag_c: i128 = if mag > 1_000_000_000_000i128 {
        1_000_000_000_000i128
    } else {
        mag
    };
    if mm < 0 {
        -(mag_c as i64)
    } else {
        mag_c as i64
    }
}

} // verus!
