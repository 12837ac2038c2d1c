//! Graphics and rounding state for the hinting interpreter.
//!
//! Projection vectors are 2.14 unit vectors; distances are 26.6 fixed
//! point. The contracts pin each computation to its arithmetic definition.

use vstd::prelude::*;
use crate::fixed::FixedPoint;
use crate::hint_math::dot14_spec;
use crate::hint_math::floor_div_i64;

verus! {

/// The hinting mode requested for an instance.
#[derive(Copy, Clone, PartialEq, Eq, Structural, Debug)]
pub enum Hinting {
    /// Full grid fitting.
    Full,
    /// Vertical-only grid fitting with subpixel positioning.
    VerticalSubpixel,
}

/// Per-instance interpreter state.
#[derive(Copy, Clone, Debug)]
pub struct InstanceState {
    pub graphics: GraphicsState,
    pub default_graphics: GraphicsState,
    pub ppem: u16,
    pub point_size: i32,
    pub scale: i32,
    pub coord_count: u16,
    pub compat: bool,
    pub mode: Hinting,
}

impl Default for InstanceState {
    fn default() -> (r: InstanceState)
        ensures
            r.graphics == GraphicsState::default_spec(),
            r.default_graphics == GraphicsState::default_spec(),
            r.ppem == 0,
            r.point_size == 0,
            r.scale == 0,
            r.coord_count == 0,
            r.compat == false,
            r.mode == Hinting::VerticalSubpixel,
    {
        InstanceState {
            graphics: GraphicsState::default(),
            default_graphics: GraphicsState::default(),
            ppem: 0,
            point_size: 0,
            scale: 0,
            coord_count: 0,
            compat: false,
            mode: Hinting::VerticalSubpixel,
        }
    }
}

impl InstanceState {
    /// Returns true if hinting is enabled for this state.
    pub fn hinting_enabled(&self) -> (r: bool)
        ensures
            r == (self.graphics.instruct_control & 1 == 0),
    {
        self.graphics.instruct_control & 1 == 0
    }

    /// Returns true if compatibility mode is enabled for this state.
    pub fn compat_enabled(&self) -> (r: bool)
        ensures
            r == self.compat,
    {
        self.compat
    }
}

/// The graphics state of the interpreter.
#[derive(Copy, Clone, Debug)]
pub struct GraphicsState {
    pub auto_flip: bool,
    pub control_value_cutin: i32,
    pub delta_base: u16,
    pub delta_shift: u16,
    pub instruct_control: u8,
    pub min_distance: i32,
    pub scan_control: bool,
    pub scan_type: i32,
    pub single_width_cutin: i32,
    pub single_width: i32,
}

impl GraphicsState {
    /// The initial graphics state.
    pub open spec fn default_spec() -> GraphicsState {
        GraphicsState {
            auto_flip: true,
            control_value_cutin: 68,
            delta_base: 9,
            delta_shift: 3,
            instruct_control: 0,
            min_distance: 64,
            scan_control: false,
            scan_type: 0,
            single_width_cutin: 0,
            single_width: 0,
        }
    }
}

impl Default for GraphicsState {
    fn default() -> (r: GraphicsState)
        ensures
            r == GraphicsState::default_spec(),
    {
        GraphicsState {
            auto_flip: true,
            control_value_cutin: 68,
            delta_base: 9,
            delta_shift: 3,
            instruct_control: 0,
            min_distance: 64,
            scan_control: false,
            scan_type: 0,
            single_width_cutin: 0,
            single_width: 0,
        }
    }
}

/// Which coordinates a projection touches.
#[derive(Copy, Clone, PartialEq, Eq, Structural, Debug)]
pub enum CoordMode {
    Both,
    X,
    Y,
}

/// Projection state: the projection, dual-projection and freedom vectors in
/// 2.14, with the cached dot product of freedom and projection.
#[derive(Copy, Clone, Debug)]
pub struct ProjectState {
    pub mode: CoordMode,
    pub dual_mode: CoordMode,
    pub pv: FixedPoint,
    pub dv: FixedPoint,
    pub fv: FixedPoint,
    pub fdotp: i32,
    pub move_mode: CoordMode,
}

impl Default for ProjectState {
    fn default() -> (r: ProjectState)
        ensures
            r.mode == CoordMode::Both,
            r.dual_mode == CoordMode::Both,
            r.pv == (FixedPoint { x: 0x4000, y: 0 }),
            r.dv == (FixedPoint { x: 0x4000, y: 0 }),
            r.fv == (FixedPoint { x: 0x4000, y: 0 }),
            r.fdotp == 0x4000,
            r.move_mode == CoordMode::Both,
    {
        let vector = FixedPoint { x: 0x4000, y: 0 };
        ProjectState {
            mode: CoordMode::Both,
            dual_mode: CoordMode::Both,
            pv: vector,
            dv: vector,
            fv: vector,
            fdotp: 0x4000,
            move_mode: CoordMode::Both,
        }
    }
}

/// Whether both components of a vector are within the 2.14 unit range.
pub open spec fn vec14_bounded(v: FixedPoint) -> bool {
    -0x4000 <= v.x <= 0x4000 && -0x4000 <= v.y <= 0x4000
}

/// The raw freedom-projection dot product: a projection vector component
/// when the freedom vector lies on an axis, else the 2.14 dot product.
pub open spec fn fdotp_raw_spec(pv: FixedPoint, fv: FixedPoint) -> int {
    if fv.x == 0x4000 {
        pv.x as int
    } else if fv.y == 0x4000 {
        pv.y as int
    } else {
        (pv.x * fv.x + pv.y * fv.y) / 0x4000
    }
}

/// The coordinate mode selected by an axis-aligned vector.
pub open spec fn axis_mode_spec(v: FixedPoint) -> CoordMode {
    if v.x == 0x4000 {
        CoordMode::X
    } else if v.y == 0x4000 {
        CoordMode::Y
    } else {
        CoordMode::Both
    }
}

impl ProjectState {
    /// Recomputes the cached dot product and coordinate modes from the
    /// current vectors. A tiny dot product snaps to one to avoid division
    /// blow-ups downstream.
    pub fn update(&mut self)
        requires
            vec14_bounded(old(self).pv),
            vec14_bounded(old(self).fv),
        ensures
            final(self).pv == old(self).pv,
            final(self).dv == old(self).dv,
            final(self).fv == old(self).fv,
            final(self).mode == axis_mode_spec(old(self).pv),
            final(self).dual_mode == axis_mode_spec(old(self).dv),
            final(self).move_mode == (if fdotp_raw_spec(old(self).pv, old(self).fv) == 0x4000 {
                axis_mode_spec(old(self).fv)
            } else {
                CoordMode::Both
            }),
            final(self).fdotp == (if -0x400 < fdotp_raw_spec(old(self).pv, old(self).fv)
                < 0x400 {
                0x4000int
            } else {
                fdotp_raw_spec(old(self).pv, old(self).fv)
            }),
    {
        if self.fv.x == 0x4000 {
            self.fdotp = self.pv.x;
        } else if self.fv.y == 0x4000 {
            self.fdotp = self.pv.y;
        } else {
            let px = self.pv.x as i64;
            let py = self.pv.y as i64;
            let fx = self.fv.x as i64;
            let fy = self.fv.y as i64;
            proof {
                assert(-0x1000_0000 <= px * fx <= 0x1000_0000) by (nonlinear_arith)
                    requires
                        -0x4000 <= px <= 0x4000,
                        -0x4000 <= fx <= 0x4000,
                ;
                assert(-0x1000_0000 <= py * fy <= 0x1000_0000) by (nonlinear_arith)
                    requires
                        -0x4000 <= py <= 0x4000,
                        -0x4000 <= fy <= 0x4000,
                ;
                vstd::arithmetic::div_mod::lemma_fundamental_div_mod(
                    px * fx + py * fy,
                    0x4000,
                );
            }
            let q = floor_div_i64(px * fx + py * fy, 0x4000);
            self.fdotp = q as i32;
        }
        self.mode = CoordMode::Both;
        if self.pv.x == 0x4000 {
            self.mode = CoordMode::X;
        } else if self.pv.y == 0x4000 {
            self.mode = CoordMode::Y;
        }
        self.dual_mode = CoordMode::Both;
        if self.dv.x == 0x4000 {
            self.dual_mode = CoordMode::X;
        } else if self.dv.y == 0x4000 {
            self.dual_mode = CoordMode::Y;
        }
        self.move_mode = CoordMode::Both;
        if self.fdotp == 0x4000 {
            if self.fv.x == 0x4000 {
                self.move_mode = CoordMode::X;
            } else if self.fv.y == 0x4000 {
                self.move_mode = CoordMode::Y;
            }
        }
        if self.fdotp > -0x400 && self.fdotp < 0x400 {
            self.fdotp = 0x4000;
        }
    }

    /// The projected distance between two points under a coordinate mode
    /// and projection vector.
    pub open spec fn project_spec(
        mode: CoordMode,
        pv: FixedPoint,
        v1: FixedPoint,
        v2: FixedPoint,
    ) -> int {
        match mode {
            CoordMode::X => v1.x - v2.x,
            CoordMode::Y => v1.y - v2.y,
            CoordMode::Both => dot14_spec(
                v1.x - v2.x,
                v1.y - v2.y,
                pv.x as int,
                pv.y as int,
            ) as i32 as int,
        }
    }

    /// Projects the difference of two points onto the projection vector.
    pub fn project(&self, v1: FixedPoint, v2: FixedPoint) -> (r: i32)
        requires
            -0x2000_0000 <= v1.x <= 0x2000_0000,
            -0x2000_0000 <= v1.y <= 0x2000_0000,
            -0x2000_0000 <= v2.x <= 0x2000_0000,
            -0x2000_0000 <= v2.y <= 0x2000_0000,
            vec14_bounded(self.pv),
        ensures
            r == ProjectState::project_spec(self.mode, self.pv, v1, v2),
    {
        match self.mode {
            CoordMode::X => v1.x - v2.x,
            CoordMode::Y => v1.y - v2.y,
            CoordMode::Both => {
                let x = v1.x - v2.x;
                let y = v1.y - v2.y;
                crate::hint_math::dot14(x, y, self.pv.x, self.pv.y)
            },
        }
    }

    /// Projects a single point: its distance from the origin.
    pub fn fast_project(&self, v: FixedPoint) -> (r: i32)
        requires
            -0x2000_0000 <= v.x <= 0x2000_0000,
            -0x2000_0000 <= v.y <= 0x2000_0000,
            vec14_bounded(self.pv),
        ensures
            r == ProjectState::project_spec(self.mode, self.pv, v, FixedPoint { x: 0, y: 0 }),
    {
        self.project(v, FixedPoint { x: 0, y: 0 })
    }

    /// Projects the difference of two points onto the dual-projection
    /// vector.
    pub fn dual_project(&self, v1: FixedPoint, v2: FixedPoint) -> (r: i32)
        requires
            -0x2000_0000 <= v1.x <= 0x2000_0000,
            -0x2000_0000 <= v1.y <= 0x2000_0000,
            -0x2000_0000 <= v2.x <= 0x2000_0000,
            -0x2000_0000 <= v2.y <= 0x2000_0000,
            vec14_bounded(self.dv),
        ensures
            r == ProjectState::project_spec(self.dual_mode, self.dv, v1, v2),
    {
        match self.dual_mode {
            CoordMode::X => v1.x - v2.x,
            CoordMode::Y => v1.y - v2.y,
            CoordMode::Both => {
                let x = v1.x - v2.x;
                let y = v1.y - v2.y;
                crate::hint_math::dot14(x, y, self.dv.x, self.dv.y)
            },
        }
    }

    /// Dual-projects a single point: its distance from the origin.
    pub fn fast_dual_project(&self, v: FixedPoint) -> (r: i32)
        requires
            -0x2000_0000 <= v.x <= 0x2000_0000,
            -0x2000_0000 <= v.y <= 0x2000_0000,
            vec14_bounded(self.dv),
        ensures
            r == ProjectState::project_spec(
                self.dual_mode,
                self.dv,
                v,
                FixedPoint { x: 0, y: 0 },
            ),
    {
        self.dual_project(v, FixedPoint { x: 0, y: 0 })
    }
}

/// The rounding mode of the interpreter.
#[derive(Copy, Clone, PartialEq, Eq, Structural, Debug)]
pub enum RoundMode {
    HalfGrid,
    Grid,
    DoubleGrid,
    DownToGrid,
    UpToGrid,
    Off,
    Super,
    Super45,
}

/// Rounding state: the mode with the period, phase and threshold of the
/// super rounding modes, all in 26.6.
#[derive(Copy, Clone, Debug)]
pub struct RoundState {
    pub mode: RoundMode,
    pub threshold: i32,
    pub phase: i32,
    pub period: i32,
}

impl Default for RoundState {
    fn default() -> (r: RoundState)
        ensures
            r.mode == RoundMode::Grid,
            r.threshold == 0,
            r.phase == 0,
            r.period == 64,
    {
        RoundState { mode: RoundMode::Grid, threshold: 0, phase: 0, period: 64 }
    }
}

/// `x` floored to a multiple of `n` (with `n` a positive power of two).
pub open spec fn floor_to_spec(x: int, n: int) -> int {
    x - x % n
}

/// Truncating division: the quotient rounded toward zero.
pub open spec fn trunc_div_spec(a: int, b: int) -> int {
    if a >= 0 {
        a / b
    } else {
        -((-a) / b)
    }
}

/// The rounded distance under a rounding state. Rounding acts on the
/// magnitude and keeps the sign, clamping at zero as FreeType's engine
/// does.
pub open spec fn round_spec(s: RoundState, distance: int) -> int {
    match s.mode {
        RoundMode::HalfGrid => if distance >= 0 {
            let v = floor_to_spec(distance, 64) + 32;
            if v < 0 {
                0
            } else {
                v
            }
        } else {
            let v = -(floor_to_spec(-distance, 64) + 32);
            if v > 0 {
                0
            } else {
                v
            }
        },
        RoundMode::Grid => if distance >= 0 {
            let v = floor_to_spec(distance + 32, 64);
            if v < 0 {
                0
            } else {
                v
            }
        } else {
            let v = -floor_to_spec(-distance + 32, 64);
            if v > 0 {
                0
            } else {
                v
            }
        },
        RoundMode::DoubleGrid => if distance >= 0 {
            let v = floor_to_spec(distance + 16, 32);
            if v < 0 {
                0
            } else {
                v
            }
        } else {
            let v = -floor_to_spec(-distance + 16, 32);
            if v > 0 {
                0
            } else {
                v
            }
        },
        RoundMode::DownToGrid => if distance >= 0 {
            let v = floor_to_spec(distance, 64);
            if v < 0 {
                0
            } else {
                v
            }
        } else {
            let v = -floor_to_spec(-distance, 64);
            if v > 0 {
                0
            } else {
                v
            }
        },
        RoundMode::UpToGrid => if distance >= 0 {
            let v = floor_to_spec(distance + 63, 64);
            if v < 0 {
                0
            } else {
                v
            }
        } else {
            let v = -floor_to_spec(-distance + 63, 64);
            if v > 0 {
                0
            } else {
                v
            }
        },
        RoundMode::Super => if distance >= 0 {
            let v = floor_to_spec(distance + s.threshold - s.phase, s.period as int) + s.phase;
            if v < 0 {
                s.phase as int
            } else {
                v
            }
        } else {
            let v = -(floor_to_spec(s.threshold - s.phase - distance, s.period as int)
                + s.phase);
            if v > 0 {
                -(s.phase as int)
            } else {
                v
            }
        },
        RoundMode::Super45 => if distance >= 0 {
            let v = trunc_div_spec(distance + s.threshold - s.phase, s.period as int) * (
            s.period as int) + s.phase;
            if v < 0 {
                s.phase as int
            } else {
                v
            }
        } else {
            let v = -(trunc_div_spec(s.threshold - s.phase - distance, s.period as int) * (
            s.period as int) + s.phase);
            if v > 0 {
                -(s.phase as int)
            } else {
                v
            }
        },
        RoundMode::Off => distance,
    }
}

/// Operating bounds for a rounding state: the period is a positive power of
/// two no larger than a grid unit's square, and phase and threshold lie
/// within one period.
pub open spec fn round_state_wf(s: RoundState) -> bool {
    &&& 1 <= s.period <= 0x1000
    &&& 0x8000_0000int % (s.period as int) == 0
    &&& 0 <= s.phase <= s.period
    &&& 0 <= s.threshold <= s.period
}

impl RoundState {
    /// Rounds a 26.6 distance according to the current mode.
    pub fn round(&self, distance: i32) -> (r: i32)
        requires
            round_state_wf(*self),
            -0x4000_0000 <= distance <= 0x4000_0000,
        ensures
            r == round_spec(*self, distance as int),
    {
        match self.mode {
            RoundMode::HalfGrid => {
                if distance >= 0 {
                    let v = crate::hint_math::floor(distance) + 32;
                    if v < 0 {
                        0
                    } else {
                        v
                    }
                } else {
                    let v = -(crate::hint_math::floor(-distance) + 32);
                    if v > 0 {
                        0
                    } else {
                        v
                    }
                }
            },
            RoundMode::Grid => {
                if distance >= 0 {
                    let v = crate::hint_math::round(distance);
                    if v < 0 {
                        0
                    } else {
                        v
                    }
                } else {
                    let v = -crate::hint_math::round(-distance);
                    if v > 0 {
                        0
                    } else {
                        v
                    }
                }
            },
            RoundMode::DoubleGrid => {
                if distance >= 0 {
                    let v = crate::hint_math::round_pad(distance, 32);
                    if v < 0 {
                        0
                    } else {
                        v
                    }
                } else {
                    let v = -crate::hint_math::round_pad(-distance, 32);
                    if v > 0 {
                        0
                    } else {
                        v
                    }
                }
            },
            RoundMode::DownToGrid => {
                if distance >= 0 {
                    let v = crate::hint_math::floor(distance);
                    if v < 0 {
                        0
                    } else {
                        v
                    }
                } else {
                    let v = -crate::hint_math::floor(-distance);
                    if v > 0 {
                        0
                    } else {
                        v
                    }
                }
            },
            RoundMode::UpToGrid => {
                if distance >= 0 {
                    let v = crate::hint_math::ceil(distance);
                    if v < 0 {
                        0
                    } else {
                        v
                    }
                } else {
                    let v = -crate::hint_math::ceil(-distance);
                    if v > 0 {
                        0
                    } else {
                        v
                    }
                }
            },
            RoundMode::Super => {
                if distance >= 0 {
                    let v = crate::hint_math::floor_pad(
                        distance + (self.threshold - self.phase),
                        self.period,
                    ) + self.phase;
                    if v < 0 {
                        self.phase
                    } else {
                        v
                    }
                } else {
                    let v = -(crate::hint_math::floor_pad(
                        (self.threshold - self.phase) - distance,
                        self.period,
                    ) + self.phase);
                    if v > 0 {
                        -self.phase
                    } else {
                        v
                    }
                }
            },
            RoundMode::Super45 => {
                if distance >= 0 {
                    let num = distance + (self.threshold - self.phase);
                    let q = if num >= 0 {
                        proof {
                            lemma_trunc_bounds(num as int, self.period as int);
                        }
                        (num as u64 / self.period as u64) as i32
                    } else {
                        let m = (-(num as i64)) as u64;
                        proof {
                            lemma_trunc_bounds(m as int, self.period as int);
                        }
                        -((m / self.period as u64) as i32)
                    };
                    proof {
                        lemma_trunc_mul_bounds(num as int, self.period as int, q as int);
                    }
                    let v = q * self.period + self.phase;
                    if v < 0 {
                        self.phase
                    } else {
                        v
                    }
                } else {
                    let num = (self.threshold - self.phase) - distance;
                    let q = if num >= 0 {
                        proof {
                            lemma_trunc_bounds(num as int, self.period as int);
                        }
                        (num as u64 / self.period as u64) as i32
                    } else {
                        let m = (-(num as i64)) as u64;
                        proof {
                            lemma_trunc_bounds(m as int, self.period as int);
                        }
                        -((m / self.period as u64) as i32)
                    };
                    proof {
                        lemma_trunc_mul_bounds(num as int, self.period as int, q as int);
                    }
                    let v = -(q * self.period + self.phase);
                    if v > 0 {
                        -self.phase
                    } else {
                        v
                    }
                }
            },
            RoundMode::Off => distance,
        }
    }
}

/// A nonnegative quotient is no larger than its dividend.
proof fn lemma_trunc_bounds(a: int, b: int)
    requires
        a >= 0,
        b >= 1,
    ensures
        0 <= a / b <= a,
{
    vstd::arithmetic::div_mod::lemma_fundamental_div_mod(a, b);
    assert(a / b <= b * (a / b)) by (nonlinear_arith)
        requires
            b >= 1,
            a / b >= 0,
    ;
    assert(a / b >= 0) by (nonlinear_arith)
        requires
            a >= 0,
            b >= 1,
    ;
}

/// The truncated quotient of `num` by `b` times `b` stays within the
/// magnitude of `num`.
proof fn lemma_trunc_mul_bounds(num: int, b: int, q: int)
    requires
        b >= 1,
        q == trunc_div_spec(num, b),
    ensures
        if num >= 0 {
            0 <= q * b <= num
        } else {
            num <= q * b <= 0
        },
{
    if num >= 0 {
        vstd::arithmetic::div_mod::lemma_fundamental_div_mod(num, b);
        assert(q * b == b * q) by (nonlinear_arith);
        assert(q >= 0) by (nonlinear_arith)
            requires
                num >= 0,
                b >= 1,
                q == num / b,
        ;
    } else {
        let m = -num;
        vstd::arithmetic::div_mod::lemma_fundamental_div_mod(m, b);
        assert(q == -(m / b));
        assert(q * b == -(b * (m / b))) by (nonlinear_arith)
            requires
                q == -(m / b),
        ;
        assert(m / b >= 0) by (nonlinear_arith)
            requires
                m >= 0,
                b >= 1,
        ;
    }
}

} // verus!
