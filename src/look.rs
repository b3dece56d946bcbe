use vstd::prelude::*;

verus! {

/// Half a turn upwards or downwards, pi/2, in microradians (rounded down).
pub const HALF_PI_URAD: i64 = 1_570_796;

/// A full turn, 2 pi, in microradians (rounded down).
pub const TAU_URAD: i64 = 6_283_185;

/// Largest accepted sensitivity: one radian per device unit.
pub const MAX_SENSITIVITY_URAD: i64 = 1_000_000;

/// Sensitivity of the demo: 0.005 radians per device unit.
pub const DEMO_SENSITIVITY_URAD: i64 = 5_000;

/// One pointer-motion event, in device units.
#[derive(Clone, Copy, Debug, PartialEq, Eq, Structural)]
pub struct PointerMotion {
    pub dx: i32,
    pub dy: i32,
}

/// How far the view turns per device unit of pointer motion.
#[derive(Clone, Copy, Debug, PartialEq, Eq, Structural)]
pub struct LookConfig {
    /// Microradians per device unit.
    pub sensitivity: i64,
}

/// Orientation state: the player's yaw about the world vertical, kept in
/// `[0, TAU_URAD)`, and the camera's pitch accumulator, kept in
/// `[-HALF_PI_URAD, HALF_PI_URAD]`, both in microradians.
#[derive(Clone, Copy, Debug, PartialEq, Eq, Structural)]
pub struct LookState {
    pub yaw: i64,
    pub pitch: i64,
}

pub open spec fn clamp_pitch(v: int) -> int {
    if v < -HALF_PI_URAD {
        -HALF_PI_URAD as int
    } else if v > HALF_PI_URAD {
        HALF_PI_URAD as int
    } else {
        v
    }
}

/// Yaw after one event: turned by `-dx * sensitivity`, taken modulo a full turn.
pub open spec fn yaw_step(yaw: int, dx: int, sensitivity: int) -> int {
    (yaw - dx * sensitivity) % (TAU_URAD as int)
}

/// Pitch after one event: moved by `-dy * sensitivity`, then clamped.
pub open spec fn pitch_step(pitch: int, dy: int, sensitivity: int) -> int {
    clamp_pitch(pitch - dy * sensitivity)
}

/// Yaw after the events, folded in arrival order.
pub open spec fn yaw_after(yaw: int, events: Seq<PointerMotion>, sensitivity: int) -> int
    decreases events.len(),
{
    if events.len() == 0 {
        yaw
    } else {
        yaw_step(yaw_after(yaw, events.drop_last(), sensitivity), events.last().dx as int, sensitivity)
    }
}

/// Pitch after the events, folded in arrival order.
pub open spec fn pitch_after(pitch: int, events: Seq<PointerMotion>, sensitivity: int) -> int
    decreases events.len(),
{
    if events.len() == 0 {
        pitch
    } else {
        pitch_step(
            pitch_after(pitch, events.drop_last(), sensitivity),
            events.last().dy as int,
            sensitivity,
        )
    }
}

impl LookConfig {
    pub open spec fn wf(&self) -> bool {
        0 <= self.sensitivity <= MAX_SENSITIVITY_URAD
    }

    /// A configuration with the given sensitivity, if it lies in
    /// `[0, MAX_SENSITIVITY_URAD]`.
    pub fn new(sensitivity: i64) -> (r: Option<LookConfig>)
        ensures
            r == (if 0 <= sensitivity <= MAX_SENSITIVITY_URAD {
                Some(LookConfig { sensitivity })
            } else {
                None::<LookConfig>
            }),
    {
        if 0 <= sensitivity && sensitivity <= MAX_SENSITIVITY_URAD {
            Some(LookConfig { sensitivity })
        } else {
            None
        }
    }

    pub fn demo() -> (r: LookConfig)
        ensures
            r.sensitivity == DEMO_SENSITIVITY_URAD,
            r.wf(),
    {
        LookConfig { sensitivity: DEMO_SENSITIVITY_URAD }
    }
}

impl LookState {
    pub open spec fn wf(&self) -> bool {
        &&& 0 <= self.yaw < TAU_URAD
        &&& -HALF_PI_URAD <= self.pitch <= HALF_PI_URAD
    }

    /// Facing along the world's forward axis, looking level.
    pub fn new() -> (r: LookState)
        ensures
            r.yaw == 0,
            r.pitch == 0,
            r.wf(),
    {
        LookState { yaw: 0, pitch: 0 }
    }

    /// Applies one pointer-motion event.
    pub fn apply_motion(&mut self, motion: PointerMotion, config: &LookConfig)
        requires
            old(self).wf(),
            config.wf(),
        ensures
            final(self).yaw == yaw_step(old(self).yaw as int, motion.dx as int, config.sensitivity as int),
            final(self).pitch == pitch_step(old(self).pitch as int, motion.dy as int, config.sensitivity as int),
            final(self).wf(),
    {
        let s = config.sensitivity;
        let dx = motion.dx as i64;
        let dy = motion.dy as i64;
        assert(-2_147_483_648 * 1_000_000 <= dx * s <= 2_147_483_648 * 1_000_000) by (nonlinear_arith)
            requires
                -2_147_483_648 <= dx <= 2_147_483_647,
                0 <= s <= 1_000_000,
        ;
        assert(-2_147_483_648 * 1_000_000 <= dy * s <= 2_147_483_648 * 1_000_000) by (nonlinear_arith)
            requires
                -2_147_483_648 <= dy <= 2_147_483_647,
                0 <= s <= 1_000_000,
        ;
        let turned = self.yaw - dx * s;
        match turned.checked_rem_euclid(TAU_URAD) {
            Some(y) => {
                self.yaw = y;
            },
            None => {
                assert(false);
            },
        }
        let moved = self.pitch - dy * s;
        self.pitch = if moved < -HALF_PI_URAD {
            -HALF_PI_URAD
        } else if moved > HALF_PI_URAD {
            HALF_PI_URAD
        } else {
            moved
        };
    }

    /// Applies a frame's pointer-motion events in arrival order. While the
    /// pointer is not captured the events are ignored.
    pub fn apply_frame(&mut self, events: &Vec<PointerMotion>, captured: bool, config: &LookConfig)
        requires
            old(self).wf(),
            config.wf(),
        ensures
            final(self).wf(),
            captured ==> final(self).yaw == yaw_after(old(self).yaw as int, events@, config.sensitivity as int),
            captured ==> final(self).pitch == pitch_after(
                old(self).pitch as int,
                events@,
                config.sensitivity as int,
            ),
            !captured ==> *final(self) == *old(self),
    {
        if !captured {
            return;
        }
        let ghost yaw0 = self.yaw as int;
        let ghost pitch0 = self.pitch as int;
        let mut i: usize = 0;
        while i < events.len()
            invariant
                0 <= i <= events.len(),
                config.wf(),
                self.wf(),
                self.yaw == yaw_after(yaw0, events@.take(i as int), config.sensitivity as int),
                self.pitch == pitch_after(pitch0, events@.take(i as int), config.sensitivity as int),
            decreases events.len() - i,
        {
            proof {
                let next = events@.take(i + 1);
                assert(next.drop_last() =~= events@.take(i as int));
                assert(next.last() == events@[i as int]);
            }
            self.apply_motion(events[i], config);
            i = i + 1;
        }
        assert(events@.take(events.len() as int) =~= events@);
    }
}

/// Whatever the pointer motion, the pitch accumulator stays within
/// `[-HALF_PI_URAD, HALF_PI_URAD]` when it starts there.
pub proof fn lemma_pitch_stays_bounded(pitch: int, events: Seq<PointerMotion>, sensitivity: int)
    requires
        -HALF_PI_URAD <= pitch <= HALF_PI_URAD,
    ensures
        -HALF_PI_URAD <= pitch_after(pitch, events, sensitivity) <= HALF_PI_URAD,
    decreases events.len(),
{
    if events.len() > 0 {
        lemma_pitch_stays_bounded(pitch, events.drop_last(), sensitivity);
    }
}

/// Yaw depends on the horizontal motion alone: two event sequences with the
/// same `dx` values in the same order give the same yaw.
pub proof fn lemma_yaw_depends_on_dx_only(
    yaw: int,
    a: Seq<PointerMotion>,
    b: Seq<PointerMotion>,
    sensitivity: int,
)
    requires
        a.len() == b.len(),
        forall|i: int| 0 <= i < a.len() ==> #[trigger] a[i].dx == b[i].dx,
    ensures
        yaw_after(yaw, a, sensitivity) == yaw_after(yaw, b, sensitivity),
    decreases a.len(),
{
    if a.len() > 0 {
        lemma_yaw_depends_on_dx_only(yaw, a.drop_last(), b.drop_last(), sensitivity);
        assert(a.last().dx == b.last().dx);
    }
}

/// Pitch depends on the vertical motion alone: two event sequences with the
/// same `dy` values in the same order give the same pitch.
pub proof fn lemma_pitch_depends_on_dy_only(
    pitch: int,
    a: Seq<PointerMotion>,
    b: Seq<PointerMotion>,
    sensitivity: int,
)
    requires
        a.len() == b.len(),
        forall|i: int| 0 <= i < a.len() ==> #[trigger] a[i].dy == b[i].dy,
    ensures
        pitch_after(pitch, a, sensitivity) == pitch_after(pitch, b, sensitivity),
    decreases a.len(),
{
    if a.len() > 0 {
        lemma_pitch_depends_on_dy_only(pitch, a.drop_last(), b.drop_last(), sensitivity);
        assert(a.last().dy == b.last().dy);
    }
}

} // verus!
