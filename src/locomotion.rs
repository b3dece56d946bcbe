use vstd::prelude::*;

verus! {

/// Fixed-point one: vector components, lengths, speeds and sines are counted
/// in millionths.
pub const UNIT: i64 = 1_000_000;

/// Largest magnitude of a vector component that the vector operations accept
/// (a thousand units).
pub const MAX_COMPONENT: i64 = 1_000_000_000;

/// Largest accepted target speed (a thousand units per second).
pub const MAX_SPEED: i64 = 1_000_000_000;

/// The movement and jump keys that are held this frame.
#[derive(Clone, Copy, Debug, PartialEq, Eq, Structural)]
pub struct HeldKeys {
    pub forward: bool,
    pub backward: bool,
    pub left: bool,
    pub right: bool,
    pub jump: bool,
}

/// A vector in fixed point, `UNIT` to one. Y points up, -Z is forward, +X is
/// to the right.
#[derive(Clone, Copy, Debug, PartialEq, Eq, Structural)]
pub struct Vec3 {
    pub x: i64,
    pub y: i64,
    pub z: i64,
}

/// The player's facing as the sine and cosine of its yaw, in fixed point.
#[derive(Clone, Copy, Debug, PartialEq, Eq, Structural)]
pub struct Heading {
    pub sin: i64,
    pub cos: i64,
}

/// Per-frame request for the character controller's walk: the target
/// horizontal velocity and the height to hover above ground.
#[derive(Clone, Copy, Debug, PartialEq, Eq, Structural)]
pub struct WalkBasis {
    pub desired_velocity: Vec3,
    pub float_height: i64,
}

/// Per-frame jump request for the character controller.
#[derive(Clone, Copy, Debug, PartialEq, Eq, Structural)]
pub struct JumpAction {
    pub height: i64,
    pub shorten_extra_gravity: i64,
}

/// What the locomotion controller hands to the character controller for one
/// frame: always a walk basis, and a jump request while the jump key is held.
#[derive(Clone, Copy, Debug, PartialEq, Eq)]
pub struct LocomotionCommand {
    pub walk: WalkBasis,
    pub jump: Option<JumpAction>,
}

/// Target speed, hover height and jump parameters, all in fixed point.
#[derive(Clone, Copy, Debug, PartialEq, Eq, Structural)]
pub struct LocomotionConfig {
    pub speed: i64,
    pub float_height: i64,
    pub jump_height: i64,
    pub jump_shorten_extra_gravity: i64,
}

/// Contribution of a pair of opposite keys along their axis: `UNIT` toward
/// the positive key, `-UNIT` toward the negative one, zero for both or none.
pub open spec fn axis(negative: bool, positive: bool) -> int {
    (if positive { UNIT as int } else { 0 }) - (if negative { UNIT as int } else { 0 })
}

/// Player-local direction of the held keys: forward is -Z, backward +Z, left
/// -X, right +X.
pub open spec fn raw_direction_spec(keys: HeldKeys) -> Vec3 {
    Vec3 {
        x: axis(keys.left, keys.right) as i64,
        y: 0,
        z: axis(keys.forward, keys.backward) as i64,
    }
}

/// Division rounding toward zero.
pub open spec fn div_trunc(a: int, b: int) -> int {
    if a >= 0 {
        a / b
    } else {
        -((-a) / b)
    }
}

/// `v` turned about the vertical axis by the heading.
pub open spec fn rotate_spec(v: Vec3, h: Heading) -> Vec3 {
    Vec3 {
        x: div_trunc(v.x * h.cos + v.z * h.sin, UNIT as int) as i64,
        y: v.y,
        z: div_trunc(v.z * h.cos - v.x * h.sin, UNIT as int) as i64,
    }
}

/// `v` with its vertical component dropped.
pub open spec fn horizontal_spec(v: Vec3) -> Vec3 {
    Vec3 { x: v.x, y: 0, z: v.z }
}

pub open spec fn is_floor_sqrt(r: int, n: int) -> bool {
    0 <= r && r * r <= n < (r + 1) * (r + 1)
}

/// The integer square root of `n`, rounded down.
pub open spec fn floor_sqrt(n: int) -> int {
    choose|r: int| is_floor_sqrt(r, n)
}

pub open spec fn norm_squared(v: Vec3) -> int {
    v.x * v.x + v.y * v.y + v.z * v.z
}

pub open spec fn zero_vec() -> Vec3 {
    Vec3 { x: 0, y: 0, z: 0 }
}

/// `v` scaled to length `UNIT` (each component rounded toward zero), or the
/// zero vector where `v` is zero.
pub open spec fn normalize_spec(v: Vec3) -> Vec3 {
    let len = floor_sqrt(norm_squared(v));
    if len == 0 {
        zero_vec()
    } else {
        Vec3 {
            x: div_trunc(v.x * UNIT, len) as i64,
            y: div_trunc(v.y * UNIT, len) as i64,
            z: div_trunc(v.z * UNIT, len) as i64,
        }
    }
}

/// The fixed-point vector `v` multiplied by the fixed-point factor `k`.
pub open spec fn scale_spec(v: Vec3, k: int) -> Vec3 {
    Vec3 {
        x: div_trunc(v.x * k, UNIT as int) as i64,
        y: div_trunc(v.y * k, UNIT as int) as i64,
        z: div_trunc(v.z * k, UNIT as int) as i64,
    }
}

/// Target velocity for the held keys: the local key direction turned by the
/// heading, flattened onto the horizontal plane, normalized and scaled to
/// the speed.
pub open spec fn velocity_spec(keys: HeldKeys, h: Heading, speed: int) -> Vec3 {
    scale_spec(normalize_spec(horizontal_spec(rotate_spec(raw_direction_spec(keys), h))), speed)
}

pub open spec fn within(v: Vec3, bound: int) -> bool {
    &&& -bound <= v.x <= bound
    &&& -bound <= v.y <= bound
    &&& -bound <= v.z <= bound
}

impl Heading {
    pub open spec fn wf(&self) -> bool {
        &&& -UNIT <= self.sin <= UNIT
        &&& -UNIT <= self.cos <= UNIT
    }

    /// Facing along -Z: a yaw of zero.
    pub fn straight() -> (r: Heading)
        ensures
            r.sin == 0,
            r.cos == UNIT,
            r.wf(),
    {
        Heading { sin: 0, cos: UNIT }
    }
}

impl LocomotionConfig {
    pub open spec fn wf(&self) -> bool {
        0 <= self.speed <= MAX_SPEED
    }

    /// A configuration with every parameter given, if the speed lies in
    /// `[0, MAX_SPEED]`.
    pub fn new(speed: i64, float_height: i64, jump_height: i64, jump_shorten_extra_gravity: i64) -> (r:
        Option<LocomotionConfig>)
        ensures
            r == (if 0 <= speed <= MAX_SPEED {
                Some(
                    LocomotionConfig { speed, float_height, jump_height, jump_shorten_extra_gravity },
                )
            } else {
                None::<LocomotionConfig>
            }),
    {
        if 0 <= speed && speed <= MAX_SPEED {
            Some(LocomotionConfig { speed, float_height, jump_height, jump_shorten_extra_gravity })
        } else {
            None
        }
    }

    /// The demo's settings: speed 10, hover height 1.5, jump height 4, no
    /// shortening of the extra gravity.
    pub fn demo() -> (r: LocomotionConfig)
        ensures
            r.speed == 10 * UNIT,
            r.float_height == 3 * UNIT / 2,
            r.jump_height == 4 * UNIT,
            r.jump_shorten_extra_gravity == 0,
            r.wf(),
    {
        LocomotionConfig {
            speed: 10 * UNIT,
            float_height: 3 * UNIT / 2,
            jump_height: 4 * UNIT,
            jump_shorten_extra_gravity: 0,
        }
    }
}

/// Player-local direction of the held keys; opposite keys cancel.
pub fn raw_direction(keys: &HeldKeys) -> (r: Vec3)
    ensures
        r == raw_direction_spec(*keys),
        keys.forward && keys.backward ==> r.z == 0,
        keys.left && keys.right ==> r.x == 0,
        !keys.forward && !keys.backward && !keys.left && !keys.right ==> r == zero_vec(),
{
    let mut d = Vec3 { x: 0, y: 0, z: 0 };
    if keys.forward {
        d.z = d.z - UNIT;
    }
    if keys.backward {
        d.z = d.z + UNIT;
    }
    if keys.left {
        d.x = d.x - UNIT;
    }
    if keys.right {
        d.x = d.x + UNIT;
    }
    d
}

/// Opposite keys held together cancel exactly on their axis, and holding all
/// four movement keys gives no direction at all.
pub proof fn lemma_opposite_keys_cancel(keys: HeldKeys)
    ensures
        keys.forward && keys.backward ==> raw_direction_spec(keys).z == 0,
        keys.left && keys.right ==> raw_direction_spec(keys).x == 0,
        keys.forward && keys.backward && keys.left && keys.right ==> raw_direction_spec(keys)
            == zero_vec(),
{
}

fn div_trunc_exec(a: i64, b: i64) -> (r: i64)
    requires
        b > 0,
        a > i64::MIN,
    ensures
        r == div_trunc(a as int, b as int),
{
    if a >= 0 {
        ((a as u64) / (b as u64)) as i64
    } else {
        let m = (-a) as u64;
        -((m / (b as u64)) as i64)
    }
}

proof fn lemma_div_trunc_bound(a: int, b: int, bound: int)
    requires
        b > 0,
        -bound <= a <= bound,
    ensures
        -bound <= div_trunc(a, b) <= bound,
        -(bound / b) <= div_trunc(a, b) <= bound / b,
{
    if a >= 0 {
        assert(0 <= a / b <= bound / b) by (nonlinear_arith)
            requires
                b > 0,
                0 <= a <= bound,
        ;
        assert(bound / b <= bound) by (nonlinear_arith)
            requires
                b > 0,
                0 <= bound,
        ;
    } else {
        assert(0 <= (-a) / b <= bound / b) by (nonlinear_arith)
            requires
                b > 0,
                0 <= -a <= bound,
        ;
        assert(bound / b <= bound) by (nonlinear_arith)
            requires
                b > 0,
                0 <= bound,
        ;
    }
}

/// `v` turned about the vertical axis by the heading.
pub fn rotate(v: &Vec3, h: &Heading) -> (r: Vec3)
    requires
        within(*v, MAX_COMPONENT as int),
        h.wf(),
    ensures
        r == rotate_spec(*v, *h),
        within(r, 2 * MAX_COMPONENT),
{
    let ghost b: int = MAX_COMPONENT as int * UNIT as int;
    proof {
        assert(-b <= v.x * h.cos <= b) by (nonlinear_arith)
            requires
                -1_000_000_000 <= v.x <= 1_000_000_000,
                -1_000_000 <= h.cos <= 1_000_000,
                b == 1_000_000_000 * 1_000_000,
        ;
        assert(-b <= v.z * h.sin <= b) by (nonlinear_arith)
            requires
                -1_000_000_000 <= v.z <= 1_000_000_000,
                -1_000_000 <= h.sin <= 1_000_000,
                b == 1_000_000_000 * 1_000_000,
        ;
        assert(-b <= v.z * h.cos <= b) by (nonlinear_arith)
            requires
                -1_000_000_000 <= v.z <= 1_000_000_000,
                -1_000_000 <= h.cos <= 1_000_000,
                b == 1_000_000_000 * 1_000_000,
        ;
        assert(-b <= v.x * h.sin <= b) by (nonlinear_arith)
            requires
                -1_000_000_000 <= v.x <= 1_000_000_000,
                -1_000_000 <= h.sin <= 1_000_000,
                b == 1_000_000_000 * 1_000_000,
        ;
        lemma_div_trunc_bound(v.x * h.cos + v.z * h.sin, UNIT as int, 2 * b);
        lemma_div_trunc_bound(v.z * h.cos - v.x * h.sin, UNIT as int, 2 * b);
    }
    let x = div_trunc_exec(v.x * h.cos + v.z * h.sin, UNIT);
    let z = div_trunc_exec(v.z * h.cos - v.x * h.sin, UNIT);
    Vec3 { x, y: v.y, z }
}

proof fn lemma_rotate_small(v: Vec3, h: Heading)
    requires
        within(v, UNIT as int),
        h.wf(),
    ensures
        within(rotate_spec(v, h), 2 * UNIT),
{
    let b: int = UNIT * UNIT;
    assert(-b <= v.x * h.cos <= b && -b <= v.z * h.sin <= b && -b <= v.z * h.cos <= b && -b <= v.x
        * h.sin <= b) by (nonlinear_arith)
        requires
            -1_000_000 <= v.x <= 1_000_000,
            -1_000_000 <= v.z <= 1_000_000,
            -1_000_000 <= h.cos <= 1_000_000,
            -1_000_000 <= h.sin <= 1_000_000,
            b == 1_000_000 * 1_000_000,
    ;
    lemma_div_trunc_bound(v.x * h.cos + v.z * h.sin, UNIT as int, 2 * b);
    lemma_div_trunc_bound(v.z * h.cos - v.x * h.sin, UNIT as int, 2 * b);
}

/// `v` with its vertical component dropped.
pub fn horizontal(v: &Vec3) -> (r: Vec3)
    ensures
        r == horizontal_spec(*v),
{
    Vec3 { x: v.x, y: 0, z: v.z }
}

proof fn lemma_floor_sqrt_unique(r: int, s: int, n: int)
    requires
        is_floor_sqrt(r, n),
        is_floor_sqrt(s, n),
    ensures
        r == s,
{
    if r < s {
        assert((r + 1) * (r + 1) <= s * s) by (nonlinear_arith)
            requires
                0 <= r,
                r + 1 <= s,
        ;
    } else if s < r {
        assert((s + 1) * (s + 1) <= r * r) by (nonlinear_arith)
            requires
                0 <= s,
                s + 1 <= r,
        ;
    }
}

proof fn lemma_floor_sqrt_is(r: int, n: int)
    requires
        is_floor_sqrt(r, n),
    ensures
        floor_sqrt(n) == r,
{
    let c = floor_sqrt(n);
    assert(is_floor_sqrt(c, n));
    lemma_floor_sqrt_unique(r, c, n);
}

/// Integer square root, rounded down.
pub fn isqrt(n: u64) -> (r: u64)
    requires
        n <= 4_000_000_000_000_000_000,
    ensures
        r == floor_sqrt(n as int),
        is_floor_sqrt(r as int, n as int),
        r <= 2_000_000_000,
{
    let mut lo: u64 = 0;
    let mut hi: u64 = 2_000_000_001;
    assert(2_000_000_001 * 2_000_000_001 > 4_000_000_000_000_000_000) by (nonlinear_arith);
    while hi - lo > 1
        invariant
            lo < hi <= 2_000_000_001,
            lo * lo <= n,
            n < hi * hi,
        decreases hi - lo,
    {
        let mid = lo + (hi - lo) / 2;
        assert(mid * mid <= 2_000_000_001 * 2_000_000_001) by (nonlinear_arith)
            requires
                mid <= 2_000_000_001,
        ;
        if mid * mid <= n {
            lo = mid;
        } else {
            hi = mid;
        }
    }
    proof {
        assert(hi == lo + 1);
        lemma_floor_sqrt_is(lo as int, n as int);
    }
    lo
}

proof fn lemma_component_le_norm(c: int, m: int, len: int)
    requires
        c * c <= m,
        is_floor_sqrt(len, m),
    ensures
        -len <= c <= len,
{
    if c > len {
        assert((len + 1) * (len + 1) <= c * c) by (nonlinear_arith)
            requires
                0 <= len,
                len + 1 <= c,
        ;
    } else if c < -len {
        assert((len + 1) * (len + 1) <= c * c) by (nonlinear_arith)
            requires
                0 <= len,
                c <= -(len + 1),
        ;
    }
}

proof fn lemma_unit_component(c: int, len: int)
    requires
        0 < len,
        -len <= c <= len,
    ensures
        -UNIT <= div_trunc(c * UNIT, len) <= UNIT,
        -MAX_COMPONENT <= c <= MAX_COMPONENT ==> -MAX_COMPONENT * UNIT <= c * UNIT <= MAX_COMPONENT
            * UNIT,
{
    let u = UNIT as int;
    if c >= 0 {
        assert(c * u / len <= u) by (nonlinear_arith)
            requires
                0 < len,
                0 <= c <= len,
                u > 0,
        ;
        assert(0 <= c * u / len) by (nonlinear_arith)
            requires
                0 < len,
                0 <= c,
                u > 0,
        ;
    } else {
        assert((-(c * u)) / len <= u) by (nonlinear_arith)
            requires
                0 < len,
                -len <= c < 0,
                u > 0,
        ;
        assert(0 <= (-(c * u)) / len) by (nonlinear_arith)
            requires
                0 < len,
                c < 0,
                u > 0,
        ;
    }
    assert(-MAX_COMPONENT <= c <= MAX_COMPONENT ==> -MAX_COMPONENT * u <= c * u <= MAX_COMPONENT * u)
        by (nonlinear_arith)
        requires
            u == 1_000_000,
    ;
}

/// `v` scaled to length `UNIT`, or the zero vector where `v` is zero; never
/// a division by zero.
pub fn normalize_or_zero(v: &Vec3) -> (r: Vec3)
    requires
        within(*v, MAX_COMPONENT as int),
    ensures
        r == normalize_spec(*v),
        *v == zero_vec() ==> r == zero_vec(),
        within(r, UNIT as int),
{
    let ghost m = norm_squared(*v);
    proof {
        assert(0 <= v.x * v.x <= 1_000_000_000_000_000_000) by (nonlinear_arith)
            requires
                -1_000_000_000 <= v.x <= 1_000_000_000,
        ;
        assert(0 <= v.y * v.y <= 1_000_000_000_000_000_000) by (nonlinear_arith)
            requires
                -1_000_000_000 <= v.y <= 1_000_000_000,
        ;
        assert(0 <= v.z * v.z <= 1_000_000_000_000_000_000) by (nonlinear_arith)
            requires
                -1_000_000_000 <= v.z <= 1_000_000_000,
        ;
    }
    let sq = (v.x * v.x) as u64 + (v.y * v.y) as u64 + (v.z * v.z) as u64;
    let len = isqrt(sq);
    proof {
        assert(sq == m);
        assert(is_floor_sqrt(floor_sqrt(m), m)) by {
            assert(is_floor_sqrt(len as int, m));
        }
    }
    if len == 0 {
        proof {
            if *v != zero_vec() {
                assert(m >= 1) by (nonlinear_arith)
                    requires
                        m == v.x * v.x + v.y * v.y + v.z * v.z,
                        v.x != 0 || v.y != 0 || v.z != 0,
                ;
            }
        }
        return Vec3 { x: 0, y: 0, z: 0 };
    }
    proof {
        lemma_component_le_norm(v.x as int, m, len as int);
        lemma_component_le_norm(v.y as int, m, len as int);
        lemma_component_le_norm(v.z as int, m, len as int);
        lemma_unit_component(v.x as int, len as int);
        lemma_unit_component(v.y as int, len as int);
        lemma_unit_component(v.z as int, len as int);
    }
    let l = len as i64;
    Vec3 {
        x: div_trunc_exec(v.x * UNIT, l),
        y: div_trunc_exec(v.y * UNIT, l),
        z: div_trunc_exec(v.z * UNIT, l),
    }
}

/// Normalizing the zero vector gives the zero vector.
pub proof fn lemma_normalize_zero()
    ensures
        normalize_spec(zero_vec()) == zero_vec(),
{
    assert(norm_squared(zero_vec()) == 0);
    lemma_floor_sqrt_is(0, 0);
}

proof fn lemma_scaled_component(c: int, k: int)
    requires
        -UNIT <= c <= UNIT,
        0 <= k <= MAX_SPEED,
    ensures
        -UNIT * MAX_SPEED <= c * k <= UNIT * MAX_SPEED,
        -MAX_SPEED <= div_trunc(c * k, UNIT as int) <= MAX_SPEED,
{
    assert(-UNIT * MAX_SPEED <= c * k <= UNIT * MAX_SPEED) by (nonlinear_arith)
        requires
            -1_000_000 <= c <= 1_000_000,
            0 <= k <= 1_000_000_000,
    ;
    lemma_div_trunc_bound(c * k, UNIT as int, UNIT * MAX_SPEED);
}

/// The unit vector `v` multiplied by the factor `k`.
pub fn scale(v: &Vec3, k: i64) -> (r: Vec3)
    requires
        within(*v, UNIT as int),
        0 <= k <= MAX_SPEED,
    ensures
        r == scale_spec(*v, k as int),
        within(r, MAX_SPEED as int),
{
    proof {
        lemma_scaled_component(v.x as int, k as int);
        lemma_scaled_component(v.y as int, k as int);
        lemma_scaled_component(v.z as int, k as int);
    }
    Vec3 {
        x: div_trunc_exec(v.x * k, UNIT),
        y: div_trunc_exec(v.y * k, UNIT),
        z: div_trunc_exec(v.z * k, UNIT),
    }
}

/// One frame of locomotion: the walk basis for the held keys and the
/// heading, and a jump request while the jump key is held.
pub fn locomotion_step(keys: &HeldKeys, heading: &Heading, config: &LocomotionConfig) -> (r:
    LocomotionCommand)
    requires
        heading.wf(),
        config.wf(),
    ensures
        r.walk.desired_velocity == velocity_spec(*keys, *heading, config.speed as int),
        r.walk.float_height == config.float_height,
        r.jump == (if keys.jump {
            Some(
                JumpAction {
                    height: config.jump_height,
                    shorten_extra_gravity: config.jump_shorten_extra_gravity,
                },
            )
        } else {
            None::<JumpAction>
        }),
{
    let raw = raw_direction(keys);
    let world = rotate(&raw, heading);
    proof {
        lemma_rotate_small(raw, *heading);
    }
    let flat = horizontal(&world);
    let dir = normalize_or_zero(&flat);
    let velocity = scale(&dir, config.speed);
    let walk = WalkBasis { desired_velocity: velocity, float_height: config.float_height };
    let jump = if keys.jump {
        Some(
            JumpAction {
                height: config.jump_height,
                shorten_extra_gravity: config.jump_shorten_extra_gravity,
            },
        )
    } else {
        None
    };
    LocomotionCommand { walk, jump }
}

} // verus!
