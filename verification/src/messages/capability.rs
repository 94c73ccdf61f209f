//! Capability descriptors and handshake negotiation (offer/answer).

use vstd::prelude::*;
use crate::messages::header::ControlMode;
use vstd::std_specs::cmp::PartialEqSpecImpl;

verus! {

/// Gripper limits. The two quantities are floating-point values; they are carried
/// here as their IEEE-754 `f64` bit patterns, and compared as `f64` values are.
#[derive(Debug, Clone, Copy)]
pub struct GripperSpec {
    pub max_force_bits: u64,
    pub stroke_bits: u64,
}

/// Whether an `f64` bit pattern is a NaN: all exponent bits set and a nonzero fraction.
pub open spec fn f64_bits_nan(a: u64) -> bool {
    (a & 0x7ff0_0000_0000_0000u64) == 0x7ff0_0000_0000_0000u64 && (a & 0x000f_ffff_ffff_ffffu64)
        != 0
}

/// Whether two `f64` values, given by their bit patterns, are equal as `==` on `f64`
/// says: neither is a NaN, and the patterns agree or both are zeros of either sign.
pub open spec fn f64_bits_eq(a: u64, b: u64) -> bool {
    &&& !f64_bits_nan(a)
    &&& !f64_bits_nan(b)
    &&& (a == b || ((a & 0x7fff_ffff_ffff_ffffu64) == 0 && (b & 0x7fff_ffff_ffff_ffffu64) == 0))
}

fn bits_eq(a: u64, b: u64) -> (r: bool)
    ensures
        r == f64_bits_eq(a, b),
{
    let a_nan = (a & 0x7ff0_0000_0000_0000u64) == 0x7ff0_0000_0000_0000u64 && (a
        & 0x000f_ffff_ffff_ffffu64) != 0;
    let b_nan = (b & 0x7ff0_0000_0000_0000u64) == 0x7ff0_0000_0000_0000u64 && (b
        & 0x000f_ffff_ffff_ffffu64) != 0;
    !a_nan && !b_nan && (a == b || ((a & 0x7fff_ffff_ffff_ffffu64) == 0 && (b
        & 0x7fff_ffff_ffff_ffffu64) == 0))
}

impl PartialEq for GripperSpec {
    fn eq(&self, other: &Self) -> (r: bool) {
        bits_eq(self.max_force_bits, other.max_force_bits) && bits_eq(
            self.stroke_bits,
            other.stroke_bits,
        )
    }
}

impl PartialEqSpecImpl for GripperSpec {
    open spec fn obeys_eq_spec() -> bool {
        true
    }

    open spec fn eq_spec(&self, other: &Self) -> bool {
        f64_bits_eq(self.max_force_bits, other.max_force_bits) && f64_bits_eq(
            self.stroke_bits,
            other.stroke_bits,
        )
    }
}

/// Advertised by both the teleop device and the robot driver before streaming.
#[derive(Debug, Clone, PartialEq)]
pub struct Capabilities {
    pub dof: u32,
    pub supported_modes: Vec<ControlMode>,
    pub force_feedback: bool,
    pub max_rate_hz: u32,
    pub frames: Vec<String>,
    pub end_effectors: Vec<String>,
    pub gripper: Option<GripperSpec>,
}

/// The agreed parameters for a session, computed from both ends' capabilities.
#[derive(Debug, Clone, Copy, PartialEq, Eq, Structural)]
pub struct Negotiated {
    pub mode: ControlMode,
    pub rate_hz: u32,
    pub force_feedback: bool,
}

/// Mode preference order used by [`Capabilities::negotiate`]. Cartesian first because
/// it is the most device/robot-agnostic.
pub open spec fn mode_preference() -> Seq<ControlMode> {
    seq![
        ControlMode::CartesianPose,
        ControlMode::JointTargets,
        ControlMode::Twist,
        ControlMode::Composite,
        ControlMode::Gripper,
        ControlMode::Custom,
    ]
}

/// The first mode of the preference order, from position `i` on, that both lists hold.
pub open spec fn first_common_mode_from(a: Seq<ControlMode>, b: Seq<ControlMode>, i: nat) -> Option<
    ControlMode,
>
    decreases 6 - i,
{
    if i >= 6 {
        None
    } else if a.contains(mode_preference()[i as int]) && b.contains(mode_preference()[i as int]) {
        Some(mode_preference()[i as int])
    } else {
        first_common_mode_from(a, b, i + 1)
    }
}

/// The most preferred mode that both lists hold.
pub open spec fn common_mode(a: Seq<ControlMode>, b: Seq<ControlMode>) -> Option<ControlMode> {
    first_common_mode_from(a, b, 0)
}

/// What two ends agree on, or `None` when they share no control mode.
pub open spec fn spec_negotiate(
    a_modes: Seq<ControlMode>,
    a_rate: u32,
    a_ff: bool,
    b_modes: Seq<ControlMode>,
    b_rate: u32,
    b_ff: bool,
) -> Option<Negotiated> {
    match common_mode(a_modes, b_modes) {
        None => None,
        Some(m) => Some(
            Negotiated {
                mode: m,
                rate_hz: if a_rate <= b_rate {
                    a_rate
                } else {
                    b_rate
                },
                force_feedback: a_ff && b_ff,
            },
        ),
    }
}

impl Capabilities {
    /// The outcome of negotiating these capabilities with `other`'s.
    pub open spec fn negotiate_spec(&self, other: &Capabilities) -> Option<Negotiated> {
        spec_negotiate(
            self.supported_modes@,
            self.max_rate_hz,
            self.force_feedback,
            other.supported_modes@,
            other.max_rate_hz,
            other.force_feedback,
        )
    }
}

fn preferred_mode(i: usize) -> (m: ControlMode)
    requires
        i < 6,
    ensures
        m == mode_preference()[i as int],
{
    match i {
        0 => ControlMode::CartesianPose,
        1 => ControlMode::JointTargets,
        2 => ControlMode::Twist,
        3 => ControlMode::Composite,
        4 => ControlMode::Gripper,
        _ => ControlMode::Custom,
    }
}

fn holds_mode(modes: &Vec<ControlMode>, m: ControlMode) -> (r: bool)
    ensures
        r == modes@.contains(m),
{
    let mut i: usize = 0;
    while i < modes.len()
        invariant
            0 <= i <= modes@.len(),
            forall|j: int| 0 <= j < i ==> modes@[j] != m,
        decreases modes@.len() - i,
    {
        if modes[i] == m {
            return true;
        }
        i = i + 1;
    }
    false
}

impl Capabilities {
    /// Compute the intersection of two capability sets, or `None` if the ends share no
    /// common control mode: the most preferred shared mode, the lower of the two rates,
    /// and force feedback only when both ends offer it.
    pub fn negotiate(&self, other: &Capabilities) -> (r: Option<Negotiated>)
        ensures
            r == self.negotiate_spec(other),
    {
        let mut i: usize = 0;
        while i < 6
            invariant
                0 <= i <= 6,
                common_mode(self.supported_modes@, other.supported_modes@)
                    == first_common_mode_from(self.supported_modes@, other.supported_modes@, i as nat),
            decreases 6 - i,
        {
            let m = preferred_mode(i);
            if holds_mode(&self.supported_modes, m) && holds_mode(&other.supported_modes, m) {
                let rate = if self.max_rate_hz <= other.max_rate_hz {
                    self.max_rate_hz
                } else {
                    other.max_rate_hz
                };
                return Some(
                    Negotiated {
                        mode: m,
                        rate_hz: rate,
                        force_feedback: self.force_feedback && other.force_feedback,
                    },
                );
            }
            i = i + 1;
        }
        None
    }
}

proof fn lemma_first_common_symmetric(a: Seq<ControlMode>, b: Seq<ControlMode>, i: nat)
    ensures
        first_common_mode_from(a, b, i) == first_common_mode_from(b, a, i),
    decreases 6 - i,
{
    if i < 6 {
        lemma_first_common_symmetric(a, b, i + 1);
    }
}

proof fn lemma_first_common_shared(a: Seq<ControlMode>, b: Seq<ControlMode>, i: nat)
    ensures
        first_common_mode_from(a, b, i) matches Some(m) ==> a.contains(m) && b.contains(m),
        first_common_mode_from(a, b, i) is None ==> forall|j: int|
            i <= j < 6 ==> !(a.contains(#[trigger] mode_preference()[j]) && b.contains(
                mode_preference()[j],
            )),
    decreases 6 - i,
{
    if i < 6 {
        lemma_first_common_shared(a, b, i + 1);
    }
}

/// Negotiation does not depend on which end makes the offer.
pub proof fn lemma_negotiate_symmetric(a: Capabilities, b: Capabilities)
    ensures
        a.negotiate_spec(&b) == b.negotiate_spec(&a),
{
    lemma_first_common_symmetric(a.supported_modes@, b.supported_modes@, 0);
}

/// An agreed session uses a mode both ends support, a rate neither end exceeds, and
/// force feedback only if both ends offer it; no agreement exists exactly when the
/// ends share none of the six control modes.
pub proof fn lemma_negotiate_agreed(a: Capabilities, b: Capabilities)
    ensures
        a.negotiate_spec(&b) matches Some(n) ==> {
            &&& a.supported_modes@.contains(n.mode)
            &&& b.supported_modes@.contains(n.mode)
            &&& n.rate_hz <= a.max_rate_hz
            &&& n.rate_hz <= b.max_rate_hz
            &&& (n.rate_hz == a.max_rate_hz || n.rate_hz == b.max_rate_hz)
            &&& n.force_feedback == (a.force_feedback && b.force_feedback)
        },
        a.negotiate_spec(&b) is None <==> forall|m: ControlMode|
            !(a.supported_modes@.contains(m) && b.supported_modes@.contains(m)),
{
    lemma_first_common_shared(a.supported_modes@, b.supported_modes@, 0);
    if a.negotiate_spec(&b) is None {
        assert forall|m: ControlMode|
            !(a.supported_modes@.contains(m) && b.supported_modes@.contains(m)) by {
            let j: int = match m {
                ControlMode::CartesianPose => 0,
                ControlMode::JointTargets => 1,
                ControlMode::Twist => 2,
                ControlMode::Composite => 3,
                ControlMode::Gripper => 4,
                ControlMode::Custom => 5,
            };
            assert(mode_preference()[j] == m);
        }
    }
}

/// Whether both mode lists hold `m`.
pub open spec fn both_hold(a: Seq<ControlMode>, b: Seq<ControlMode>, m: ControlMode) -> bool {
    a.contains(m) && b.contains(m)
}

/// Negotiation settles on the most preferred mode that both ends hold, in the order
/// CartesianPose, JointTargets, Twist, Composite, Gripper, Custom: each mode is chosen
/// exactly when both ends hold it and neither holds-in-common any mode before it.
pub proof fn lemma_negotiate_preference(a: Capabilities, b: Capabilities)
    ensures
        ({
            let (x, y) = (a.supported_modes@, b.supported_modes@);
            let mode = match a.negotiate_spec(&b) {
                Some(n) => Some(n.mode),
                None => None,
            };
            &&& both_hold(x, y, ControlMode::CartesianPose) ==> mode == Some(ControlMode::CartesianPose)
            &&& !both_hold(x, y, ControlMode::CartesianPose) && both_hold(x, y, ControlMode::JointTargets)
                ==> mode == Some(ControlMode::JointTargets)
            &&& !both_hold(x, y, ControlMode::CartesianPose) && !both_hold(
                x,
                y,
                ControlMode::JointTargets,
            ) && both_hold(x, y, ControlMode::Twist) ==> mode == Some(ControlMode::Twist)
            &&& !both_hold(x, y, ControlMode::CartesianPose) && !both_hold(
                x,
                y,
                ControlMode::JointTargets,
            ) && !both_hold(x, y, ControlMode::Twist) && both_hold(x, y, ControlMode::Composite)
                ==> mode == Some(ControlMode::Composite)
            &&& !both_hold(x, y, ControlMode::CartesianPose) && !both_hold(
                x,
                y,
                ControlMode::JointTargets,
            ) && !both_hold(x, y, ControlMode::Twist) && !both_hold(x, y, ControlMode::Composite)
                && both_hold(x, y, ControlMode::Gripper) ==> mode == Some(ControlMode::Gripper)
            &&& !both_hold(x, y, ControlMode::CartesianPose) && !both_hold(
                x,
                y,
                ControlMode::JointTargets,
            ) && !both_hold(x, y, ControlMode::Twist) && !both_hold(x, y, ControlMode::Composite)
                && !both_hold(x, y, ControlMode::Gripper) && both_hold(x, y, ControlMode::Custom)
                ==> mode == Some(ControlMode::Custom)
        }),
{
    let x = a.supported_modes@;
    let y = b.supported_modes@;
    reveal_with_fuel(first_common_mode_from, 7);
    assert(mode_preference()[0] == ControlMode::CartesianPose);
    assert(mode_preference()[1] == ControlMode::JointTargets);
    assert(mode_preference()[2] == ControlMode::Twist);
    assert(mode_preference()[3] == ControlMode::Composite);
    assert(mode_preference()[4] == ControlMode::Gripper);
    assert(mode_preference()[5] == ControlMode::Custom);
}

} // verus!
