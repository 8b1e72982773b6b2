//! Grid coordinates, signed translations and placement policies.
//!
//! Coordinate arithmetic is total: a result that would leave the range of its
//! component type is clamped to the nearest bound of that range.

use std::ops::{Add, AddAssign, Neg, Sub, SubAssign};
use vstd::prelude::*;
use vstd::std_specs::ops::{AddSpecImpl, NegSpecImpl, SubSpecImpl};

verus! {

/// The value in `0..=u32::MAX` nearest to `v`.
pub open spec fn clamp_u32(v: int) -> u32 {
    if v < 0 {
        0u32
    } else if v > u32::MAX {
        u32::MAX
    } else {
        v as u32
    }
}

/// The value in `i32::MIN..=i32::MAX` nearest to `v`.
pub open spec fn clamp_i32(v: int) -> i32 {
    if v < i32::MIN {
        i32::MIN
    } else if v > i32::MAX {
        i32::MAX
    } else {
        v as i32
    }
}

/// Moves an unsigned component by a signed amount, clamped to the `u32` range.
pub fn shift_component(base: u32, by: i32) -> (r: u32)
    ensures
        r == clamp_u32(base + by),
{
    let moved: i64 = base as i64 + by as i64;
    if moved < 0 {
        0
    } else if moved > u32::MAX as i64 {
        u32::MAX
    } else {
        moved as u32
    }
}

/// Narrows a signed amount to the `i32` range, clamped.
pub fn narrow_component(v: i64) -> (r: i32)
    ensures
        r == clamp_i32(v as int),
{
    if v < i32::MIN as i64 {
        i32::MIN
    } else if v > i32::MAX as i64 {
        i32::MAX
    } else {
        v as i32
    }
}

/// A vector of two unsigned components.
pub trait UnsignedR2DVector: Sized {
    /// The horizontal component, as a number.
    spec fn x_value(&self) -> nat;

    /// The vertical component, as a number.
    spec fn y_value(&self) -> nat;

    fn x(&self) -> (r: u32)
        ensures
            r == self.x_value(),
    ;

    fn y(&self) -> (r: u32)
        ensures
            r == self.y_value(),
    ;

    /// Component-wise sum, each component clamped at `u32::MAX`.
    fn add(self, other: Self) -> (r: Self)
        ensures
            r.x_value() == clamp_u32((self.x_value() + other.x_value()) as int),
            r.y_value() == clamp_u32((self.y_value() + other.y_value()) as int),
    ;
}

/// A position or a size in the first quadrant of the grid.
#[derive(Clone, Copy, Debug, PartialEq, Eq, Structural)]
pub struct DiscreteCoord {
    pub x: u32,
    pub y: u32,
}

/// A signed, directional offset on the grid.
#[derive(Debug, Clone, Copy, PartialEq, Eq, Structural)]
pub struct Translation {
    pub x: i32,
    pub y: i32,
}

impl DiscreteCoord {
    /// The coordinate `(0, 0)`.
    pub fn origin() -> (r: Self)
        ensures
            r == (DiscreteCoord { x: 0, y: 0 }),
    {
        DiscreteCoord { x: 0, y: 0 }
    }

    pub fn new(x: u32, y: u32) -> (r: Self)
        ensures
            r == (DiscreteCoord { x, y }),
    {
        DiscreteCoord { x, y }
    }

    /// The coordinate of a translation's components, negative ones raised to 0.
    pub open spec fn from_signed_spec(coord: Translation) -> DiscreteCoord {
        DiscreteCoord { x: clamp_u32(coord.x as int), y: clamp_u32(coord.y as int) }
    }

    pub fn new_from_signed(coord: Translation) -> (r: Self)
        ensures
            r == Self::from_signed_spec(coord),
    {
        DiscreteCoord { x: shift_component(0, coord.x), y: shift_component(0, coord.y) }
    }

    /// Component-wise sum, each component clamped at `u32::MAX`.
    pub open spec fn plus(self, other: DiscreteCoord) -> DiscreteCoord {
        DiscreteCoord { x: clamp_u32(self.x + other.x), y: clamp_u32(self.y + other.y) }
    }

    /// Component-wise difference, each component clamped at 0.
    pub open spec fn minus(self, other: DiscreteCoord) -> DiscreteCoord {
        DiscreteCoord { x: clamp_u32(self.x - other.x), y: clamp_u32(self.y - other.y) }
    }

    /// Each component reinterpreted as a signed 32-bit value: unchanged up to
    /// `i32::MAX`, and the two's-complement reading of the same bits above it.
    pub open spec fn to_translation_spec(&self) -> Translation {
        Translation { x: self.x as i32, y: self.y as i32 }
    }

    pub fn to_translation(&self) -> (r: Translation)
        ensures
            r == self.to_translation_spec(),
    {
        Translation::new(self.x as i32, self.y as i32)
    }
}

impl UnsignedR2DVector for DiscreteCoord {
    open spec fn x_value(&self) -> nat {
        self.x as nat
    }

    open spec fn y_value(&self) -> nat {
        self.y as nat
    }

    fn x(&self) -> (r: u32) {
        self.x
    }

    fn y(&self) -> (r: u32) {
        self.y
    }

    fn add(self, other: Self) -> (r: Self) {
        DiscreteCoord { x: self.x.saturating_add(other.x), y: self.y.saturating_add(other.y) }
    }
}

impl AddSpecImpl for DiscreteCoord {
    open spec fn obeys_add_spec() -> bool {
        true
    }

    open spec fn add_req(self, rhs: DiscreteCoord) -> bool {
        true
    }

    open spec fn add_spec(self, rhs: DiscreteCoord) -> DiscreteCoord {
        self.plus(rhs)
    }
}

impl Add for DiscreteCoord {
    type Output = DiscreteCoord;

    fn add(self, rhs: Self) -> (r: DiscreteCoord) {
        DiscreteCoord::new(self.x.saturating_add(rhs.x), self.y.saturating_add(rhs.y))
    }
}

impl SubSpecImpl for DiscreteCoord {
    open spec fn obeys_sub_spec() -> bool {
        true
    }

    open spec fn sub_req(self, rhs: DiscreteCoord) -> bool {
        true
    }

    open spec fn sub_spec(self, rhs: DiscreteCoord) -> DiscreteCoord {
        self.minus(rhs)
    }
}

impl Sub for DiscreteCoord {
    type Output = DiscreteCoord;

    fn sub(self, rhs: Self) -> (r: DiscreteCoord) {
        DiscreteCoord::new(self.x.saturating_sub(rhs.x), self.y.saturating_sub(rhs.y))
    }
}

impl Translation {
    pub fn new(x: i32, y: i32) -> (r: Self)
        ensures
            r == (Translation { x, y }),
    {
        Self { x, y }
    }

    /// The coordinate moved by this translation, each component clamped to the
    /// range of `u32`.
    pub open spec fn apply_to_spec(self, coord: DiscreteCoord) -> DiscreteCoord {
        DiscreteCoord { x: clamp_u32(coord.x + self.x), y: clamp_u32(coord.y + self.y) }
    }

    pub fn apply_to(self, coord: DiscreteCoord) -> (r: DiscreteCoord)
        ensures
            r == self.apply_to_spec(coord),
    {
        DiscreteCoord::new(shift_component(coord.x, self.x), shift_component(coord.y, self.y))
    }

    /// Component-wise sum, each component clamped to the range of `i32`.
    pub open spec fn plus(self, other: Translation) -> Translation {
        Translation { x: clamp_i32(self.x + other.x), y: clamp_i32(self.y + other.y) }
    }

    /// Component-wise difference, each component clamped to the range of `i32`.
    pub open spec fn minus(self, other: Translation) -> Translation {
        Translation { x: clamp_i32(self.x - other.x), y: clamp_i32(self.y - other.y) }
    }

    /// The opposite translation, each component clamped to the range of `i32`.
    pub open spec fn negated(self) -> Translation {
        Translation { x: clamp_i32(-self.x), y: clamp_i32(-self.y) }
    }

    /// The translation that moves nothing.
    pub fn zero() -> (r: Self)
        ensures
            r == (Translation { x: 0, y: 0 }),
    {
        Translation { x: 0, y: 0 }
    }
}

impl AddSpecImpl for Translation {
    open spec fn obeys_add_spec() -> bool {
        true
    }

    open spec fn add_req(self, rhs: Translation) -> bool {
        true
    }

    open spec fn add_spec(self, rhs: Translation) -> Translation {
        self.plus(rhs)
    }
}

impl Add for Translation {
    type Output = Translation;

    fn add(self, rhs: Self) -> (r: Translation) {
        Translation::new(
            narrow_component(self.x as i64 + rhs.x as i64),
            narrow_component(self.y as i64 + rhs.y as i64),
        )
    }
}

impl SubSpecImpl for Translation {
    open spec fn obeys_sub_spec() -> bool {
        true
    }

    open spec fn sub_req(self, rhs: Translation) -> bool {
        true
    }

    open spec fn sub_spec(self, rhs: Translation) -> Translation {
        self.minus(rhs)
    }
}

impl Sub for Translation {
    type Output = Translation;

    fn sub(self, rhs: Self) -> (r: Translation) {
        Translation::new(
            narrow_component(self.x as i64 - rhs.x as i64),
            narrow_component(self.y as i64 - rhs.y as i64),
        )
    }
}

impl NegSpecImpl for Translation {
    open spec fn obeys_neg_spec() -> bool {
        true
    }

    open spec fn neg_req(self) -> bool {
        true
    }

    open spec fn neg_spec(self) -> Translation {
        self.negated()
    }
}

impl Neg for Translation {
    type Output = Translation;

    fn neg(self) -> (r: Translation) {
        Translation::new(narrow_component(-(self.x as i64)), narrow_component(-(self.y as i64)))
    }
}

impl AddSpecImpl<DiscreteCoord> for Translation {
    open spec fn obeys_add_spec() -> bool {
        true
    }

    open spec fn add_req(self, rhs: DiscreteCoord) -> bool {
        true
    }

    open spec fn add_spec(self, rhs: DiscreteCoord) -> DiscreteCoord {
        self.apply_to_spec(rhs)
    }
}

impl Add<DiscreteCoord> for Translation {
    type Output = DiscreteCoord;

    fn add(self, rhs: DiscreteCoord) -> (r: DiscreteCoord) {
        self.apply_to(rhs)
    }
}

impl AddSpecImpl<Translation> for DiscreteCoord {
    open spec fn obeys_add_spec() -> bool {
        true
    }

    open spec fn add_req(self, rhs: Translation) -> bool {
        true
    }

    open spec fn add_spec(self, rhs: Translation) -> DiscreteCoord {
        rhs.apply_to_spec(self)
    }
}

impl Add<Translation> for DiscreteCoord {
    type Output = DiscreteCoord;

    fn add(self, rhs: Translation) -> (r: DiscreteCoord) {
        rhs.apply_to(self)
    }
}

impl SubSpecImpl<Translation> for DiscreteCoord {
    open spec fn obeys_sub_spec() -> bool {
        true
    }

    open spec fn sub_req(self, rhs: Translation) -> bool {
        true
    }

    open spec fn sub_spec(self, rhs: Translation) -> DiscreteCoord {
        rhs.negated().apply_to_spec(self)
    }
}

impl Sub<Translation> for DiscreteCoord {
    type Output = DiscreteCoord;

    fn sub(self, rhs: Translation) -> (r: DiscreteCoord) {
        rhs.neg().apply_to(self)
    }
}

impl AddAssign for DiscreteCoord {
    fn add_assign(&mut self, other: Self)
        ensures
            *final(self) == old(self).plus(other),
    {
        self.x = self.x.saturating_add(other.x);
        self.y = self.y.saturating_add(other.y);
    }
}

impl SubAssign for DiscreteCoord {
    fn sub_assign(&mut self, other: Self)
        ensures
            *final(self) == old(self).minus(other),
    {
        self.x = self.x.saturating_sub(other.x);
        self.y = self.y.saturating_sub(other.y);
    }
}

impl AddAssign for Translation {
    fn add_assign(&mut self, rhs: Self)
        ensures
            *final(self) == old(self).plus(rhs),
    {
        self.x = narrow_component(self.x as i64 + rhs.x as i64);
        self.y = narrow_component(self.y as i64 + rhs.y as i64);
    }
}

impl SubAssign for Translation {
    fn sub_assign(&mut self, rhs: Self)
        ensures
            *final(self) == old(self).minus(rhs),
    {
        self.x = narrow_component(self.x as i64 - rhs.x as i64);
        self.y = narrow_component(self.y as i64 - rhs.y as i64);
    }
}

/// Where an object is anchored inside the room that is left around it.
#[derive(Debug, Clone, Copy, PartialEq, Eq, Structural)]
pub enum RenderPlacementConfig {
    TopLeft,
    TopRight,
    BottomLeft,
    BottomRight,
    CenterLeft,
    CenterTop,
    CenterRight,
    CenterBottom,
    CenterStage,
    /// An explicit anchor; negative components count as 0.
    Offset(Translation),
}

impl RenderPlacementConfig {
    /// The anchor that this policy picks when `available` is the room left on
    /// each axis: 0, the whole room or half of it (rounded down) per axis, or the
    /// explicit offset with negative components raised to 0.
    pub open spec fn anchor_spec(self, available: DiscreteCoord) -> DiscreteCoord {
        match self {
            RenderPlacementConfig::TopLeft => DiscreteCoord { x: 0, y: 0 },
            RenderPlacementConfig::TopRight => DiscreteCoord { x: available.x, y: 0 },
            RenderPlacementConfig::BottomLeft => DiscreteCoord { x: 0, y: available.y },
            RenderPlacementConfig::BottomRight => available,
            RenderPlacementConfig::CenterTop => DiscreteCoord { x: available.x / 2, y: 0 },
            RenderPlacementConfig::CenterBottom => DiscreteCoord {
                x: available.x / 2,
                y: available.y,
            },
            RenderPlacementConfig::CenterLeft => DiscreteCoord { x: 0, y: available.y / 2 },
            RenderPlacementConfig::CenterRight => DiscreteCoord {
                x: available.x,
                y: available.y / 2,
            },
            RenderPlacementConfig::CenterStage => DiscreteCoord {
                x: available.x / 2,
                y: available.y / 2,
            },
            RenderPlacementConfig::Offset(t) => DiscreteCoord::from_signed_spec(t),
        }
    }

    /// Resolves the policy to an anchor for the given room.
    pub fn anchor(self, available: DiscreteCoord) -> (r: DiscreteCoord)
        ensures
            r == self.anchor_spec(available),
    {
        match self {
            RenderPlacementConfig::TopLeft => DiscreteCoord::new(0, 0),
            RenderPlacementConfig::TopRight => DiscreteCoord::new(available.x, 0),
            RenderPlacementConfig::BottomLeft => DiscreteCoord::new(0, available.y),
            RenderPlacementConfig::BottomRight => DiscreteCoord::new(available.x, available.y),
            RenderPlacementConfig::CenterTop => DiscreteCoord::new(available.x / 2, 0),
            RenderPlacementConfig::CenterBottom => DiscreteCoord::new(
                available.x / 2,
                available.y,
            ),
            RenderPlacementConfig::CenterLeft => DiscreteCoord::new(0, available.y / 2),
            RenderPlacementConfig::CenterRight => DiscreteCoord::new(
                available.x,
                available.y / 2,
            ),
            RenderPlacementConfig::CenterStage => DiscreteCoord::new(
                available.x / 2,
                available.y / 2,
            ),
            RenderPlacementConfig::Offset(offset) => DiscreteCoord::new_from_signed(offset),
        }
    }
}

/// Subtracting coordinates never goes below 0: each component of the difference
/// is the saturating difference of the operands' components.
pub proof fn lemma_coord_difference_saturates(a: DiscreteCoord, b: DiscreteCoord)
    ensures
        a.minus(b).x >= 0,
        a.minus(b).y >= 0,
        a.minus(b).x == (if a.x >= b.x { a.x - b.x } else { 0 }),
        a.minus(b).y == (if a.y >= b.y { a.y - b.y } else { 0 }),
{
}

/// Applying a translation clamps each axis at 0, and keeps the exact sum
/// wherever that sum is a coordinate.
pub proof fn lemma_apply_clamps_at_zero(t: Translation, c: DiscreteCoord)
    ensures
        t.apply_to_spec(c).x >= 0,
        t.apply_to_spec(c).y >= 0,
        c.x + t.x < 0 ==> t.apply_to_spec(c).x == 0,
        c.y + t.y < 0 ==> t.apply_to_spec(c).y == 0,
        0 <= c.x + t.x <= u32::MAX ==> t.apply_to_spec(c).x == c.x + t.x,
        0 <= c.y + t.y <= u32::MAX ==> t.apply_to_spec(c).y == c.y + t.y,
{
}

/// The zero translation moves no coordinate.
pub proof fn lemma_apply_zero_is_identity(c: DiscreteCoord)
    ensures
        (Translation { x: 0, y: 0 }).apply_to_spec(c) == c,
{
}

} // verus!
