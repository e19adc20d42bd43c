//! Small integer vector types.

use vstd::prelude::*;

verus! {

/// Two unsigned components.
#[derive(Clone, Copy, Debug, PartialEq, Eq, Structural, Hash)]
pub struct UVec2 {
    pub x: u32,
    pub y: u32,
}

/// Three unsigned components.
#[derive(Clone, Copy, Debug, PartialEq, Eq, Structural, Hash)]
pub struct UVec3 {
    pub x: u32,
    pub y: u32,
    pub z: u32,
}

/// Two signed components.
#[derive(Clone, Copy, Debug, PartialEq, Eq, Structural, Hash)]
pub struct IVec2 {
    pub x: i32,
    pub y: i32,
}

/// Three signed components.
#[derive(Clone, Copy, Debug, PartialEq, Eq, Structural, Hash)]
pub struct IVec3 {
    pub x: i32,
    pub y: i32,
    pub z: i32,
}

impl UVec2 {
    pub fn new(x: u32, y: u32) -> (r: UVec2)
        ensures
            r == (UVec2 { x, y }),
    {
        UVec2 { x, y }
    }

    /// Appends a third component.
    pub fn extend(self, z: u32) -> (r: UVec3)
        ensures
            r == (UVec3 { x: self.x, y: self.y, z }),
    {
        UVec3 { x: self.x, y: self.y, z }
    }
}

impl UVec3 {
    pub fn new(x: u32, y: u32, z: u32) -> (r: UVec3)
        ensures
            r == (UVec3 { x, y, z }),
    {
        UVec3 { x, y, z }
    }

    /// The first two components.
    pub fn xy(self) -> (r: UVec2)
        ensures
            r == (UVec2 { x: self.x, y: self.y }),
    {
        UVec2 { x: self.x, y: self.y }
    }

    /// True when every component of `self` is below the matching component
    /// of `size`.
    pub open spec fn spec_within(self, size: UVec3) -> bool {
        self.x < size.x && self.y < size.y && self.z < size.z
    }

    #[verifier::when_used_as_spec(spec_within)]
    pub fn within(self, size: UVec3) -> (r: bool)
        ensures
            r == self.spec_within(size),
    {
        self.x < size.x && self.y < size.y && self.z < size.z
    }
}

impl IVec3 {
    pub fn new(x: i32, y: i32, z: i32) -> (r: IVec3)
        ensures
            r == (IVec3 { x, y, z }),
    {
        IVec3 { x, y, z }
    }
}

impl IVec2 {
    pub fn new(x: i32, y: i32) -> (r: IVec2)
        ensures
            r == (IVec2 { x, y }),
    {
        IVec2 { x, y }
    }
}

} // verus!

verus! {

/// Marker for iteration along the X axis.
pub struct X;

/// Marker for iteration along the Y axis.
pub struct Y;

/// Marker for iteration along the Z axis.
pub struct Z;

/// The largest value whose square fits in 32 bits.
pub const SMALL_MAX: i32 = 46340;

/// The product `a * b`, with the factors from -2 to 2 written out so that
/// products with them stay linear.
pub open spec fn small_product(a: i32, b: i32) -> i32 {
    if a == 0 {
        0
    } else if a == 1 {
        b
    } else if a == -1 {
        (-b) as i32
    } else if a == 2 {
        (b + b) as i32
    } else if a == -2 {
        (-b - b) as i32
    } else {
        (a * b) as i32
    }
}

/// The product of two values whose squares fit in 32 bits.
pub fn mul_small(a: i32, b: i32) -> (r: i32)
    requires
        -SMALL_MAX <= a <= SMALL_MAX,
        -SMALL_MAX <= b <= SMALL_MAX,
    ensures
        r == a * b,
        r == small_product(a, b),
{
    assert(-0x7fff_ffff <= a * b <= 0x7fff_ffff && a * b == small_product(a, b)) by (nonlinear_arith)
        requires
            -46340 <= a <= 46340,
            -46340 <= b <= 46340,
            small_product(a, b) == (if a == 0 {
                0
            } else if a == 1 {
                b
            } else if a == -1 {
                (-b) as i32
            } else if a == 2 {
                (b + b) as i32
            } else if a == -2 {
                (-b - b) as i32
            } else {
                (a * b) as i32
            }),
    ;
    a * b
}

/// The outer product of a vector with itself.
pub trait OuterProductExt<T>: Sized {
    /// Inputs for which the product can be formed without overflow.
    spec fn spec_outer_product_defined(self) -> bool;

    /// The matrix whose entry in row `i` and column `j` is the product of
    /// components `i` and `j`.
    spec fn spec_outer_product(self) -> T;

    fn outer_product(self) -> (r: T)
        requires
            self.spec_outer_product_defined(),
        ensures
            r == self.spec_outer_product(),
    ;
}

impl OuterProductExt<super::mat::Mat3> for IVec3 {
    open spec fn spec_outer_product_defined(self) -> bool {
        &&& -SMALL_MAX <= self.x <= SMALL_MAX
        &&& -SMALL_MAX <= self.y <= SMALL_MAX
        &&& -SMALL_MAX <= self.z <= SMALL_MAX
    }

    open spec fn spec_outer_product(self) -> super::mat::Mat3 {
        super::mat::Mat3 {
            x_axis: IVec3 {
                x: small_product(self.x, self.x),
                y: small_product(self.y, self.x),
                z: small_product(self.z, self.x),
            },
            y_axis: IVec3 {
                x: small_product(self.x, self.y),
                y: small_product(self.y, self.y),
                z: small_product(self.z, self.y),
            },
            z_axis: IVec3 {
                x: small_product(self.x, self.z),
                y: small_product(self.y, self.z),
                z: small_product(self.z, self.z),
            },
        }
    }

    fn outer_product(self) -> (r: super::mat::Mat3) {
        super::mat::Mat3 {
            x_axis: IVec3 {
                x: mul_small(self.x, self.x),
                y: mul_small(self.y, self.x),
                z: mul_small(self.z, self.x),
            },
            y_axis: IVec3 {
                x: mul_small(self.x, self.y),
                y: mul_small(self.y, self.y),
                z: mul_small(self.z, self.y),
            },
            z_axis: IVec3 {
                x: mul_small(self.x, self.z),
                y: mul_small(self.y, self.z),
                z: mul_small(self.z, self.z),
            },
        }
    }
}

} // verus!

verus! {

/// Four unsigned components.
#[derive(Clone, Copy, Debug, PartialEq, Eq, Structural, Hash)]
pub struct UVec4 {
    pub x: u32,
    pub y: u32,
    pub z: u32,
    pub w: u32,
}

impl UVec4 {
    pub fn new(x: u32, y: u32, z: u32, w: u32) -> (r: UVec4)
        ensures
            r == (UVec4 { x, y, z, w }),
    {
        UVec4 { x, y, z, w }
    }
}

} // verus!

verus! {

/// Four signed components.
#[derive(Clone, Copy, Debug, PartialEq, Eq, Structural, Hash)]
pub struct IVec4 {
    pub x: i32,
    pub y: i32,
    pub z: i32,
    pub w: i32,
}

/// What the vector types have in common: a fixed number of components,
/// each of which fits in 64 bits.
pub trait IsVec: Copy + Sized {
    /// The components, in order.
    spec fn spec_components(self) -> Seq<int>;

    /// The number of components.
    spec fn spec_length() -> nat;

    /// The number of components.
    fn length() -> (r: usize)
        ensures
            r == Self::spec_length(),
    ;

    fn components(self) -> (r: Vec<i64>)
        ensures
            r@.len() == Self::spec_length(),
            r@.len() == self.spec_components().len(),
            forall|i: int| 0 <= i < r@.len() ==> #[trigger] r@[i] == self.spec_components()[i],
    ;

    /// Whether a value fits a component of the type.
    spec fn spec_fits(v: int) -> bool;

    /// The vector with the given components, or `None` when their number
    /// is not that of the type or one of them does not fit its component.
    fn from_components(c: &Vec<i64>) -> (r: Option<Self>)
        ensures
            r matches Some(v) ==> v.spec_components() =~= Seq::new(c@.len(), |i: int| c@[i] as int),
            r.is_some() == (c@.len() == Self::spec_length() && forall|i: int|
                0 <= i < c@.len() ==> Self::spec_fits(#[trigger] c@[i] as int)),
    ;

    /// The sum of the components.
    fn sum(self) -> (r: i64)
        ensures
            r == spec_sum(self.spec_components(), self.spec_components().len() as int),
    ;

    /// The sum of the squares of the components.
    fn inner_product(self) -> (r: i128)
        ensures
            r == spec_square_sum(self.spec_components(), self.spec_components().len() as int),
    ;
}

/// The sum of the first `n` entries.
pub open spec fn spec_sum(c: Seq<int>, n: int) -> int
    decreases n,
{
    if n <= 0 {
        0
    } else {
        spec_sum(c, n - 1) + c[n - 1]
    }
}

/// The sum of the squares of the first `n` entries.
pub open spec fn spec_square_sum(c: Seq<int>, n: int) -> int
    decreases n,
{
    if n <= 0 {
        0
    } else {
        spec_square_sum(c, n - 1) + c[n - 1] * c[n - 1]
    }
}

/// The square of a value of 33 bits.
fn square(v: i64) -> (r: i128)
    requires
        -0x1_0000_0000 <= v <= 0x1_0000_0000,
    ensures
        r == v * v,
        0 <= r <= 0x1_0000_0000_0000_0000,
{
    assert(0 <= v * v <= 0x1_0000_0000_0000_0000) by (nonlinear_arith)
        requires
            -0x1_0000_0000 <= v <= 0x1_0000_0000,
    ;
    (v as i128) * (v as i128)
}

impl IsVec for UVec3 {
    open spec fn spec_length() -> nat {
        3
    }

    open spec fn spec_fits(v: int) -> bool {
        0 <= v <= u32::MAX
    }

    open spec fn spec_components(self) -> Seq<int> {
        seq![self.x as int, self.y as int, self.z as int]
    }

    fn length() -> (r: usize) {
        3
    }

    fn components(self) -> (r: Vec<i64>) {
        vec![self.x as i64, self.y as i64, self.z as i64]
    }

    fn from_components(c: &Vec<i64>) -> (r: Option<Self>) {
        if c.len() == 3 && fits_u32(c[0]) && fits_u32(c[1]) && fits_u32(c[2]) {
            Some(UVec3 { x: c[0] as u32, y: c[1] as u32, z: c[2] as u32 })
        } else {
            None
        }
    }

    fn sum(self) -> (r: i64) {
        reveal_with_fuel(spec_sum, 4);
        self.x as i64 + self.y as i64 + self.z as i64
    }

    fn inner_product(self) -> (r: i128) {
        reveal_with_fuel(spec_square_sum, 4);
        square(self.x as i64) + square(self.y as i64) + square(self.z as i64)
    }
}

impl IsVec for IVec3 {
    open spec fn spec_length() -> nat {
        3
    }

    open spec fn spec_fits(v: int) -> bool {
        i32::MIN <= v <= i32::MAX
    }

    open spec fn spec_components(self) -> Seq<int> {
        seq![self.x as int, self.y as int, self.z as int]
    }

    fn length() -> (r: usize) {
        3
    }

    fn components(self) -> (r: Vec<i64>) {
        vec![self.x as i64, self.y as i64, self.z as i64]
    }

    fn from_components(c: &Vec<i64>) -> (r: Option<Self>) {
        if c.len() == 3 && fits_i32(c[0]) && fits_i32(c[1]) && fits_i32(c[2]) {
            Some(IVec3 { x: c[0] as i32, y: c[1] as i32, z: c[2] as i32 })
        } else {
            None
        }
    }

    fn sum(self) -> (r: i64) {
        reveal_with_fuel(spec_sum, 4);
        self.x as i64 + self.y as i64 + self.z as i64
    }

    fn inner_product(self) -> (r: i128) {
        reveal_with_fuel(spec_square_sum, 4);
        square(self.x as i64) + square(self.y as i64) + square(self.z as i64)
    }
}

impl IsVec for UVec2 {
    open spec fn spec_length() -> nat {
        2
    }

    open spec fn spec_fits(v: int) -> bool {
        0 <= v <= u32::MAX
    }

    open spec fn spec_components(self) -> Seq<int> {
        seq![self.x as int, self.y as int]
    }

    fn length() -> (r: usize) {
        2
    }

    fn components(self) -> (r: Vec<i64>) {
        vec![self.x as i64, self.y as i64]
    }

    fn from_components(c: &Vec<i64>) -> (r: Option<Self>) {
        if c.len() == 2 && fits_u32(c[0]) && fits_u32(c[1]) {
            Some(UVec2 { x: c[0] as u32, y: c[1] as u32 })
        } else {
            None
        }
    }

    fn sum(self) -> (r: i64) {
        reveal_with_fuel(spec_sum, 3);
        self.x as i64 + self.y as i64
    }

    fn inner_product(self) -> (r: i128) {
        reveal_with_fuel(spec_square_sum, 3);
        square(self.x as i64) + square(self.y as i64)
    }
}

impl IsVec for IVec2 {
    open spec fn spec_length() -> nat {
        2
    }

    open spec fn spec_fits(v: int) -> bool {
        i32::MIN <= v <= i32::MAX
    }

    open spec fn spec_components(self) -> Seq<int> {
        seq![self.x as int, self.y as int]
    }

    fn length() -> (r: usize) {
        2
    }

    fn components(self) -> (r: Vec<i64>) {
        vec![self.x as i64, self.y as i64]
    }

    fn from_components(c: &Vec<i64>) -> (r: Option<Self>) {
        if c.len() == 2 && fits_i32(c[0]) && fits_i32(c[1]) {
            Some(IVec2 { x: c[0] as i32, y: c[1] as i32 })
        } else {
            None
        }
    }

    fn sum(self) -> (r: i64) {
        reveal_with_fuel(spec_sum, 3);
        self.x as i64 + self.y as i64
    }

    fn inner_product(self) -> (r: i128) {
        reveal_with_fuel(spec_square_sum, 3);
        square(self.x as i64) + square(self.y as i64)
    }
}

impl IsVec for UVec4 {
    open spec fn spec_length() -> nat {
        4
    }

    open spec fn spec_fits(v: int) -> bool {
        0 <= v <= u32::MAX
    }

    open spec fn spec_components(self) -> Seq<int> {
        seq![self.x as int, self.y as int, self.z as int, self.w as int]
    }

    fn length() -> (r: usize) {
        4
    }

    fn components(self) -> (r: Vec<i64>) {
        vec![self.x as i64, self.y as i64, self.z as i64, self.w as i64]
    }

    fn from_components(c: &Vec<i64>) -> (r: Option<Self>) {
        if c.len() == 4 && fits_u32(c[0]) && fits_u32(c[1]) && fits_u32(c[2]) && fits_u32(c[3]) {
            Some(UVec4 { x: c[0] as u32, y: c[1] as u32, z: c[2] as u32, w: c[3] as u32 })
        } else {
            None
        }
    }

    fn sum(self) -> (r: i64) {
        reveal_with_fuel(spec_sum, 5);
        self.x as i64 + self.y as i64 + self.z as i64 + self.w as i64
    }

    fn inner_product(self) -> (r: i128) {
        reveal_with_fuel(spec_square_sum, 5);
        square(self.x as i64) + square(self.y as i64) + square(self.z as i64) + square(self.w as i64)
    }
}

impl IsVec for IVec4 {
    open spec fn spec_length() -> nat {
        4
    }

    open spec fn spec_fits(v: int) -> bool {
        i32::MIN <= v <= i32::MAX
    }

    open spec fn spec_components(self) -> Seq<int> {
        seq![self.x as int, self.y as int, self.z as int, self.w as int]
    }

    fn length() -> (r: usize) {
        4
    }

    fn components(self) -> (r: Vec<i64>) {
        vec![self.x as i64, self.y as i64, self.z as i64, self.w as i64]
    }

    fn from_components(c: &Vec<i64>) -> (r: Option<Self>) {
        if c.len() == 4 && fits_i32(c[0]) && fits_i32(c[1]) && fits_i32(c[2]) && fits_i32(c[3]) {
            Some(IVec4 { x: c[0] as i32, y: c[1] as i32, z: c[2] as i32, w: c[3] as i32 })
        } else {
            None
        }
    }

    fn sum(self) -> (r: i64) {
        reveal_with_fuel(spec_sum, 5);
        self.x as i64 + self.y as i64 + self.z as i64 + self.w as i64
    }

    fn inner_product(self) -> (r: i128) {
        reveal_with_fuel(spec_square_sum, 5);
        square(self.x as i64) + square(self.y as i64) + square(self.z as i64) + square(self.w as i64)
    }
}

fn fits_u32(v: i64) -> (r: bool)
    ensures
        r == (0 <= v <= u32::MAX),
{
    v >= 0 && v <= u32::MAX as i64
}

fn fits_i32(v: i64) -> (r: bool)
    ensures
        r == (i32::MIN <= v <= i32::MAX),
{
    v >= i32::MIN as i64 && v <= i32::MAX as i64
}

} // verus!
