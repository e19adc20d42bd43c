use voxel_mesher::ext::{Convert as ExtConvert, VecExt};
use voxel_mesher::math::aabb::{ChunkPos, Contains, Intersects, AABB};
use voxel_mesher::math::axis::{AsVecT, WorldAxis};
use voxel_mesher::math::iter::{DynAxisIter, IterDirUnit, IterDirection, Reverse, StaticAxisIter};
use voxel_mesher::math::mat::Mat3;
use voxel_mesher::math::side::{Side, SIDE_COUNT};
use voxel_mesher::math::vec::{
    mul_small, IVec2, IVec3, IVec4, IsVec, OuterProductExt, UVec2, UVec3, UVec4, X, Y, Z,
};

fn apply(m: Mat3, v: IVec3) -> IVec3 {
    let (x, y, z) = m.mul_vec3(v.x as i64, v.y as i64, v.z as i64);
    IVec3::new(x as i32, y as i32, z as i32)
}

#[test]
fn sides_have_the_documented_attributes() {
    let all = Side::all();
    assert_eq!(all.len(), SIDE_COUNT);
    assert_eq!(all, [Side::East, Side::West, Side::Top, Side::Bottom, Side::South, Side::North]);
    let directions = [
        IVec3::new(1, 0, 0),
        IVec3::new(-1, 0, 0),
        IVec3::new(0, 1, 0),
        IVec3::new(0, -1, 0),
        IVec3::new(0, 0, 1),
        IVec3::new(0, 0, -1),
    ];
    let names = ["East", "West", "Top", "Bottom", "South", "North"];
    for (i, side) in all.into_iter().enumerate() {
        assert_eq!(side.as_usize(), i);
        assert_eq!(side.index(), i);
        assert_eq!(Side::from_index(i), Some(side));
        assert_eq!(side.direction(), directions[i]);
        assert_eq!(side.normal(), directions[i]);
        assert_eq!(side.is_negative(), i % 2 == 1);
        assert_eq!(side.axis().as_usize(), i / 2);
        assert_eq!(side.opposite().as_usize(), i ^ 1);
        assert_eq!(side.opposite().opposite(), side);
        assert_eq!(side.name(), names[i]);
    }
    assert_eq!(Side::from_index(6), None);
    assert_eq!(Side::default(), Side::East);
    assert_eq!(Side::Top.up(), Side::North);
    assert_eq!(Side::Bottom.up(), Side::South);
    assert_eq!(Side::East.up(), Side::Top);
    assert_eq!(Side::Top.down(), Side::South);
    assert_eq!(Side::Bottom.down(), Side::North);
    assert_eq!(Side::North.down(), Side::Bottom);
}

#[test]
fn rotations_carry_one_side_onto_the_other() {
    for a in Side::all() {
        for b in Side::all() {
            let r = a.rotation_to(b);
            assert_eq!(apply(r, a.direction()), b.direction());
            for v in [IVec3::new(1, 2, 3), IVec3::new(-4, 0, 9)] {
                assert_eq!(apply(r, apply(r, v)), v);
            }
            assert_eq!(r.row(0), r.x_axis);
            assert_eq!(r.row(1), r.y_axis);
            assert_eq!(r.row(2), r.z_axis);
        }
    }
    assert_eq!(Side::South.rotation_to(Side::South), Mat3::identity());
    assert_eq!(
        Side::South.rotation_to(Side::East),
        Mat3 { x_axis: IVec3::new(0, 0, 1), y_axis: IVec3::new(0, -1, 0), z_axis: IVec3::new(1, 0, 0) }
    );
    assert_eq!(
        Side::East.rotation_to(Side::Top),
        Mat3 { x_axis: IVec3::new(0, 1, 0), y_axis: IVec3::new(1, 0, 0), z_axis: IVec3::new(0, 0, -1) }
    );
    assert_eq!(Side::South.rotation_to(Side::North), Mat3::from_diagonal(IVec3::new(-1, 1, -1)));
    assert_eq!(Side::East.rotation_to(Side::West), Mat3::from_diagonal(IVec3::new(-1, -1, 1)));
    assert_eq!(Side::Bottom.rotation_to(Side::Top), Mat3::from_diagonal(IVec3::new(-1, -1, 1)));
}

#[test]
fn matrices_and_small_products() {
    let m = Mat3 { x_axis: IVec3::new(0, 1, 0), y_axis: IVec3::new(-1, 0, 0), z_axis: IVec3::new(0, 0, 1) };
    assert_eq!(m.mul_vec3(2, 3, 4), (-3, 2, 4));
    assert_eq!(m.row(0), IVec3::new(0, -1, 0));
    assert_eq!(m.row(1), IVec3::new(1, 0, 0));
    assert_eq!(Mat3::identity().mul_vec3(-7, 8, 9), (-7, 8, 9));
    assert_eq!(Mat3::from_diagonal(IVec3::new(1, -1, 0)).mul_vec3(5, 6, 7), (5, -6, 0));
    for a in -2..=2 {
        for b in -2..=2 {
            assert_eq!(mul_small(a, b), a * b);
        }
    }
    assert_eq!(mul_small(46340, 46340), 2147395600);
    assert_eq!(mul_small(-46340, 46340), -2147395600);
    assert_eq!(mul_small(7, -300), -2100);
    assert_eq!(IVec3::new(3, -4, 100).outer_product().z_axis, IVec3::new(300, -400, 10000));
    let outer = IVec3::new(1, 0, -1).outer_product();
    assert_eq!(outer.x_axis, IVec3::new(1, 0, -1));
    assert_eq!(outer.y_axis, IVec3::new(0, 0, 0));
    assert_eq!(outer.z_axis, IVec3::new(-1, 0, 1));
    assert_eq!(IVec3::new(2, 1, 0).outer_product().x_axis, IVec3::new(4, 2, 0));
}

#[test]
fn axes_and_vectors() {
    assert_eq!(WorldAxis::X.as_uvec3(), UVec3::new(1, 0, 0));
    assert_eq!(WorldAxis::Y.as_ivec3(), IVec3::new(0, 1, 0));
    assert_eq!(WorldAxis::Z.as_uvec3(), UVec3::new(0, 0, 1));
    assert_eq!(WorldAxis::X.slice_plane(), [WorldAxis::Y, WorldAxis::Z]);
    assert_eq!(WorldAxis::Y.slice_plane(), [WorldAxis::X, WorldAxis::Z]);
    assert_eq!(WorldAxis::Z.slice_plane(), [WorldAxis::X, WorldAxis::Y]);
    assert_eq!(WorldAxis::Z.as_usize(), 2);
    let u3: UVec3 = WorldAxis::Y.as_vec_t();
    let i3: IVec3 = WorldAxis::Z.as_vec_t();
    let u2: UVec2 = WorldAxis::Y.as_vec_t();
    let i2: IVec2 = WorldAxis::X.as_vec_t();
    assert_eq!((u3, i3), (UVec3::new(0, 1, 0), IVec3::new(0, 0, 1)));
    assert_eq!((u2, i2), (UVec2::new(0, 1), IVec2::new(1, 0)));
    let v = UVec3::new(7, 8, 9);
    assert_eq!((v.axis(WorldAxis::X), v.axis(WorldAxis::Y), v.axis(WorldAxis::Z)), (7, 8, 9));
    assert_eq!(IVec3::new(-1, -2, -3).axis(WorldAxis::Z), -3);
    assert_eq!(v.xy(), UVec2::new(7, 8));
    assert_eq!(UVec2::new(1, 2).extend(3), UVec3::new(1, 2, 3));
    assert!(UVec3::new(0, 1, 2).within(UVec3::new(1, 2, 3)));
    assert!(!UVec3::new(1, 1, 2).within(UVec3::new(1, 2, 3)));
    assert!(!UVec3::new(0, 1, 3).within(UVec3::new(1, 2, 3)));
    assert_eq!(v.get_axis_coord(WorldAxis::Y), Some(8));
    assert_eq!(VecExt::sum(&v), 24);
    assert_eq!(<UVec3 as VecExt<u32>>::dim(), 3);
    let signed: IVec3 = ExtConvert::convert(UVec3::new(1, 2, 3));
    assert_eq!(signed, IVec3::new(1, 2, 3));
    let unsigned: UVec3 = ExtConvert::convert(IVec3::new(4, 5, 6));
    assert_eq!(unsigned, UVec3::new(4, 5, 6));
}

#[test]
fn vector_components() {
    assert_eq!(UVec3::length(), 3);
    assert_eq!(IVec2::length(), 2);
    assert_eq!(UVec4::length(), 4);
    assert_eq!(UVec3::new(1, 2, 3).components(), vec![1, 2, 3]);
    assert_eq!(IVec4 { x: -1, y: 2, z: -3, w: 4 }.components(), vec![-1, 2, -3, 4]);
    assert_eq!(IsVec::sum(UVec3::new(u32::MAX, u32::MAX, 2)), 2 * (u32::MAX as i64) + 2);
    assert_eq!(IsVec::sum(IVec2::new(-5, 3)), -2);
    assert_eq!(UVec2::new(3, 4).inner_product(), 25);
    assert_eq!(IVec3::new(-1, -2, -3).inner_product(), 14);
    assert_eq!(UVec4::new(u32::MAX, 0, 0, 1).inner_product(), (u32::MAX as i128) * (u32::MAX as i128) + 1);
    assert_eq!(UVec3::from_components(&vec![1, 2, 3]), Some(UVec3::new(1, 2, 3)));
    assert_eq!(UVec3::from_components(&vec![1, 2]), None);
    assert_eq!(UVec3::from_components(&vec![1, -2, 3]), None);
    assert_eq!(IVec2::from_components(&vec![-1, 2]), Some(IVec2::new(-1, 2)));
    assert_eq!(IVec2::from_components(&vec![-1, 1 << 40]), None);
    assert_eq!(UVec4::from_components(&vec![1, 2, 3, 4]), Some(UVec4::new(1, 2, 3, 4)));
    assert_eq!(IVec4::from_components(&vec![1, 2, 3, 4]), Some(IVec4 { x: 1, y: 2, z: 3, w: 4 }));
    assert_eq!(UVec2::from_components(&vec![5, 6]), Some(UVec2::new(5, 6)));
    assert_eq!(IVec3::from_components(&vec![5, 6, -7]), Some(IVec3::new(5, 6, -7)));
}

#[test]
fn boxes() {
    let b = AABB::new(IVec3::new(5, -2, 7), IVec3::new(1, 4, 7));
    assert_eq!((b.start, b.end), (IVec3::new(1, -2, 7), IVec3::new(5, 4, 7)));
    assert_eq!(b.center(), IVec3::new(3, 0, 10));
    assert_eq!(AABB::new(IVec3::new(0, 0, 0), IVec3::new(-3, -5, 3)).center(), IVec3::new(-3, -5, 1));
    let raw = AABB::new_unchecked(IVec3::new(9, 9, 9), IVec3::new(0, 0, 0));
    assert_eq!((raw.start, raw.end), (IVec3::new(9, 9, 9), IVec3::new(0, 0, 0)));
    let region = AABB::new_unchecked(
        ChunkPos { value: IVec3::new(-1, -1, -1) },
        ChunkPos { value: IVec3::new(1, 2, 3) },
    );
    assert!(region.test_contains(&ChunkPos { value: IVec3::new(0, 0, 0) }));
    assert!(region.test_contains(&ChunkPos { value: IVec3::new(-1, 2, 3) }));
    assert!(!region.test_contains(&ChunkPos { value: IVec3::new(2, 0, 0) }));
    assert!(!region.test_contains(&ChunkPos { value: IVec3::new(0, -2, 0) }));
    assert!(!region.test_contains(&ChunkPos { value: IVec3::new(0, 0, 4) }));
    assert!(region.test_intersects(&ChunkPos { value: IVec3::new(1, 2, 3) }));
    assert!(!region.test_intersects(&ChunkPos { value: IVec3::new(1, 3, 3) }));
}

#[test]
fn walks_along_an_axis() {
    let mut up = DynAxisIter::new(WorldAxis::Y, UVec3::new(1, 2, 3), 4);
    let mut seen = Vec::new();
    while let Some(p) = up.next() {
        seen.push(p);
    }
    assert_eq!(seen, vec![UVec3::new(1, 2, 3), UVec3::new(1, 3, 3), UVec3::new(1, 4, 3)]);
    assert_eq!(up.next(), None);
    let mut down = DynAxisIter::new_reverse(WorldAxis::X, UVec3::new(2, 0, 0), 0);
    let mut seen = Vec::new();
    while let Some(p) = down.next() {
        seen.push(p.x);
    }
    assert_eq!(seen, vec![2, 1, 0]);
    assert_eq!(down.next(), None);
    assert_eq!(DynAxisIter::new(WorldAxis::Z, UVec3::new(0, 0, 5), 4).next(), None);
    assert_eq!(DynAxisIter::new_reverse(WorldAxis::Z, UVec3::new(0, 0, 3), 4).next(), None);
    let mut edge = DynAxisIter::new(WorldAxis::Z, UVec3::new(0, 0, u32::MAX - 1), u32::MAX);
    assert_eq!(edge.next(), Some(UVec3::new(0, 0, u32::MAX - 1)));
    assert_eq!(edge.next(), Some(UVec3::new(0, 0, u32::MAX)));
    assert_eq!(edge.next(), None);
    let mut fixed: StaticAxisIter<Z> = StaticAxisIter::new(UVec3::new(0, 0, 1), 2);
    assert_eq!(fixed.next(), Some(UVec3::new(0, 0, 1)));
    assert_eq!(fixed.next(), Some(UVec3::new(0, 0, 2)));
    assert_eq!(fixed.next(), None);
    let mut back: StaticAxisIter<Reverse<Y>> = StaticAxisIter::new(UVec3::new(0, 1, 0), 0);
    assert_eq!(back.next(), Some(UVec3::new(0, 1, 0)));
    assert_eq!(back.next(), Some(UVec3::new(0, 0, 0)));
    assert_eq!(back.next(), None);
    assert_eq!(X::unit(), IterDirUnit::X);
    assert_eq!(Y::axis(), WorldAxis::Y);
    assert!(!Z::inverse());
    assert_eq!(<Reverse<X>>::unit().as_ivec3(), IVec3::new(-1, 0, 0));
    assert_eq!(<Reverse<Z>>::axis(), WorldAxis::Z);
    assert!(<Reverse<Y>>::inverse());
    assert_eq!(IterDirUnit::RY.as_ivec3(), IVec3::new(0, -1, 0));
    assert_eq!(IterDirUnit::Z.as_ivec3(), IVec3::new(0, 0, 1));
}
