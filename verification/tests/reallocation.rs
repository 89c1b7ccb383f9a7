use matalloc::allocator::{BaseAllocator, Reallocator};
use matalloc::default_allocator::DefaultAllocator;
use matalloc::dimension::{Const, Dynamic};
use matalloc::storage::{ArrayStorage, Storage, VecStorage};

fn static_2x3(elems: Vec<i32>) -> ArrayStorage<i32, 2, 3> {
    <DefaultAllocator as BaseAllocator<i32, Const<2>, Const<3>>>::allocate_from_iterator(
        Const,
        Const,
        elems,
    )
}

fn dynamic_2x3(elems: Vec<i32>) -> VecStorage<i32, Dynamic, Dynamic> {
    <DefaultAllocator as BaseAllocator<i32, Dynamic, Dynamic>>::allocate_from_iterator(
        Dynamic::new(2),
        Dynamic::new(3),
        elems,
    )
}

#[test]
fn identity_reshape_static_keeps_contents() {
    let buf = static_2x3(vec![1, 2, 3, 4, 5, 6]);
    let same: ArrayStorage<i32, 2, 3> = <DefaultAllocator as Reallocator<
        i32,
        Const<2>,
        Const<3>,
        Const<2>,
        Const<3>,
    >>::reallocate_copy(Const, Const, buf, 0);
    assert_eq!(same.as_slice(), &[1, 2, 3, 4, 5, 6]);
}

#[test]
fn identity_reshape_dynamic_keeps_contents() {
    let buf = dynamic_2x3(vec![1, 2, 3, 4, 5, 6]);
    let same: VecStorage<i32, Dynamic, Dynamic> = <DefaultAllocator as Reallocator<
        i32,
        Dynamic,
        Dynamic,
        Dynamic,
        Dynamic,
    >>::reallocate_copy(Dynamic::new(2), Dynamic::new(3), buf, 0);
    assert_eq!(same.as_slice(), &[1, 2, 3, 4, 5, 6]);
}

#[test]
fn shrink_keeps_leading_elements_static() {
    let buf = static_2x3(vec![1, 2, 3, 4, 5, 6]);
    let smaller: ArrayStorage<i32, 2, 2> = <DefaultAllocator as Reallocator<
        i32,
        Const<2>,
        Const<3>,
        Const<2>,
        Const<2>,
    >>::reallocate_copy(Const, Const, buf, 0);
    assert_eq!(smaller.as_slice(), &[1, 2, 3, 4]);
}

#[test]
fn shrink_keeps_leading_elements_dynamic() {
    let buf = dynamic_2x3(vec![1, 2, 3, 4, 5, 6]);
    let smaller: VecStorage<i32, Dynamic, Dynamic> = <DefaultAllocator as Reallocator<
        i32,
        Dynamic,
        Dynamic,
        Dynamic,
        Dynamic,
    >>::reallocate_copy(Dynamic::new(2), Dynamic::new(2), buf, 0);
    assert_eq!(smaller.as_slice(), &[1, 2, 3, 4]);
}

#[test]
fn grow_keeps_contents_as_prefix() {
    let buf: ArrayStorage<i32, 2, 2> =
        <DefaultAllocator as BaseAllocator<i32, Const<2>, Const<2>>>::allocate_from_iterator(
            Const,
            Const,
            vec![1, 2, 3, 4],
        );
    let mut bigger: ArrayStorage<i32, 2, 3> = <DefaultAllocator as Reallocator<
        i32,
        Const<2>,
        Const<2>,
        Const<2>,
        Const<3>,
    >>::reallocate_copy(Const, Const, buf, 0);
    assert_eq!(&bigger.as_slice()[..4], &[1, 2, 3, 4]);
    // The two trailing positions belong to the caller: write them before
    // reading them back.
    bigger.set_linear(4, 50);
    bigger.set_linear(5, 60);
    assert_eq!(bigger.as_slice(), &[1, 2, 3, 4, 50, 60]);
}

#[test]
fn grow_fills_tail_with_fill_element() {
    let buf = dynamic_2x3(vec![1, 2, 3, 4, 5, 6]);
    let bigger: VecStorage<i32, Dynamic, Dynamic> = <DefaultAllocator as Reallocator<
        i32,
        Dynamic,
        Dynamic,
        Dynamic,
        Dynamic,
    >>::reallocate_copy(Dynamic::new(3), Dynamic::new(3), buf, -1);
    assert_eq!(bigger.as_slice(), &[1, 2, 3, 4, 5, 6, -1, -1, -1]);
}

#[test]
fn reallocate_static_to_dynamic_rows() {
    let buf = static_2x3(vec![1, 2, 3, 4, 5, 6]);
    let dynamic: VecStorage<i32, Dynamic, Const<3>> = <DefaultAllocator as Reallocator<
        i32,
        Const<2>,
        Const<3>,
        Dynamic,
        Const<3>,
    >>::reallocate_copy(Dynamic::new(2), Const, buf, 0);
    assert_eq!(dynamic.as_slice(), &[1, 2, 3, 4, 5, 6]);
}

#[test]
fn reallocate_static_to_dynamic_cols() {
    let buf = static_2x3(vec![1, 2, 3, 4, 5, 6]);
    let dynamic: VecStorage<i32, Const<2>, Dynamic> = <DefaultAllocator as Reallocator<
        i32,
        Const<2>,
        Const<3>,
        Const<2>,
        Dynamic,
    >>::reallocate_copy(Const, Dynamic::new(2), buf, 0);
    assert_eq!(dynamic.as_slice(), &[1, 2, 3, 4]);
}

#[test]
fn reallocate_dynamic_to_static() {
    let buf = dynamic_2x3(vec![1, 2, 3, 4, 5, 6]);
    let fixed: ArrayStorage<i32, 3, 3> = <DefaultAllocator as Reallocator<
        i32,
        Dynamic,
        Dynamic,
        Const<3>,
        Const<3>,
    >>::reallocate_copy(Const, Const, buf, 7);
    assert_eq!(fixed.as_slice(), &[1, 2, 3, 4, 5, 6, 7, 7, 7]);
}

#[test]
fn reallocate_between_mixed_dynamic_kinds() {
    let buf: VecStorage<i32, Dynamic, Const<2>> =
        <DefaultAllocator as BaseAllocator<i32, Dynamic, Const<2>>>::allocate_from_iterator(
            Dynamic::new(2),
            Const,
            vec![1, 2, 3, 4],
        );
    let other: VecStorage<i32, Const<2>, Dynamic> = <DefaultAllocator as Reallocator<
        i32,
        Dynamic,
        Const<2>,
        Const<2>,
        Dynamic,
    >>::reallocate_copy(Const, Dynamic::new(3), buf, 0);
    assert_eq!(other.as_slice(), &[1, 2, 3, 4, 0, 0]);
    let back: VecStorage<i32, Dynamic, Const<2>> = <DefaultAllocator as Reallocator<
        i32,
        Const<2>,
        Dynamic,
        Dynamic,
        Const<2>,
    >>::reallocate_copy(Dynamic::new(2), Const, other, 0);
    assert_eq!(back.as_slice(), &[1, 2, 3, 4]);
}

#[test]
fn try_reallocate_accepts_representable_shape() {
    let buf = dynamic_2x3(vec![1, 2, 3, 4, 5, 6]);
    let res: Option<VecStorage<i32, Dynamic, Dynamic>> = <DefaultAllocator as Reallocator<
        i32,
        Dynamic,
        Dynamic,
        Dynamic,
        Dynamic,
    >>::try_reallocate_copy(Dynamic::new(1), Dynamic::new(2), buf, 0);
    let res = res.expect("a small target shape must be accepted");
    assert_eq!(res.as_slice(), &[1, 2]);
}

#[test]
fn try_reallocate_refuses_oversized_shape() {
    let buf = dynamic_2x3(vec![1, 2, 3, 4, 5, 6]);
    let res: Option<VecStorage<i32, Dynamic, Dynamic>> = <DefaultAllocator as Reallocator<
        i32,
        Dynamic,
        Dynamic,
        Dynamic,
        Dynamic,
    >>::try_reallocate_copy(Dynamic::new(usize::MAX), Dynamic::new(2), buf, 0);
    assert!(res.is_none());
}
