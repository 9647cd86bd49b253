use containerof::{
    field_offset, trio_offset, BorrowBox, BorrowBoxMut, FieldShape, Heap, Intrusive,
    IntrusiveAlias, IntrusiveBase, OwnBox, Trio, TrioFirst, TrioSecond, TrioThird,
};

type MyStruct = Trio<i32>;
type MyStructField2 = TrioSecond<i32>;

fn my_struct() -> MyStruct {
    Trio { first: 1, second: 2, third: 3 }
}

fn heap_with_one() -> (Heap<MyStruct>, usize) {
    let mut heap = Heap::new(0x1000, 12);
    let b = OwnBox::from_box(my_struct(), &mut heap).unwrap();
    let at = b.into_alias().get_address();
    (heap, at)
}

#[test]
fn test_field_offset() {
    let (heap, ms_addr) = heap_with_one();
    let f1 = <TrioFirst<i32> as Intrusive>::of_container(&heap, ms_addr);
    let f2 = <TrioSecond<i32> as Intrusive>::of_container(&heap, ms_addr);
    let f3 = <TrioThird<i32> as Intrusive>::of_container(&heap, ms_addr);
    assert_eq!(f1.as_alias().get_address() - ms_addr, TrioFirst::<i32>::offset());
    assert_eq!(f2.as_alias().get_address() - ms_addr, TrioSecond::<i32>::offset());
    assert_eq!(f3.as_alias().get_address() - ms_addr, TrioThird::<i32>::offset());
}

#[test]
fn test_intrusive_container_roundtrip() {
    let mut heap = Heap::new(0x1000, 12);
    let mc1 = OwnBox::from_box(my_struct(), &mut heap).unwrap();
    let mc1_addr = mc1.get_address();

    let mcfield: MyStructField2 = Intrusive::from_container(mc1);
    let container = mcfield.as_container(&heap);
    assert_eq!((container.first, container.second, container.third), (1, 2, 3));

    let mc2 = mcfield.into_container();
    let mc2_addr = mc2.get_address();
    assert_eq!(mc1_addr, mc2_addr);

    let v = mc2.into_box(&mut heap);
    assert_eq!(v.second, 2);
    assert!(!heap.holds(mc1_addr));
}

#[test]
fn test_intrusive_field_roundtrip() {
    let mut heap = Heap::new(0x1000, 12);
    let mc1 = OwnBox::from_box(my_struct(), &mut heap).unwrap();
    let mc1_addr = mc1.get_address();
    let mc1_field_addr =
        <MyStructField2 as Intrusive>::of_container(&heap, mc1_addr).as_alias().get_address();

    let mcfield: MyStructField2 = Intrusive::from_container(mc1);
    assert_eq!(mc1_field_addr, mcfield.as_alias().get_address());
    assert_eq!(*mcfield.as_field(&heap), 2);

    let mcfield = mcfield.into_field();
    assert_eq!(mc1_field_addr, mcfield.get_address());

    let mcfield: MyStructField2 = Intrusive::from_field(mcfield);
    let mc2 = mcfield.into_container();
    assert_eq!(mc1_addr, mc2.get_address());

    let _ = mc2.into_box(&mut heap);
}

#[test]
fn test_borrow_box() {
    let (mut heap, at) = heap_with_one();
    {
        let mcfield = <MyStructField2 as Intrusive>::of_container(&heap, at);
        assert_eq!(2, *mcfield.as_field());
    }
    {
        let mut mcfield = <MyStructField2 as Intrusive>::of_container_mut(&mut heap, at);
        assert_eq!(2, *mcfield.as_field());
        *mcfield.as_field_mut() = 10;
        assert_eq!(10, *mcfield.as_field());
    }
    assert_eq!(10, heap.get(at).second);
}

#[test]
fn trio_of_four_byte_fields_is_packed() {
    assert_eq!(TrioFirst::<i32>::offset(), 0);
    assert_eq!(TrioSecond::<i32>::offset(), 4);
    assert_eq!(TrioThird::<i32>::offset(), 8);
    assert_eq!(trio_offset::<u64>(2), 16);
    assert_eq!(trio_offset::<u8>(1), 1);
}

#[test]
fn field_offset_inserts_padding_for_alignment() {
    let shapes = vec![
        FieldShape { size: 1, align: 1 },
        FieldShape { size: 4, align: 4 },
        FieldShape { size: 2, align: 2 },
        FieldShape { size: 8, align: 8 },
    ];
    assert_eq!(field_offset(&shapes, 0), 0);
    assert_eq!(field_offset(&shapes, 1), 4);
    assert_eq!(field_offset(&shapes, 2), 8);
    assert_eq!(field_offset(&shapes, 3), 16);
}

#[test]
fn field_offset_without_padding() {
    let shape = FieldShape { size: 4, align: 4 };
    let shapes = vec![shape, shape, shape];
    assert_eq!(field_offset(&shapes, 0), 0);
    assert_eq!(field_offset(&shapes, 1), 4);
    assert_eq!(field_offset(&shapes, 2), 8);
}

#[test]
fn write_through_owning_handle_reaches_container() {
    let mut heap = Heap::new(0x2000, 12);
    let b = OwnBox::from_box(my_struct(), &mut heap).unwrap();
    let addr = b.get_address();
    let h: MyStructField2 = Intrusive::from_container(b);
    *h.as_field_mut(&mut heap) = 10;
    let back = h.into_container();
    assert_eq!(back.get_address(), addr);
    let c = back.get(&heap);
    assert_eq!(c.second, 10);
    assert_eq!(c.first, 1);
    assert_eq!(c.third, 3);
    let _ = back.into_box(&mut heap);
}

#[test]
fn write_through_mutable_borrow_keeps_other_fields_and_containers() {
    let mut heap = Heap::new(0x3000, 12);
    let a = OwnBox::from_box(my_struct(), &mut heap).unwrap().into_alias().get_address();
    let b = OwnBox::from_box(Trio { first: 7, second: 8, third: 9 }, &mut heap)
        .unwrap()
        .into_alias()
        .get_address();
    assert_eq!(b, a + 12);
    {
        let mut view = <TrioThird<i32> as Intrusive>::of_container_mut(&mut heap, a);
        *view.as_field_mut() = -5;
        assert_eq!(view.as_container().third, -5);
    }
    let c = heap.get(a);
    assert_eq!((c.first, c.second, c.third), (1, 2, -5));
    let d = heap.get(b);
    assert_eq!((d.first, d.second, d.third), (7, 8, 9));
}

#[test]
fn handle_and_alias_convert_without_change() {
    for addr in [0usize, 1, 0xdead_beef, usize::MAX] {
        let h: MyStructField2 = Intrusive::from_alias(IntrusiveAlias::new(addr));
        assert_eq!(h.as_alias().get_address(), addr);
        let ia = h.into_alias();
        assert_eq!(ia, IntrusiveAlias::new(addr));
        assert_eq!(ia.get_address(), addr);
    }
}

#[test]
fn alias_of_owned_value() {
    let mut heap = Heap::new(0x40, 4);
    let b = OwnBox::from_box(5u32, &mut heap).unwrap();
    let ia = IntrusiveAlias::new_of(&b);
    assert_eq!(ia.get_address(), 0x40);
    assert_eq!(*b.as_alias(), ia);
    assert_eq!(b.into_box(&mut heap), 5);
}

#[test]
fn heap_refuses_when_addresses_run_out() {
    let mut heap: Heap<u8> = Heap::new(usize::MAX - 5, 4);
    let first = OwnBox::from_box(1u8, &mut heap).unwrap();
    assert_eq!(first.get_address(), usize::MAX - 5);
    let second = OwnBox::from_box(2u8, &mut heap).unwrap();
    assert_eq!(second.get_address(), usize::MAX - 1);
    assert!(OwnBox::from_box(3u8, &mut heap).is_none());
    assert!(heap.holds(usize::MAX - 5));
    assert!(heap.holds(usize::MAX - 1));
    assert_eq!(second.into_box(&mut heap), 2);
    assert_eq!(first.into_box(&mut heap), 1);
}

#[test]
fn heap_addresses_are_never_reused() {
    let mut heap: Heap<u8> = Heap::new(100, 10);
    let a = OwnBox::from_box(1u8, &mut heap).unwrap();
    assert_eq!(a.into_box(&mut heap), 1);
    assert!(!heap.holds(100));
    let b = OwnBox::from_box(2u8, &mut heap).unwrap();
    assert_eq!(b.get_address(), 110);
    assert!(!heap.holds(105));
    assert!(!heap.holds(99));
    assert!(!heap.holds(120));
    *b.get_mut(&mut heap) = 9;
    assert_eq!(*b.get(&heap), 9);
    assert_eq!(b.into_box(&mut heap), 9);
}

#[test]
fn views_from_a_field_address() {
    let (mut heap, at) = heap_with_one();
    let field = at + 8;
    {
        let view = <TrioThird<i32> as Intrusive>::of_field(&heap, field);
        assert_eq!(*view.as_field(), 3);
        assert_eq!(view.as_container().first, 1);
    }
    {
        let mut view = <TrioThird<i32> as Intrusive>::of_field_mut(&mut heap, field);
        *view.as_container_mut() = Trio { first: 4, second: 5, third: 6 };
        assert_eq!(*view.as_field(), 6);
    }
    assert_eq!(heap.get(at).second, 5);
}

#[test]
fn container_access_through_owning_handle() {
    let (mut heap, at) = heap_with_one();
    let h: TrioFirst<i32> = Intrusive::from_container(OwnBox::from_alias(IntrusiveAlias::new(at)));
    assert_eq!(h.as_alias().get_address(), at);
    h.as_container_mut(&mut heap).third = 30;
    assert_eq!(h.as_container(&heap).third, 30);
    assert_eq!(*h.as_field(&heap), 1);
    let back = h.into_container();
    assert_eq!(back.get_address(), at);
    let v = back.into_box(&mut heap);
    assert_eq!((v.first, v.second, v.third), (1, 2, 30));
}

#[test]
fn borrow_boxes_built_from_a_handle() {
    let (mut heap, at) = heap_with_one();
    let h: MyStructField2 = Intrusive::from_alias(IntrusiveAlias::new(at + 4));
    {
        let view = BorrowBox::new(&h, &heap);
        assert_eq!(*view.as_field(), 2);
    }
    {
        let mut view = BorrowBoxMut::new(&h, &mut heap);
        *view.as_field_mut() = 12;
    }
    assert_eq!(*h.as_field(&heap), 12);
    let from = BorrowBox::<MyStructField2>::new_from(IntrusiveAlias::new(at + 4), &heap);
    assert_eq!(from.as_container().second, 12);
}

#[test]
fn handle_retargeted_through_mutable_alias() {
    let (heap, at) = heap_with_one();
    let mut h: TrioFirst<i32> = Intrusive::from_alias(IntrusiveAlias::new(0));
    assert_eq!(*h.as_alias_mut(), IntrusiveAlias::new(0));
    *h.as_alias_mut() = IntrusiveAlias::new(at);
    assert_eq!(h.as_alias().get_address(), at);
    assert_eq!(*h.as_field(&heap), 1);
}
