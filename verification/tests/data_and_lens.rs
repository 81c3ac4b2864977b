use druid::data::{Data, DataList, Uncompared};
use druid::geometry::Vec2;
use druid::lens::{put, Identity, Lens, Then, Vec2X, Vec2Y};
use druid::tab_policy::{InnerLens, NumberedTabs, SelectedLens, TabsState};

#[test]
fn scalars_compare_by_value() {
    assert!(5u64.same(&5));
    assert!(!5u64.same(&6));
    assert!(true.same(&true));
    assert!(().same(&()));
    assert!("abc".to_string().same(&"abc".to_string()));
    assert!(!"abc".to_string().same(&"abd".to_string()));
    assert_eq!(7i64.duplicate(), 7);
    assert_eq!("abc".to_string().duplicate(), "abc");
    assert!((1u64, true).same(&(1, true)));
    assert!(!(1u64, true).same(&(1, false)));
    assert!(Some(3u64).same(&Some(3)));
    assert!(!Some(3u64).same(&None));
}

#[test]
fn uncompared_is_never_the_same() {
    let a = Uncompared(5u64);
    let b = a.duplicate();
    assert_eq!(b.0, 5);
    assert!(!a.same(&b));
    assert!(!a.same(&a));
}

#[test]
fn data_list_keeps_order() {
    let list = DataList::new().push_back(10u64).push_back(20).push_back(30);
    assert_eq!(list.len(), 3);
    assert_eq!(list.get(0), Some(&10));
    assert_eq!(list.get(2), Some(&30));
    assert_eq!(list.get(3), None);
    let copy = list.duplicate();
    assert!(list.same(&copy));
    let longer = copy.push_back(40);
    assert!(!list.same(&longer));
    assert_eq!(DataList::<u64>::new().len(), 0);
}

#[test]
fn lens_round_trip_leaves_outer_unchanged() {
    let outer = Vec2::new(3, 9);
    for lens in [Vec2X, Vec2X] {
        let mut copy = outer;
        let read = *lens.get(&copy);
        put(&lens, &mut copy, read);
        assert!(copy.same(&outer));
    }
    let mut copy = outer;
    let read = *Vec2Y.get(&copy);
    put(&Vec2Y, &mut copy, read);
    assert!(copy.same(&outer));
}

#[test]
fn lens_write_is_read_back() {
    let mut v = Vec2::new(1, 2);
    put(&Vec2X, &mut v, 10);
    assert_eq!(v, Vec2::new(10, 2));
    assert_eq!(*Vec2X.get(&v), 10);
    *Vec2Y.get_mut(&mut v) = 20;
    assert_eq!(v, Vec2::new(10, 20));
    let mut whole = 5u64;
    put(&Identity, &mut whole, 6);
    assert_eq!(whole, 6);
}

#[test]
fn lenses_in_a_row_reach_the_inner_part() {
    let mut state: TabsState<NumberedTabs> = TabsState::new(4, 1, NumberedTabs);
    let first: Then<Identity, SelectedLens, TabsState<NumberedTabs>> =
        Then::new(Identity, SelectedLens);
    assert_eq!(*first.get(&state), 1);
    put(&first, &mut state, 3);
    assert_eq!(state.selected, 3);
    assert_eq!(state.inner, 4);
    put(&InnerLens, &mut state, 9);
    assert_eq!(state.inner, 9);
    assert_eq!(state.selected, 3);
    let before_inner = state.inner;
    let read = *Lens::<TabsState<NumberedTabs>, u64>::get(&InnerLens, &state);
    put(&InnerLens, &mut state, read);
    assert_eq!(state.inner, before_inner);
}
