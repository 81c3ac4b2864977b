use druid::content::{
    ComposedContent, ConditionalContent, Content, ContentExt, EnsuredPod, ForEachContent,
    StaticContent,
};
use druid::context::Env;
use druid::event::IdSource;
use druid::geometry::Size;
use druid::keyed::reconcile;
use druid::label::ClickCounter;

fn keys(data: &Vec<u64>) -> Vec<u64> {
    data.clone()
}

fn keys_up_to(n: &u64, _env: &Env) -> Vec<u64> {
    (0..*n).collect()
}

fn keys_from_mask(mask: &u64, _env: &Env) -> Vec<u64> {
    (0..64).filter(|bit| mask & (1 << bit) != 0).collect()
}

fn counter(_data: &u64, _env: &Env, key: u64) -> ClickCounter {
    ClickCounter::new(Size::new(key as i64, 1))
}

fn is_odd(data: &u64, _env: &Env) -> bool {
    data % 2 == 1
}

fn one(ids: &mut IdSource, width: i64) -> StaticContent<u64, ClickCounter, ()> {
    StaticContent::of(ids, ClickCounter::new(Size::new(width, 1)))
}

#[test]
fn reconcile_keeps_drops_and_adds() {
    let old = vec![(1u64, Some("a")), (2, Some("b")), (3, None)];
    let (slots, kept, had) = reconcile(old, &keys(&vec![3, 1, 7, 1]));
    assert_eq!(slots, vec![(3, None), (1, Some("a")), (7, None)]);
    assert_eq!(kept, vec![0, 1]);
    assert_eq!(had, vec![true, true, false]);
}

#[test]
fn a_key_present_in_two_rounds_keeps_its_node() {
    let env = Env::new();
    let mut ids = IdSource::new();
    let mut rows: ForEachContent<u64, ClickCounter, (), _, _> =
        ForEachContent::new(keys_from_mask, counter);
    rows.content_added(&0b0110, &env, &mut ids);
    assert_eq!(rows.len(), 2);
    let kept_id = rows.child_mut(1).unwrap().pod.id();
    rows.child_mut(1).unwrap().pod.inner.widget.clicks = 3;
    // key 2 stays, key 1 goes, key 5 comes
    assert!(rows.update(&0b0110, &0b100100, &env, &mut ids));
    assert_eq!(rows.len(), 2);
    assert_eq!(rows.entries[0].0, 2);
    assert_eq!(rows.child_mut(0).unwrap().pod.id(), kept_id);
    assert_eq!(rows.child_mut(0).unwrap().pod.inner.widget.clicks, 3);
    assert_eq!(rows.entries[1].0, 5);
}

#[test]
fn a_key_that_comes_back_after_a_gap_starts_anew() {
    let env = Env::new();
    let mut ids = IdSource::new();
    let mut rows: ForEachContent<u64, ClickCounter, (), _, _> =
        ForEachContent::new(keys_from_mask, counter);
    rows.content_added(&0b10, &env, &mut ids);
    let first_id = rows.child_mut(0).unwrap().pod.id();
    rows.child_mut(0).unwrap().pod.inner.widget.clicks = 9;
    assert!(rows.update(&0b10, &0b00, &env, &mut ids));
    assert_eq!(rows.len(), 0);
    assert!(rows.is_empty());
    assert!(rows.update(&0b00, &0b10, &env, &mut ids));
    assert_eq!(rows.len(), 1);
    let again = rows.child_mut(0).unwrap();
    assert_ne!(again.pod.id(), first_id);
    assert_eq!(again.pod.inner.widget.clicks, 0);
    assert!(!again.pod.is_added());
}

#[test]
fn same_data_skips_the_round_and_same_keys_are_no_change() {
    let env = Env::new();
    let mut ids = IdSource::new();
    let mut rows: ForEachContent<u64, ClickCounter, (), _, _> =
        ForEachContent::new(keys_up_to, counter);
    rows.content_added(&2, &env, &mut ids);
    let drawn = ids.next;
    assert!(!rows.update(&2, &2, &env, &mut ids));
    assert_eq!(ids.next, drawn);
    assert!(rows.update(&2, &3, &env, &mut ids));
    assert!(!rows.update_impl(&3, &env, &mut ids));
    assert!(!rows.add_child_widget(EnsuredPod::new(&mut ids, ClickCounter::new(Size::new(1, 1)))));
    assert_eq!(rows.len(), 3);
    assert!(rows.has_child(2));
    assert!(!rows.has_child(3));
    assert_eq!(rows.last_child().unwrap().pod.inner.widget.size, Size::new(2, 1));
}

#[test]
fn a_key_given_twice_counts_once() {
    fn doubled(_data: &u64, _env: &Env) -> Vec<u64> {
        vec![4, 4, 2, 4]
    }
    let env = Env::new();
    let mut ids = IdSource::new();
    let mut rows: ForEachContent<u64, ClickCounter, (), _, _> =
        ForEachContent::new(doubled, counter);
    rows.content_added(&0, &env, &mut ids);
    assert_eq!(rows.len(), 2);
    assert_eq!(rows.entries[0].0, 4);
    assert_eq!(rows.entries[1].0, 2);
}

#[test]
fn composed_content_indexes_first_then_second() {
    let env = Env::new();
    let mut ids = IdSource::new();
    let first = one(&mut ids, 10).with_child(&mut ids, ClickCounter::new(Size::new(11, 1)));
    let second: ForEachContent<u64, ClickCounter, (), _, _> =
        ForEachContent::new(keys_up_to, counter);
    let mut both = ComposedContent::new(first, second);
    both.content_added(&2, &env, &mut ids);
    assert_eq!(both.len(), 4);
    assert_eq!(both.child_mut(0).unwrap().pod.inner.widget.size.width, 10);
    assert_eq!(both.child_mut(1).unwrap().pod.inner.widget.size.width, 11);
    assert_eq!(both.child_mut(2).unwrap().pod.inner.widget.size.width, 0);
    assert_eq!(both.child_mut(3).unwrap().pod.inner.widget.size.width, 1);
    assert!(both.child_mut(4).is_none());
    assert!(both.has_child(3) && !both.has_child(4));
    // the second operand is dynamic and takes no child from outside
    assert!(!both.add_child_widget(EnsuredPod::new(&mut ids, ClickCounter::new(Size::new(1, 1)))));
    assert!(both.update(&2, &1, &env, &mut ids));
    assert_eq!(both.len(), 3);
    assert_eq!(both.last_child().unwrap().pod.inner.widget.size.width, 0);
    assert!(both.update(&1, &0, &env, &mut ids));
    assert_eq!(both.last_child().unwrap().pod.inner.widget.size.width, 11);
}

#[test]
fn new_children_go_to_the_second_operand() {
    let mut ids = IdSource::new();
    let mut both = one(&mut ids, 1).then(one(&mut ids, 2));
    assert!(both.add_child_widget(EnsuredPod::with_aug(
        &mut ids,
        ClickCounter::new(Size::new(3, 1)),
        (),
    )));
    assert_eq!(both.content1.len(), 1);
    assert_eq!(both.content2.len(), 2);
    assert_eq!(both.child_mut(2).unwrap().pod.inner.widget.size.width, 3);
    assert!(!both.is_empty());
}

#[test]
fn conditional_content_switches_branches() {
    let env = Env::new();
    let mut ids = IdSource::new();
    let mut cond = ConditionalContent::new_if_else(is_odd, one(&mut ids, 1), one(&mut ids, 2));
    assert_eq!(cond.len(), 0);
    assert!(cond.is_empty());
    assert!(cond.child_mut(0).is_none());
    assert!(cond.last_child().is_none());
    cond.content_added(&1, &env, &mut ids);
    assert_eq!(cond.current, Some(true));
    assert_eq!(cond.child_mut(0).unwrap().pod.inner.widget.size.width, 1);
    // the predicate stays true: no change
    assert!(!cond.update(&1, &3, &env, &mut ids));
    // the predicate flips: the other branch is shown, which is a change
    assert!(cond.update(&3, &4, &env, &mut ids));
    assert_eq!(cond.current, Some(false));
    assert_eq!(cond.child_mut(0).unwrap().pod.inner.widget.size.width, 2);
    assert!(cond.false_br.shown);
    // unchanged data changes nothing
    assert!(!cond.update(&4, &4, &env, &mut ids));
    assert!(!cond.add_child_widget(EnsuredPod::new(&mut ids, ClickCounter::new(Size::new(1, 1)))));
}

#[test]
fn conditional_content_without_else_is_empty_when_false() {
    let env = Env::new();
    let mut ids = IdSource::new();
    let mut cond: ConditionalContent<u64, ClickCounter, (), _, _, _> =
        ConditionalContent::new_if(is_odd, one(&mut ids, 1));
    cond.content_added(&2, &env, &mut ids);
    assert_eq!(cond.len(), 0);
    assert!(cond.update(&2, &3, &env, &mut ids));
    assert_eq!(cond.len(), 1);
}

#[test]
fn ensured_pods_carry_their_augmentation() {
    let mut ids = IdSource::new();
    let plain: EnsuredPod<u64, ClickCounter, u8> =
        EnsuredPod::new(&mut ids, ClickCounter::new(Size::new(1, 1)));
    assert_eq!(*plain.aug(), 0);
    let mut given: EnsuredPod<u64, ClickCounter, u8> =
        EnsuredPod::with_aug(&mut ids, ClickCounter::new(Size::new(1, 1)), 5);
    assert_eq!(*given.aug(), 5);
    assert_eq!(given.pod().id().0, 1);
    given.pod_mut().state.is_hot = true;
    assert!(given.pod.is_hot());
}
