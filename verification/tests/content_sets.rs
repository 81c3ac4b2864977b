use druid::content::{Content, ForEachContent, StaticContent};
use druid::context::Env;
use druid::data::DataList;
use druid::event::IdSource;
use druid::geometry::Size;
use druid::label::ClickCounter;

fn keys_of_items(items: &DataList<String>, _env: &Env) -> Vec<u64> {
    (0..items.len() as u64).collect()
}

fn counter_for(_items: &DataList<String>, _env: &Env, _key: u64) -> ClickCounter {
    ClickCounter::new(Size::new(100, 20))
}

fn items(names: &[&str]) -> DataList<String> {
    let mut list = DataList::new();
    for name in names {
        list = list.push_back(name.to_string());
    }
    list
}

#[test]
fn dynamic_list_keeps_rows_on_append() {
    let env = Env::new();
    let mut ids = IdSource::new();
    let mut rows: ForEachContent<DataList<String>, ClickCounter, (), _, _> =
        ForEachContent::new(keys_of_items, counter_for);
    let three = items(&["Apple", "Orange", "Grape"]);
    rows.content_added(&three, &env, &mut ids);
    assert_eq!(rows.len(), 3);
    let before: Vec<u64> = (0..3).map(|i| rows.child_mut(i).unwrap().pod.id().0).collect();
    rows.child_mut(1).unwrap().pod.inner.widget.clicks = 7;

    let four = items(&["Apple", "Orange", "Grape", "Plum"]);
    let changed = rows.update(&three, &four, &env, &mut ids);
    assert!(changed);
    assert_eq!(rows.len(), 4);
    let after: Vec<u64> = (0..4).map(|i| rows.child_mut(i).unwrap().pod.id().0).collect();
    assert_eq!(&after[..3], &before[..]);
    assert!(!before.contains(&after[3]));
    assert_eq!(rows.child_mut(1).unwrap().pod.inner.widget.clicks, 7);
}

#[test]
fn static_content_accepts_children() {
    let mut ids = IdSource::new();
    let content: StaticContent<u64, ClickCounter, ()> =
        StaticContent::of(&mut ids, ClickCounter::new(Size::new(1, 1)));
    let mut content = content.with_child(&mut ids, ClickCounter::new(Size::new(2, 2)));
    assert_eq!(content.len(), 2);
    assert!(!content.is_empty());
    assert_eq!(content.last_child().unwrap().pod.inner.widget.size, Size::new(2, 2));
    assert!(content.child_mut(2).is_none());
}
