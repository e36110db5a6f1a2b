use item_store::model::{ItemList, ItemMetadata, ItemMetadataRequest, ModelController};

fn req(name: &str, description: &str) -> ItemMetadataRequest {
    ItemMetadataRequest { name: name.to_string(), description: description.to_string() }
}

fn item(id: u64, name: &str, description: &str) -> ItemMetadata {
    ItemMetadata { id, name: name.to_string(), description: description.to_string() }
}

#[test]
fn empty_strings_are_accepted() {
    let mc = ModelController::new().unwrap();
    let created = mc.add_item(req("", "")).unwrap();
    assert_eq!(created, item(0, "", ""));
    assert_eq!(mc.get_items().unwrap(), vec![item(0, "", "")]);
}

#[test]
fn add_then_list_single_item() {
    let mc = ModelController::new().unwrap();
    let created = mc.add_item(req("item1", "item1 description")).unwrap();
    assert_eq!(created, item(0, "item1", "item1 description"));
    assert_eq!(mc.get_items().unwrap(), vec![item(0, "item1", "item1 description")]);
}

#[test]
fn two_creates_get_ids_zero_and_one() {
    let mc = ModelController::new().unwrap();
    let first = mc.add_item(req("item1", "item1 description")).unwrap();
    let second = mc.add_item(req("item2", "item2 description")).unwrap();
    assert_eq!(first.id, 0);
    assert_eq!(second.id, 1);
    assert_eq!(
        mc.get_items().unwrap(),
        vec![item(0, "item1", "item1 description"), item(1, "item2", "item2 description")]
    );
}

#[test]
fn repeated_listing_is_identical() {
    let mc = ModelController::new().unwrap();
    mc.add_item(req("a", "b")).unwrap();
    mc.add_item(req("c", "d")).unwrap();
    let first = mc.get_items().unwrap();
    let second = mc.get_items().unwrap();
    assert_eq!(first, second);
    assert_eq!(first.len(), 2);
}

#[test]
fn clones_share_one_store() {
    let mc = ModelController::new().unwrap();
    let other = mc.clone();
    mc.add_item(req("x", "y")).unwrap();
    let created = other.add_item(req("z", "w")).unwrap();
    assert_eq!(created.id, 1);
    assert_eq!(mc.get_items().unwrap(), vec![item(0, "x", "y"), item(1, "z", "w")]);
}

#[test]
fn many_creates_number_without_gaps() {
    let mc = ModelController::new().unwrap();
    for k in 0..50u64 {
        let created = mc.add_item(req(&format!("n{}", k), &format!("d{}", k))).unwrap();
        assert_eq!(created.id, k);
    }
    let all = mc.get_items().unwrap();
    assert_eq!(all.len(), 50);
    for (k, m) in all.iter().enumerate() {
        assert_eq!(*m, item(k as u64, &format!("n{}", k), &format!("d{}", k)));
    }
}

#[test]
fn new_store_is_empty() {
    let mc = ModelController::new().unwrap();
    assert_eq!(mc.get_items().unwrap(), Vec::<ItemMetadata>::new());
}

#[test]
fn item_list_create_and_list() {
    let mut list = ItemList::new();
    assert_eq!(list.len(), 0);
    let a = list.create(req("one", "first"));
    let b = list.create(req("two", "second"));
    assert_eq!(a, item(0, "one", "first"));
    assert_eq!(b, item(1, "two", "second"));
    assert_eq!(list.len(), 2);
    assert_eq!(list.list(), vec![item(0, "one", "first"), item(1, "two", "second")]);
    assert_eq!(list.list(), list.list());
}

#[test]
fn clone_of_record_is_equal() {
    let m = item(7, "name", "desc");
    assert_eq!(m.clone(), m);
}
