use sealdb::sample::Test;
use sealdb::sample::TestFields;

#[test]
fn test_field_access() {
    let mut value = Test { age: 25, category: "animals", items: Vec::new() };

    let fields = TestFields::<0>::default();

    assert_eq!(*fields.age.get(&value), 25);
    assert_eq!(*fields.category.get(&value), "animals");
    assert!(fields.items.get(&value).is_empty());

    fields.age.set(&mut value, 26);

    assert_eq!(*fields.age.get(&value), 26);
    assert_eq!(*fields.category.get(&value), "animals");
    assert!(fields.items.get(&value).is_empty());

    fields.items.get_mut(&mut value).push(32);

    assert_eq!(*fields.age.get(&value), 26);
    assert_eq!(*fields.category.get(&value), "animals");
    assert_eq!(*fields.items.get(&value), vec![32]);
}

#[test]
fn test_set_round_trip() {
    let mut value = Test { age: 40, category: "plants", items: Vec::new() };

    let fields = TestFields::<0>::default();

    fields.age.set(&mut value, 41);
    assert_eq!(*fields.age.get(&value), 41);

    fields.category.set(&mut value, "fungi");
    assert_eq!(*fields.category.get(&value), "fungi");

    fields.items.set(&mut value, vec![3, 4]);
    assert_eq!(*fields.items.get(&value), vec![3, 4]);
}

#[test]
fn test_set_leaves_other_fields_unchanged() {
    let mut value = Test { age: 40, category: "plants", items: vec![1, 2] };

    let fields = TestFields::<0>::default();

    fields.category.set(&mut value, "fungi");
    assert_eq!(*fields.age.get(&value), 40);
    assert_eq!(*fields.items.get(&value), vec![1, 2]);

    fields.age.set(&mut value, 7);
    assert_eq!(*fields.category.get(&value), "fungi");
    assert_eq!(*fields.items.get(&value), vec![1, 2]);

    fields.items.set(&mut value, vec![9]);
    assert_eq!(*fields.age.get(&value), 7);
    assert_eq!(*fields.category.get(&value), "fungi");
}

#[test]
fn test_capability_tokens_are_equal() {
    let a = TestFields::<0>::default();
    let b = TestFields::<0>::default();
    assert!(a.age == b.age);
    assert!(a.category == b.category);
    assert!(a.items == b.items);
}
