use sealdb::Expr;
use sealdb::Table;
use sealdb::task::InsertTask;
use sealdb::task::Task;
use sealdb::task::TaskFields;
use sealdb::task::TaskId;

#[test]
fn test_primary_keys_are_sequential() {
    let mut table: Table<Task> = Table::default();
    let mut i: usize = 0;
    while i < 5 {
        table.insert(InsertTask { title: String::from("chore"), completed: false });
        i += 1;
    }

    let mut it = table.all();
    let mut expected: usize = 0;
    while let Some(rec) = it.next() {
        assert_eq!(rec.id, TaskId(expected));
        expected += 1;
    }
    assert_eq!(expected, 5);
}

#[test]
fn test_all_preserves_insertion_order() {
    let mut table: Table<Task> = Table::default();
    table.insert(InsertTask { title: String::from("first"), completed: true });
    table.insert(InsertTask { title: String::from("second"), completed: false });
    table.insert(InsertTask { title: String::from("third"), completed: true });

    let mut it = table.all();
    assert_eq!(it.next().unwrap().title, "first");
    assert_eq!(it.next().unwrap().title, "second");
    assert_eq!(it.next().unwrap().title, "third");
    assert!(it.next().is_none());
}

#[test]
fn test_insert_fills_generated_fields() {
    let mut table: Table<Task> = Table::default();
    table.insert(InsertTask { title: String::from("vote on me"), completed: true });

    let mut it = table.all();
    let rec = it.next().unwrap();
    assert_eq!(rec.id, TaskId(0));
    assert_eq!(rec.title, "vote on me");
    assert!(rec.completed);
    assert_eq!(rec.votes, 0);
}

#[test]
fn test_filter_yields_matching_subsequence_in_order() {
    let mut table: Table<Task> = Table::default();
    table.insert(InsertTask { title: String::from("a"), completed: true });
    table.insert(InsertTask { title: String::from("b"), completed: false });
    table.insert(InsertTask { title: String::from("c"), completed: true });
    table.insert(InsertTask { title: String::from("d"), completed: false });

    let mut done = table.filter(|fs: TaskFields<0>| fs.completed);
    assert_eq!(done.next().unwrap().id, TaskId(0));
    assert_eq!(done.next().unwrap().id, TaskId(2));
    assert!(done.next().is_none());
}

#[test]
fn test_filter_always_false_yields_nothing() {
    let mut table: Table<Task> = Table::default();
    table.insert(InsertTask { title: String::from("a"), completed: false });
    table.insert(InsertTask { title: String::from("b"), completed: false });
    table.insert(InsertTask { title: String::from("c"), completed: false });

    let mut done = table.filter(|fs: TaskFields<0>| fs.completed);
    assert!(done.next().is_none());
}

#[test]
fn test_filter_is_restartable_from_the_table() {
    let mut table: Table<Task> = Table::default();
    table.insert(InsertTask { title: String::from("a"), completed: true });
    table.insert(InsertTask { title: String::from("b"), completed: true });

    let mut first_pass = table.filter(|fs: TaskFields<0>| fs.completed);
    assert_eq!(first_pass.next().unwrap().id, TaskId(0));
    assert_eq!(first_pass.next().unwrap().id, TaskId(1));
    assert!(first_pass.next().is_none());

    let mut second_pass = table.filter(|fs: TaskFields<0>| fs.completed);
    assert_eq!(second_pass.next().unwrap().id, TaskId(0));
    assert_eq!(second_pass.next().unwrap().id, TaskId(1));
    assert!(second_pass.next().is_none());
}

#[test]
fn test_predicate_evaluation_is_pure() {
    let rec = Task { id: TaskId(7), title: String::from("x"), completed: true, votes: 3 };
    let fields = TaskFields::<0>::default();
    let ctx = (&rec,);

    let completed = fields.completed;
    assert_eq!(completed.eval(&ctx), completed.eval(&ctx));
    assert!(completed.eval(&ctx));

    let votes = fields.votes;
    assert_eq!(votes.eval(&ctx), votes.eval(&ctx));
    assert_eq!(votes.eval(&ctx), 3);
}

#[test]
fn test_size_hint_counts_remaining_records() {
    let mut table: Table<Task> = Table::default();
    table.insert(InsertTask { title: String::from("a"), completed: true });
    table.insert(InsertTask { title: String::from("b"), completed: false });
    table.insert(InsertTask { title: String::from("c"), completed: true });

    let mut it = table.all();
    assert_eq!(it.size_hint(), (3, Some(3)));
    it.next();
    assert_eq!(it.size_hint(), (2, Some(2)));

    let mut done = table.filter(|fs: TaskFields<0>| fs.completed);
    assert_eq!(done.size_hint(), (3, Some(3)));
    done.next();
    assert_eq!(done.size_hint(), (2, Some(2)));
}

#[test]
fn test_empty_table_yields_nothing() {
    let table: Table<Task> = Table::default();

    let mut it = table.all();
    assert!(it.next().is_none());

    let mut done = table.filter(|fs: TaskFields<0>| fs.completed);
    assert!(done.next().is_none());
}

#[test]
fn test_three_records_scenario() {
    let mut table: Table<Task> = Table::default();
    table.insert(InsertTask { title: String::from("wash"), completed: false });
    table.insert(InsertTask { title: String::from("ship"), completed: true });
    table.insert(InsertTask { title: String::from("file"), completed: false });

    let mut done = table.filter(|fs: TaskFields<0>| fs.completed);
    let only = done.next().unwrap();
    assert_eq!(only.title, "ship");
    assert_eq!(only.id, TaskId(1));
    assert!(done.next().is_none());

    let mut it = table.all();
    let first = it.next().unwrap();
    assert_eq!(first.title, "wash");
    assert_eq!(first.id, TaskId(0));
    assert_eq!(it.next().unwrap().title, "ship");
    let third = it.next().unwrap();
    assert_eq!(third.title, "file");
    assert_eq!(third.id, TaskId(2));
    assert!(it.next().is_none());
}
