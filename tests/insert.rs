use insertable::{
    BuildError, Column, ColumnList, ColumnSetError, InsertError, InsertValues, Insertable,
    InsertableColumns, QueryBuilder, SqlType, Value, ValueList,
};

fn users_columns() -> ColumnList {
    ColumnList::new(vec![
        Column::new("users", "name", SqlType::Text),
        Column::new("users", "age", SqlType::Integer),
    ])
    .unwrap()
}

fn user(name: &str, age: i32) -> Insertable {
    let values = ValueList::new(vec![Value::Text(name.to_string()), Value::Integer(age)]);
    Insertable::new(users_columns(), values).unwrap()
}

fn binds(b: &QueryBuilder) -> Vec<Value> {
    (0..b.bind_count()).map(|i| b.bind(i)).collect()
}

#[test]
fn single_record_columns_and_values() {
    let ann = user("Ann", 30);
    assert_eq!(ann.columns().names(), "name, age");
    let mut out = QueryBuilder::new(100);
    let values = ann.values();
    assert_eq!(values.sql_types(), vec![SqlType::Text, SqlType::Integer]);
    assert_eq!(values.to_sql(&mut out), Ok(()));
    assert_eq!(out.sql(), "(?, ?)");
    assert_eq!(binds(&out), vec![Value::Text("Ann".to_string()), Value::Integer(30)]);
}

#[test]
fn single_column_is_a_column_set() {
    let c = Column::new("users", "name", SqlType::Text);
    assert_eq!(c.names(), "name");
    let one = ColumnList::new(vec![c]).unwrap();
    assert_eq!(one.names(), "name");
}

#[test]
fn slice_of_three_records() {
    let columns = users_columns();
    let records = vec![user("Ann", 30), user("Bob", 41), user("Cy", 7)];
    let batch = InsertValues::new(&columns, &records[..]).unwrap();
    assert_eq!(batch.columns().names(), "name, age");
    assert_eq!(batch.len(), 3);
    let mut out = QueryBuilder::new(100);
    assert_eq!(batch.to_sql(&mut out), Ok(()));
    assert_eq!(out.sql(), "(?, ?), (?, ?), (?, ?)");
    assert_eq!(
        binds(&out),
        vec![
            Value::Text("Ann".to_string()),
            Value::Integer(30),
            Value::Text("Bob".to_string()),
            Value::Integer(41),
            Value::Text("Cy".to_string()),
            Value::Integer(7),
        ]
    );
}

#[test]
fn vec_and_slice_render_alike() {
    let columns = users_columns();
    let records = vec![user("Ann", 30), user("Bob", 41), user("Cy", 7)];
    let mut a = QueryBuilder::new(100);
    let mut b = QueryBuilder::new(100);
    InsertValues::new(&columns, &records[..]).unwrap().to_sql(&mut a).unwrap();
    InsertValues::from_vec(&columns, &records).unwrap().to_sql(&mut b).unwrap();
    assert_eq!(a.sql(), b.sql());
    assert_eq!(binds(&a), binds(&b));
}

#[test]
fn empty_batch_renders_nothing() {
    let columns = users_columns();
    let records: Vec<Insertable> = Vec::new();
    let batch = InsertValues::new(&columns, &records[..]).unwrap();
    assert_eq!(batch.columns().names(), "name, age");
    let mut out = QueryBuilder::new(0);
    assert_eq!(batch.to_sql(&mut out), Ok(()));
    assert_eq!(out.sql(), "");
    assert_eq!(out.bind_count(), 0);
}

#[test]
fn one_record_batch_has_no_separator() {
    let columns = users_columns();
    let records = vec![user("Ann", 30)];
    let batch = InsertValues::new(&columns, &records[..]).unwrap();
    let mut out = QueryBuilder::new(2);
    assert_eq!(batch.to_sql(&mut out), Ok(()));
    assert_eq!(out.sql(), "(?, ?)");
}

#[test]
fn rendering_twice_is_identical() {
    let columns = users_columns();
    let records = vec![user("Ann", 30), user("Bob", 41)];
    let batch = InsertValues::new(&columns, &records[..]).unwrap();
    let mut a = QueryBuilder::new(10);
    let mut b = QueryBuilder::new(10);
    assert_eq!(batch.to_sql(&mut a), Ok(()));
    assert_eq!(batch.to_sql(&mut b), Ok(()));
    assert_eq!(a.sql(), b.sql());
    assert_eq!(binds(&a), binds(&b));
}

#[test]
fn mismatched_value_types_are_rejected() {
    let values = ValueList::new(vec![Value::Integer(30), Value::Text("Ann".to_string())]);
    assert_eq!(Insertable::new(users_columns(), values).err(), Some(InsertError::TypeMismatch));
    let short = ValueList::new(vec![Value::Text("Ann".to_string())]);
    assert_eq!(Insertable::new(users_columns(), short).err(), Some(InsertError::TypeMismatch));
}

#[test]
fn column_set_errors() {
    assert_eq!(ColumnList::new(Vec::new()).err(), Some(ColumnSetError::Empty));
    let mixed = vec![
        Column::new("users", "name", SqlType::Text),
        Column::new("posts", "title", SqlType::Text),
    ];
    assert_eq!(ColumnList::new(mixed).err(), Some(ColumnSetError::MixedTables));
}

#[test]
fn batch_with_other_columns_is_rejected() {
    let columns = users_columns();
    let other = ColumnList::new(vec![Column::new("users", "name", SqlType::Text)]).unwrap();
    let lone = Insertable::new(other, ValueList::new(vec![Value::Text("Ann".to_string())])).unwrap();
    let records = vec![user("Bob", 41), lone];
    assert_eq!(InsertValues::new(&columns, &records[..]).err(), Some(InsertError::ColumnMismatch));
}

#[test]
fn too_many_bind_params_fails() {
    let columns = users_columns();
    let records = vec![user("Ann", 30), user("Bob", 41)];
    let batch = InsertValues::new(&columns, &records[..]).unwrap();
    let mut out = QueryBuilder::new(3);
    assert_eq!(batch.to_sql(&mut out), Err(BuildError::TooManyBindParams));
    let mut exact = QueryBuilder::new(4);
    assert_eq!(batch.to_sql(&mut exact), Ok(()));
    let mut single = QueryBuilder::new(1);
    assert_eq!(user("Cy", 7).values().to_sql(&mut single), Err(BuildError::TooManyBindParams));
}

#[test]
fn value_types() {
    assert_eq!(Value::Bool(true).sql_type(), SqlType::Bool);
    assert_eq!(Value::SmallInt(3).sql_type(), SqlType::SmallInt);
    assert_eq!(Value::BigInt(-5).sql_type(), SqlType::BigInt);
    assert_eq!(Value::Text(String::new()).duplicate(), Value::Text(String::new()));
}

#[test]
fn push_sql_appends_text() {
    let mut out = QueryBuilder::new(1);
    out.push_sql("INSERT INTO users (");
    out.push_sql(&users_columns().names());
    out.push_sql(") VALUES ");
    user("Ann", 30).values().to_sql(&mut QueryBuilder::new(2)).unwrap();
    assert_eq!(out.push_bind_param(&Value::Bool(false)), Ok(()));
    assert_eq!(out.sql(), "INSERT INTO users (name, age) VALUES ?");
    assert_eq!(out.push_bind_param(&Value::Bool(true)), Err(BuildError::TooManyBindParams));
    assert_eq!(out.bind(0), Value::Bool(false));
}
