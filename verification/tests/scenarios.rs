use typed_binder::{
    generate, generate_and_map, map_values, BindError, BindOp, BindingTo, Draft, Error,
    GenerationError, PlaceholderMismatch, QueryDescriptor, QueryObject, QueryVariant, SqlType,
    Value,
};

const TWO_PLACEHOLDERS: &str = "SELECT * FROM t WHERE a = ? AND b = ?";

fn two_values() -> Draft {
    Draft::new(String::from(TWO_PLACEHOLDERS)).bind(1i64).bind("x")
}

#[test]
fn generate_gives_the_text_and_two_ordered_bind_ops() {
    let descriptor = generate(&two_values()).unwrap();
    assert_eq!(descriptor.sql(), "SELECT * FROM t WHERE a = ? AND b = ?");
    assert_eq!(descriptor.len(), 2);
    assert_eq!(descriptor.bind_op(0), Some(&BindOp { slot: 0, value: Value::Integer(1) }));
    assert_eq!(
        descriptor.bind_op(1),
        Some(&BindOp { slot: 1, value: Value::Text(String::from("x")) })
    );
    assert_eq!(descriptor.bind_op(2), None);
}

#[test]
fn a_declared_type_that_does_not_match_is_a_bind_error() {
    let descriptor = generate(&two_values()).unwrap();
    let query = QueryObject::typed(QueryVariant::Direct, vec![SqlType::Integer, SqlType::Integer]);
    let refused = map_values(&descriptor, query);
    assert_eq!(
        refused.err(),
        Some(BindError { slot: 1, expected: SqlType::Integer, found: SqlType::Text })
    );
}

#[test]
fn declared_types_that_match_let_every_value_through() {
    let descriptor = generate(&two_values()).unwrap();
    let query = QueryObject::typed(QueryVariant::Scalar, vec![SqlType::Integer, SqlType::Text]);
    let bound = map_values(&descriptor, query).unwrap();
    assert_eq!(bound.len(), 2);
    assert_eq!(bound.variant(), QueryVariant::Scalar);
    assert_eq!(bound.declared_types(), &vec![SqlType::Integer, SqlType::Text]);
}

#[test]
fn a_slot_without_a_declared_type_takes_any_value() {
    let descriptor = generate(&two_values()).unwrap();
    let query = QueryObject::typed(QueryVariant::Direct, vec![SqlType::Integer]);
    assert_eq!(map_values(&descriptor, query).unwrap().len(), 2);
}

#[test]
fn the_first_refused_value_is_the_one_reported() {
    let draft = Draft::new(String::from("? ? ?")).bind("a").bind(Option::<i64>::None).bind(3i64);
    let descriptor = generate(&draft).unwrap();
    let query = QueryObject::typed(
        QueryVariant::Direct,
        vec![SqlType::Text, SqlType::Blob, SqlType::Blob],
    );
    assert_eq!(
        map_values(&descriptor, query).err(),
        Some(BindError { slot: 1, expected: SqlType::Blob, found: SqlType::Null })
    );
}

#[test]
fn declared_types_count_from_the_values_already_bound() {
    let descriptor = generate(&Draft::new(String::from("?")).bind(vec![9u8])).unwrap();
    let query = QueryObject::typed(QueryVariant::Direct, vec![SqlType::Integer, SqlType::Text])
        .bind(5i64);
    assert_eq!(
        map_values(&descriptor, query).err(),
        Some(BindError { slot: 1, expected: SqlType::Text, found: SqlType::Blob })
    );
}

#[test]
fn no_placeholders_and_no_values_give_an_empty_descriptor() {
    let descriptor = generate(&Draft::new(String::from("SELECT 1"))).unwrap();
    assert_eq!(descriptor.sql(), "SELECT 1");
    assert_eq!(descriptor.len(), 0);
    assert_eq!(descriptor.bind_op(0), None);
    let bound = map_values(&descriptor, QueryObject::new(QueryVariant::Direct)).unwrap();
    assert_eq!(bound.len(), 0);
}

#[test]
fn the_empty_text_has_no_placeholders() {
    let descriptor = QueryDescriptor::new(String::new(), Vec::new()).unwrap();
    assert_eq!(descriptor.sql(), "");
    assert_eq!(descriptor.len(), 0);
}

#[test]
fn too_few_values_are_a_generation_error() {
    let draft = Draft::new(String::from(TWO_PLACEHOLDERS)).bind(1i64);
    assert_eq!(
        generate(&draft).err(),
        Some(GenerationError::Placeholders(PlaceholderMismatch { placeholders: 2, supplied: 1 }))
    );
}

#[test]
fn too_many_values_are_a_generation_error() {
    let draft = Draft::new(String::from("SELECT 1")).bind(1i64);
    assert_eq!(
        generate(&draft).err(),
        Some(GenerationError::Placeholders(PlaceholderMismatch { placeholders: 0, supplied: 1 }))
    );
}

#[test]
fn a_descriptor_is_not_made_of_text_and_values_that_differ_in_number() {
    assert_eq!(
        QueryDescriptor::new(String::from("a = ?"), vec![Value::Null, Value::Null]).err(),
        Some(PlaceholderMismatch { placeholders: 1, supplied: 2 })
    );
}

#[test]
fn generating_twice_gives_the_same_descriptor() {
    let draft = two_values();
    let first = generate(&draft).unwrap();
    let second = generate(&draft).unwrap();
    assert_eq!(first, second);
    assert_eq!(draft, two_values());
}

#[test]
fn generating_and_mapping_in_one_step_binds_every_value() {
    let (descriptor, query) =
        generate_and_map(&two_values(), QueryObject::new(QueryVariant::RowMapped)).unwrap();
    assert_eq!(descriptor.sql(), TWO_PLACEHOLDERS);
    assert_eq!(query.len(), 2);
    assert_eq!(query.variant(), QueryVariant::RowMapped);
}

#[test]
fn the_error_of_one_step_says_which_half_failed() {
    let short = Draft::new(String::from(TWO_PLACEHOLDERS)).bind(1i64);
    let failed = generate_and_map(&short, QueryObject::new(QueryVariant::Direct));
    assert_eq!(
        failed.err(),
        Some(Error::Generation(GenerationError::Placeholders(PlaceholderMismatch {
            placeholders: 2,
            supplied: 1
        })))
    );
    let typed = QueryObject::typed(QueryVariant::Direct, vec![SqlType::Blob]);
    let failed = generate_and_map(&two_values(), typed);
    assert_eq!(
        failed.err(),
        Some(Error::Bind(BindError { slot: 0, expected: SqlType::Blob, found: SqlType::Integer }))
    );
}
