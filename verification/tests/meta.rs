use matrix_ids::meta::{
    check_plan, parse_inline_bytes, plan_expansion, DuplicateArgument, FieldsShape, IdDstMeta, MetaArgument,
    PlanError, StructShape,
};
use matrix_ids::storage::INLINE_BYTES;

fn meta(validate: Option<&str>, inline_bytes: Option<usize>) -> IdDstMeta {
    IdDstMeta { validate: validate.map(|v| v.to_owned()), inline_bytes }
}

fn shape(name: &str, generic_params: usize, has_where_clause: bool, fields: FieldsShape) -> StructShape {
    StructShape { name: name.to_owned(), generic_params, has_where_clause, fields }
}

#[test]
fn merge_takes_each_argument_from_the_side_that_gives_it() {
    assert_eq!(meta(None, None).merge(meta(None, None)), Ok(meta(None, None)));
    assert_eq!(
        meta(Some("room_id::validate"), None).merge(meta(None, Some(48))),
        Ok(meta(Some("room_id::validate"), Some(48)))
    );
    assert_eq!(
        meta(None, Some(48)).merge(meta(Some("room_id::validate"), None)),
        Ok(meta(Some("room_id::validate"), Some(48)))
    );
    assert_eq!(meta(Some("v"), Some(1)).merge(meta(None, None)), Ok(meta(Some("v"), Some(1))));
}

#[test]
fn merge_refuses_an_argument_given_twice() {
    assert_eq!(
        meta(Some("a"), None).merge(meta(Some("b"), None)),
        Err(DuplicateArgument { argument: MetaArgument::Validate })
    );
    assert_eq!(
        meta(None, Some(1)).merge(meta(None, Some(1))),
        Err(DuplicateArgument { argument: MetaArgument::InlineBytes })
    );
    assert_eq!(
        meta(Some("a"), Some(1)).merge(meta(Some("b"), Some(2))),
        Err(DuplicateArgument { argument: MetaArgument::Validate })
    );
}

#[test]
fn merge_all_folds_from_the_left() {
    assert_eq!(IdDstMeta::merge_all(Vec::new()), Ok(meta(None, None)));
    assert_eq!(
        IdDstMeta::merge_all(vec![meta(Some("v"), None), meta(None, None), meta(None, Some(40))]),
        Ok(meta(Some("v"), Some(40)))
    );
    assert_eq!(
        IdDstMeta::merge_all(vec![
            meta(None, Some(40)),
            meta(None, Some(41)),
            meta(Some("a"), None),
            meta(Some("b"), None),
        ]),
        Err(DuplicateArgument { argument: MetaArgument::InlineBytes })
    );
}

#[test]
fn inline_capacity_defaults_to_thirty_two() {
    assert_eq!(INLINE_BYTES, 32);
    assert_eq!(meta(None, None).inline_capacity(), 32);
    assert_eq!(meta(Some("v"), Some(48)).inline_capacity(), 48);
    assert_eq!(meta(None, Some(0)).inline_capacity(), 0);
}

#[test]
fn inline_bytes_literal_is_read_as_decimal() {
    assert_eq!(parse_inline_bytes("32"), Some(32));
    assert_eq!(parse_inline_bytes("0"), Some(0));
    assert_eq!(parse_inline_bytes("0048"), Some(48));
    assert_eq!(parse_inline_bytes(&usize::MAX.to_string()), Some(usize::MAX));
    assert_eq!(parse_inline_bytes("340282366920938463463374607431768211456"), None);
    assert_eq!(parse_inline_bytes(&format!("{}0", usize::MAX)), None);
    assert_eq!(parse_inline_bytes(""), None);
    assert_eq!(parse_inline_bytes("3x"), None);
    assert_eq!(parse_inline_bytes("+3"), None);
}

#[test]
fn plan_for_a_checked_kind() {
    let plan = plan_expansion(
        &shape("RoomId", 0, false, FieldsShape::Unnamed(1)),
        meta(Some("room_id::validate"), None),
    );
    assert_eq!(plan.owned_name, "OwnedRoomId");
    assert_eq!(plan.inline_bytes, 32);
    assert_eq!(plan.validate.as_deref(), Some("room_id::validate"));
    assert_eq!(plan.text_field, Some(0));
}

#[test]
fn plan_for_a_kind_with_sub_kinds_and_its_own_capacity() {
    let plan = plan_expansion(
        &shape("KeyId", 2, false, FieldsShape::Unnamed(2)),
        meta(Some("key_id::validate"), Some(48)),
    );
    assert_eq!(plan.owned_name, "OwnedKeyId");
    assert_eq!(plan.inline_bytes, 48);
    assert_eq!(plan.text_field, Some(1));
}

#[test]
fn plan_for_an_unchecked_kind() {
    let plan =
        plan_expansion(&shape("DeviceId", 0, false, FieldsShape::Unnamed(1)), meta(None, None));
    assert_eq!(plan.owned_name, "OwnedDeviceId");
    assert_eq!(plan.validate, None);
}

#[test]
fn plan_without_a_text_field_for_other_structs() {
    let plan = plan_expansion(&shape("Odd", 0, false, FieldsShape::Named), meta(Some("v"), None));
    assert_eq!(plan.text_field, None);
    let plan = plan_expansion(&shape("Odd", 0, false, FieldsShape::Unit), meta(Some("v"), None));
    assert_eq!(plan.text_field, None);
}

#[test]
fn plan_refusals_in_order() {
    let refusal = |s: StructShape, m: IdDstMeta| check_plan(&s, &m);
    assert_eq!(
        refusal(shape("K", 1, true, FieldsShape::Unnamed(0)), meta(None, None)),
        Some(PlanError::GenericUnchecked)
    );
    assert_eq!(
        refusal(shape("K", 1, true, FieldsShape::Unnamed(0)), meta(Some("v"), None)),
        Some(PlanError::WhereClause)
    );
    assert_eq!(
        refusal(shape("K", 0, true, FieldsShape::Unnamed(0)), meta(None, None)),
        Some(PlanError::WhereClause)
    );
    assert_eq!(
        refusal(shape("K", 0, false, FieldsShape::Unnamed(0)), meta(None, None)),
        Some(PlanError::NoFields)
    );
    assert_eq!(refusal(shape("K", 2, false, FieldsShape::Unnamed(2)), meta(Some("v"), None)), None);
    assert_eq!(refusal(shape("K", 0, false, FieldsShape::Named), meta(None, None)), None);
    assert_eq!(refusal(shape("K", 0, false, FieldsShape::Unit), meta(None, Some(48))), None);
}
