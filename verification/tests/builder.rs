use json_context::contexts::{ArrayContext, ObjectContext};
use json_context::holders::{ArrayHolderContainer, ObjectHolderContainer};
use json_context::keys::ToStringIfNecessary;
use json_context::protocol::{
    BeginArray, BeginObject, Context, EndArray, EndObject, FillKey, GetContainer, GetHolder,
    GetParent, ValueFillingProxy,
};
use json_context::values::AllowedValues;
use json_context::{array, object, JSONValues};

fn show(value: AllowedValues) -> String {
    match value {
        AllowedValues::Integer(number) => format!("{}", number),
        AllowedValues::String(text) => format!("{:?}", text),
        AllowedValues::Boolean(flag) => format!("{}", flag),
        AllowedValues::Object(pairs) => show_pairs(pairs.get_container()),
        AllowedValues::Array(items) => show_items(items.get_container()),
        AllowedValues::Absent => "null".to_string(),
    }
}

fn show_items(items: ArrayHolderContainer) -> String {
    let shown: Vec<String> = items.into_iter().map(show).collect();
    format!("[{}]", shown.join(", "))
}

fn show_pairs(pairs: ObjectHolderContainer) -> String {
    let shown: Vec<String> =
        pairs.into_iter().map(|(key, value)| format!("{:?}: {}", key, show(value))).collect();
    format!("{{{}}}", shown.join(", "))
}

#[test]
fn it_works() {
    let values = array().fill_value(1i64).get_container();
    assert_eq!(values.len(), 1);
    assert!(matches!(values[0], JSONValues::Integer(1)));
    let pairs = object().fill_key("a").fill_value(true).get_container();
    assert_eq!(pairs.len(), 1);
    assert_eq!(pairs[0].0, "a");
    assert!(matches!(pairs[0].1, JSONValues::Boolean(true)));
}

#[test]
fn empty_root_array_extracts_empty() {
    let values = array().get_container();
    assert!(values.is_empty());
    assert_eq!(show_items(values), "[]");
}

#[test]
fn empty_root_object_extracts_empty() {
    let pairs = object().get_container();
    assert!(pairs.is_empty());
    assert_eq!(show_pairs(pairs), "{}");
}

#[test]
fn appends_keep_call_order() {
    let values = array()
        .fill_value(3i64)
        .fill_value(1i64)
        .fill_value(2i64)
        .fill_value(1i64)
        .get_container();
    assert_eq!(values.len(), 4);
    assert_eq!(show_items(values), "[3, 1, 2, 1]");
}

#[test]
fn appends_of_mixed_kinds_keep_call_order() {
    let values = array()
        .fill_value(true)
        .fill_value(String::from("two"))
        .fill_value(())
        .fill_value(-4i64)
        .fill_value(false)
        .get_container();
    assert_eq!(show_items(values), "[true, \"two\", null, -4, false]");
}

#[test]
fn equal_values_are_not_merged() {
    let values = array().fill_value(7i64).fill_value(7i64).fill_value(7i64).get_container();
    assert_eq!(show_items(values), "[7, 7, 7]");
}

#[test]
fn a_long_run_of_appends_keeps_every_value_in_place() {
    let mut context = array();
    let mut number: i64 = 0;
    while number < 500 {
        context = context.fill_value(number);
        number += 1;
    }
    let values = context.get_container();
    assert_eq!(values.len(), 500);
    for (place, value) in values.into_iter().enumerate() {
        match value {
            AllowedValues::Integer(found) => assert_eq!(found, place as i64),
            _ => panic!("an integer was appended at place {}", place),
        }
    }
}

#[test]
fn integer_bounds_are_kept() {
    let values = array().fill_value(i64::MIN).fill_value(i64::MAX).fill_value(0i64).get_container();
    assert_eq!(show_items(values), "[-9223372036854775808, 9223372036854775807, 0]");
}

#[test]
fn pairs_keep_call_order() {
    let pairs = object().fill_key("a").fill_value(1i64).fill_key("b").fill_value(true).get_container();
    assert_eq!(pairs.len(), 2);
    assert_eq!(pairs[0].0, "a");
    assert!(matches!(pairs[0].1, AllowedValues::Integer(1)));
    assert_eq!(pairs[1].0, "b");
    assert!(matches!(pairs[1].1, AllowedValues::Boolean(true)));
}

#[test]
fn pairs_are_not_sorted_by_key() {
    let pairs = object()
        .fill_key("z")
        .fill_value(1i64)
        .fill_key("a")
        .fill_value(2i64)
        .fill_key("m")
        .fill_value(3i64)
        .get_container();
    assert_eq!(show_pairs(pairs), "{\"z\": 1, \"a\": 2, \"m\": 3}");
}

#[test]
fn duplicate_keys_are_preserved() {
    let pairs = object().fill_key("k").fill_value(1i64).fill_key("k").fill_value(2i64).get_container();
    assert_eq!(pairs.len(), 2);
    assert_eq!(pairs[0].0, "k");
    assert!(matches!(pairs[0].1, AllowedValues::Integer(1)));
    assert_eq!(pairs[1].0, "k");
    assert!(matches!(pairs[1].1, AllowedValues::Integer(2)));
}

#[test]
fn keys_are_not_validated() {
    let pairs = object()
        .fill_key("")
        .fill_value(1i64)
        .fill_key("with space\n\"quoted\"")
        .fill_value(2i64)
        .fill_key("\u{e9}\u{4e2d}")
        .fill_value(3i64)
        .get_container();
    assert_eq!(pairs.len(), 3);
    assert_eq!(pairs[0].0, "");
    assert_eq!(pairs[1].0, "with space\n\"quoted\"");
    assert_eq!(pairs[2].0, "\u{e9}\u{4e2d}");
}

#[test]
fn owned_and_borrowed_keys_give_the_same_key() {
    let pairs = object()
        .fill_key(String::from("owned"))
        .fill_value(1i64)
        .fill_key("borrowed")
        .fill_value(2i64)
        .get_container();
    assert_eq!(show_pairs(pairs), "{\"owned\": 1, \"borrowed\": 2}");
}

#[test]
fn key_text_is_taken_over_unchanged() {
    assert_eq!(String::from("same").to_string_if_necessary(), "same");
    assert_eq!("same".to_string_if_necessary(), "same");
    assert_eq!("".to_string_if_necessary(), "");
    assert_eq!("caf\u{e9} \u{1f600}".to_string_if_necessary(), "caf\u{e9} \u{1f600}");
}

#[test]
fn discarded_key_is_recorded_as_absent() {
    let pairs = object().fill_key("k").discard().get_container();
    assert_eq!(pairs.len(), 1);
    assert_eq!(pairs[0].0, "k");
    assert!(matches!(pairs[0].1, AllowedValues::Absent));
}

#[test]
fn discarded_key_keeps_its_call_position() {
    let pairs = object()
        .fill_key("first")
        .fill_value(1i64)
        .fill_key("given up")
        .discard()
        .fill_key("last")
        .fill_value(2i64)
        .get_container();
    assert_eq!(show_pairs(pairs), "{\"first\": 1, \"given up\": null, \"last\": 2}");
}

#[test]
fn discarding_twice_records_two_pairs() {
    let pairs = object().fill_key("k").discard().fill_key("k").discard().get_container();
    assert_eq!(show_pairs(pairs), "{\"k\": null, \"k\": null}");
}

#[test]
fn supplying_nothing_equals_discarding() {
    let supplied = object().fill_key("k").fill_value(()).get_container();
    let discarded = object().fill_key("k").discard().get_container();
    assert_eq!(show_pairs(supplied), show_pairs(discarded));
}

#[test]
fn nested_array_round_trip() {
    let pairs = object()
        .fill_key("arr")
        .begin_array()
        .fill_value(1i64)
        .fill_value(2i64)
        .end_array()
        .get_container();
    assert_eq!(pairs.len(), 1);
    let (key, value) = pairs.into_iter().next().unwrap();
    assert_eq!(key, "arr");
    match value {
        AllowedValues::Array(items) => {
            let items = items.get_container();
            assert_eq!(items.len(), 2);
            assert!(matches!(items[0], AllowedValues::Integer(1)));
            assert!(matches!(items[1], AllowedValues::Integer(2)));
        },
        _ => panic!("the key holds an array"),
    }
}

#[test]
fn nested_object_round_trip() {
    let values = array()
        .fill_value(0i64)
        .begin_object()
        .fill_key("x")
        .fill_value(true)
        .end_object()
        .fill_value(9i64)
        .get_container();
    assert_eq!(show_items(values), "[0, {\"x\": true}, 9]");
}

#[test]
fn array_in_array_round_trip() {
    let values = array()
        .fill_value(1i64)
        .begin_array()
        .fill_value(2i64)
        .fill_value(3i64)
        .end_array()
        .fill_value(4i64)
        .get_container();
    assert_eq!(show_items(values), "[1, [2, 3], 4]");
}

#[test]
fn object_in_object_round_trip() {
    let pairs = object()
        .fill_key("outer")
        .begin_object()
        .fill_key("inner")
        .fill_value(String::from("v"))
        .end_object()
        .fill_key("after")
        .fill_value(())
        .get_container();
    assert_eq!(show_pairs(pairs), "{\"outer\": {\"inner\": \"v\"}, \"after\": null}");
}

#[test]
fn empty_nested_containers_are_single_values() {
    let values = array().begin_array().end_array().begin_object().end_object().get_container();
    assert_eq!(values.len(), 2);
    assert_eq!(show_items(values), "[[], {}]");
}

#[test]
fn deep_nesting_round_trip() {
    let root: ObjectContext<()> = object()
        .fill_key("before")
        .fill_value(1i64)
        .fill_key("list")
        .begin_array()
        .fill_value(10i64)
        .begin_object()
        .fill_key("deep")
        .begin_array()
        .fill_value(true)
        .begin_object()
        .fill_key("deepest")
        .fill_value(String::from("here"))
        .end_object()
        .fill_value(false)
        .end_array()
        .fill_key("beside")
        .fill_value(())
        .end_object()
        .fill_value(20i64)
        .end_array()
        .fill_key("after")
        .fill_value(2i64);
    assert_eq!(
        show_pairs(root.get_container()),
        "{\"before\": 1, \"list\": [10, {\"deep\": [true, {\"deepest\": \"here\"}, false], \
         \"beside\": null}, 20], \"after\": 2}"
    );
}

#[test]
fn deep_nesting_resumes_each_enclosing_level() {
    let level_one: ArrayContext<()> = array().fill_value(1i64);
    let level_two = level_one.begin_object().fill_key("a").fill_value(2i64);
    let level_three = level_two.fill_key("b").begin_array().fill_value(3i64);
    let level_four = level_three.begin_object().fill_key("c").fill_value(4i64);
    let back_at_three = level_four.end_object().fill_value(5i64);
    let back_at_two = back_at_three.end_array().fill_key("d").fill_value(6i64);
    let back_at_one: ArrayContext<()> = back_at_two.end_object().fill_value(7i64);
    assert_eq!(
        show_items(back_at_one.get_container()),
        "[1, {\"a\": 2, \"b\": [3, {\"c\": 4}, 5], \"d\": 6}, 7]"
    );
}

#[test]
fn each_supported_kind_converts_to_its_variant() {
    assert!(matches!(AllowedValues::from(5i64), AllowedValues::Integer(5)));
    assert!(matches!(AllowedValues::from(-5i64), AllowedValues::Integer(-5)));
    assert!(matches!(AllowedValues::from(true), AllowedValues::Boolean(true)));
    assert!(matches!(AllowedValues::from(false), AllowedValues::Boolean(false)));
    assert!(matches!(AllowedValues::from(()), AllowedValues::Absent));
    match AllowedValues::from(String::from("text")) {
        AllowedValues::String(text) => assert_eq!(text, "text"),
        _ => panic!("text converts to the text variant"),
    }
    match AllowedValues::from(array().fill_value(1i64).get_holder()) {
        AllowedValues::Array(items) => assert_eq!(show_items(items.get_container()), "[1]"),
        _ => panic!("an array holder converts to the array variant"),
    }
    match AllowedValues::from(object().fill_key("k").fill_value(1i64).get_holder()) {
        AllowedValues::Object(pairs) => {
            assert_eq!(show_pairs(pairs.get_container()), "{\"k\": 1}")
        },
        _ => panic!("an object holder converts to the object variant"),
    }
}

#[test]
fn finished_holders_can_be_supplied_as_values() {
    let items = array().fill_value(1i64).fill_value(2i64).get_holder();
    let pairs = object().fill_key("k").fill_value(true).get_holder();
    let values = array().fill_value(items).fill_value(pairs).get_container();
    assert_eq!(show_items(values), "[[1, 2], {\"k\": true}]");
    let items = array().fill_value(3i64).get_holder();
    let pairs = object().fill_key("items").fill_value(items).get_container();
    assert_eq!(show_pairs(pairs), "{\"items\": [3]}");
}

#[test]
fn holder_of_a_context_holds_what_was_filled_in() {
    let holder = array().fill_value(1i64).fill_value(true).get_holder();
    assert_eq!(show_items(holder.get_container()), "[1, true]");
    let holder = object().fill_key("a").fill_value(1i64).get_holder();
    assert_eq!(show_pairs(holder.get_container()), "{\"a\": 1}");
}

#[test]
fn parent_of_a_nested_context_is_the_enclosing_state() {
    let nested = array().fill_value(1i64).begin_array().fill_value(2i64);
    let enclosing: ArrayContext<()> = nested.get_parent();
    assert_eq!(show_items(enclosing.get_container()), "[1]");
    let nested = object().fill_key("a").fill_value(1i64).fill_key("b").begin_object();
    let pending = nested.get_parent();
    assert_eq!(show_pairs(pending.fill_value(2i64).get_container()), "{\"a\": 1, \"b\": 2}");
    let root_parent: () = array().get_parent();
    assert_eq!(root_parent, ());
}

#[test]
fn unpack_splits_a_level_into_its_parts() {
    let nested = array().fill_value(1i64).begin_object().fill_key("k").fill_value(2i64);
    let (enclosing, holder) = nested.unpack();
    assert_eq!(show_pairs(holder.get_container()), "{\"k\": 2}");
    assert_eq!(show_items(enclosing.get_container()), "[1]");
    let ((), holder) = array().fill_value(3i64).unpack();
    assert_eq!(show_items(holder.get_container()), "[3]");
}

#[test]
fn closing_equals_filling_the_holder_into_the_parent() {
    let closed = array().fill_value(1i64).begin_array().fill_value(2i64).end_array();
    let (enclosing, holder) = array().fill_value(1i64).begin_array().fill_value(2i64).unpack();
    let filled = enclosing.fill_value(holder);
    assert_eq!(show_items(closed.get_container()), show_items(filled.get_container()));
}

#[test]
fn documents_are_independent() {
    let first = array().fill_value(1i64);
    let second = array().fill_value(2i64);
    let first = first.fill_value(3i64);
    assert_eq!(show_items(second.get_container()), "[2]");
    assert_eq!(show_items(first.get_container()), "[1, 3]");
}
