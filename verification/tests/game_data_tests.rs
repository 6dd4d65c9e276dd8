use game_shell::elements::GameDataOp;
use game_shell::game_data::GameData;

#[test]
fn get_of_unknown_field_is_zero() {
    let d = GameData::new();
    assert_eq!(d.get("gold"), 0);
}

#[test]
fn set_of_known_field_writes_it() {
    let mut d = GameData::new();
    d.add("gold", 3);
    assert!(d.set("gold", 11));
    assert_eq!(d.get("gold"), 11);
}

#[test]
fn set_of_unknown_field_does_not_insert_it() {
    let mut d = GameData::new();
    assert!(!d.set("gold", 11));
    assert_eq!(d.get("gold"), 0);
    // A later write still misses: the field was not silently created.
    assert!(!d.set("gold", 5));
}

#[test]
fn increment_then_decrement_is_a_no_op() {
    let mut d = GameData::new();
    d.add("gold", 7);
    d.change_field("gold", &GameDataOp::Increment(5));
    d.change_field("gold", &GameDataOp::Decrement(5));
    assert_eq!(d.get("gold"), 7);
}

#[test]
fn increment_then_decrement_is_a_no_op_at_the_edge() {
    let mut d = GameData::new();
    d.add("gold", i32::MAX);
    d.change_field("gold", &GameDataOp::Increment(1));
    d.change_field("gold", &GameDataOp::Decrement(1));
    assert_eq!(d.get("gold"), i32::MAX);
}

#[test]
fn increment_then_decrement_on_unknown_field_changes_nothing() {
    let mut d = GameData::new();
    d.change_field("gold", &GameDataOp::Increment(5));
    d.change_field("gold", &GameDataOp::Decrement(5));
    assert_eq!(d.get("gold"), 0);
    assert!(!d.set("gold", 1));
}

#[test]
fn change_field_applies_each_operation() {
    let mut d = GameData::new();
    d.add("gold", 0);
    d.change_field("gold", &GameDataOp::SetValue(5));
    assert_eq!(d.get("gold"), 5);
    d.change_field("gold", &GameDataOp::Increment(10));
    assert_eq!(d.get("gold"), 15);
    d.change_field("gold", &GameDataOp::Decrement(5));
    assert_eq!(d.get("gold"), 10);
}
