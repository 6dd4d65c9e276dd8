use game_shell::reconcile::reconcile;
use game_shell::steps::ElementSet;

fn set_of(ids: &[&str]) -> ElementSet {
    let mut s = ElementSet::new();
    for id in ids {
        s.insert(id.to_string());
    }
    s
}

#[test]
fn reconcile_computes_set_differences() {
    let live = set_of(&["a", "b", "c"]);
    let target = set_of(&["b", "c", "d"]);
    let (to_spawn, to_despawn) = reconcile(&live, &target);
    assert_eq!(to_spawn.len(), 1);
    assert!(to_spawn.contains(&"d".to_string()));
    assert!(!to_spawn.contains(&"b".to_string()));
    assert_eq!(to_despawn.len(), 1);
    assert!(to_despawn.contains(&"a".to_string()));
    assert!(!to_despawn.contains(&"c".to_string()));
}

#[test]
fn reconcile_of_equal_sets_is_empty() {
    let live = set_of(&["x", "y"]);
    let target = set_of(&["y", "x"]);
    let (to_spawn, to_despawn) = reconcile(&live, &target);
    assert_eq!(to_spawn.len(), 0);
    assert_eq!(to_despawn.len(), 0);
}

#[test]
fn reconcile_from_empty_spawns_everything() {
    let live = ElementSet::new();
    let target = set_of(&["a", "b"]);
    let (to_spawn, to_despawn) = reconcile(&live, &target);
    assert_eq!(to_spawn.len(), 2);
    assert!(to_spawn.contains(&"a".to_string()));
    assert!(to_spawn.contains(&"b".to_string()));
    assert_eq!(to_despawn.len(), 0);
}

#[test]
fn element_set_ignores_duplicate_inserts() {
    let mut s = ElementSet::new();
    s.insert("a".to_string());
    s.insert("a".to_string());
    assert_eq!(s.len(), 1);
    assert!(s.contains(&"a".to_string()));
}
