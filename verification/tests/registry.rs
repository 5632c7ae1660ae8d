use webui::registry::BindStore;
use webui::registry::RegistryError;

#[test]
fn unbound_lookup_returns_no_handler() {
    let store: BindStore<usize> = BindStore::new();
    assert_eq!(store.get_function(1, "never-bound"), None);
    assert_eq!(store.get_function(0, ""), None);
    // A window identity outside the slot table is a lookup miss, not a panic.
    assert_eq!(store.get_function(64, "x"), None);
    assert_eq!(store.get_function(usize::MAX, "x"), None);
}

#[test]
fn single_binding_resolves_to_its_handler() {
    let mut store: BindStore<usize> = BindStore::new();
    let bind_id = store.add_function(3, "open", 17).unwrap();
    assert_eq!(bind_id, 0);
    assert_eq!(store.get_function(3, "open"), Some(17));
    // Other pairs stay unbound: same element on another window, and another
    // element on the same window.
    assert_eq!(store.get_function(4, "open"), None);
    assert_eq!(store.get_function(3, "close"), None);
}

#[test]
fn rebinding_keeps_only_the_last_handler() {
    let mut store: BindStore<usize> = BindStore::new();
    let first_id = store.add_function(2, "save", 7).unwrap();
    let second_id = store.add_function(2, "save", 9).unwrap();
    // The element keeps its first-registration slot.
    assert_eq!(first_id, second_id);
    // Exactly one handler is active: the one registered last.
    assert_eq!(store.get_function(2, "save"), Some(9));
}

#[test]
fn element_numbering_is_first_registration_wins() {
    let mut store: BindStore<usize> = BindStore::new();
    assert_eq!(store.add_function(1, "a", 10).unwrap(), 0);
    assert_eq!(store.add_function(1, "b", 11).unwrap(), 1);
    assert_eq!(store.add_function(2, "a", 12).unwrap(), 0);
    assert_eq!(store.add_function(5, "c", 13).unwrap(), 2);
    // Re-registration reuses the existing slot.
    assert_eq!(store.add_function(9, "b", 14).unwrap(), 1);
}

#[test]
fn distinct_elements_resolve_without_crosstalk() {
    let mut store: BindStore<usize> = BindStore::new();
    let names = ["e0", "e1", "e2", "e3", "e4", "e5", "e6", "e7"];
    for (k, name) in names.iter().enumerate() {
        store.add_function(1, name, 100 + k).unwrap();
    }
    let mut deliveries = 0;
    for (k, name) in names.iter().enumerate() {
        match store.get_function(1, name) {
            Some(handler) => {
                deliveries += 1;
                assert_eq!(handler, 100 + k);
            }
            None => panic!("element {} lost its handler", name),
        }
    }
    assert_eq!(deliveries, names.len());
}

#[test]
fn window_capacity_is_refused_explicitly() {
    let mut store: BindStore<usize> = BindStore::new();
    assert_eq!(
        store.add_function(64, "x", 1),
        Err(RegistryError::WindowCapacity)
    );
    // The refused registration left nothing behind.
    assert_eq!(store.get_function(63, "x"), None);
    assert_eq!(store.add_function(63, "x", 1), Ok(0));
    assert_eq!(store.get_function(63, "x"), Some(1));
}

#[test]
fn element_capacity_is_refused_explicitly() {
    let mut store: BindStore<usize> = BindStore::new();
    for k in 0..64 {
        let name = format!("element{}", k);
        assert_eq!(store.add_function(0, &name, k).unwrap(), k);
    }
    // A 65th distinct name finds every slot taken.
    assert_eq!(
        store.add_function(0, "one-too-many", 999),
        Err(RegistryError::ElementCapacity)
    );
    // A known name still registers fine at full interning.
    assert_eq!(store.add_function(7, "element63", 5).unwrap(), 63);
    assert_eq!(store.get_function(7, "element63"), Some(5));
    // The full table still answers lookups.
    assert_eq!(store.get_function(0, "element0"), Some(0));
    assert_eq!(store.get_function(0, "one-too-many"), None);
}

#[test]
fn save_and_find_string_intern_densely() {
    let mut store: BindStore<usize> = BindStore::new();
    assert_eq!(store.find_string("alpha"), -1);
    assert_eq!(store.save_string("alpha"), Some(0));
    assert_eq!(store.save_string("beta"), Some(1));
    assert_eq!(store.save_string("alpha"), Some(0));
    assert_eq!(store.find_string("alpha"), 0);
    assert_eq!(store.find_string("beta"), 1);
    assert_eq!(store.find_string("gamma"), -1);
    // Interning alone binds nothing.
    assert_eq!(store.get_function(0, "alpha"), None);
}
