use interval_task::state_manager::StateManager;

#[test]
fn new_manager_holds_initial_state_unlocked() {
    let m = StateManager::new(7u8);
    assert_eq!(*m.get(), 7);
    assert!(!m.is_in_change());
}
