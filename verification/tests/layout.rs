use fitm::naming::state_name;
use fitm::layout::{
    active_area, active_dir, active_pipes, active_snapshot, saved_area, saved_dir, saved_pipes,
    saved_snapshot,
};

#[test]
fn saved_area_paths() {
    assert_eq!(saved_area(), "saved-states");
    assert_eq!(saved_dir("c2s5"), "./saved-states/c2s5");
    assert_eq!(saved_snapshot("c2s5"), "./saved-states/c2s5/snapshot");
    assert_eq!(saved_pipes("c2s5"), "./saved-states/c2s5/pipes");
}

#[test]
fn active_area_paths() {
    assert_eq!(active_area(), "active-state");
    assert_eq!(active_dir("c0s1"), "./active-state/c0s1/");
    assert_eq!(active_snapshot("c0s1"), "./active-state/c0s1/snapshot");
    assert_eq!(active_pipes("c0s1"), "./active-state/c0s1/pipes");
}

#[test]
fn the_snapshot_lands_under_its_own_name() {
    assert_eq!(active_snapshot("fitm-c3s4"), format!("{}snapshot", active_dir("fitm-c3s4")));
}

#[test]
fn the_two_areas_never_share_a_path() {
    for name in ["", "c0s0", "x", "../saved-states/c0s0"] {
        assert_ne!(active_dir(name), saved_dir(name));
        assert_ne!(active_snapshot(name), saved_snapshot(name));
        assert_ne!(active_pipes(name), saved_pipes(name));
    }
}

#[test]
fn directories_of_different_states_do_not_overlap() {
    let coordinates = [(1u32, 1u32), (1, 11), (11, 1), (1, 10), (10, 1), (0, 0), (100, 100)];
    for prefix in [None, Some("fitm"), Some("c1s1")] {
        for (i, a) in coordinates.iter().enumerate() {
            for (j, b) in coordinates.iter().enumerate() {
                let (a, b) = (state_name(prefix, *a), state_name(prefix, *b));
                let saved = format!("{}/", saved_dir(&b)).starts_with(&format!("{}/", saved_dir(&a)));
                let active = active_dir(&b).starts_with(&active_dir(&a));
                assert_eq!(saved, i == j);
                assert_eq!(active, i == j);
            }
        }
    }
}
