use system76_power::profile::{switch_error_text, Profile, ProfileState, SwitchAction};

#[test]
fn profile_names() {
    assert_eq!(Profile::Battery.name(), "Battery");
    assert_eq!(Profile::Balanced.name(), "Balanced");
    assert_eq!(Profile::Performance.name(), "Performance");
}

#[test]
fn no_profile_before_the_first_switch() {
    let state = ProfileState::new();
    assert_eq!(state.get_profile(), "");
    assert!(!state.initial_set());
    assert_eq!(state.begin_switch(Profile::Balanced), SwitchAction::Apply { initial_set: false });
}

#[test]
fn a_switch_is_recorded() {
    let mut state = ProfileState::new();
    assert_eq!(state.finish_switch(Profile::Balanced, &Vec::new()), Ok(()));
    assert_eq!(state.get_profile(), "Balanced");
    assert_eq!(state.begin_switch(Profile::Balanced), SwitchAction::AlreadySet);
    assert_eq!(state.begin_switch(Profile::Battery), SwitchAction::Apply { initial_set: false });
}

#[test]
fn start_up_flag_is_handed_to_later_switches() {
    let mut state = ProfileState::new();
    assert_eq!(state.finish_switch(Profile::Balanced, &Vec::new()), Ok(()));
    state.mark_initial_set();
    assert!(state.initial_set());
    assert_eq!(state.get_profile(), "Balanced");
    assert_eq!(state.begin_switch(Profile::Performance), SwitchAction::Apply { initial_set: true });
}

#[test]
fn a_switch_with_errors_is_recorded_and_reported() {
    let mut state = ProfileState::new();
    let errors = vec!["failed to set a".to_string(), "failed to set b".to_string()];
    assert_eq!(
        state.finish_switch(Profile::Battery, &errors),
        Err("Errors found when setting profile:\n    - failed to set a\n    - failed to set b".to_string())
    );
    assert_eq!(state.get_profile(), "Battery");
    assert_eq!(state.begin_switch(Profile::Battery), SwitchAction::AlreadySet);
}

#[test]
fn error_text_of_one_error() {
    assert_eq!(switch_error_text(&vec!["x".to_string()]), "Errors found when setting profile:\n    - x");
    assert_eq!(switch_error_text(&Vec::new()), "Errors found when setting profile:");
}
