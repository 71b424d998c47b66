use core_widgets::access::{apply_access_state, build_access_node, read_disabled, read_toggled,
    AccessRole};
use core_widgets::core_radio::CoreRadio;
use core_widgets::world::{AccessState, UiWorld, Widget};

#[test]
fn a_fresh_node_has_nothing_set() {
    let n = build_access_node(AccessRole::CheckBox);
    assert_eq!(read_toggled(&n), None);
    assert!(!read_disabled(&n));
}

#[test]
fn applying_a_state_writes_it_into_the_node() {
    let mut n = build_access_node(AccessRole::RadioButton);
    let mut st = AccessState::empty();
    st.toggled = Some(true);
    st.disabled = true;
    apply_access_state(&mut n, &st);
    assert_eq!(read_toggled(&n), Some(true));
    assert!(read_disabled(&n));
    // Applying the cleared state flips both back.
    st.toggled = Some(false);
    st.disabled = false;
    apply_access_state(&mut n, &st);
    assert_eq!(read_toggled(&n), Some(false));
    assert!(!read_disabled(&n));
}

#[test]
fn the_world_model_carries_over_to_a_real_node() {
    // The world keeps a radio's checked state synchronized with its
    // accessibility model; pushing that model into a real node carries the
    // same values through.
    let mut w = UiWorld::new();
    let r = w.spawn(None, Widget::Radio(CoreRadio));
    w.set_checked(r, true);
    w.insert_disabled(r);
    let st = w.access_state(r).unwrap();
    let mut n = build_access_node(AccessRole::RadioButton);
    apply_access_state(&mut n, &st);
    assert_eq!(read_toggled(&n), Some(true));
    assert!(read_disabled(&n));
}

#[test]
fn roles_build_distinct_nodes() {
    // Every role the library assigns can be built.
    for role in [
        AccessRole::Button,
        AccessRole::CheckBox,
        AccessRole::RadioButton,
        AccessRole::RadioGroup,
        AccessRole::Slider,
    ] {
        let n = build_access_node(role);
        assert_eq!(read_toggled(&n), None);
    }
}
