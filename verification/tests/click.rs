use clippi_ui::click::CardClickAction::{
    Noop, PasteBitmap, PasteDefault, PastePlain, RangeSelect, SelectSingle, ToggleSelect,
};
use clippi_ui::click::CardModifier::{
    AdditiveCombo, Other, Primary, Shift, ShiftCombo, Unmodified,
};
use clippi_ui::click::{
    additive_selection_modifier, classify_card_modifier, modified_double_click_kind,
    resolve_card_click_action, CardClickAction, CardModifier, ModifiedPasteModifier, Modifiers,
    PasteClickMode,
};

fn dispatch(
    mode: PasteClickMode,
    selected: bool,
    count: usize,
    modifier: CardModifier,
    is_image: bool,
) -> CardClickAction {
    resolve_card_click_action(mode, selected, count, modifier, is_image)
}

fn paste_arm(action: CardClickAction) -> bool {
    match action {
        CardClickAction::PasteDefault
        | CardClickAction::PastePlain
        | CardClickAction::PasteBitmap => true,
        CardClickAction::Noop
        | CardClickAction::SelectSingle
        | CardClickAction::ToggleSelect
        | CardClickAction::RangeSelect => false,
    }
}

#[test]
fn classify_card_modifier_buckets_match_legacy_routing() {
    assert_eq!(classify_card_modifier(Modifiers::none()), Unmodified);
    assert_eq!(
        classify_card_modifier(Modifiers {
            control: true,
            ..Default::default()
        }),
        Primary
    );
    assert_eq!(
        classify_card_modifier(Modifiers {
            shift: true,
            ..Default::default()
        }),
        Shift
    );
    assert_eq!(
        classify_card_modifier(Modifiers {
            control: true,
            shift: true,
            ..Default::default()
        }),
        AdditiveCombo
    );
    assert_eq!(
        classify_card_modifier(Modifiers {
            shift: true,
            alt: true,
            ..Default::default()
        }),
        ShiftCombo
    );
    assert_eq!(
        classify_card_modifier(Modifiers {
            alt: true,
            ..Default::default()
        }),
        Other
    );
    assert_eq!(
        classify_card_modifier(Modifiers {
            function: true,
            ..Default::default()
        }),
        Other
    );
    assert_eq!(
        classify_card_modifier(Modifiers {
            platform: true,
            ..Default::default()
        }),
        Other
    );
    assert_eq!(
        classify_card_modifier(Modifiers {
            platform: true,
            mac: true,
            ..Default::default()
        }),
        Primary
    );
}

#[test]
fn single_click_selected_paste_matrix() {
    let single = PasteClickMode::SingleClick;
    assert_eq!(
        resolve_card_click_action(single, true, 1, Unmodified, true),
        PasteDefault
    );
    assert_eq!(
        resolve_card_click_action(single, true, 3, Unmodified, false),
        SelectSingle
    );
    assert_eq!(
        resolve_card_click_action(single, true, 1, Shift, false),
        PastePlain
    );
    assert_eq!(
        resolve_card_click_action(single, true, 3, Shift, false),
        RangeSelect
    );
    assert_eq!(
        resolve_card_click_action(single, true, 1, Primary, true),
        PasteBitmap
    );
    assert_eq!(
        resolve_card_click_action(single, true, 1, Primary, false),
        Noop
    );
}

#[test]
fn single_click_unselected_plain_click_pastes_but_modifiers_select() {
    let single = PasteClickMode::SingleClick;
    assert_eq!(
        resolve_card_click_action(single, false, 1, Unmodified, false),
        PasteDefault
    );
    assert_eq!(
        resolve_card_click_action(single, false, 4, Unmodified, false),
        SelectSingle
    );
    assert_eq!(
        resolve_card_click_action(single, false, 1, Primary, true),
        ToggleSelect
    );
    assert_eq!(
        resolve_card_click_action(single, false, 1, Shift, false),
        RangeSelect
    );
}

#[test]
fn single_click_other_combos_are_noop_and_never_candidate() {
    let single = PasteClickMode::SingleClick;
    for (selected, card_mod) in [
        (true, AdditiveCombo),
        (true, ShiftCombo),
        (true, Other),
        (false, AdditiveCombo),
        (false, ShiftCombo),
        (false, Other),
    ] {
        assert_eq!(
            resolve_card_click_action(single, selected, 2, card_mod, true),
            Noop
        );
    }
}

#[test]
fn double_click_mode_preserves_legacy_single_click_selection() {
    let dbl = PasteClickMode::DoubleClick;
    assert_eq!(
        resolve_card_click_action(dbl, true, 1, Unmodified, false),
        SelectSingle
    );
    assert_eq!(
        resolve_card_click_action(dbl, true, 1, Primary, false),
        ToggleSelect
    );
    assert_eq!(
        resolve_card_click_action(dbl, false, 1, Shift, false),
        RangeSelect
    );
    assert_eq!(
        resolve_card_click_action(dbl, true, 1, AdditiveCombo, false),
        ToggleSelect
    );
    assert_eq!(
        resolve_card_click_action(dbl, false, 1, ShiftCombo, false),
        RangeSelect
    );
    assert_eq!(
        resolve_card_click_action(dbl, false, 1, Other, false),
        SelectSingle
    );
}

#[test]
fn single_click_matrix_2_3_full_grid() {
    let single = PasteClickMode::SingleClick;
    assert_eq!(
        resolve_card_click_action(single, true, 1, Unmodified, true),
        PasteDefault
    );
    assert_eq!(
        resolve_card_click_action(single, true, 1, Unmodified, false),
        PasteDefault
    );
    assert_eq!(
        resolve_card_click_action(single, true, 3, Unmodified, true),
        SelectSingle
    );
    assert_eq!(
        resolve_card_click_action(single, true, 3, Unmodified, false),
        SelectSingle
    );
    assert_eq!(
        resolve_card_click_action(single, true, 1, Shift, true),
        PastePlain
    );
    assert_eq!(
        resolve_card_click_action(single, true, 3, Shift, false),
        RangeSelect
    );
    assert_eq!(
        resolve_card_click_action(single, true, 1, Primary, true),
        PasteBitmap
    );
    assert_eq!(
        resolve_card_click_action(single, true, 1, Primary, false),
        Noop
    );
    assert_eq!(
        resolve_card_click_action(single, true, 4, Primary, true),
        ToggleSelect
    );
    assert_eq!(
        resolve_card_click_action(single, true, 4, Primary, false),
        ToggleSelect
    );
    assert_eq!(
        resolve_card_click_action(single, false, 1, Unmodified, true),
        PasteDefault
    );
    assert_eq!(
        resolve_card_click_action(single, false, 4, Unmodified, false),
        SelectSingle
    );
    assert_eq!(
        resolve_card_click_action(single, false, 1, Primary, true),
        ToggleSelect
    );
    assert_eq!(
        resolve_card_click_action(single, false, 3, Shift, false),
        RangeSelect
    );
}

#[test]
fn single_click_modifier_plus_multi_select_never_batches() {
    let single = PasteClickMode::SingleClick;
    assert_eq!(
        resolve_card_click_action(single, true, 4, Shift, true),
        RangeSelect
    );
    assert_eq!(
        resolve_card_click_action(single, true, 4, Shift, false),
        RangeSelect
    );
    assert_eq!(
        resolve_card_click_action(single, true, 4, Primary, true),
        ToggleSelect
    );
    assert_eq!(
        resolve_card_click_action(single, true, 4, Primary, false),
        ToggleSelect
    );
}

#[test]
fn single_click_bitmap_only_for_image_items() {
    let single = PasteClickMode::SingleClick;
    assert_eq!(
        resolve_card_click_action(single, true, 1, Primary, true),
        PasteBitmap
    );
    assert_eq!(
        resolve_card_click_action(single, true, 1, Primary, false),
        Noop
    );
    assert_eq!(
        resolve_card_click_action(single, true, 5, Primary, true),
        ToggleSelect
    );
    assert_eq!(
        resolve_card_click_action(single, true, 5, Primary, false),
        ToggleSelect
    );
}

#[test]
fn single_click_unselected_plain_pastes_modified_clicks_do_not() {
    let single = PasteClickMode::SingleClick;
    for (count, is_image) in [
        (1usize, false),
        (1, true),
        (2, false),
        (2, true),
        (5, false),
    ] {
        assert_eq!(
            resolve_card_click_action(single, false, count, Unmodified, is_image),
            if count > 1 {
                SelectSingle
            } else {
                PasteDefault
            }
        );
        assert_eq!(
            resolve_card_click_action(single, false, count, Primary, is_image),
            ToggleSelect
        );
        assert_eq!(
            resolve_card_click_action(single, false, count, Shift, is_image),
            RangeSelect
        );
        assert_eq!(
            resolve_card_click_action(single, false, count, AdditiveCombo, is_image),
            Noop
        );
        assert_eq!(
            resolve_card_click_action(single, false, count, ShiftCombo, is_image),
            Noop
        );
        assert_eq!(
            resolve_card_click_action(single, false, count, Other, is_image),
            Noop
        );
    }
}

#[test]
fn classify_and_resolve_other_modifier_combos_never_paste() {
    let single = PasteClickMode::SingleClick;
    for modifiers in [
        Modifiers {
            control: true,
            shift: true,
            ..Default::default()
        },
        Modifiers {
            control: true,
            alt: true,
            ..Default::default()
        },
        Modifiers {
            shift: true,
            alt: true,
            ..Default::default()
        },
        Modifiers {
            alt: true,
            ..Default::default()
        },
        Modifiers {
            function: true,
            ..Default::default()
        },
        Modifiers {
            platform: true,
            ..Default::default()
        },
        Modifiers {
            platform: true,
            alt: true,
            mac: true,
            ..Default::default()
        },
    ] {
        let bucket = classify_card_modifier(modifiers);
        assert_eq!(
            resolve_card_click_action(single, true, 1, bucket, true),
            Noop
        );
        assert_eq!(
            resolve_card_click_action(single, true, 3, bucket, false),
            Noop
        );
        assert_eq!(
            resolve_card_click_action(single, false, 1, bucket, true),
            Noop
        );
        assert!(!matches!(
            bucket,
            CardModifier::Unmodified | CardModifier::Primary | CardModifier::Shift
        ));
    }
}

#[test]
fn single_click_single_paste_per_gesture() {
    let single = PasteClickMode::SingleClick;
    assert_eq!(
        resolve_card_click_action(single, true, 1, Unmodified, true),
        PasteDefault
    );
    assert_eq!(
        resolve_card_click_action(single, true, 1, Unmodified, false),
        PasteDefault
    );
    let first = resolve_card_click_action(single, true, 1, Unmodified, false);
    let second = resolve_card_click_action(single, true, 1, Unmodified, false);
    assert_eq!(first, second);
    assert_eq!(second, PasteDefault);
}

#[test]
fn single_click_short_judge_never_mutates_selection_for_selected() {
    let single = PasteClickMode::SingleClick;
    for (modifier, is_image) in [
        (Unmodified, false),
        (Unmodified, true),
        (Shift, false),
        (Shift, true),
        (Primary, true),
    ] {
        let action = resolve_card_click_action(single, true, 1, modifier, is_image);
        assert!(
            matches!(action, PasteDefault | PastePlain | PasteBitmap),
            "selected+single should paste, got {action:?} (modifier={modifier:?}, is_image={is_image})"
        );
    }
    assert_eq!(
        resolve_card_click_action(single, true, 1, Primary, false),
        Noop
    );
}

#[test]
fn double_click_mode_dispatcher_is_selection_only_and_matches_legacy() {
    let dbl = PasteClickMode::DoubleClick;
    let single = PasteClickMode::SingleClick;
    for (selected, count, is_image) in [
        (true, 1usize, false),
        (true, 1, true),
        (true, 3, false),
        (false, 1, false),
    ] {
        for modifier in [Unmodified, Primary, Shift, AdditiveCombo, ShiftCombo, Other] {
            let action = resolve_card_click_action(dbl, selected, count, modifier, is_image);
            assert!(
                !matches!(action, PasteDefault | PastePlain | PasteBitmap),
                "double-click dispatcher must never paste on a single click, got {action:?} (selected={selected}, count={count}, modifier={modifier:?})"
            );
        }
    }
    assert_eq!(
        resolve_card_click_action(dbl, true, 1, Unmodified, false),
        SelectSingle
    );
    assert_eq!(
        resolve_card_click_action(dbl, true, 1, Primary, false),
        ToggleSelect
    );
    assert_eq!(
        resolve_card_click_action(dbl, true, 1, Shift, false),
        RangeSelect
    );
    assert_eq!(
        resolve_card_click_action(dbl, true, 1, AdditiveCombo, false),
        ToggleSelect
    );
    assert_eq!(
        resolve_card_click_action(dbl, true, 1, ShiftCombo, false),
        RangeSelect
    );
    assert_eq!(
        resolve_card_click_action(dbl, true, 1, Other, false),
        SelectSingle
    );
    assert_eq!(
        resolve_card_click_action(dbl, false, 1, Primary, false),
        resolve_card_click_action(single, false, 1, Primary, true)
    );
    assert_eq!(
        resolve_card_click_action(dbl, false, 1, Shift, false),
        resolve_card_click_action(single, false, 1, Shift, false)
    );
    assert_eq!(
        resolve_card_click_action(dbl, false, 1, Unmodified, false),
        SelectSingle
    );
    assert_eq!(
        resolve_card_click_action(single, false, 1, Unmodified, false),
        PasteDefault
    );
}

#[test]
fn multi_select_clicks_only_manage_selection() {
    let single = PasteClickMode::SingleClick;
    for &selected in &[true, false] {
        for &count in &[2usize, 3, 4, 5] {
            for &is_image in &[true, false] {
                for modifier in [Primary, Shift, AdditiveCombo, ShiftCombo, Other] {
                    let action = dispatch(single, selected, count, modifier, is_image);
                    assert!(
                        !paste_arm(action),
                        "modified multi-select click must never paste, got {action:?} (selected={selected}, count={count}, is_image={is_image}, modifier={modifier:?})"
                    );
                }
                assert_eq!(
                    dispatch(single, selected, count, Unmodified, is_image),
                    SelectSingle
                );
                assert_eq!(
                    dispatch(single, selected, count, Primary, is_image),
                    ToggleSelect
                );
                assert_eq!(
                    dispatch(single, selected, count, Shift, is_image),
                    RangeSelect
                );
                assert_eq!(
                    dispatch(single, selected, count, AdditiveCombo, is_image),
                    Noop
                );
                assert_eq!(
                    dispatch(single, selected, count, ShiftCombo, is_image),
                    Noop
                );
                assert_eq!(dispatch(single, selected, count, Other, is_image), Noop);
            }
        }
    }
}

#[test]
fn modified_paste_requires_clicked_selected_and_count_one() {
    let single = PasteClickMode::SingleClick;
    for &selected in &[true, false] {
        for &count in &[1usize, 2, 3, 5] {
            for &is_image in &[true, false] {
                for modifier in [Unmodified, Primary, Shift, AdditiveCombo, ShiftCombo, Other] {
                    let action = dispatch(single, selected, count, modifier, is_image);
                    let expects_paste = match modifier {
                        Unmodified => count <= 1,
                        Shift => selected && count == 1,
                        Primary => selected && count == 1 && is_image,
                        AdditiveCombo | ShiftCombo | Other => false,
                    };
                    assert_eq!(
                        paste_arm(action),
                        expects_paste,
                        "unexpected paste routing: {action:?} (selected={selected}, count={count}, is_image={is_image}, modifier={modifier:?})"
                    );
                }
            }
        }
    }
    assert_eq!(dispatch(single, true, 1, Unmodified, false), PasteDefault);
    assert_eq!(dispatch(single, true, 1, Shift, false), PastePlain);
    assert_eq!(dispatch(single, true, 1, Primary, true), PasteBitmap);
    assert_eq!(dispatch(single, true, 1, Primary, false), Noop);
}

#[test]
fn double_click_dispatcher_selection_only_no_regression() {
    let dbl = PasteClickMode::DoubleClick;
    for &selected in &[true, false] {
        for &count in &[1usize, 2, 3, 5] {
            for &is_image in &[true, false] {
                for modifier in [Unmodified, Primary, Shift, AdditiveCombo, ShiftCombo, Other] {
                    let action = dispatch(dbl, selected, count, modifier, is_image);
                    assert!(
                        !paste_arm(action),
                        "double-click dispatcher must be selection-only, got {action:?} (selected={selected}, count={count}, is_image={is_image}, modifier={modifier:?})"
                    );
                }
            }
        }
    }
    assert_eq!(dispatch(dbl, true, 1, Unmodified, false), SelectSingle);
    assert_eq!(dispatch(dbl, true, 1, Primary, false), ToggleSelect);
    assert_eq!(dispatch(dbl, true, 1, Shift, false), RangeSelect);
    assert_eq!(dispatch(dbl, true, 1, AdditiveCombo, false), ToggleSelect);
    assert_eq!(dispatch(dbl, true, 1, ShiftCombo, false), RangeSelect);
    assert_eq!(dispatch(dbl, true, 1, Other, false), SelectSingle);
    assert_eq!(dispatch(dbl, true, 3, Unmodified, false), SelectSingle);
}

#[test]
fn combo_other_modifiers_resolve_noop_in_single_click() {
    let single = PasteClickMode::SingleClick;
    for bucket in [AdditiveCombo, ShiftCombo, Other] {
        for &(selected, count, is_image) in &[
            (true, 1usize, false),
            (true, 1, true),
            (true, 3, false),
            (true, 2, true),
            (false, 1, false),
            (false, 4, true),
        ] {
            let action = dispatch(single, selected, count, bucket, is_image);
            assert_eq!(action, Noop);
            assert!(!paste_arm(action));
        }
    }
}

#[test]
fn bare_modifiers_alone_form_a_modified_double_click() {
    let control = Modifiers { control: true, ..Default::default() };
    let shift = Modifiers { shift: true, ..Default::default() };
    assert_eq!(modified_double_click_kind(control), Some(ModifiedPasteModifier::Bitmap));
    assert_eq!(modified_double_click_kind(shift), Some(ModifiedPasteModifier::PlainText));
    assert_eq!(modified_double_click_kind(Modifiers::none()), None);
    let both = Modifiers { control: true, shift: true, ..Default::default() };
    assert_eq!(modified_double_click_kind(both), None);
    let alt = Modifiers { alt: true, ..Default::default() };
    assert_eq!(modified_double_click_kind(alt), None);
}

#[test]
fn command_takes_the_part_of_control_on_mac() {
    let command = Modifiers { platform: true, mac: true, ..Default::default() };
    let control = Modifiers { control: true, mac: true, ..Default::default() };
    assert_eq!(modified_double_click_kind(command), Some(ModifiedPasteModifier::Bitmap));
    assert_eq!(modified_double_click_kind(control), None);
    assert!(additive_selection_modifier(control));
    assert!(additive_selection_modifier(command));
    assert!(!additive_selection_modifier(Modifiers { platform: true, ..Default::default() }));
}

#[test]
fn unknown_paste_modes_mean_a_double_click() {
    assert_eq!(PasteClickMode::from_settings("single_click"), PasteClickMode::SingleClick);
    assert_eq!(PasteClickMode::from_settings("double_click"), PasteClickMode::DoubleClick);
    assert_eq!(PasteClickMode::from_settings(""), PasteClickMode::DoubleClick);
    assert_eq!(PasteClickMode::from_settings("Single_Click"), PasteClickMode::DoubleClick);
}
