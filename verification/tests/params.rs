use golob_plugin::param::{ParamIdx, FIRST_FIXED_INDEX, LAST_FIXED_INDEX};

#[test]
fn fixed_parameters_are_numbered_from_one() {
    assert_eq!(ParamIdx::ScriptGroupStart.fixed_index(), Some(1));
    assert_eq!(ParamIdx::LoadButton.fixed_index(), Some(2));
    assert_eq!(ParamIdx::IsImageFilter.fixed_index(), Some(8));
    assert_eq!(ParamIdx::StartRender.fixed_index(), Some(15));
    assert_eq!(ParamIdx::CancelRender.fixed_index(), Some(16));
    assert_eq!(ParamIdx::ParametersEnd.fixed_index(), Some(19));
    assert_eq!(FIRST_FIXED_INDEX, 1);
    assert_eq!(LAST_FIXED_INDEX, 19);
}

#[test]
fn a_number_names_the_parameter_that_has_it() {
    for index in 1..=19 {
        let param = ParamIdx::from_fixed_index(index).unwrap();
        assert_eq!(param.fixed_index(), Some(index));
        assert_eq!(param.dynamic_offset(), None);
    }
    assert_eq!(ParamIdx::from_fixed_index(3), Some(ParamIdx::UnloadButton));
    assert_eq!(ParamIdx::from_fixed_index(12), Some(ParamIdx::TemporalWindow));
}

#[test]
fn numbers_outside_the_fixed_range_name_nothing() {
    for index in [0, -1, 20, 255, i32::MIN, i32::MAX] {
        assert_eq!(ParamIdx::from_fixed_index(index), None);
    }
}

#[test]
fn a_dynamic_parameter_has_an_offset_and_no_number() {
    assert_eq!(ParamIdx::Dynamic(7).fixed_index(), None);
    assert_eq!(ParamIdx::Dynamic(7).dynamic_offset(), Some(7));
    assert_eq!(ParamIdx::Dynamic(-3).dynamic_offset(), Some(-3));
    assert_ne!(ParamIdx::Dynamic(1), ParamIdx::Dynamic(2));
}

#[test]
fn the_input_layer_is_checked_out_under_a_dynamic_slot() {
    assert_eq!(ParamIdx::input_layer_checkout_id(), ParamIdx::Dynamic(255));
}
