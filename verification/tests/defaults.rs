use telemetry_attributes::attributes::HttpCommonAttributes;
use telemetry_attributes::defaults::{DefaultAttributeRequirementLevel, DefaultForLevel};

fn switches(set: &HttpCommonAttributes) -> Vec<Option<bool>> {
    vec![
        set.error_type,
        set.http_request_body_size,
        set.http_request_method,
        set.http_request_method_original,
        set.http_response_body_size,
        set.http_response_status_code,
        set.network_protocol_name,
        set.network_protocol_version,
        set.network_transport,
        set.network_type,
        set.user_agent_original,
    ]
}

#[test]
fn the_default_level_is_required() {
    assert!(matches!(
        DefaultAttributeRequirementLevel::default(),
        DefaultAttributeRequirementLevel::Required
    ));
}

#[test]
fn required_switches_on_three_attributes() {
    let mut set = HttpCommonAttributes::default();
    set.defaults_for_level(&DefaultAttributeRequirementLevel::Required);
    let on = Some(true);
    assert_eq!(
        switches(&set),
        vec![on, None, on, None, None, on, None, None, None, None, None]
    );
}

#[test]
fn recommended_switches_on_eight_attributes() {
    let mut set = HttpCommonAttributes::default();
    set.defaults_for_level(&DefaultAttributeRequirementLevel::Recommended);
    let on = Some(true);
    assert_eq!(switches(&set), vec![on, on, on, None, on, on, None, on, None, on, on]);
}

#[test]
fn recommended_is_a_superset_of_required() {
    let mut required = HttpCommonAttributes::default();
    required.defaults_for_level(&DefaultAttributeRequirementLevel::Required);
    let mut recommended = HttpCommonAttributes::default();
    recommended.defaults_for_level(&DefaultAttributeRequirementLevel::Recommended);
    for (a, b) in switches(&required).iter().zip(switches(&recommended).iter()) {
        if *a == Some(true) {
            assert_eq!(*b, Some(true));
        }
    }
}

#[test]
fn the_level_without_defaults_changes_nothing() {
    let mut set = HttpCommonAttributes::default();
    set.network_transport = Some(true);
    set.error_type = Some(false);
    let before = switches(&set);
    set.defaults_for_level(&DefaultAttributeRequirementLevel::Nothing);
    assert_eq!(switches(&set), before);
}

#[test]
fn a_switch_that_is_set_is_kept() {
    let mut set = HttpCommonAttributes::default();
    set.error_type = Some(false);
    set.user_agent_original = Some(false);
    set.network_protocol_name = Some(true);
    set.defaults_for_level(&DefaultAttributeRequirementLevel::Recommended);
    assert_eq!(set.error_type, Some(false));
    assert_eq!(set.user_agent_original, Some(false));
    assert_eq!(set.network_protocol_name, Some(true));
    assert_eq!(set.http_request_method, Some(true));
}

#[test]
fn populating_twice_is_populating_once() {
    for level in [
        DefaultAttributeRequirementLevel::Nothing,
        DefaultAttributeRequirementLevel::Required,
        DefaultAttributeRequirementLevel::Recommended,
    ] {
        let mut once = HttpCommonAttributes::default();
        once.http_response_body_size = Some(false);
        once.defaults_for_level(&level);
        let mut twice = once;
        twice.defaults_for_level(&level);
        assert_eq!(switches(&once), switches(&twice));
    }
}
