use boringwm::volume::{
    first_percentage, osd_body, parse_mute_state, volume_query_needed, OsdBody,
};

#[test]
fn sink_volume_report_yields_its_percentage() {
    let text = b"Volume: front-left: 39321 /  60% / -13.32 dB".to_vec();
    assert_eq!(first_percentage(&text), Some(60));
}

#[test]
fn text_without_percentage_yields_nothing() {
    assert_eq!(first_percentage(&b"no percentage here".to_vec()), None);
    assert_eq!(first_percentage(&Vec::new()), None);
    assert_eq!(first_percentage(&b"   \t \n ".to_vec()), None);
}

#[test]
fn first_parsable_percentage_wins() {
    assert_eq!(first_percentage(&b"x% 42% 60%".to_vec()), Some(42));
}

#[test]
fn oversized_percentage_is_passed_over() {
    assert_eq!(first_percentage(&b"999%".to_vec()), None);
    assert_eq!(first_percentage(&b"999% 55%".to_vec()), Some(55));
    assert_eq!(first_percentage(&b"255%".to_vec()), Some(255));
}

#[test]
fn signed_percentage_parses_like_the_standard_parser() {
    assert_eq!(first_percentage(&b"+5%".to_vec()), Some(5));
    assert_eq!(first_percentage(&b"-5% 7%".to_vec()), Some(7));
}

#[test]
fn bare_percent_sign_is_no_percentage() {
    assert_eq!(first_percentage(&b"% 9%".to_vec()), Some(9));
    assert_eq!(first_percentage(&b"+% 9%".to_vec()), Some(9));
}

#[test]
fn mute_report_yields_the_mute_state() {
    assert_eq!(parse_mute_state(&b"Mute: yes".to_vec()), Some(true));
    assert_eq!(parse_mute_state(&b"Mute: no".to_vec()), Some(false));
    assert_eq!(parse_mute_state(&b"Mute: ???".to_vec()), None);
    assert_eq!(parse_mute_state(&Vec::new()), None);
}

#[test]
fn yes_takes_precedence_over_no() {
    assert_eq!(parse_mute_state(&b"no yes".to_vec()), Some(true));
}

#[test]
fn osd_body_prefers_mute_then_percentage() {
    assert_eq!(osd_body(Some(60), Some(true)), OsdBody::Muted);
    assert_eq!(osd_body(None, Some(true)), OsdBody::Muted);
    assert_eq!(osd_body(Some(60), Some(false)), OsdBody::Percent(60));
    assert_eq!(osd_body(None, Some(false)), OsdBody::Active);
    assert_eq!(osd_body(Some(60), None), OsdBody::Percent(60));
    assert_eq!(osd_body(None, None), OsdBody::Changed);
}

#[test]
fn volume_is_only_queried_while_not_muted() {
    assert!(!volume_query_needed(Some(true)));
    assert!(volume_query_needed(Some(false)));
    assert!(volume_query_needed(None));
}
