use rust_survey::msg::{
    consentID, consent_num, front_matter_num, gestureType, gotoConsent, gotoFrontMatter,
    gotoLikert, gotoMostAccurate, gotoMostComfortable, gotoMostResponsive, gotoOrderFavorite,
    gotoPress, gotoSlide, gotoSlider, gotoTap, is_begin, is_connected, is_consent, is_type,
    likert, likert_num, materialIndex, most_accurate_num, most_comfortable_num,
    most_responsive_num, order_favorite_num, press_num, slider_num, tap_num, InputType, Message,
};

fn json(text: &str) -> Message {
    serde_json::from_str(text).unwrap()
}

#[test]
fn input_type_of_each_code() {
    assert_eq!(InputType::new(0), InputType::Start);
    assert_eq!(InputType::new(1), InputType::Move);
    assert_eq!(InputType::new(2), InputType::End);
    assert_eq!(InputType::new(3), InputType::Unknown);
    assert_eq!(InputType::new(u32::MAX), InputType::Unknown);
}

#[test]
fn slide_numbers_are_fixed() {
    assert_eq!(front_matter_num(), 0);
    assert_eq!(consent_num(), 1);
    assert_eq!(likert_num(), 2);
    assert_eq!(press_num(), 3);
    assert_eq!(most_accurate_num(), 4);
    assert_eq!(most_comfortable_num(), 5);
    assert_eq!(most_responsive_num(), 6);
    assert_eq!(order_favorite_num(), 7);
    assert_eq!(slider_num(), 8);
    assert_eq!(tap_num(), 9);
}

#[test]
fn discriminator_is_matched_exactly() {
    assert!(is_type("begin", json(r#"{"type":"begin"}"#)));
    assert!(!is_type("begin", json(r#"{"type":"beginning"}"#)));
    assert!(!is_type("begin", json(r#"{"kind":"begin"}"#)));
    assert!(is_begin(json(r#"{"type":"begin","extra":[1,2]}"#)));
    assert!(is_consent(json(r#"{"type":"consent"}"#)));
    assert!(is_connected(json(r#"{"type":"connected"}"#)));
    assert!(!is_begin(json(r#"{"type":"consent"}"#)));
    assert!(!is_consent(json(r#"{"type":"connected"}"#)));
    assert!(!is_connected(json(r#"{"type":"begin"}"#)));
}

#[test]
fn message_without_usable_discriminator_matches_nothing() {
    assert!(!is_begin(json(r#"{}"#)));
    assert!(!is_begin(json(r#"{"type":7}"#)));
    assert!(!is_begin(json(r#"["type","begin"]"#)));
    assert!(!is_begin(json(r#""begin""#)));
    assert!(!is_begin(json("null")));
}

#[test]
fn likert_reads_name_and_value() {
    let l = likert(json(r#"{"type":"likert","name":"a","value":4}"#)).unwrap();
    assert_eq!(l.name, "a");
    assert_eq!(l.value, 4);
    let l = likert(json(r#"{"type":"likert","name":"warm","value":1,"more":true}"#)).unwrap();
    assert_eq!(l.name, "warm");
    assert_eq!(l.value, 1);
    assert!(likert(json(r#"{"type":"likert","name":"b","value":5}"#)).is_ok());
}

#[test]
fn likert_rejects_what_is_no_answer() {
    assert!(likert(json(r#"{"type":"noise"}"#)).is_err());
    assert!(likert(json(r#"{"type":"likert","name":"a"}"#)).is_err());
    assert!(likert(json(r#"{"type":"likert","value":3}"#)).is_err());
    assert!(likert(json(r#"{"type":"likert","name":"a","value":0}"#)).is_err());
    assert!(likert(json(r#"{"type":"likert","name":"a","value":6}"#)).is_err());
    assert!(likert(json(r#"{"type":"likert","name":"a","value":-1}"#)).is_err());
    assert!(likert(json(r#"{"type":"likert","name":"a","value":2.5}"#)).is_err());
    assert!(likert(json(r#"{"type":"likert","name":"a","value":"4"}"#)).is_err());
    assert!(likert(json(r#"{"type":"likert","name":3,"value":4}"#)).is_err());
    assert!(likert(json(r#"{"name":"a","value":4}"#)).is_err());
    assert!(likert(json("17")).is_err());
}

#[test]
fn outbound_messages_have_their_members() {
    assert_eq!(
        consentID("abc".to_string()),
        json(r#"{"type":"consentID","id":"abc"}"#)
    );
    assert_eq!(
        materialIndex(3, 8),
        json(r#"{"type":"materialIndex","slide":8,"value":3}"#)
    );
    assert_eq!(
        gestureType("Tap".to_string()),
        json(r#"{"type":"gestureType","value":"Tap"}"#)
    );
    assert_eq!(gotoSlide(6), json(r#"{"type":"goto","slide":6}"#));
}

#[test]
fn goto_messages_name_their_slides() {
    let all = vec![
        gotoFrontMatter(),
        gotoConsent(),
        gotoLikert(),
        gotoPress(),
        gotoMostAccurate(),
        gotoMostComfortable(),
        gotoMostResponsive(),
        gotoOrderFavorite(),
        gotoSlider(),
        gotoTap(),
    ];
    for (i, m) in all.into_iter().enumerate() {
        assert_eq!(m, json(&format!(r#"{{"type":"goto","slide":{}}}"#, i)));
        assert!(is_type("goto", m));
    }
}
