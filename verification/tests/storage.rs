use henflow::http_structs::{EstuaryPin, EstuaryPinContent};
use henflow::service::ServiceReply;
use henflow::storage::{
    reply_from_reading, reply_from_registrations, LookupReading, LookupResponse, NOT_FOUND,
    NO_REGISTRATION,
};

fn pin(size: u64) -> EstuaryPin {
    EstuaryPin { content: EstuaryPinContent { size } }
}

#[test]
fn not_found_means_not_registered() {
    assert_eq!(NOT_FOUND, 404);
    assert_eq!(LookupResponse::Refused { status: Some(404) }.read(), LookupReading::NotRegistered);
}

#[test]
fn any_other_error_status_is_a_failure() {
    for status in [400u16, 401, 403, 405, 429, 500, 502, 503, 599] {
        assert_eq!(LookupResponse::Refused { status: Some(status) }.read(), LookupReading::Failed);
    }
    assert_eq!(LookupResponse::Refused { status: None }.read(), LookupReading::Failed);
}

#[test]
fn a_body_without_a_registration_means_not_registered() {
    assert_eq!(NO_REGISTRATION, "null\n");
    assert_eq!(
        LookupResponse::Answered { body: "null\n".to_string() }.read(),
        LookupReading::NotRegistered
    );
}

#[test]
fn any_other_body_holds_registrations() {
    for body in ["null", "", "[]", "\nnull\n", "null\n\n", " null\n", "[{\"content\":{\"size\":3}}]"] {
        assert_eq!(
            LookupResponse::Answered { body: body.to_string() }.read(),
            LookupReading::Registrations
        );
    }
}

#[test]
fn the_first_registration_gives_the_size() {
    assert_eq!(reply_from_registrations(&vec![pin(4096)]), ServiceReply::Registered(Some(4096)));
    assert_eq!(
        reply_from_registrations(&vec![pin(0), pin(7), pin(9)]),
        ServiceReply::Registered(Some(0))
    );
}

#[test]
fn an_empty_list_of_registrations_means_not_registered() {
    assert_eq!(reply_from_registrations(&Vec::new()), ServiceReply::Registered(None));
}

#[test]
fn a_reading_of_not_registered_is_an_answer() {
    assert_eq!(
        reply_from_reading(LookupReading::NotRegistered),
        Some(ServiceReply::Registered(None))
    );
    assert_eq!(
        reply_from_reading(LookupResponse::Refused { status: Some(404) }.read()),
        Some(ServiceReply::Registered(None))
    );
    assert_eq!(
        reply_from_reading(LookupResponse::Answered { body: "null\n".to_string() }.read()),
        Some(ServiceReply::Registered(None))
    );
}

#[test]
fn no_other_reading_is_an_answer() {
    assert_eq!(reply_from_reading(LookupReading::Failed), None);
    assert_eq!(reply_from_reading(LookupReading::Registrations), None);
    assert_eq!(reply_from_reading(LookupResponse::Refused { status: Some(500) }.read()), None);
    assert_eq!(
        reply_from_reading(LookupResponse::Answered { body: "[]".to_string() }.read()),
        None
    );
}
