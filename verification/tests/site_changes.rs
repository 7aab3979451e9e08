use bundlrs::bundlesdb::{
    after_delete_paste_found, after_delete_user_lookup, after_edit_paste_found,
    after_edit_url_check, after_paste_delete, after_paste_update, Paste, PasteChange,
};
use bundlrs::db::PasteEdit;
use bundlrs::markdown::parse_markdown;
use bundlrs::pages::{staff_dashboard_gate, StaffGate};
use bundlrs::pastemd::database::{after_create_lookup, after_source_lookup, PasteCreateStep};
use bundlrs::pastemd::model::{Paste as LightPaste, PasteClone, PasteCreate, PasteError, PasteMetadata};
use bundlrs::utility::hash;

fn s(x: &str) -> String {
    x.to_string()
}

fn stored(url: &str, password: &str) -> Paste<String> {
    Paste {
        custom_url: s(url),
        id: s("id"),
        group_name: String::new(),
        edit_password: hash(s(password)),
        pub_date: 1,
        edit_date: 2,
        content: s("old"),
        content_html: s("<p>old</p>"),
        metadata: s("{\"owner\":\"alice\"}"),
        views: 0,
    }
}

fn edit(password: &str, new_url: Option<&str>, new_password: Option<&str>, edit_as: Option<&str>) -> PasteEdit {
    PasteEdit {
        url: s("abc"),
        content: s("*new*"),
        edit_password: s(password),
        new_url: new_url.map(s),
        new_edit_password: new_password.map(s),
        edit_as: edit_as.map(s),
    }
}

#[test]
fn an_edit_of_a_missing_paste_or_with_a_wrong_password_is_answered() {
    match after_edit_paste_found(&edit("pw", None, None, None), &None, &s("alice"), true, 9) {
        PasteChange::Answer(a) => {
            assert!(!a.success);
            assert_eq!(a.message, "Paste does not exist!");
        },
        _ => panic!("expected an answer"),
    }
    match after_edit_paste_found(&edit("guess", None, None, Some("bob")), &Some(stored("abc", "pw")), &s("alice"), true, 9) {
        PasteChange::Answer(a) => assert_eq!(a.message, "Password invalid"),
        _ => panic!("expected an answer"),
    }
}

#[test]
fn an_allowed_edit_is_stored_and_purges_the_cache() {
    match after_edit_paste_found(&edit("pw", None, Some("next"), None), &Some(stored("abc", "pw")), &s("alice"), true, 9) {
        PasteChange::Update { values, custom_url, forget } => {
            assert_eq!(values[0], "*new*");
            assert_eq!(values[1], parse_markdown(s("*new*")));
            assert_eq!(values[2], hash(s("next")));
            assert_eq!(values[3], "abc");
            assert_eq!(values[4], "9");
            assert_eq!(values[5], "abc");
            assert_eq!(custom_url, "abc");
            assert_eq!(forget, Some(s("abc")));
        },
        _ => panic!("expected an update"),
    }
    match after_edit_paste_found(&edit("guess", Some("moved"), None, Some("alice")), &Some(stored("abc", "pw")), &s("alice"), false, 9) {
        PasteChange::CheckNewUrl { url } => assert_eq!(url, "moved"),
        _ => panic!("expected a url check"),
    }
}

#[test]
fn a_taken_new_url_is_answered_and_a_free_one_is_stored() {
    let e = edit("pw", Some("moved"), None, None);
    match after_edit_url_check(&e, &stored("abc", "pw"), true, true, 9) {
        PasteChange::Answer(a) => assert_eq!(a.message, "A paste with this URL already exists!"),
        _ => panic!("expected an answer"),
    }
    match after_edit_url_check(&e, &stored("abc", "pw"), false, false, 9) {
        PasteChange::Update { values, custom_url, forget } => {
            assert_eq!(values[2], hash(s("pw")));
            assert_eq!(values[3], "moved");
            assert_eq!(custom_url, "moved");
            assert!(forget.is_none());
        },
        _ => panic!("expected an update"),
    }
    let done = after_paste_update(Ok(()), s("moved"));
    assert!(done.success);
    assert_eq!(done.message, "Paste updated!");
    assert_eq!(done.payload, Some(s("moved")));
    let failed = after_paste_update(Err(s("locked")), s("moved"));
    assert!(!failed.success);
    assert_eq!(failed.message, "locked");
}

#[test]
fn a_delete_needs_the_owner_staff_or_the_password() {
    match after_delete_paste_found(&s("abc"), &None, &s("alice"), s("pw"), &None, true) {
        PasteChange::Answer(a) => assert_eq!(a.message, "Paste does not exist!"),
        _ => panic!("expected an answer"),
    }
    match after_delete_paste_found(&s("abc"), &Some(stored("abc", "pw")), &s("alice"), s("guess"), &None, true) {
        PasteChange::Answer(a) => assert_eq!(a.message, "Password invalid"),
        _ => panic!("expected an answer"),
    }
    match after_delete_paste_found(&s("abc"), &Some(stored("abc", "pw")), &s("alice"), s("pw"), &None, true) {
        PasteChange::Delete { url, log_pattern, forget } => {
            assert_eq!(url, "abc");
            assert_eq!(log_pattern, "abc::%");
            assert_eq!(forget, Some(s("abc")));
        },
        _ => panic!("expected a delete"),
    }
    match after_delete_paste_found(&s("abc"), &Some(stored("abc", "pw")), &s("alice"), s("guess"), &Some(s("root")), true) {
        PasteChange::LookupUser { username } => assert_eq!(username, "root"),
        _ => panic!("expected a user lookup"),
    }
    let p = stored("abc", "pw");
    assert!(matches!(
        after_delete_user_lookup(&s("abc"), &p, &s("alice"), s("guess"), &Some(s("root")), &Some(s("staff")), false),
        PasteChange::Delete { forget: None, .. }
    ));
    assert!(matches!(
        after_delete_user_lookup(&s("abc"), &p, &s("alice"), s("guess"), &Some(s("alice")), &Some(s("member")), true),
        PasteChange::Delete { .. }
    ));
    assert!(matches!(
        after_delete_user_lookup(&s("abc"), &p, &s("alice"), s("guess"), &Some(s("bob")), &None, true),
        PasteChange::Answer(_)
    ));
}

#[test]
fn a_delete_answers_after_both_deletes() {
    let done = after_paste_delete(Ok(()), true, s("abc"));
    assert!(done.success);
    assert_eq!(done.message, "Paste deleted!");
    assert_eq!(done.payload, Some(s("abc")));
    assert_eq!(after_paste_delete(Ok(()), false, s("abc")).message, "Failed to delete paste");
    assert_eq!(after_paste_delete(Err(s("gone")), true, s("abc")).message, "gone");
}

#[test]
fn the_staff_dashboard_needs_its_permission() {
    assert!(matches!(staff_dashboard_gate(&None), StaffGate::SignIn));
    assert!(matches!(staff_dashboard_gate(&Some(vec![s("StaffDashboard")])), StaffGate::Show));
    match staff_dashboard_gate(&Some(vec![s("ManageUsers")])) {
        StaffGate::Refuse(a) => {
            assert_eq!(a.status, 404);
            assert_eq!(a.body, "You do not have permission to do this");
        },
        _ => panic!("expected a refusal"),
    }
}

#[test]
fn an_invalid_new_paste_is_a_value_error_before_the_clock() {
    let bad_url = PasteCreate { url: s("a b"), content: s("hi"), password: s("pw") };
    assert!(matches!(after_create_lookup(bad_url, s("a b"), false), PasteCreateStep::Refuse(PasteError::ValueError)));
    let no_content = PasteCreate { url: s("abc"), content: String::new(), password: s("pw") };
    assert!(matches!(after_create_lookup(no_content, s("abc"), false), PasteCreateStep::Refuse(PasteError::ValueError)));
    let source = LightPaste {
        id: s("id"),
        url: s("tmpl"),
        content: s("body"),
        password: hash(s("pw")),
        date_published: 1,
        date_edited: 2,
        metadata: PasteMetadata::default(),
    };
    let short = PasteClone { source: s("tmpl"), url: s("ab"), password: s("x") };
    assert!(matches!(after_source_lookup(short, s("ab"), Ok(source)), PasteCreateStep::Refuse(PasteError::ValueError)));
}
