use bundlrs::bundlesdb::{
    after_group_created, after_group_lookup, after_paste_insert, after_paste_lookup,
    begin_paste_creation, CreateStep, Group, Paste,
};
use bundlrs::db::{
    after_edit_lookup, after_new_paste_group_created, after_new_paste_group_lookup,
    after_new_paste_insert, after_new_paste_lookup, after_new_url_check, begin_new_paste,
    begin_paste_edit, default_paste_permissions, new_paste_metadata, GroupMetadata,
    NewPasteStep, PasteEdit, PasteEditStep,
};
use bundlrs::markdown::parse_markdown;
use bundlrs::model::DatabaseError;
use bundlrs::pastemd::database::{
    after_clone_lookup, after_create_lookup, after_delete_paste_lookup, after_edit_paste_lookup,
    after_source_lookup, authorize_delete, authorize_edit, begin_paste_change, begin_paste_create,
    new_paste, Editor, PasteChangeStep, PasteCreateStep, ServerOptions, ViewMode,
};
use bundlrs::pastemd::model::{
    Paste as LightPaste, PasteClone, PasteCreate, PasteError, PasteMetadata as LightMetadata,
};
use bundlrs::utility::hash;

fn s(x: &str) -> String {
    x.to_string()
}

fn site_paste(url: &str, password: &str, group: &str) -> Paste<String> {
    Paste {
        custom_url: s(url),
        id: s("old-id"),
        group_name: s(group),
        edit_password: s(password),
        pub_date: 10,
        edit_date: 11,
        content: s("hello"),
        content_html: s("<p>hello</p>"),
        metadata: String::new(),
        views: 0,
    }
}

fn main_paste(url: &str, password: &str, group: &str) -> bundlrs::db::Paste<String> {
    bundlrs::db::Paste {
        custom_url: s(url),
        id: s("old-id"),
        group_name: s(group),
        edit_password: s(password),
        pub_date: 10,
        edit_date: 11,
        content: s("hello"),
        content_html: s("<p>hello</p>"),
        metadata: String::new(),
        views: 0,
    }
}

fn stored_main_paste(url: &str, password: &str, owner: &str) -> bundlrs::db::Paste<bundlrs::db::PasteMetadata> {
    let mut metadata = new_paste_metadata(Some(s(owner)));
    metadata.permissions_list = default_paste_permissions();
    bundlrs::db::Paste {
        custom_url: s(url),
        id: s("id"),
        group_name: String::new(),
        edit_password: hash(s(password)),
        pub_date: 1,
        edit_date: 2,
        content: s("content"),
        content_html: s("<p>content</p>"),
        metadata,
        views: 0,
    }
}

fn edit(url: &str, password: &str, new_url: Option<&str>, edit_as: Option<&str>) -> PasteEdit {
    PasteEdit {
        url: s(url),
        content: s("# new"),
        edit_password: s(password),
        new_url: new_url.map(s),
        new_edit_password: None,
        edit_as: edit_as.map(s),
    }
}

// the site's create request (success answers, refusals, the group steps)

#[test]
fn a_checked_paste_without_group_looks_up_its_url() {
    let mut p = site_paste("", "", "");
    match begin_paste_creation(&mut p, Some(s("bob"))) {
        CreateStep::LookupPaste { metadata } => assert_eq!(metadata.owner, "bob"),
        _ => panic!("expected a url lookup"),
    }
    assert_eq!(p.custom_url.len(), 10);
    assert_eq!(p.edit_password.len(), 10);
    assert_eq!(p.id, "old-id");
}

#[test]
fn a_paste_in_a_group_looks_up_the_group_and_bad_fields_are_answered() {
    let mut p = site_paste("url", "pw", "gg");
    assert!(matches!(begin_paste_creation(&mut p, None), CreateStep::LookupGroup { .. }));
    let mut q = site_paste("url", "pw", "g");
    match begin_paste_creation(&mut q, None) {
        CreateStep::Answer(a) => {
            assert!(!a.success);
            assert_eq!(a.message, "Group Name is invalid");
            assert!(a.payload.is_none());
        },
        _ => panic!("expected a refusal"),
    }
    let mut r = site_paste("a b", "pw", "");
    match begin_paste_creation(&mut r, None) {
        CreateStep::Answer(a) => assert_eq!(a.message, "Custom URL is invalid"),
        _ => panic!("expected a refusal"),
    }
}

#[test]
fn a_missing_group_is_created_with_the_paste_password() {
    let mut p = site_paste("url", "pw", "gg");
    let metadata = match begin_paste_creation(&mut p, Some(s("bob"))) {
        CreateStep::LookupGroup { metadata } => metadata,
        _ => panic!("expected a group lookup"),
    };
    match after_group_lookup(&mut p, metadata, None) {
        CreateStep::CreateGroup { group, metadata } => {
            assert_eq!(group.name, "gg");
            assert_eq!(group.submit_password, "pw");
            assert_eq!(group.metadata.owner, "bob");
            assert_eq!(metadata.owner, "bob");
        },
        _ => panic!("expected a group creation"),
    }
    assert_eq!(p.custom_url, "url");
}

#[test]
fn a_group_password_must_match_and_a_match_puts_the_paste_in_the_group() {
    let mut p = site_paste("url", "pw", "gg");
    let metadata = match begin_paste_creation(&mut p, None) {
        CreateStep::LookupGroup { metadata } => metadata,
        _ => panic!("expected a group lookup"),
    };
    let wrong = Group { name: s("gg"), submit_password: hash(s("other")), metadata: String::new() };
    match after_group_lookup(&mut p, metadata, Some(wrong)) {
        CreateStep::Answer(a) => {
            assert!(!a.success);
            assert_eq!(
                a.message,
                "The paste edit password must match the group submit password during creation."
            );
        },
        _ => panic!("expected a refusal"),
    }
    assert_eq!(p.custom_url, "url");
    let metadata = match begin_paste_creation(&mut p, None) {
        CreateStep::LookupGroup { metadata } => metadata,
        _ => panic!("expected a group lookup"),
    };
    let right = Group { name: s("gg"), submit_password: hash(s("pw")), metadata: String::new() };
    assert!(matches!(after_group_lookup(&mut p, metadata, Some(right)), CreateStep::LookupPaste { .. }));
    assert_eq!(p.custom_url, "gg/url");
}

#[test]
fn a_created_group_puts_the_paste_in_it_and_a_refused_one_answers() {
    let mut p = site_paste("url", "pw", "gg");
    let metadata = match begin_paste_creation(&mut p, None) {
        CreateStep::LookupGroup { metadata } => metadata,
        _ => panic!("expected a group lookup"),
    };
    match after_group_created(&mut p, metadata, Err(s("Group already exists!"))) {
        CreateStep::Answer(a) => assert_eq!(a.message, "Group already exists!"),
        _ => panic!("expected a refusal"),
    }
    let metadata = match begin_paste_creation(&mut p, None) {
        CreateStep::LookupGroup { metadata } => metadata,
        _ => panic!("expected a group lookup"),
    };
    assert!(matches!(after_group_created(&mut p, metadata, Ok(())), CreateStep::LookupPaste { .. }));
    assert_eq!(p.custom_url, "gg/url");
}

#[test]
fn a_taken_url_is_answered_and_a_free_one_is_inserted_with_a_new_id() {
    let p = site_paste("url", "pw", "");
    match after_paste_lookup(&p, &s("{}"), true) {
        CreateStep::Answer(a) => {
            assert!(!a.success);
            assert_eq!(a.message, "Paste already exists!");
        },
        _ => panic!("expected a refusal"),
    }
    match after_paste_lookup(&p, &s("{\"owner\":\"\"}"), false) {
        CreateStep::Insert { paste, values } => {
            assert_eq!(paste.id.len(), 64);
            assert_ne!(paste.id, "old-id");
            assert_eq!(paste.custom_url, "url");
            assert_eq!(values.len(), 9);
            assert_eq!(values[0], "url");
            assert_eq!(values[1], paste.id);
            assert_eq!(values[3], hash(s("pw")));
            assert_eq!(values[4], "10");
            assert_eq!(values[8], "{\"owner\":\"\"}");
        },
        _ => panic!("expected an insert"),
    }
    assert_eq!(p.id, "old-id");
}

#[test]
fn an_inserted_paste_is_answered_with_its_password() {
    let p = site_paste("url", "pw", "");
    let ok = after_paste_insert(p, Ok(()));
    assert!(ok.success);
    assert_eq!(ok.message, "pw");
    assert_eq!(ok.payload.unwrap().custom_url, "url");
    let failed = after_paste_insert(site_paste("url", "pw", ""), Err(s("disk full")));
    assert!(!failed.success);
    assert_eq!(failed.message, "disk full");
    assert!(failed.payload.is_none());
}

// the main database's create request

#[test]
fn a_reserved_or_short_url_is_a_value_error() {
    let mut p = main_paste("api", "pw", "");
    assert!(matches!(begin_new_paste(&mut p, None), NewPasteStep::Refuse(DatabaseError::ValueError)));
    let mut q = main_paste("a", "pw", "");
    assert!(matches!(begin_new_paste(&mut q, None), NewPasteStep::Refuse(DatabaseError::ValueError)));
    let mut r = main_paste("url", "pw", "gg");
    assert!(matches!(begin_new_paste(&mut r, None), NewPasteStep::LookupGroup { .. }));
}

#[test]
fn a_group_password_mismatch_is_a_value_error() {
    let mut p = main_paste("url", "pw", "gg");
    let wrong = bundlrs::db::Group {
        name: s("gg"),
        submit_password: hash(s("x")),
        metadata: GroupMetadata { owner: s("bob") },
    };
    let step = after_new_paste_group_lookup(&mut p, new_paste_metadata(None), Some(wrong));
    assert!(matches!(step, NewPasteStep::Refuse(DatabaseError::ValueError)));
    assert_eq!(p.custom_url, "url");
    match after_new_paste_group_lookup(&mut p, new_paste_metadata(Some(s("bob"))), None) {
        NewPasteStep::CreateGroup { group, .. } => {
            assert_eq!(group.name, "gg");
            assert_eq!(group.submit_password, "pw");
            assert_eq!(group.metadata.owner, "bob");
        },
        _ => panic!("expected a group creation"),
    }
    let right = bundlrs::db::Group {
        name: s("gg"),
        submit_password: hash(s("pw")),
        metadata: GroupMetadata { owner: s("bob") },
    };
    let step = after_new_paste_group_lookup(&mut p, new_paste_metadata(None), Some(right));
    assert!(matches!(step, NewPasteStep::LookupPaste { .. }));
    assert_eq!(p.custom_url, "gg/url");
}

#[test]
fn a_group_creation_error_refuses_the_paste() {
    let mut p = main_paste("url", "pw", "gg");
    let step = after_new_paste_group_created(&mut p, new_paste_metadata(None), Err(DatabaseError::MustBeUnique));
    assert!(matches!(step, NewPasteStep::Refuse(DatabaseError::MustBeUnique)));
    let step = after_new_paste_group_created(&mut p, new_paste_metadata(None), Ok(()));
    assert!(matches!(step, NewPasteStep::LookupPaste { .. }));
    assert_eq!(p.custom_url, "gg/url");
}

#[test]
fn a_taken_url_must_be_unique_and_a_free_one_is_inserted() {
    let mut p = main_paste("url", "pw", "");
    let step = after_new_paste_lookup(&mut p, &s("{}"), true, &None);
    assert!(matches!(step, NewPasteStep::Refuse(DatabaseError::MustBeUnique)));
    assert_eq!(p.id, "old-id");
    match after_new_paste_lookup(&mut p, &s("{}"), false, &Some(s("alice"))) {
        NewPasteStep::Insert { values, stale_prefix } => {
            assert_eq!(values.len(), 9);
            assert_eq!(values[0], "url");
            assert_eq!(values[1].len(), 64);
            assert_eq!(values[3], hash(s("pw")));
            assert_eq!(values[8], "{}");
            assert_eq!(stale_prefix, Some(s("pastes-by-owner:alice*")));
        },
        _ => panic!("expected an insert"),
    }
    assert_eq!(p.id.len(), 64);
    assert_eq!(p.custom_url, "url");
    let mut q = main_paste("München", "pw", "");
    match after_new_paste_lookup(&mut q, &s("{}"), false, &None) {
        NewPasteStep::Insert { stale_prefix, .. } => assert!(stale_prefix.is_none()),
        _ => panic!("expected an insert"),
    }
    assert_eq!(q.custom_url, "Mnchen-3ya");
}

#[test]
fn an_insert_gives_the_paste_or_other() {
    let ok = after_new_paste_insert(main_paste("url", "pw", ""), true);
    assert_eq!(ok.ok().unwrap().custom_url, "url");
    assert!(matches!(after_new_paste_insert(main_paste("url", "pw", ""), false), Err(DatabaseError::Other)));
}

// the main database's edit request

#[test]
fn an_edit_looks_up_the_stored_url() {
    match begin_paste_edit(&edit("München", "pw", None, None)) {
        PasteEditStep::LookupPaste { url } => assert_eq!(url, "Mnchen-3ya"),
        _ => panic!("expected a lookup"),
    }
}

#[test]
fn an_edit_is_refused_by_the_lookup_or_the_password() {
    let e = edit("abc", "pw", None, None);
    let missing: Result<bundlrs::db::Paste<bundlrs::db::PasteMetadata>, DatabaseError> = Err(DatabaseError::NotFound);
    assert!(matches!(after_edit_lookup(&e, &s("abc"), &missing, 5), PasteEditStep::Refuse(DatabaseError::NotFound)));
    let found = Ok(stored_main_paste("abc", "right", "alice"));
    assert!(matches!(after_edit_lookup(&e, &s("abc"), &found, 5), PasteEditStep::Refuse(DatabaseError::NotAllowed)));
}

#[test]
fn an_authorized_edit_is_stored_and_a_new_url_is_checked_first() {
    let found = Ok(stored_main_paste("abc", "pw", "alice"));
    let e = edit("abc", "pw", None, None);
    match after_edit_lookup(&e, &s("abc"), &found, 77) {
        PasteEditStep::Update { values, stale_key } => {
            assert_eq!(values[0], "# new");
            assert_eq!(values[1], parse_markdown(s("# new")));
            assert_eq!(values[2], hash(s("pw")));
            assert_eq!(values[3], "abc");
            assert_eq!(values[4], "77");
            assert_eq!(values[5], "abc");
            assert_eq!(stale_key, "paste:abc");
        },
        _ => panic!("expected an update"),
    }
    let owner = edit("abc", "wrong", Some("next"), Some("alice"));
    match after_edit_lookup(&owner, &s("abc"), &found, 77) {
        PasteEditStep::CheckNewUrl { url } => assert_eq!(url, "next"),
        _ => panic!("expected a url check"),
    }
    let paste = stored_main_paste("abc", "pw", "alice");
    assert!(matches!(
        after_new_url_check(&owner, &s("abc"), &paste, true, 77),
        PasteEditStep::Refuse(DatabaseError::MustBeUnique)
    ));
    match after_new_url_check(&owner, &s("abc"), &paste, false, 77) {
        PasteEditStep::Update { values, .. } => assert_eq!(values[3], "next"),
        _ => panic!("expected an update"),
    }
}

// the lightweight store's create and clone requests

fn template() -> LightPaste {
    let mut metadata = LightMetadata::default();
    metadata.owner = s("alice");
    LightPaste {
        id: s("id"),
        url: s("tmpl"),
        content: s("body"),
        password: hash(s("pw")),
        date_published: 1,
        date_edited: 2,
        metadata,
    }
}

#[test]
fn a_create_looks_up_the_stored_url_and_a_taken_one_already_exists() {
    match begin_paste_create("ABC") {
        PasteCreateStep::LookupUrl { url } => assert_eq!(url, "abc"),
        _ => panic!("expected a lookup"),
    }
    let props = PasteCreate { url: s("ABC"), content: s("hi"), password: s("pw") };
    assert!(matches!(after_create_lookup(props, s("abc"), true), PasteCreateStep::Refuse(PasteError::AlreadyExists)));
}

#[test]
fn a_free_url_creates_the_paste_now() {
    let props = PasteCreate { url: s("ABC"), content: s("hi"), password: s("pw") };
    match after_create_lookup(props, s("abc"), false) {
        PasteCreateStep::Insert { password, paste } => {
            assert_eq!(password, "pw");
            assert_eq!(paste.url, "abc");
            assert_eq!(paste.password, hash(s("pw")));
            assert!(paste.date_published > 1_600_000_000_000);
            assert_eq!(paste.date_published, paste.date_edited);
        },
        _ => panic!("expected an insert"),
    }
    let short = PasteCreate { url: s("ab"), content: s("hi"), password: s("pw") };
    assert!(matches!(after_create_lookup(short, s("ab"), false), PasteCreateStep::Refuse(PasteError::ValueError)));
}

#[test]
fn a_clone_needs_a_free_url_and_an_existing_template() {
    let props = PasteClone { source: s("tmpl"), url: s("copy"), password: s("x") };
    assert!(matches!(after_clone_lookup(&props, true), PasteCreateStep::Refuse(PasteError::AlreadyExists)));
    match after_clone_lookup(&props, false) {
        PasteCreateStep::LookupSource { url } => assert_eq!(url, "tmpl"),
        _ => panic!("expected a template lookup"),
    }
    let missing = after_source_lookup(
        PasteClone { source: s("tmpl"), url: s("copy"), password: s("x") },
        s("copy"),
        Err(PasteError::NotFound),
    );
    assert!(matches!(missing, PasteCreateStep::Refuse(PasteError::NotFound)));
    match after_source_lookup(props, s("copy"), Ok(template())) {
        PasteCreateStep::Insert { password, paste } => {
            assert_eq!(password, "x");
            assert_eq!(paste.url, "copy");
            assert_eq!(paste.content, "body");
            assert_eq!(paste.metadata.template, "tmpl");
        },
        _ => panic!("expected an insert"),
    }
}

#[test]
fn a_created_paste_opens_with_the_password_it_gives_back() {
    let props = PasteCreate { url: s("abc"), content: s("hi"), password: String::new() };
    let (password, paste) = new_paste(props, 5).ok().unwrap();
    assert!(authorize_delete(&paste, password.clone()).is_ok());
    assert!(authorize_edit(&paste, password, &None).is_ok());
    assert!(authorize_delete(&paste, s("guess")).is_err());
}

// the lightweight store's edit and delete requests

#[test]
fn an_edit_or_delete_looks_up_the_stored_url() {
    match begin_paste_change("ABC") {
        PasteChangeStep::LookupPaste { url } => assert_eq!(url, "abc"),
        _ => panic!("expected a lookup"),
    }
}

#[test]
fn an_edit_needs_the_password_or_the_owner_and_stores_the_new_fields() {
    let missing = after_edit_paste_lookup(Err(PasteError::NotFound), &s("tmpl"), s("pw"), s("new"), &String::new(), String::new(), &None, &s("paste"));
    assert!(matches!(missing, PasteChangeStep::Refuse(PasteError::NotFound)));
    let wrong = after_edit_paste_lookup(Ok(template()), &s("tmpl"), s("guess"), s("new"), &String::new(), String::new(), &None, &s("paste"));
    assert!(matches!(wrong, PasteChangeStep::Refuse(PasteError::PasswordIncorrect)));
    match after_edit_paste_lookup(Ok(template()), &s("tmpl"), s("pw"), s("new"), &String::new(), String::new(), &None, &s("paste")) {
        PasteChangeStep::Update { values, stale_key } => {
            assert_eq!(values[0], "new");
            assert_eq!(values[1], hash(s("pw")));
            assert_eq!(values[2], "tmpl");
            assert!(values[3].parse::<u128>().unwrap() > 1_600_000_000_000);
            assert_eq!(values[4], "tmpl");
            assert_eq!(stale_key, "paste:tmpl");
        },
        _ => panic!("expected an update"),
    }
    let owner = Some(Editor { username: s("alice"), permissions: vec![] });
    match after_edit_paste_lookup(Ok(template()), &s("tmpl"), s("guess"), s("new"), &s("Moved"), s("next"), &owner, &s("paste")) {
        PasteChangeStep::Update { values, .. } => {
            assert_eq!(values[1], hash(s("next")));
            assert_eq!(values[2], "Moved");
        },
        _ => panic!("expected an update"),
    }
}

#[test]
fn a_delete_needs_the_password_and_drops_the_cached_entries() {
    let mut options = ServerOptions::truthy();
    options.view_mode = ViewMode::AuthenticatedOnce;
    let wrong = after_delete_paste_lookup(Ok(template()), &s("tmpl"), s("guess"), &options);
    assert!(matches!(wrong, PasteChangeStep::Refuse(PasteError::PasswordIncorrect)));
    let missing = after_delete_paste_lookup(Err(PasteError::NotFound), &s("tmpl"), s("pw"), &options);
    assert!(matches!(missing, PasteChangeStep::Refuse(PasteError::NotFound)));
    match after_delete_paste_lookup(Ok(template()), &s("tmpl"), s("pw"), &options) {
        PasteChangeStep::Delete { url, views_key, paste_key, drop_view_logs } => {
            assert_eq!(url, "tmpl");
            assert_eq!(views_key, format!("{}:tmpl", options.table_views.prefix));
            assert_eq!(paste_key, format!("{}:tmpl", options.table_pastes.prefix));
            assert!(drop_view_logs);
        },
        _ => panic!("expected a delete"),
    }
    options.view_mode = ViewMode::OpenMultiple;
    match after_delete_paste_lookup(Ok(template()), &s("tmpl"), s("pw"), &options) {
        PasteChangeStep::Delete { drop_view_logs, .. } => assert!(!drop_view_logs),
        _ => panic!("expected a delete"),
    }
}
