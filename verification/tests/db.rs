use bundlrs::bundlesdb::DatabaseReturn;
use bundlrs::cache::CacheStore;
use bundlrs::db::{
    authorize_paste_edit, authorize_paste_management, banned_paste_metadata, can_ban,
    check_new_paste, default_paste_permissions, edited_paste_fields, favorites_count,
    finish_new_paste, group_password_matches, grouped_url, new_paste_metadata, paste_from_row,
    prepare_new_paste, toggle_favorite, FavoriteToggle, Paste, PasteMetadata,
    PastePermissionLevel,
};
use bundlrs::db::{owner_filter, owner_pastes_key, paste_identifier_from_row};
use bundlrs::log_db::Log;
use bundlrs::model::DatabaseError;
use bundlrs::utility::hash;

fn paste(url: &str, password: &str, owner: &str) -> Paste<PasteMetadata> {
    let mut metadata = new_paste_metadata(Some(owner.to_string()));
    metadata.permissions_list = default_paste_permissions();
    Paste {
        custom_url: url.to_string(),
        id: "id".to_string(),
        group_name: String::new(),
        edit_password: hash(password.to_string()),
        pub_date: 1,
        edit_date: 2,
        content: "content".to_string(),
        content_html: "<p>content</p>".to_string(),
        metadata,
        views: 0,
    }
}

fn raw_paste(url: &str, password: &str, group: &str, content: &str) -> Paste<String> {
    Paste {
        custom_url: url.to_string(),
        id: String::new(),
        group_name: group.to_string(),
        edit_password: password.to_string(),
        pub_date: 5,
        edit_date: 6,
        content: content.to_string(),
        content_html: String::new(),
        metadata: String::new(),
        views: 0,
    }
}

#[test]
fn new_paste_checks_lengths_names_and_characters() {
    assert!(check_new_paste("ab", "", "x", true).is_ok());
    assert!(matches!(check_new_paste("a", "", "x", true), Err(DatabaseError::ValueError)));
    assert!(matches!(check_new_paste(&"a".repeat(501), "", "x", true), Err(DatabaseError::ValueError)));
    assert!(check_new_paste(&"a".repeat(500), "", "x", true).is_ok());
    assert!(matches!(check_new_paste("ab", "g", "x", true), Err(DatabaseError::ValueError)));
    assert!(check_new_paste("ab", "gg", "x", true).is_ok());
    assert!(matches!(check_new_paste("ab", "", "", true), Err(DatabaseError::ValueError)));
    assert!(matches!(check_new_paste("ab", "", &"x".repeat(400_001), true), Err(DatabaseError::ValueError)));
    for reserved in ["dashboard", "api", "public", "static"] {
        assert!(matches!(check_new_paste(reserved, "", "x", true), Err(DatabaseError::ValueError)));
    }
    assert!(matches!(check_new_paste("ab", "", "x", false), Err(DatabaseError::ValueError)));
}

#[test]
fn prepare_new_paste_fills_empty_fields_and_gives_default_metadata() {
    let mut p = raw_paste("", "", "", "hello");
    let meta = prepare_new_paste(&mut p, Some("alice".to_string())).ok().unwrap();
    assert_eq!(p.custom_url.len(), 10);
    assert_eq!(p.edit_password.len(), 10);
    assert_eq!(meta.owner, "alice");
    assert_eq!(meta.private_source, "off");
    assert_eq!(meta.embed_color, Some("#ffc09e".to_string()));
    assert_eq!(meta.title, Some(String::new()));
    assert!(meta.view_password.is_none());
    assert_eq!(p.content, "hello");
}

#[test]
fn prepare_new_paste_refuses_bad_urls() {
    let mut p = raw_paste("bad url", "pw", "", "hello");
    assert!(matches!(prepare_new_paste(&mut p, None), Err(DatabaseError::ValueError)));
    let mut q = raw_paste("dashboard", "pw", "", "hello");
    assert!(matches!(prepare_new_paste(&mut q, None), Err(DatabaseError::ValueError)));
    let mut r = raw_paste("fine-url_1.!", "pw", "", "hello");
    assert!(prepare_new_paste(&mut r, None).is_ok());
    assert_eq!(r.custom_url, "fine-url_1.!");
    let mut emoji = raw_paste("hi🦀", "pw", "", "hello");
    assert!(prepare_new_paste(&mut emoji, None).is_ok());
}

#[test]
fn finish_new_paste_encodes_the_url_and_gives_a_new_id() {
    let mut p = raw_paste("Hello", "pw", "", "x");
    let h = finish_new_paste(&mut p).unwrap();
    assert_eq!(p.custom_url, "Hello");
    assert_eq!(p.id.len(), 64);
    assert_eq!(h, hash("pw".to_string()));
    assert_eq!(p.edit_password, "pw");
    let mut q = raw_paste("München", "pw", "", "x");
    finish_new_paste(&mut q).unwrap();
    assert_eq!(q.custom_url, "Mnchen-3ya");
}

#[test]
fn grouped_urls_and_group_passwords() {
    assert_eq!(grouped_url("team", "notes"), "team/notes");
    assert!(group_password_matches("pw".to_string(), &hash("pw".to_string())));
    assert!(!group_password_matches("other".to_string(), &hash("pw".to_string())));
}

#[test]
fn editing_needs_the_password_unless_owner_or_listed() {
    let mut p = paste("u", "pw", "alice");
    assert!(authorize_paste_edit(&p, "pw".to_string(), &None, false, false).is_ok());
    assert!(matches!(
        authorize_paste_edit(&p, "wrong".to_string(), &None, false, false),
        Err(DatabaseError::NotAllowed)
    ));
    assert!(authorize_paste_edit(&p, "wrong".to_string(), &Some("alice".to_string()), true, true).is_ok());
    p.metadata.permissions_list.store("bob".to_string(), PastePermissionLevel::EditTextPasswordless);
    p.metadata.permissions_list.store("carol".to_string(), PastePermissionLevel::Passwordless);
    p.metadata.permissions_list.store("dave".to_string(), PastePermissionLevel::Normal);
    assert!(authorize_paste_edit(&p, "wrong".to_string(), &Some("bob".to_string()), false, false).is_ok());
    // a text-only editor may not change the url or the password, even with the password
    assert!(authorize_paste_edit(&p, "pw".to_string(), &Some("bob".to_string()), true, false).is_err());
    assert!(authorize_paste_edit(&p, "wrong".to_string(), &Some("carol".to_string()), true, true).is_ok());
    assert!(authorize_paste_edit(&p, "wrong".to_string(), &Some("dave".to_string()), false, false).is_err());
    assert!(authorize_paste_edit(&p, "pw".to_string(), &Some("dave".to_string()), false, false).is_ok());
}

#[test]
fn managing_needs_the_password_unless_owner_manager_or_passwordless() {
    let mut p = paste("u", "pw", "alice");
    p.metadata.permissions_list.store("bob".to_string(), PastePermissionLevel::EditTextPasswordless);
    p.metadata.permissions_list.store("carol".to_string(), PastePermissionLevel::Passwordless);
    let staff = Some(vec!["ManagePastes".to_string()]);
    assert!(authorize_paste_management(&p, "x".to_string(), &Some("alice".to_string()), &None).is_ok());
    assert!(authorize_paste_management(&p, "x".to_string(), &Some("eve".to_string()), &staff).is_ok());
    assert!(authorize_paste_management(&p, "x".to_string(), &Some("carol".to_string()), &None).is_ok());
    assert!(matches!(
        authorize_paste_management(&p, "x".to_string(), &Some("bob".to_string()), &None),
        Err(DatabaseError::NotAllowed)
    ));
    assert!(authorize_paste_management(&p, "pw".to_string(), &None, &None).is_ok());
    assert!(authorize_paste_management(&p, "x".to_string(), &None, &staff).is_err());
}

#[test]
fn edited_fields_keep_or_replace() {
    let p = paste("old-", "pw", "alice");
    let (h, u) = edited_paste_fields(&p, &None, None).unwrap();
    assert_eq!(h, hash("pw".to_string()));
    assert_eq!(u, "old");
    let (h2, u2) = edited_paste_fields(&p, &Some("New".to_string()), Some("np".to_string())).unwrap();
    assert_eq!(h2, hash("np".to_string()));
    assert_eq!(u2, "New");
}

#[test]
fn banned_metadata_locks_the_paste() {
    let m = banned_paste_metadata();
    assert_eq!(m.owner, "");
    assert_eq!(m.private_source, "on");
    assert!(m.embed_color.is_none());
    let vp = m.view_password.unwrap();
    assert!(vp.starts_with("LOCKED(USER_BANNED)-"));
    assert_eq!(vp.len(), "LOCKED(USER_BANNED)-".len() + 64);
    assert!(can_ban(&"member".to_string()));
    assert!(!can_ban(&"staff".to_string()));
    assert!(!can_ban(&"banned".to_string()));
}

#[test]
fn favorites_count_and_toggle() {
    assert_eq!(favorites_count(None), Some(0));
    assert_eq!(favorites_count(Some("5".to_string())), Some(5));
    assert_eq!(favorites_count(Some("-1".to_string())), Some(-1));
    assert_eq!(favorites_count(Some("five".to_string())), None);
    let owner = "alice".to_string();
    assert!(matches!(toggle_favorite(&owner, &owner, None), Err(DatabaseError::NotAllowed)));
    assert!(matches!(toggle_favorite(&owner, &"bob".to_string(), None), Ok(FavoriteToggle::Add)));
    let log = Log { id: "l1".to_string(), logtype: "paste_favorite".to_string(), timestamp: 1, content: String::new() };
    match toggle_favorite(&owner, &"bob".to_string(), Some(log)) {
        Ok(FavoriteToggle::Remove { log_id }) => assert_eq!(log_id, "l1"),
        _ => panic!("expected a removal"),
    }
}

#[test]
fn paste_rows_are_read_with_their_metadata() {
    let mut data = CacheStore::new();
    for (k, v) in [
        ("custom_url", "u"),
        ("id", "i"),
        ("group_name", ""),
        ("edit_password", "h"),
        ("pub_date", "100"),
        ("edit_date", "200"),
        ("content", "c"),
        ("content_html", "<p>c</p>"),
        ("metadata", "{}"),
    ] {
        data.store(k.to_string(), v.to_string());
    }
    let row = DatabaseReturn { data };
    let p = paste_from_row(&row, new_paste_metadata(None), 3).unwrap();
    assert_eq!(p.custom_url, "u");
    assert_eq!(p.pub_date, 100);
    assert_eq!(p.edit_date, 200);
    assert_eq!(p.views, 3);
    assert_eq!(p.metadata.owner, "");
    let mut bad = CacheStore::new();
    bad.store("custom_url".to_string(), "u".to_string());
    assert!(paste_from_row(&DatabaseReturn { data: bad }, new_paste_metadata(None), 0).is_none());
}

#[test]
fn listing_pastes_by_owner() {
    assert_eq!(owner_filter("alice"), "%\"owner\":\"alice\"%");
    assert_eq!(owner_pastes_key("alice", None), "pastes-by-owner:alice:offset0");
    assert_eq!(owner_pastes_key("alice", Some(50)), "pastes-by-owner:alice:offset50");
    assert_eq!(owner_pastes_key("a", Some(-3)), format!("pastes-by-owner:a:offset{}", -3));
    assert_eq!(owner_pastes_key("a", Some(i32::MIN)), format!("pastes-by-owner:a:offset{}", i32::MIN));
    let mut data = CacheStore::new();
    data.store("custom_url".to_string(), "u".to_string());
    data.store("id".to_string(), "i".to_string());
    let ident = paste_identifier_from_row(&DatabaseReturn { data }).unwrap();
    assert_eq!(ident.custom_url, "u");
    assert_eq!(ident.id, "i");
    assert!(paste_identifier_from_row(&DatabaseReturn { data: CacheStore::new() }).is_none());
}
