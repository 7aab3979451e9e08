use bundlrs::bundlesdb::DatabaseReturn;
use bundlrs::cache::CacheStore;
use bundlrs::pastemd::database::{edited_url, owner_after_edit, paste_from_columns, PastesTableConfig};
use bundlrs::pastemd::database::{
    authorize_delete, authorize_edit, can_skip_password, check_paste_clone, check_paste_create,
    cloned_paste, edited_password, encode_new_url, is_passwordless, new_paste, normalize_url,
    url_chars_ok, view_count_action, view_password_required, Editor, ServerOptions, ViewCount,
    ViewMode,
};
use bundlrs::pastemd::model::{Paste, PasteClone, PasteCreate, PasteError, PasteMetadata, PublicPaste};
use bundlrs::utility::hash;

fn stored(url: &str, password: &str, owner: &str) -> Paste {
    let mut metadata = PasteMetadata::default();
    metadata.owner = owner.to_string();
    Paste {
        id: "id".to_string(),
        url: url.to_string(),
        content: "body".to_string(),
        password: hash(password.to_string()),
        date_published: 1,
        date_edited: 2,
        metadata,
    }
}

#[test]
fn urls_are_stored_punycoded_in_lowercase() {
    assert_eq!(normalize_url("ABC"), Some("abc".to_string()));
    assert_eq!(normalize_url("München"), Some("mnchen-3ya".to_string()));
    assert_eq!(normalize_url(""), Some(String::new()));
    assert_eq!(encode_new_url("München"), Some("Mnchen-3ya".to_string()));
    assert_eq!(encode_new_url("Keep"), Some("Keep".to_string()));
}

#[test]
fn url_characters() {
    assert_eq!(url_chars_ok("my-paste_1.!"), Some(true));
    assert_eq!(url_chars_ok("crab🦀"), Some(true));
    assert_eq!(url_chars_ok("no spaces"), Some(false));
}

#[test]
fn create_and_clone_checks() {
    assert!(check_paste_create("abc", "x", true).is_ok());
    assert!(matches!(check_paste_create("ab", "x", true), Err(PasteError::ValueError)));
    assert!(matches!(check_paste_create(&"a".repeat(251), "x", true), Err(PasteError::ValueError)));
    assert!(matches!(check_paste_create("abc", "", true), Err(PasteError::ValueError)));
    assert!(matches!(check_paste_create("abc", "x", false), Err(PasteError::ValueError)));
    assert!(check_paste_clone("abc", true).is_ok());
    assert!(check_paste_clone("ab", true).is_err());
}

#[test]
fn a_new_paste_is_stored_with_a_hash_and_a_fresh_id() {
    let (password, p) = new_paste(PasteCreate { url: "abc".to_string(), content: "hi".to_string(), password: "pw".to_string() }, 1234).ok().unwrap();
    assert_eq!(password, "pw");
    assert_eq!(p.date_published, 1234);
    assert_eq!(p.date_edited, 1234);
    assert_eq!(p.url, "abc");
    assert_eq!(p.content, "hi");
    assert_eq!(p.password, hash("pw".to_string()));
    assert_eq!(p.id.len(), 64);
    assert_eq!(p.metadata.template, "");
    let (generated, q) = new_paste(PasteCreate { url: String::new(), content: "hi".to_string(), password: String::new() }, 1234).ok().unwrap();
    assert_eq!(generated.len(), 10);
    assert_eq!(q.url.len(), 10);
    assert!(matches!(new_paste(PasteCreate { url: "a b".to_string(), content: "hi".to_string(), password: String::new() }, 1234), Err(PasteError::ValueError)));
}

#[test]
fn a_cloned_paste_names_its_template() {
    let source = stored("tmpl", "pw", "alice");
    let (_, p) = cloned_paste(PasteClone { source: "tmpl".to_string(), url: "copy".to_string(), password: "x".to_string() }, source, 99).ok().unwrap();
    assert_eq!(p.date_published, 99);
    assert_eq!(p.metadata.template, "tmpl");
    assert_eq!(p.content, "body");
    assert_eq!(p.metadata.owner, "");
    let source2 = stored("tmpl", "pw", "alice");
    assert!(cloned_paste(PasteClone { source: "tmpl".to_string(), url: "c".to_string(), password: "x".to_string() }, source2, 99).is_err());
}

#[test]
fn edits_and_deletes_need_the_password_or_a_manager() {
    let p = stored("abc", "pw", "alice");
    assert!(authorize_edit(&p, "pw".to_string(), &None).is_ok());
    assert!(matches!(authorize_edit(&p, "x".to_string(), &None), Err(PasteError::PasswordIncorrect)));
    let alice = Some(Editor { username: "alice".to_string(), permissions: Vec::new() });
    let manager = Some(Editor { username: "m".to_string(), permissions: vec!["ManagePastes".to_string()] });
    let other = Some(Editor { username: "o".to_string(), permissions: Vec::new() });
    assert!(authorize_edit(&p, "x".to_string(), &alice).is_ok());
    assert!(authorize_edit(&p, "x".to_string(), &manager).is_ok());
    assert!(authorize_edit(&p, "x".to_string(), &other).is_err());
    assert!(can_skip_password(&manager, &"alice".to_string()));
    assert!(authorize_delete(&p, "pw".to_string()).is_ok());
    assert!(authorize_delete(&p, "x".to_string()).is_err());
    assert_eq!(edited_password(String::new(), &p.password), p.password);
    assert_eq!(edited_password("new".to_string(), &p.password), hash("new".to_string()));
}

#[test]
fn view_passwords_and_passwordless_editing() {
    assert!(!view_password_required(false, &String::new(), &"s".to_string()));
    assert!(view_password_required(true, &String::new(), &"s".to_string()));
    assert!(view_password_required(true, &"x".to_string(), &"s".to_string()));
    assert!(!view_password_required(true, &"s".to_string(), &"s".to_string()));
    assert!(!view_password_required(true, &String::new(), &String::new()));
    assert!(is_passwordless(&"alice".to_string(), &"alice".to_string()));
    assert!(!is_passwordless(&String::new(), &String::new()));
    assert!(!is_passwordless(&"alice".to_string(), &"bob".to_string()));
}

#[test]
fn views_are_counted_by_mode() {
    assert!(matches!(view_count_action(&ViewMode::OpenMultiple, None), ViewCount::Count));
    assert!(matches!(view_count_action(&ViewMode::OpenMultiple, Some(true)), ViewCount::Count));
    assert!(matches!(view_count_action(&ViewMode::AuthenticatedOnce, None), ViewCount::NotCounted));
    assert!(matches!(view_count_action(&ViewMode::AuthenticatedOnce, Some(true)), ViewCount::NotCounted));
    assert!(matches!(view_count_action(&ViewMode::AuthenticatedOnce, Some(false)), ViewCount::RecordThenCount));
}

#[test]
fn errors_options_and_public_pastes() {
    assert_eq!(PasteError::PasswordIncorrect.to_string(), "The given password is invalid.");
    assert_eq!(PasteError::AlreadyExists.status(), 400);
    assert_eq!(PasteError::NotFound.status(), 404);
    assert_eq!(PasteError::PasswordIncorrect.status(), 401);
    assert_eq!(PasteError::Other.status(), 500);
    let t = ServerOptions::truthy();
    assert!(t.view_password && t.guppy && t.paste_ownership);
    assert_eq!(t.table_pastes.table_name, "pastes");
    assert_eq!(t.table_views.prefix, "views");
    let d = ServerOptions::default();
    assert!(!d.view_password && !d.guppy && !d.paste_ownership);
    let public = PublicPaste::from_paste(stored("abc", "pw", "alice"));
    assert_eq!(public.url, "abc");
    assert_eq!(public.metadata.owner, "alice");
}

#[test]
fn edited_urls_fall_back_to_the_stored_one() {
    assert_eq!(edited_url(&String::new(), &"old".to_string()), Some("old".to_string()));
    assert_eq!(edited_url(&"New".to_string(), &"old".to_string()), Some("New".to_string()));
    assert_eq!(edited_url(&"Straße".to_string(), &"old".to_string()), Some("Strae-oqa".to_string()));
}

#[test]
fn rows_are_read_by_the_configured_columns() {
    let config = PastesTableConfig::default();
    let mut data = CacheStore::new();
    for (k, v) in [("id", "i"), ("url", "u"), ("password", "h"), ("content", "c"), ("date_published", "1"), ("date_edited", "2")] {
        data.store(k.to_string(), v.to_string());
    }
    let row = DatabaseReturn { data };
    let p = paste_from_columns(&row, &config, PasteMetadata::default()).unwrap();
    assert_eq!(p.url, "u");
    assert_eq!(p.password, "h");
    assert_eq!(p.date_published, 1);
    assert_eq!(p.date_edited, 2);
    let mut custom = PastesTableConfig::default();
    custom.url = "custom_url".to_string();
    assert!(paste_from_columns(&row, &custom, PasteMetadata::default()).is_none());
}

#[test]
fn edited_metadata_gets_its_owner_from_the_token() {
    let on = ServerOptions::truthy();
    let off = ServerOptions::default();
    assert_eq!(owner_after_edit(false, &on, None, "x".to_string()), "");
    assert_eq!(owner_after_edit(true, &on, Some("alice".to_string()), "x".to_string()), "alice");
    assert_eq!(owner_after_edit(true, &on, None, "x".to_string()), "");
    assert_eq!(owner_after_edit(true, &off, Some("alice".to_string()), "x".to_string()), "x");
}
