use bundlrs::bundlesdb::{board_filter, page_offset, reply_filter};
use bundlrs::bundlesdb::{
    authorize_board_post, board_from_row, cache_enabled, cached_paste, cached_user,
    can_edit_board, check_board_name, check_edit_password, check_group_password,
    check_manage_password, check_new_username, check_post_content, create_allowed,
    edited_fields, file_or_blank, find_file, first_paste_group, forget_paste, is_atomic_content,
    log_from_row, log_insert_values, metadata_hides_paste, name_chars_allowed,
    new_board_metadata, new_board_post, new_paste_row, new_user, paste_from_request,
    paste_from_row, paste_insert_values, prepare_paste, remember_paste, remember_user,
    stored_group, upsert_file, user_from_row, user_insert_values, view_log_content, AtomicPaste,
    AtomicPasteFSFile, BoardMetadata, BoardPostLog, DatabaseReturn, Group, GroupMetadata, Log,
    Paste, PasteMetadata, UserState,
};
use bundlrs::cache::CacheStore;
use bundlrs::utility::hash;

fn row(columns: &[&str], values: Vec<String>) -> DatabaseReturn {
    let mut data = CacheStore::new();
    for (c, v) in columns.iter().zip(values) {
        data.store(c.to_string(), v);
    }
    DatabaseReturn { data }
}

fn sample_paste(url: &str, password: &str) -> Paste<String> {
    Paste {
        custom_url: url.to_string(),
        id: "id1".to_string(),
        group_name: String::new(),
        edit_password: password.to_string(),
        pub_date: 1700000000000,
        edit_date: 1700000000001,
        content: "hello".to_string(),
        content_html: "<p>hello</p>".to_string(),
        metadata: "{\"owner\":\"alice\"}".to_string(),
        views: 0,
    }
}

fn user(name: &str, role: &str) -> UserState {
    UserState { username: name.to_string(), id_hashed: hash(name.to_string()), role: role.to_string(), timestamp: 42 }
}

fn board(owner: &str, anonymous: Option<&str>, open: Option<&str>) -> BoardMetadata {
    BoardMetadata {
        owner: owner.to_string(),
        is_private: "no".to_string(),
        allow_anonymous: anonymous.map(|s| s.to_string()),
        allow_open_posting: open.map(|s| s.to_string()),
        about: None,
    }
}

#[test]
fn the_cache_is_on_unless_set_to_false() {
    assert!(cache_enabled(&None));
    assert!(cache_enabled(&Some("true".to_string())));
    assert!(cache_enabled(&Some("no".to_string())));
    assert!(!cache_enabled(&Some("false".to_string())));
}

#[test]
fn a_user_row_reads_back_what_was_written() {
    let u = user("alice", "member");
    let r = row(&["username", "id_hashed", "role", "timestamp"], user_insert_values(&u));
    let back = user_from_row(&r).unwrap();
    assert_eq!(back.username, "alice");
    assert_eq!(back.id_hashed, u.id_hashed);
    assert_eq!(back.role, "member");
    assert_eq!(back.timestamp, 42);
    assert_eq!(user_insert_values(&u)[3], "42");
}

#[test]
fn a_row_with_a_bad_number_or_missing_column_is_refused() {
    let r = row(
        &["username", "id_hashed", "role", "timestamp"],
        vec!["a".into(), "b".into(), "c".into(), "12x".into()],
    );
    assert!(user_from_row(&r).is_none());
    let r2 = row(&["username", "id_hashed"], vec!["a".into(), "b".into()]);
    assert!(user_from_row(&r2).is_none());
}

#[test]
fn log_and_board_rows() {
    let l = Log { id: "l".into(), logtype: "view_paste".into(), timestamp: 7, content: "u::me".into() };
    let r = row(&["id", "logtype", "timestamp", "content"], log_insert_values(&l));
    let back = log_from_row(&r).unwrap();
    assert_eq!(back.id, "l");
    assert_eq!(back.logtype, "view_paste");
    assert_eq!(back.timestamp, 7);
    assert_eq!(back.content, "u::me");
    let b = row(&["name", "timestamp", "metadata"], vec!["b".into(), "+9".into(), "{}".into()]);
    let board = board_from_row(&b).unwrap();
    assert_eq!(board.name, "b");
    assert_eq!(board.timestamp, 9);
    assert_eq!(board.metadata, "{}");
}

#[test]
fn a_paste_row_reads_back_with_the_hash_and_metadata() {
    let p = sample_paste("u", "pw");
    let values = paste_insert_values(&p, &hash("pw".to_string()), &"{}".to_string());
    assert_eq!(values.len(), 9);
    assert_eq!(values[4], "1700000000000");
    let r = row(
        &["custom_url", "id", "group_name", "edit_password", "pub_date", "edit_date", "content", "content_html", "metadata"],
        values,
    );
    let back = paste_from_row(&r, 5).unwrap();
    assert_eq!(back.custom_url, "u");
    assert_eq!(back.edit_password, hash("pw".to_string()));
    assert_eq!(back.pub_date, p.pub_date);
    assert_eq!(back.edit_date, p.edit_date);
    assert_eq!(back.metadata, "{}");
    assert_eq!(back.views, 5);
}

#[test]
fn the_paste_cache_serves_what_it_kept_until_it_forgets() {
    let mut cache = CacheStore::new();
    let p = sample_paste("u", "h");
    assert!(cached_paste(&cache, "u", true, true).is_none());
    remember_paste(&mut cache, &p, true, true);
    let hit = cached_paste(&cache, "u", true, true).unwrap();
    assert_eq!(hit.content, "hello");
    assert!(cached_paste(&cache, "u", false, true).is_none());
    assert!(cached_paste(&cache, "u", true, false).is_none());
    forget_paste(&mut cache, "u", true);
    assert!(cached_paste(&cache, "u", true, true).is_none());
    remember_paste(&mut cache, &p, false, true);
    assert!(cached_paste(&cache, "u", true, true).is_none());
    remember_paste(&mut cache, &p, true, false);
    assert!(cached_paste(&cache, "u", true, true).is_none());
}

#[test]
fn the_user_cache_is_looked_up_through_the_paste_cache() {
    let mut auth = CacheStore::new();
    let u = user("alice", "member");
    remember_user(&mut auth, &u, true);
    let mut pastes = CacheStore::new();
    assert!(cached_user(&pastes, &auth, &u.id_hashed, true).is_none());
    remember_paste(&mut pastes, &sample_paste(&u.id_hashed, "h"), true, true);
    assert_eq!(cached_user(&pastes, &auth, &u.id_hashed, true).unwrap().username, "alice");
    assert!(cached_user(&pastes, &auth, &u.id_hashed, false).is_none());
}

#[test]
fn names_hold_word_characters_and_a_few_marks() {
    assert!(name_chars_allowed("good_name-1.!"));
    assert!(name_chars_allowed("ünïcödé"));
    assert!(!name_chars_allowed("bad name"));
    assert!(!name_chars_allowed("slash/"));
    assert!(!name_chars_allowed(""));
    // the pattern matches line by line
    assert!(name_chars_allowed("a\nb c"));
}

#[test]
fn usernames_are_checked() {
    assert!(check_new_username("alice").is_ok());
    assert_eq!(check_new_username("a").unwrap_err(), "Username is invalid");
    assert_eq!(check_new_username("a b").unwrap_err(), "Username is invalid");
    assert_eq!(check_new_username(&"a".repeat(501)).unwrap_err(), "Username is invalid");
    assert!(check_new_username(&"a".repeat(500)).is_ok());
}

#[test]
fn a_new_user_is_a_member_with_a_hashed_id() {
    let (unhashed, u) = new_user("alice".to_string(), 1_700_000_000_000);
    assert_eq!(u.username, "alice");
    assert_eq!(u.timestamp, 1_700_000_000_000);
    assert_eq!(u.role, "member");
    assert_eq!(unhashed.len(), 36);
    assert_eq!(u.id_hashed, hash(unhashed));
}

#[test]
fn prepare_paste_checks_in_order_with_messages() {
    let mut p = sample_paste("", "");
    let meta: PasteMetadata = prepare_paste(&mut p, Some("bob".to_string())).ok().unwrap();
    assert_eq!(p.custom_url.len(), 10);
    assert_eq!(p.edit_password.len(), 10);
    assert_eq!(meta.owner, "bob");
    assert_eq!(meta.embed_color, Some("#ff9999".to_string()));
    assert_eq!(meta.private_source, "off");

    let mut short = sample_paste("x", "pw");
    assert_eq!(prepare_paste(&mut short, None).err().unwrap(), "Custom URL is invalid");
    let mut group = sample_paste("ok-url", "pw");
    group.group_name = "g".to_string();
    assert_eq!(prepare_paste(&mut group, None).err().unwrap(), "Group Name is invalid");
    let mut empty = sample_paste("ok-url", "pw");
    empty.content = String::new();
    assert_eq!(prepare_paste(&mut empty, None).err().unwrap(), "Content is invalid");
    let mut chars = sample_paste("no spaces", "pw");
    assert_eq!(prepare_paste(&mut chars, None).err().unwrap(), "Custom URL is invalid");
    let mut emoji = sample_paste("hi🦀", "pw");
    assert_eq!(prepare_paste(&mut emoji, None).err().unwrap(), "Custom URL is invalid");
}

#[test]
fn groups_of_new_pastes() {
    let p = sample_paste("u", "pw");
    let meta = PasteMetadata {
        owner: "alice".to_string(),
        private_source: "off".to_string(),
        title: None,
        description: None,
        favicon: None,
        embed_color: None,
        view_password: None,
    };
    let g = first_paste_group(&p, &meta);
    assert_eq!(g.submit_password, "pw");
    assert_eq!(g.metadata.owner, "alice");
    let stored = stored_group(&g);
    assert_eq!(stored.submit_password, hash("pw".to_string()));
    let existing = Group { name: "g".to_string(), submit_password: hash("pw".to_string()), metadata: "{}".to_string() };
    assert!(check_group_password(&"pw".to_string(), &existing).is_ok());
    assert_eq!(
        check_group_password(&"nope".to_string(), &existing).unwrap_err(),
        "The paste edit password must match the group submit password during creation."
    );
    let gm = Group { name: "n".to_string(), submit_password: "s".to_string(), metadata: GroupMetadata { owner: "o".to_string() } };
    assert_eq!(stored_group(&gm).name, "n");
}

#[test]
fn a_new_paste_row_has_a_fresh_id_and_the_hash() {
    let mut p = sample_paste("u", "pw");
    let values = new_paste_row(&mut p, &"{\"owner\":\"\"}".to_string());
    assert_eq!(p.id.len(), 64);
    assert_eq!(values[1], p.id);
    assert_eq!(values[3], hash("pw".to_string()));
    assert_eq!(values[8], "{\"owner\":\"\"}");
    assert_eq!(p.edit_password, "pw");
}

#[test]
fn edit_and_manage_passwords() {
    let p = sample_paste("u", &hash("pw".to_string()));
    let owner = "alice".to_string();
    assert!(check_edit_password(&p, &owner, "pw".to_string(), &None).is_ok());
    assert!(check_edit_password(&p, &owner, "x".to_string(), &Some("alice".to_string())).is_ok());
    assert_eq!(check_edit_password(&p, &owner, "x".to_string(), &Some("bob".to_string())).unwrap_err(), "Password invalid");
    assert!(check_manage_password(&p, &owner, "x".to_string(), &Some("bob".to_string()), &Some("staff".to_string())).is_ok());
    assert!(check_manage_password(&p, &owner, "x".to_string(), &Some("bob".to_string()), &Some("member".to_string())).is_err());
    assert!(check_manage_password(&p, &owner, "pw".to_string(), &None, &None).is_ok());
    let (h, url) = edited_fields(&p, &Some("new".to_string()), Some("np".to_string()));
    assert_eq!(h, hash("np".to_string()));
    assert_eq!(url, "new");
    let (h2, url2) = edited_fields(&p, &None, None);
    assert_eq!(h2, p.edit_password);
    assert_eq!(url2, "u");
    assert_eq!(view_log_content("u", "me"), "u::me");
}

#[test]
fn create_requests_are_trimmed() {
    let p = paste_from_request("  url \n", "pw".to_string(), "\tbody  ", None, 9);
    assert_eq!(p.custom_url, "url");
    assert_eq!(p.content, "body");
    assert_eq!(p.content_html, bundlrs::markdown::parse_markdown("body".to_string()));
    assert_eq!(p.group_name, "");
    assert_eq!(p.pub_date, 9);
    assert_eq!(p.edit_date, 9);
    assert_eq!(p.views, 0);
    assert!(create_allowed(true, &Some("yes".to_string())));
    assert!(create_allowed(false, &None));
    assert!(!create_allowed(false, &Some("yes".to_string())));
    assert!(metadata_hides_paste("{\"private_source\":\"on\",\"x\":1}"));
    assert!(metadata_hides_paste("{\"view_password\":\"abc\"}"));
    assert!(!metadata_hides_paste("{\"private_source\":\"off\",\"view_password\":null}"));
}

#[test]
fn boards_and_posts() {
    let m = new_board_metadata("alice".to_string());
    assert_eq!(m.is_private, "no");
    assert_eq!(m.allow_anonymous, Some("yes".to_string()));
    assert_eq!(m.allow_open_posting, Some("yes".to_string()));
    assert!(m.about.is_none());
    assert!(check_board_name("my-board").is_ok());
    assert_eq!(check_board_name("x").unwrap_err(), "Name is invalid");
    assert_eq!(check_board_name("two words").unwrap_err(), "Name is invalid");
    assert_eq!(check_board_name(&"b".repeat(251)).unwrap_err(), "Name is invalid");
    assert!(check_post_content("hi").is_ok());
    assert_eq!(check_post_content("h").unwrap_err(), "Content is invalid");
    assert_eq!(check_post_content(&"h".repeat(200_001)).unwrap_err(), "Content is invalid");
}

#[test]
fn who_may_post_on_a_board() {
    let open = board("alice", Some("yes"), Some("yes"));
    assert!(authorize_board_post(&open, &None, &None).is_ok());
    let members = board("alice", Some("no"), None);
    assert_eq!(authorize_board_post(&members, &None, &None).unwrap_err(), "An account is required to do this");
    assert!(authorize_board_post(&members, &Some("bob".to_string()), &None).is_ok());
    let closed = board("alice", None, Some("no"));
    let alice = Some("alice".to_string());
    let bob = Some("bob".to_string());
    assert!(authorize_board_post(&closed, &alice, &Some("member".to_string())).is_ok());
    assert!(authorize_board_post(&closed, &bob, &Some("staff".to_string())).is_ok());
    assert_eq!(
        authorize_board_post(&closed, &bob, &Some("member".to_string())).unwrap_err(),
        "You do not have permission to do this"
    );
    assert_eq!(authorize_board_post(&closed, &None, &None).unwrap_err(), "You do not have permission to do this");
}

#[test]
fn new_posts_and_board_editing() {
    let props = BoardPostLog {
        author: "ignored".to_string(),
        content: "hello".to_string(),
        content_html: String::new(),
        board: "b".to_string(),
        is_hidden: true,
        reply: Some("p1".to_string()),
        pinned: Some(true),
        replies: Some(3),
    };
    let anon = new_board_post(&props, None);
    assert_eq!(anon.author, "Anonymous");
    assert!(anon.content_html.contains("<p>hello</p>"));
    assert!(!anon.is_hidden);
    assert_eq!(anon.pinned, Some(false));
    assert_eq!(anon.replies, None);
    assert_eq!(anon.reply, Some("p1".to_string()));
    let named = new_board_post(&props, Some("bob".to_string()));
    assert_eq!(named.author, "bob");
    let meta = board("alice", None, None);
    assert!(can_edit_board(&user("alice", "member"), &meta));
    assert!(can_edit_board(&user("bob", "staff"), &meta));
    assert!(!can_edit_board(&user("bob", "member"), &meta));
}

#[test]
fn atomic_pastes_keep_one_file_per_path() {
    assert!(is_atomic_content("{\"_is_atomic\":true,\"files\":[]}"));
    assert!(!is_atomic_content("plain text"));
    let mut fs = AtomicPaste { _is_atomic: true, files: Vec::new() };
    upsert_file(&mut fs, "/index.html".to_string(), "one".to_string());
    upsert_file(&mut fs, "/style.css".to_string(), "css".to_string());
    upsert_file(&mut fs, "/index.html".to_string(), "two".to_string());
    assert_eq!(fs.files.len(), 2);
    assert_eq!(fs.files[0].path, "/style.css");
    assert_eq!(fs.files[1].path, "/index.html");
    assert_eq!(fs.files[1].content, "two");
    assert_eq!(find_file(&fs.files, &"/style.css".to_string()), Some(0));
    assert_eq!(find_file(&fs.files, &"/none".to_string()), None);
    let f = file_or_blank(&fs.files, &"/index.html".to_string());
    assert_eq!(f.content, "two");
    let blank: AtomicPasteFSFile = file_or_blank(&fs.files, &"/new.html".to_string());
    assert_eq!(blank.path, "/new.html");
    assert_eq!(blank.content, "<!-- New HTML Page -->");
}

#[test]
fn board_queries() {
    assert_eq!(board_filter("b"), "%\"board\":\"b\"%");
    assert_eq!(reply_filter("p1"), "%\"reply\":\"p1\"%");
    assert_eq!(page_offset(None), 0);
    assert_eq!(page_offset(Some(50)), 50);
}
