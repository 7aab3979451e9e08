//! Pastes, groups and favorites of the paste site, and the rules that its paste
//! requests follow.
use vstd::prelude::*;

use crate::bundlesdb::DatabaseReturn;
use crate::log_db::Log;
use crate::cache::CacheStore;
use crate::model::DatabaseError;
use crate::pastemd::database::{encode_new_url, renamed_url, strip_dash, url_chars_match, url_chars_ok};
use crate::text::{byte_len, chars_of, hex_lower, push_str, string_of};
use crate::utility::{
    filled, hash, is_uuid_v4_text, password_matches, random_id, sha256, short_random_id,
};
use vstd::utf8::encode_utf8;

verus! {

/// A paste; its metadata is of type `M` so it can be read in more than one form.
pub struct Paste<M> {
    // selectors
    pub custom_url: String,
    pub id: String,
    pub group_name: String,
    // passwords
    pub edit_password: String,
    // dates
    pub pub_date: u128,
    pub edit_date: u128,
    pub content: String,
    /// rendered paste content
    pub content_html: String,
    pub metadata: M,
    pub views: usize,
}

/// The url and id of a paste.
pub struct PasteIdentifier {
    pub custom_url: String,
    pub id: String,
}

/// What a user listed in a paste's permissions may do with it.
#[derive(PartialEq, Eq, Structural, Debug, Clone, Copy)]
pub enum PastePermissionLevel {
    Normal,
    EditTextPasswordless,
    Passwordless,
    /// not even allowed to view paste
    Blocked,
}

impl Default for PastePermissionLevel {
    fn default() -> (r: Self)
        ensures
            r == PastePermissionLevel::Normal,
    {
        PastePermissionLevel::Normal
    }
}

/// The permission level of each listed user, by username.
pub type PastePermissions = CacheStore<PastePermissionLevel>;

/// The metadata of a paste.
pub struct PasteMetadata {
    pub owner: String,
    pub private_source: String,
    pub permissions_list: PastePermissions,
    // optionals
    pub title: Option<String>,
    pub description: Option<String>,
    pub favicon: Option<String>,
    pub embed_color: Option<String>,
    pub view_password: Option<String>,
}

/// The permissions of a new paste: nobody is listed.
pub fn default_paste_permissions() -> (r: PastePermissions)
    ensures
        r@ == Map::<Seq<char>, PastePermissionLevel>::empty(),
{
    CacheStore::new()
}

/// A group of pastes.
pub struct Group<M> {
    pub name: String,
    pub submit_password: String,
    /// JSON object
    pub metadata: M,
}

/// The metadata of a group.
pub struct GroupMetadata {
    /// username of owner
    pub owner: String,
}

/// A user's favorite paste.
pub struct PasteFavoriteLog {
    /// the username of the user that favorited the paste
    pub user: String,
    /// the id of the paste that was favorited
    pub id: String,
}

/// `o` is present and holds `t`.
pub open spec fn holds(o: Option<String>, t: Seq<char>) -> bool {
    o matches Some(s) && s@ == t
}

/// `m` is the metadata that a new paste created as `as_user` gets: owned by
/// `as_user` (or nobody), public source, nobody listed, empty title and description,
/// the default embed color, and no view password.
pub open spec fn new_metadata_for(m: PasteMetadata, as_user: Option<String>) -> bool {
    &&& m.owner@ == (match as_user {
        Some(u) => u@,
        None => Seq::<char>::empty(),
    })
    &&& m.private_source@ == "off"@
    &&& m.permissions_list@ == Map::<Seq<char>, PastePermissionLevel>::empty()
    &&& holds(m.title, Seq::empty())
    &&& holds(m.description, Seq::empty())
    &&& m.favicon is None
    &&& holds(m.embed_color, "#ffc09e"@)
    &&& m.view_password is None
}

/// The metadata that a new paste created as `as_user` gets.
pub fn new_paste_metadata(as_user: Option<String>) -> (m: PasteMetadata)
    ensures
        new_metadata_for(m, as_user),
{
    proof {
        reveal_strlit("");
        assert(""@ =~= Seq::<char>::empty());
    }
    PasteMetadata {
        owner: match as_user {
            Some(u) => u,
            None => String::new(),
        },
        private_source: String::from_str("off"),
        permissions_list: default_paste_permissions(),
        title: Some(String::new()),
        description: Some(String::new()),
        favicon: None,
        embed_color: Some(String::from_str("#ffc09e")),
        view_password: None,
    }
}

/// `m` locks a paste of a banned user: no owner, private source, nobody listed, empty
/// title and description, no icon or color, and a view password nobody knows
/// (`LOCKED(USER_BANNED)-` and a new random id).
pub open spec fn locked_metadata(m: PasteMetadata) -> bool {
    &&& m.owner@ == Seq::<char>::empty()
    &&& m.private_source@ == "on"@
    &&& m.permissions_list@ == Map::<Seq<char>, PastePermissionLevel>::empty()
    &&& holds(m.title, Seq::empty())
    &&& holds(m.description, Seq::empty())
    &&& m.favicon is None
    &&& m.embed_color is None
    &&& m.view_password matches Some(v) && exists|u: Seq<char>|
        is_uuid_v4_text(u) && v@ == "LOCKED(USER_BANNED)-"@ + hex_lower(sha256(encode_utf8(u)))
}

/// The metadata that locks a paste of a banned user: no owner, private source, and
/// a view password nobody knows (`LOCKED(USER_BANNED)-` and a new random id).
pub fn banned_paste_metadata() -> (m: PasteMetadata)
    ensures
        locked_metadata(m),
{
    let id = random_id();
    let mut lock: Vec<char> = Vec::new();
    push_str(&mut lock, "LOCKED(USER_BANNED)-");
    push_str(&mut lock, id.as_str());
    PasteMetadata {
        owner: String::new(),
        private_source: String::from_str("on"),
        permissions_list: default_paste_permissions(),
        title: Some(String::new()),
        description: Some(String::new()),
        favicon: None,
        embed_color: None,
        view_password: Some(string_of(&lock)),
    }
}

// ---------------------------------------------------------------------------
// creating a paste

/// Custom urls that a paste cannot take: the site needs them.
pub open spec fn is_reserved_url(url: Seq<char>) -> bool {
    url == "dashboard"@ || url == "api"@ || url == "public"@ || url == "static"@
}

/// A new paste is accepted, given the byte lengths of its custom url (once filled
/// in), group name and content, whether its url is reserved, and whether it holds
/// only allowed characters.
pub open spec fn new_paste_accepted(
    url_bytes: int,
    group_bytes: int,
    content_bytes: int,
    reserved: bool,
    chars_ok: bool,
) -> bool {
    &&& 2 <= url_bytes <= 500
    &&& group_bytes == 0 || 2 <= group_bytes <= 500
    &&& 1 <= content_bytes <= 400_000
    &&& !reserved
    &&& chars_ok
}

fn is_reserved_url_exec(url: &str) -> (r: bool)
    ensures
        r == is_reserved_url(url@),
{
    let v = chars_of(url);
    let a = chars_of("dashboard");
    let b = chars_of("api");
    let c = chars_of("public");
    let d = chars_of("static");
    crate::text::same_chars(&v, &a) || crate::text::same_chars(&v, &b) || crate::text::same_chars(
        &v,
        &c,
    ) || crate::text::same_chars(&v, &d)
}

/// Checks the fields of a new paste (its url filled in): a custom url of 2 to 500
/// bytes that is not reserved and holds only allowed characters, no group name or
/// one of 2 to 500 bytes, and content of 1 to 400 000 bytes.
pub fn check_new_paste(custom_url: &str, group_name: &str, content: &str, chars_ok: bool) -> (r:
    Result<(), DatabaseError>)
    ensures
        r is Ok <==> new_paste_accepted(
            custom_url.len() as int,
            group_name.len() as int,
            content.len() as int,
            is_reserved_url(custom_url@),
            chars_ok,
        ),
        r matches Err(e) ==> e is ValueError,
{
    if custom_url.len() < 2 || custom_url.len() > 500 {
        return Err(DatabaseError::ValueError);
    }
    if group_name.len() != 0 && (group_name.len() < 2 || group_name.len() > 500) {
        return Err(DatabaseError::ValueError);
    }
    if content.len() < 1 || content.len() > 400_000 {
        return Err(DatabaseError::ValueError);
    }
    if is_reserved_url_exec(custom_url) {
        return Err(DatabaseError::ValueError);
    }
    if !chars_ok {
        return Err(DatabaseError::ValueError);
    }
    Ok(())
}

/// `url` holds only the characters a paste url may hold (the pattern, which is fixed,
/// compiles and finds a match).
pub open spec fn url_chars_fine(url: Seq<char>) -> bool {
    url_chars_match(url) == Some(true)
}

/// Makes a new paste ready to be stored: fills in an empty url or edit password, checks
/// it (see `check_new_paste`, with the characters of its url checked against the url
/// pattern), and gives the metadata that it is stored with.
pub fn prepare_new_paste(props: &mut Paste<String>, as_user: Option<String>) -> (r: Result<
    PasteMetadata,
    DatabaseError,
>)
    ensures
        filled(old(props).custom_url@, final(props).custom_url@),
        filled(old(props).edit_password@, final(props).edit_password@),
        final(props).id == old(props).id && final(props).group_name == old(props).group_name
            && final(props).pub_date == old(props).pub_date && final(props).edit_date == old(
            props,
        ).edit_date && final(props).content == old(props).content && final(props).content_html
            == old(props).content_html && final(props).metadata == old(props).metadata
            && final(props).views == old(props).views,
        r is Ok <==> new_paste_accepted(
            byte_len(final(props).custom_url@) as int,
            byte_len(final(props).group_name@) as int,
            byte_len(final(props).content@) as int,
            is_reserved_url(final(props).custom_url@),
            url_chars_fine(final(props).custom_url@),
        ),
        r matches Ok(m) ==> new_metadata_for(m, as_user),
        r matches Err(e) ==> e is ValueError,
{
    let metadata = new_paste_metadata(as_user);
    if props.custom_url.as_str().is_empty() {
        props.custom_url = short_random_id();
    }
    if props.edit_password.as_str().is_empty() {
        props.edit_password = short_random_id();
    }
    let chars_ok = match url_chars_ok(props.custom_url.as_str()) {
        Some(b) => b,
        None => false,
    };
    match check_new_paste(
        props.custom_url.as_str(),
        props.group_name.as_str(),
        props.content.as_str(),
        chars_ok,
    ) {
        Ok(()) => Ok(metadata),
        Err(e) => Err(e),
    }
}

/// Gives a checked new paste the url that it is stored under (its Punycode encoding,
/// without a `-` that ends it) and a new random id, and gives the hash of its edit
/// password, which it is stored with; `None` where the encoding fails.
pub fn finish_new_paste(props: &mut Paste<String>) -> (r: Option<String>)
    ensures
        match renamed_url(old(props).custom_url@) {
            Some(u) => {
                &&& r matches Some(h) && h@ == hex_lower(sha256(encode_utf8(old(props).edit_password@)))
                &&& final(props).custom_url@ == u
                &&& exists|v: Seq<char>|
                    is_uuid_v4_text(v) && final(props).id@ == hex_lower(sha256(encode_utf8(v)))
                &&& final(props).id@.len() == 64
                &&& final(props).group_name == old(props).group_name && final(props).edit_password
                    == old(props).edit_password && final(props).pub_date == old(props).pub_date
                    && final(props).edit_date == old(props).edit_date && final(props).content
                    == old(props).content && final(props).content_html == old(props).content_html
                    && final(props).metadata == old(props).metadata && final(props).views
                    == old(props).views
            },
            None => r is None && *final(props) == *old(props),
        },
{
    match encode_new_url(props.custom_url.as_str()) {
        Some(u) => {
            props.custom_url = u;
            props.id = random_id();
            Some(hash(props.edit_password.clone()))
        },
        None => None,
    }
}

/// The hash of the edit password and the url that an edited paste is stored with: the
/// hash of the new password where one is given, else the stored hash; the encoded new
/// url where one is given, else the paste's url; either url without a `-` that ends
/// it. `None` where the new url cannot be encoded.
pub fn edited_paste_fields(
    paste: &Paste<PasteMetadata>,
    new_url: &Option<String>,
    new_edit_password: Option<String>,
) -> (r: Option<(String, String)>)
    ensures
        match new_url {
            Some(u) => match renamed_url(u@) {
                Some(e) => r matches Some(f) && f.1@ == e,
                None => r is None,
            },
            None => r matches Some(f) && f.1@ == strip_dash(paste.custom_url@),
        },
        r matches Some(f) ==> f.0@ == (match new_edit_password {
            Some(pw) => hex_lower(sha256(encode_utf8(pw@))),
            None => paste.edit_password@,
        }),
{
    let password_hash = match new_edit_password {
        Some(pw) => hash(pw),
        None => paste.edit_password.clone(),
    };
    let url = match new_url {
        Some(u) => match encode_new_url(u.as_str()) {
            Some(e) => e,
            None => {
                return None;
            },
        },
        None => normalize_dash(paste.custom_url.as_str()),
    };
    Some((password_hash, url))
}

fn normalize_dash(s: &str) -> (r: String)
    ensures
        r@ == strip_dash(s@),
{
    let mut v = chars_of(s);
    if v.len() > 0 && v[v.len() - 1] == '-' {
        v.pop();
    }
    string_of(&v)
}

/// What banning a user does.
pub enum BanPlan {
    /// the ban is refused: the user's role is not `member`
    Refuse,
    /// the user's role becomes `role`, every paste whose metadata matches
    /// `owner_filter` gets the metadata `lock`, and the cached user under `cache_key`
    /// is dropped
    Apply { role: String, lock: PasteMetadata, owner_filter: String, cache_key: String },
}

/// Decides the ban of the user `name` whose role is `role`: only a `member` is
/// banned; its role becomes `banned`, all its pastes are locked (`banned_paste_metadata`),
/// and its cache entry `user:<name>` is dropped.
pub fn ban_plan(name: &str, role: &String) -> (r: BanPlan)
    ensures
        role@ != "member"@ ==> r is Refuse,
        role@ == "member"@ ==> (r matches BanPlan::Apply { role: new_role, lock, owner_filter: f, cache_key: k }
            && new_role@ == "banned"@ && locked_metadata(lock) && f@ == "%\"owner\":\""@ + name@
            + "\"%"@ && k@ == "user:"@ + name@),
{
    if !can_ban(role) {
        return BanPlan::Refuse;
    }
    let mut key: Vec<char> = Vec::new();
    push_str(&mut key, "user:");
    push_str(&mut key, name);
    BanPlan::Apply {
        role: String::from_str("banned"),
        lock: banned_paste_metadata(),
        owner_filter: owner_filter(name),
        cache_key: string_of(&key),
    }
}

/// A user may be banned only while its role is `member`.
pub fn can_ban(role: &String) -> (r: bool)
    ensures
        r == (role@ == "member"@),
{
    let member = String::from_str("member");
    role.eq(&member)
}

/// The paste that a row of the pastes table holds, with its metadata as parsed from
/// the row's metadata text and `views` views; `None` where a column is missing or a
/// date is not a number.
pub open spec fn paste_of_row(
    row: Map<Seq<char>, String>,
    metadata: PasteMetadata,
    views: usize,
) -> Option<Paste<PasteMetadata>> {
    match crate::bundlesdb::paste_of_row(row, views) {
        Some(p) => Some(
            Paste {
                custom_url: p.custom_url,
                id: p.id,
                group_name: p.group_name,
                edit_password: p.edit_password,
                pub_date: p.pub_date,
                edit_date: p.edit_date,
                content: p.content,
                content_html: p.content_html,
                metadata,
                views,
            },
        ),
        None => None,
    }
}

/// Reads a paste from a row of the pastes table, with `metadata` parsed from its
/// metadata column and `views` counted from its view logs.
pub fn paste_from_row(row: &DatabaseReturn, metadata: PasteMetadata, views: usize) -> (r: Option<
    Paste<PasteMetadata>,
>)
    ensures
        r == paste_of_row(row.data@, metadata, views),
{
    match crate::bundlesdb::paste_from_row(row, views) {
        Some(p) => Some(
            Paste {
                custom_url: p.custom_url,
                id: p.id,
                group_name: p.group_name,
                edit_password: p.edit_password,
                pub_date: p.pub_date,
                edit_date: p.edit_date,
                content: p.content,
                content_html: p.content_html,
                metadata,
                views,
            },
        ),
        None => None,
    }
}

/// The number of favorites of a paste, read from the count kept in the cache (`0`
/// where none is kept); `None` where the kept count is not a number.
pub fn favorites_count(cached: Option<String>) -> (r: Option<i32>)
    ensures
        r == crate::number::parsed_i32(
            match cached {
                Some(c) => c@,
                None => "0"@,
            },
        ),
{
    match cached {
        Some(c) => crate::number::parse_i32(c.as_str()),
        None => crate::number::parse_i32("0"),
    }
}

/// The identifier that a row of the pastes table holds; `None` where a column is
/// missing.
pub fn paste_identifier_from_row(row: &DatabaseReturn) -> (r: Option<PasteIdentifier>)
    ensures
        match r {
            Some(i) => row.data@.contains_key("custom_url"@) && row.data@.contains_key("id"@)
                && i.custom_url == row.data@["custom_url"@] && i.id == row.data@["id"@],
            None => !row.data@.contains_key("custom_url"@) || !row.data@.contains_key("id"@),
        },
{
    match (row.data.load("custom_url"), row.data.load("id")) {
        (Some(u), Some(i)) => Some(PasteIdentifier { custom_url: u.clone(), id: i.clone() }),
        _ => None,
    }
}

/// The pattern that finds the pastes of `owner` by their metadata text.
pub fn owner_filter(owner: &str) -> (r: String)
    ensures
        r@ == "%\"owner\":\""@ + owner@ + "\"%"@,
{
    let mut v: Vec<char> = Vec::new();
    push_str(&mut v, "%\"owner\":\"");
    push_str(&mut v, owner);
    push_str(&mut v, "\"%");
    string_of(&v)
}

/// The cache key of a page of `owner`'s pastes: `pastes-by-owner:<owner>:offset<n>`,
/// the offset being 0 where none is given.
pub fn owner_pastes_key(owner: &str, offset: Option<i32>) -> (r: String)
    ensures
        r@ == "pastes-by-owner:"@ + owner@ + ":offset"@ + crate::number::signed_decimal_digits(
            match offset {
                Some(o) => o as int,
                None => 0,
            },
        ),
{
    let n: i32 = match offset {
        Some(o) => o,
        None => 0,
    };
    let digits = crate::number::i32_text(n);
    let mut v: Vec<char> = Vec::new();
    push_str(&mut v, "pastes-by-owner:");
    push_str(&mut v, owner);
    push_str(&mut v, ":offset");
    push_str(&mut v, digits.as_str());
    string_of(&v)
}

/// What toggling a favorite does.
pub enum FavoriteToggle {
    /// the user's favorite log (with this id) is deleted and the count goes down
    Remove { log_id: String },
    /// a favorite log is created and the count goes up
    Add,
}

/// Decides a favorite toggle by `user` on a paste owned by `owner`, given the user's
/// favorite log of the paste where there is one: the owner may not favorite its own
/// paste; an existing favorite is removed, else one is added.
pub fn toggle_favorite(owner: &String, user: &String, existing: Option<Log>) -> (r: Result<
    FavoriteToggle,
    DatabaseError,
>)
    ensures
        owner@ == user@ ==> (r matches Err(e) && e is NotAllowed),
        owner@ != user@ ==> match existing {
            Some(l) => r matches Ok(FavoriteToggle::Remove { log_id }) && log_id == l.id,
            None => r matches Ok(FavoriteToggle::Add),
        },
{
    if owner.eq(user) {
        return Err(DatabaseError::NotAllowed);
    }
    match existing {
        Some(l) => Ok(FavoriteToggle::Remove { log_id: l.id }),
        None => Ok(FavoriteToggle::Add),
    }
}

/// The users who favor a paste owned by `owner`, and its favorite count, after
/// `user` toggles a favorite (see `toggle_favorite`): the owner cannot; a user who
/// favors it stops, and the count goes down; any other starts, and it goes up.
pub open spec fn favorites_after(
    owner: Seq<char>,
    user: Seq<char>,
    favs: Set<Seq<char>>,
    count: int,
) -> (Set<Seq<char>>, int) {
    if owner == user {
        (favs, count)
    } else if favs.contains(user) {
        (favs.remove(user), count - 1)
    } else {
        (favs.insert(user), count + 1)
    }
}

/// Toggling a favorite twice restores both who favors the paste and its count, and
/// a count that was the number of users who favor it stays so.
pub proof fn law_favorite_toggle_twice_restores(
    owner: Seq<char>,
    user: Seq<char>,
    favs: Set<Seq<char>>,
    count: int,
)
    requires
        favs.finite(),
    ensures
        ({
            let once = favorites_after(owner, user, favs, count);
            &&& favorites_after(owner, user, once.0, once.1) == (favs, count)
            &&& count == favs.len() ==> once.1 == once.0.len() && once.0.finite()
        }),
{
    let once = favorites_after(owner, user, favs, count);
    if owner != user {
        if favs.contains(user) {
            assert(once.0.insert(user) =~= favs);
        } else {
            assert(once.0.remove(user) =~= favs);
        }
    }
}

/// The custom url of a paste created in a group: `group/url`.
pub fn grouped_url(group_name: &str, custom_url: &str) -> (r: String)
    ensures
        r@ == group_name@ + "/"@ + custom_url@,
{
    let mut v: Vec<char> = Vec::new();
    push_str(&mut v, group_name);
    push_str(&mut v, "/");
    push_str(&mut v, custom_url);
    string_of(&v)
}

/// Whether `password` is the submit password of a group (whose hash is `submit_hash`).
pub fn group_password_matches(password: String, submit_hash: &String) -> (r: bool)
    ensures
        r == (hex_lower(sha256(encode_utf8(password@))) == submit_hash@),
{
    hash(password).eq(submit_hash)
}

// ---------------------------------------------------------------------------
// the steps of a create request

/// The texts that a new paste is inserted with, column by column: url, id, group
/// name, `password_hash`, both dates in decimal, content, rendered content, and
/// `metadata` (JSON text).
pub open spec fn stored_values(
    p: Paste<String>,
    password_hash: Seq<char>,
    metadata: Seq<char>,
) -> Seq<Seq<char>> {
    seq![
        p.custom_url@,
        p.id@,
        p.group_name@,
        password_hash,
        crate::number::decimal_digits(p.pub_date as nat),
        crate::number::decimal_digits(p.edit_date as nat),
        p.content@,
        p.content_html@,
        metadata,
    ]
}

fn stored_values_exec(p: &Paste<String>, password_hash: String, metadata: &String) -> (r: Vec<
    String,
>)
    ensures
        r.deep_view() == stored_values(*p, password_hash@, metadata@),
{
    let r = vec![
        p.custom_url.clone(),
        p.id.clone(),
        p.group_name.clone(),
        password_hash,
        crate::number::decimal_text(p.pub_date),
        crate::number::decimal_text(p.edit_date),
        p.content.clone(),
        p.content_html.clone(),
        metadata.clone(),
    ];
    assert(r.deep_view() =~= stored_values(*p, password_hash@, metadata@));
    r
}

/// The cache prefix whose entries a new paste of `user` makes stale: the pages of
/// `user`'s pastes (`pastes-by-owner:<user>*`).
pub open spec fn owner_pages_prefix(user: Seq<char>) -> Seq<char> {
    "pastes-by-owner:"@ + user + "*"@
}

/// What a create request does next. The request runs as a sequence of steps: each
/// step function takes what the previous action found and gives the next action.
pub enum NewPasteStep {
    /// Refuse the request with this error and stop.
    Refuse(DatabaseError),
    /// Look up the group that the paste names; then call `after_new_paste_group_lookup`.
    LookupGroup { metadata: PasteMetadata },
    /// Create this group; then call `after_new_paste_group_created`.
    CreateGroup { group: Group<GroupMetadata>, metadata: PasteMetadata },
    /// Look up whether a paste is stored under the paste's url (`metadata`, as JSON
    /// text, is what it will be stored with); then call `after_new_paste_lookup`.
    LookupPaste { metadata: PasteMetadata },
    /// Insert these values as a row, then remove the cache entries that start with
    /// `stale_prefix` where there is one; then call `after_new_paste_insert`.
    Insert { values: Vec<String>, stale_prefix: Option<String> },
}

/// The first step of creating `props` as `as_user`: fills in an empty url or edit
/// password and checks the paste (see `prepare_new_paste`); a refused paste is
/// refused with `ValueError`, a paste in a group looks its group up, any other
/// looks its url up.
pub fn begin_new_paste(props: &mut Paste<String>, as_user: Option<String>) -> (r: NewPasteStep)
    ensures
        filled(old(props).custom_url@, final(props).custom_url@),
        filled(old(props).edit_password@, final(props).edit_password@),
        final(props).id == old(props).id && final(props).group_name == old(props).group_name
            && final(props).pub_date == old(props).pub_date && final(props).edit_date == old(
            props,
        ).edit_date && final(props).content == old(props).content && final(props).content_html
            == old(props).content_html && final(props).metadata == old(props).metadata
            && final(props).views == old(props).views,
        if new_paste_accepted(
            byte_len(final(props).custom_url@) as int,
            byte_len(final(props).group_name@) as int,
            byte_len(final(props).content@) as int,
            is_reserved_url(final(props).custom_url@),
            url_chars_fine(final(props).custom_url@),
        ) {
            if final(props).group_name@.len() == 0 {
                r matches NewPasteStep::LookupPaste { metadata } && new_metadata_for(
                    metadata,
                    as_user,
                )
            } else {
                r matches NewPasteStep::LookupGroup { metadata } && new_metadata_for(
                    metadata,
                    as_user,
                )
            }
        } else {
            r matches NewPasteStep::Refuse(e) && e is ValueError
        },
{
    match prepare_new_paste(props, as_user) {
        Err(e) => NewPasteStep::Refuse(e),
        Ok(metadata) => {
            if props.group_name.as_str().is_empty() {
                NewPasteStep::LookupPaste { metadata }
            } else {
                NewPasteStep::LookupGroup { metadata }
            }
        },
    }
}

/// `p` is `o` with its url put in its group: `group/url`.
pub open spec fn put_in_group(o: Paste<String>, p: Paste<String>) -> bool {
    &&& p.custom_url@ == o.group_name@ + "/"@ + o.custom_url@
    &&& p.id == o.id && p.group_name == o.group_name && p.edit_password == o.edit_password
        && p.pub_date == o.pub_date && p.edit_date == o.edit_date && p.content == o.content
        && p.content_html == o.content_html && p.metadata == o.metadata && p.views == o.views
}

/// The step after the paste's group was looked up (`found`; `None` where the lookup
/// failed). A missing group is created with the paste's group name, its edit
/// password as the submit password, and its owner; a group whose submit password
/// the paste's edit password does not open refuses the paste with `ValueError`;
/// otherwise the paste's url becomes `group/url` and that url is looked up.
pub fn after_new_paste_group_lookup(
    props: &mut Paste<String>,
    metadata: PasteMetadata,
    found: Option<Group<GroupMetadata>>,
) -> (r: NewPasteStep)
    ensures
        match found {
            None => {
                &&& *final(props) == *old(props)
                &&& r matches NewPasteStep::CreateGroup { group, metadata: m }
                &&& m == metadata && group.name == old(props).group_name && group.submit_password
                    == old(props).edit_password && group.metadata.owner == metadata.owner
            },
            Some(g) => if password_matches(old(props).edit_password@, g.submit_password@) {
                &&& put_in_group(*old(props), *final(props))
                &&& r matches NewPasteStep::LookupPaste { metadata: m }
                &&& m == metadata
            } else {
                &&& *final(props) == *old(props)
                &&& r matches NewPasteStep::Refuse(e)
                &&& e is ValueError
            },
        },
{
    match found {
        None => {
            let group = Group {
                name: props.group_name.clone(),
                submit_password: props.edit_password.clone(),
                metadata: GroupMetadata { owner: metadata.owner.clone() },
            };
            NewPasteStep::CreateGroup { group, metadata }
        },
        Some(g) => {
            if !group_password_matches(props.edit_password.clone(), &g.submit_password) {
                return NewPasteStep::Refuse(DatabaseError::ValueError);
            }
            props.custom_url = grouped_url(props.group_name.as_str(), props.custom_url.as_str());
            NewPasteStep::LookupPaste { metadata }
        },
    }
}

/// The step after the paste's group was created (`created`): its error refuses the
/// paste; otherwise the paste's url becomes `group/url` and that url is looked up.
pub fn after_new_paste_group_created(
    props: &mut Paste<String>,
    metadata: PasteMetadata,
    created: Result<(), DatabaseError>,
) -> (r: NewPasteStep)
    ensures
        match created {
            Err(e) => *final(props) == *old(props) && r == NewPasteStep::Refuse(e),
            Ok(()) => {
                &&& put_in_group(*old(props), *final(props))
                &&& r matches NewPasteStep::LookupPaste { metadata: m }
                &&& m == metadata
            },
        },
{
    match created {
        Err(e) => NewPasteStep::Refuse(e),
        Ok(()) => {
            props.custom_url = grouped_url(props.group_name.as_str(), props.custom_url.as_str());
            NewPasteStep::LookupPaste { metadata }
        },
    }
}

/// The step after the paste's url was looked up (`taken`: a paste is stored there).
/// A taken url refuses the paste with `MustBeUnique`. Otherwise the paste gets the
/// url it is stored under and a new random id (see `finish_new_paste`) and is
/// inserted with its edit password hashed and its metadata as the JSON text
/// `metadata`; a paste of `as_user` makes the cached pages of `as_user`'s pastes
/// stale. Where the url cannot be encoded the paste is refused with `Other`.
pub fn after_new_paste_lookup(
    props: &mut Paste<String>,
    metadata: &String,
    taken: bool,
    as_user: &Option<String>,
) -> (r: NewPasteStep)
    ensures
        taken ==> *final(props) == *old(props) && r == NewPasteStep::Refuse(
            DatabaseError::MustBeUnique,
        ),
        !taken ==> match renamed_url(old(props).custom_url@) {
            None => *final(props) == *old(props) && r == NewPasteStep::Refuse(DatabaseError::Other),
            Some(u) => {
                &&& final(props).custom_url@ == u
                &&& exists|v: Seq<char>|
                    is_uuid_v4_text(v) && final(props).id@ == hex_lower(sha256(encode_utf8(v)))
                &&& final(props).id@.len() == 64
                &&& final(props).group_name == old(props).group_name && final(props).edit_password
                    == old(props).edit_password && final(props).pub_date == old(props).pub_date
                    && final(props).edit_date == old(props).edit_date && final(props).content
                    == old(props).content && final(props).content_html == old(props).content_html
                    && final(props).metadata == old(props).metadata && final(props).views
                    == old(props).views
                &&& r matches NewPasteStep::Insert { values, stale_prefix }
                &&& values.deep_view() == stored_values(
                    *final(props),
                    hex_lower(sha256(encode_utf8(old(props).edit_password@))),
                    metadata@,
                )
                &&& match as_user {
                    Some(user) => stale_prefix matches Some(s) && s@ == owner_pages_prefix(user@),
                    None => stale_prefix is None,
                }
            },
        },
{
    if taken {
        return NewPasteStep::Refuse(DatabaseError::MustBeUnique);
    }
    match finish_new_paste(props) {
        None => NewPasteStep::Refuse(DatabaseError::Other),
        Some(password_hash) => {
            let values = stored_values_exec(props, password_hash, metadata);
            let stale_prefix = match as_user {
                Some(user) => {
                    let mut v: Vec<char> = Vec::new();
                    push_str(&mut v, "pastes-by-owner:");
                    push_str(&mut v, user.as_str());
                    push_str(&mut v, "*");
                    Some(string_of(&v))
                },
                None => None,
            };
            NewPasteStep::Insert { values, stale_prefix }
        },
    }
}

/// The result of a create request after the insert (`inserted`: it succeeded): the
/// stored paste, or `Other`.
pub fn after_new_paste_insert(props: Paste<String>, inserted: bool) -> (r: Result<
    Paste<String>,
    DatabaseError,
>)
    ensures
        inserted ==> r == Ok::<Paste<String>, DatabaseError>(props),
        !inserted ==> r == Err::<Paste<String>, DatabaseError>(DatabaseError::Other),
{
    if inserted {
        Ok(props)
    } else {
        Err(DatabaseError::Other)
    }
}

// ---------------------------------------------------------------------------
// editing and deleting a paste

/// `user`'s level in `perms` is `level`.
pub open spec fn listed_as(
    perms: Map<Seq<char>, PastePermissionLevel>,
    user: Seq<char>,
    level: PastePermissionLevel,
) -> bool {
    perms.contains_key(user) && perms[user] == level
}

/// Editing as `edit_as` needs no password: it is the owner, or it is listed as
/// `EditTextPasswordless` or `Passwordless`.
pub open spec fn edit_skips_password(
    edit_as: Option<Seq<char>>,
    owner: Seq<char>,
    perms: Map<Seq<char>, PastePermissionLevel>,
) -> bool {
    match edit_as {
        Some(u) => u == owner || listed_as(perms, u, PastePermissionLevel::EditTextPasswordless)
            || listed_as(perms, u, PastePermissionLevel::Passwordless),
        None => false,
    }
}

/// Managing (deleting, editing metadata) as `as_user` needs no password: it is the
/// owner, its level has the `ManagePastes` permission, or it is listed as `Passwordless`.
pub open spec fn manage_skips_password(
    as_user: Option<Seq<char>>,
    owner: Seq<char>,
    perms: Map<Seq<char>, PastePermissionLevel>,
    user_permissions: Option<Seq<Seq<char>>>,
) -> bool {
    match as_user {
        Some(u) => u == owner || (user_permissions matches Some(p) && p.contains(
            "ManagePastes"@,
        )) || listed_as(perms, u, PastePermissionLevel::Passwordless),
        None => false,
    }
}

fn level_of(perms: &PastePermissions, user: &String) -> (r: Option<PastePermissionLevel>)
    ensures
        match r {
            Some(l) => perms@.contains_key(user@) && perms@[user@] == l,
            None => !perms@.contains_key(user@),
        },
{
    match perms.load(user.as_str()) {
        Some(l) => Some(*l),
        None => None,
    }
}

/// Checks that an edit of `paste`'s content, made with `edit_password` as `edit_as`,
/// may be made. A user listed as `EditTextPasswordless` may not change the url or
/// the password.
pub fn authorize_paste_edit(
    paste: &Paste<PasteMetadata>,
    edit_password: String,
    edit_as: &Option<String>,
    changes_url: bool,
    changes_password: bool,
) -> (r: Result<(), DatabaseError>)
    ensures
        r is Ok <==> (edit_skips_password(
            edit_as.deep_view(),
            paste.metadata.owner@,
            paste.metadata.permissions_list@,
        ) || password_matches(edit_password@, paste.edit_password@)) && !(match edit_as {
            Some(u) => listed_as(
                paste.metadata.permissions_list@,
                u@,
                PastePermissionLevel::EditTextPasswordless,
            ),
            None => false,
        } && (changes_url || changes_password)),
        r matches Err(e) ==> e is NotAllowed,
{
    let meta = &paste.metadata;
    let level = match edit_as {
        Some(u) => level_of(&meta.permissions_list, u),
        None => None,
    };
    let skip = match edit_as {
        Some(u) => u.eq(&meta.owner) || level == Some(PastePermissionLevel::EditTextPasswordless)
            || level == Some(PastePermissionLevel::Passwordless),
        None => false,
    };
    if !skip && !hash(edit_password).eq(&paste.edit_password) {
        return Err(DatabaseError::NotAllowed);
    }
    if level == Some(PastePermissionLevel::EditTextPasswordless) && (changes_url
        || changes_password) {
        return Err(DatabaseError::NotAllowed);
    }
    Ok(())
}


// ---------------------------------------------------------------------------
// the steps of an edit request

/// An edit of a paste's content: the paste's url as given, the new content, the
/// password the edit is made with, a new url and a new edit password where they
/// change, and the account that edits.
pub struct PasteEdit {
    pub url: String,
    pub content: String,
    pub edit_password: String,
    pub new_url: Option<String>,
    pub new_edit_password: Option<String>,
    pub edit_as: Option<String>,
}

/// What an edit request does next.
pub enum PasteEditStep {
    /// Refuse the request with this error and stop.
    Refuse(DatabaseError),
    /// Look up the paste stored under `url`; then call `after_edit_lookup`.
    LookupPaste { url: String },
    /// Look up whether a paste is stored under the new url `url`; then call
    /// `after_new_url_check`.
    CheckNewUrl { url: String },
    /// Set the content, rendered content, edit password hash, custom url and edit
    /// date of the row whose url is the last value to the values before it, then
    /// remove the cache entry `stale_key`; the request succeeds where the update does,
    /// and fails with `Other` where it does not.
    Update { values: Vec<String>, stale_key: String },
}

fn copy_error(e: &DatabaseError) -> (r: DatabaseError)
    ensures
        r == *e,
{
    match e {
        DatabaseError::MustBeUnique => DatabaseError::MustBeUnique,
        DatabaseError::NotAllowed => DatabaseError::NotAllowed,
        DatabaseError::ValueError => DatabaseError::ValueError,
        DatabaseError::NotFound => DatabaseError::NotFound,
        DatabaseError::Other => DatabaseError::Other,
    }
}

/// The first step of an edit: the paste is looked up under the url it is stored
/// under (see `renamed_url`); where that url cannot be encoded the edit is refused
/// with `Other`.
pub fn begin_paste_edit(edit: &PasteEdit) -> (r: PasteEditStep)
    ensures
        match renamed_url(edit.url@) {
            Some(u) => r matches PasteEditStep::LookupPaste { url } && url@ == u,
            None => r == PasteEditStep::Refuse(DatabaseError::Other),
        },
{
    match encode_new_url(edit.url.as_str()) {
        Some(url) => PasteEditStep::LookupPaste { url },
        None => PasteEditStep::Refuse(DatabaseError::Other),
    }
}

/// The values an edit of `paste` (stored under `url`) sets, with `html` as the
/// rendered content, `fields` as the new password hash and url, and `now` as the
/// edit date; the last value selects the row.
pub open spec fn edit_values(
    edit: PasteEdit,
    url: Seq<char>,
    html: Seq<char>,
    fields: (Seq<char>, Seq<char>),
    now: u128,
) -> Seq<Seq<char>> {
    seq![
        edit.content@,
        html,
        fields.0,
        fields.1,
        crate::number::decimal_digits(now as nat),
        url,
    ]
}

/// `r` is the step that stores an authorized edit of `paste` (stored under `url`)
/// at `now`: the update with the new fields (see `edited_paste_fields`), the content
/// rendered from Markdown, and `paste:<url>` as the stale cache entry; `Other` where
/// the new url cannot be encoded.
pub open spec fn edit_stored(
    edit: PasteEdit,
    url: Seq<char>,
    paste: Paste<PasteMetadata>,
    now: u128,
    r: PasteEditStep,
) -> bool {
    let password = match edit.new_edit_password {
        Some(pw) => hex_lower(sha256(encode_utf8(pw@))),
        None => paste.edit_password@,
    };
    let new_url = match edit.new_url {
        Some(u) => renamed_url(u@),
        None => Some(strip_dash(paste.custom_url@)),
    };
    match new_url {
        Some(n) => {
            &&& r matches PasteEditStep::Update { values, stale_key }
            &&& values.deep_view() == edit_values(
                edit,
                url,
                crate::markdown::rendered_markdown(edit.content@),
                (password, n),
                now,
            )
            &&& stale_key@ == "paste:"@ + url
        },
        None => r == PasteEditStep::Refuse(DatabaseError::Other),
    }
}

fn edit_update(edit: &PasteEdit, url: &String, paste: &Paste<PasteMetadata>, now: u128) -> (r:
    PasteEditStep)
    ensures
        edit_stored(*edit, url@, *paste, now, r),
{
    let new_password = match &edit.new_edit_password {
        Some(pw) => Some(pw.clone()),
        None => None,
    };
    match edited_paste_fields(paste, &edit.new_url, new_password) {
        None => PasteEditStep::Refuse(DatabaseError::Other),
        Some(fields) => {
            let html = crate::markdown::parse_markdown(edit.content.clone());
            let values = vec![
                edit.content.clone(),
                html,
                fields.0,
                fields.1,
                crate::number::decimal_text(now),
                url.clone(),
            ];
            let mut key: Vec<char> = Vec::new();
            push_str(&mut key, "paste:");
            push_str(&mut key, url.as_str());
            let stale_key = string_of(&key);
            assert(values.deep_view() =~= edit_values(
                *edit,
                url@,
                crate::markdown::rendered_markdown(edit.content@),
                (fields.0@, fields.1@),
                now,
            ));
            PasteEditStep::Update { values, stale_key }
        },
    }
}

/// The step after the paste stored under `url` was looked up (`found`), at `now`.
/// A failed lookup refuses the edit with its error; an edit that
/// `authorize_paste_edit` refuses is refused with `NotAllowed`; an edit that changes
/// the url checks the new url first; any other is stored (see `edit_stored`).
pub fn after_edit_lookup(
    edit: &PasteEdit,
    url: &String,
    found: &Result<Paste<PasteMetadata>, DatabaseError>,
    now: u128,
) -> (r: PasteEditStep)
    ensures
        match found {
            Err(e) => r == PasteEditStep::Refuse(*e),
            Ok(paste) => if !((edit_skips_password(
                edit.edit_as.deep_view(),
                paste.metadata.owner@,
                paste.metadata.permissions_list@,
            ) || password_matches(edit.edit_password@, paste.edit_password@)) && !(match edit.edit_as {
                Some(u) => listed_as(
                    paste.metadata.permissions_list@,
                    u@,
                    PastePermissionLevel::EditTextPasswordless,
                ),
                None => false,
            } && (edit.new_url is Some || edit.new_edit_password is Some))) {
                r == PasteEditStep::Refuse(DatabaseError::NotAllowed)
            } else {
                match edit.new_url {
                    Some(n) => r matches PasteEditStep::CheckNewUrl { url: c } && c == n,
                    None => edit_stored(*edit, url@, *paste, now, r),
                }
            },
        },
{
    match found {
        Err(e) => PasteEditStep::Refuse(copy_error(e)),
        Ok(paste) => {
            match authorize_paste_edit(
                paste,
                edit.edit_password.clone(),
                &edit.edit_as,
                edit.new_url.is_some(),
                edit.new_edit_password.is_some(),
            ) {
                Err(_) => PasteEditStep::Refuse(DatabaseError::NotAllowed),
                Ok(()) => match &edit.new_url {
                    Some(n) => PasteEditStep::CheckNewUrl { url: n.clone() },
                    None => edit_update(edit, url, paste, now),
                },
            }
        },
    }
}

/// The step after the new url of an authorized edit was looked up (`taken`: a paste
/// is stored there): a taken url refuses the edit with `MustBeUnique`; otherwise the
/// edit is stored (see `edit_stored`).
pub fn after_new_url_check(
    edit: &PasteEdit,
    url: &String,
    paste: &Paste<PasteMetadata>,
    taken: bool,
    now: u128,
) -> (r: PasteEditStep)
    ensures
        taken ==> r == PasteEditStep::Refuse(DatabaseError::MustBeUnique),
        !taken ==> edit_stored(*edit, url@, *paste, now, r),
{
    if taken {
        PasteEditStep::Refuse(DatabaseError::MustBeUnique)
    } else {
        edit_update(edit, url, paste, now)
    }
}


/// Checks that `paste` may be deleted, or its metadata edited, with `edit_password`
/// as `as_user` (whose level has `user_permissions`, where that account was found).
pub fn authorize_paste_management(
    paste: &Paste<PasteMetadata>,
    edit_password: String,
    as_user: &Option<String>,
    user_permissions: &Option<Vec<String>>,
) -> (r: Result<(), DatabaseError>)
    ensures
        r is Ok <==> manage_skips_password(
            as_user.deep_view(),
            paste.metadata.owner@,
            paste.metadata.permissions_list@,
            user_permissions.deep_view(),
        ) || password_matches(edit_password@, paste.edit_password@),
        r matches Err(e) ==> e is NotAllowed,
{
    let meta = &paste.metadata;
    let skip = match as_user {
        Some(u) => {
            if u.eq(&meta.owner) {
                true
            } else if match user_permissions {
                Some(p) => crate::text::contains_text(p, "ManagePastes"),
                None => false,
            } {
                true
            } else {
                level_of(&meta.permissions_list, u) == Some(PastePermissionLevel::Passwordless)
            }
        },
        None => false,
    };
    if !skip && !hash(edit_password).eq(&paste.edit_password) {
        return Err(DatabaseError::NotAllowed);
    }
    Ok(())
}

} // verus!
