//! Records of the paste site: pastes, groups, users, logs and boards; how they are
//! read from database rows and kept in the paste cache; and the rules of its requests.
use vstd::prelude::*;

use crate::cache::CacheStore;
use crate::markdown::{parse_markdown, rendered_markdown};
use crate::number::{decimal_digits, decimal_text, parse_u128, parsed_u128};
use crate::pattern::{captures_all, regex_captures};
use crate::text::{byte_len, hex_lower, push_str, string_of};
use crate::utility::{
    filled, hash, is_uuid_v4_text, password_matches, random_id, sha256, short_random_id,
    uuid,
};
use vstd::utf8::encode_utf8;

verus! {

/// Default API return value
pub struct DefaultReturn<T> {
    pub success: bool,
    pub message: String,
    pub payload: T,
}

/// A database row: each column's text by column name.
pub struct DatabaseReturn {
    pub data: CacheStore<String>,
}

/// A paste; its metadata is of type `M` so it can be read as text or parsed.
pub struct Paste<M> {
    // selectors
    pub custom_url: String,
    pub id: String,
    pub group_name: String,
    // passwords
    pub edit_password: String,
    // dates
    pub pub_date: u128,
    pub edit_date: u128,
    pub content: String,
    /// rendered paste content
    pub content_html: String,
    pub metadata: M,
    pub views: usize,
}

/// The url and id of a paste.
pub struct PasteIdentifier {
    pub custom_url: String,
    pub id: String,
}

/// The metadata of a paste.
pub struct PasteMetadata {
    pub owner: String,
    pub private_source: String,
    // optionals
    pub title: Option<String>,
    pub description: Option<String>,
    pub favicon: Option<String>,
    pub embed_color: Option<String>,
    pub view_password: Option<String>,
}

/// A paste content structure containing an array of [files](AtomicPasteFSFile)
pub struct AtomicPaste {
    /// this must exist so we know a paste's content is for an atomic paste
    pub _is_atomic: bool,
    pub files: Vec<AtomicPasteFSFile>,
}

/// A structure representing a single text file
pub struct AtomicPasteFSFile {
    pub path: String,
    pub content: String,
}

/// A group of pastes.
pub struct Group<M> {
    pub name: String,
    pub submit_password: String,
    /// JSON object
    pub metadata: M,
}

/// The metadata of a group.
pub struct GroupMetadata {
    /// username of owner
    pub owner: String,
}

/// A user object
pub struct UserState {
    pub username: String,
    /// users use their unhashed id to log in; only the hashed id is ever public
    pub id_hashed: String,
    pub role: String,
    pub timestamp: u128,
}

/// A log entry.
pub struct Log {
    pub id: String,
    pub logtype: String,
    pub timestamp: u128,
    pub content: String,
}

/// The id of a log entry.
pub struct LogIdentifier {
    pub id: String,
}

/// A board of posts.
pub struct Board<M> {
    pub name: String,
    pub timestamp: u128,
    pub metadata: M,
}

/// The metadata of a board.
pub struct BoardMetadata {
    /// username of owner
    pub owner: String,
    /// if the homepage of the board is shown to other users (not owner)
    pub is_private: String,
    /// if anonymous users can post
    pub allow_anonymous: Option<String>,
    /// if all users can post on the board (not just owner)
    pub allow_open_posting: Option<String>,
    /// welcome message
    pub about: Option<String>,
}

/// A post on a board, kept as the content of a log.
pub struct BoardPostLog {
    /// username of owner
    pub author: String,
    pub content: String,
    pub content_html: String,
    /// name of board the post is located in
    pub board: String,
    pub is_hidden: bool,
    /// the id of the post we're replying to
    pub reply: Option<String>,
    /// pin the post to the top of the board feed
    pub pinned: Option<bool>,
    /// the number of replies this post has, shown with it
    pub replies: Option<usize>,
}

/// The name of a board.
pub struct BoardIdentifier {
    pub name: String,
}

/// The cache is used unless the `cache_enabled` option is the text `false`.
pub open spec fn cache_on(cache_enabled: Option<Seq<char>>) -> bool {
    match cache_enabled {
        Some(v) => v != "false"@,
        None => true,
    }
}

/// Whether the paste and user caches are used, by the `cache_enabled` option.
pub fn cache_enabled(option: &Option<String>) -> (r: bool)
    ensures
        r == cache_on(option.deep_view()),
{
    match option {
        Some(v) => {
            let f = String::from_str("false");
            !v.eq(&f)
        },
        None => true,
    }
}

// ---------------------------------------------------------------------------
// reading rows

/// The text of column `name` of a row, if the row has it.
pub open spec fn text_column(row: Map<Seq<char>, String>, name: Seq<char>) -> Option<String> {
    if row.contains_key(name) {
        Some(row[name])
    } else {
        None
    }
}

/// The number that column `name` of a row holds as decimal text, if it does.
pub open spec fn number_column(row: Map<Seq<char>, String>, name: Seq<char>) -> Option<u128> {
    match text_column(row, name) {
        Some(t) => parsed_u128(t@),
        None => None,
    }
}

fn text_of(row: &DatabaseReturn, name: &str) -> (r: Option<String>)
    ensures
        r == text_column(row.data@, name@),
{
    match row.data.load(name) {
        Some(t) => Some(t.clone()),
        None => None,
    }
}

fn number_of(row: &DatabaseReturn, name: &str) -> (r: Option<u128>)
    ensures
        r == number_column(row.data@, name@),
{
    match row.data.load(name) {
        Some(t) => parse_u128(t.as_str()),
        None => None,
    }
}

/// The user that a row of the users table holds; `None` where a column is missing or
/// the timestamp is not a number.
pub open spec fn user_of_row(row: Map<Seq<char>, String>) -> Option<UserState> {
    match (
        text_column(row, "username"@),
        text_column(row, "id_hashed"@),
        text_column(row, "role"@),
        number_column(row, "timestamp"@),
    ) {
        (Some(username), Some(id_hashed), Some(role), Some(timestamp)) => Some(
            UserState { username, id_hashed, role, timestamp },
        ),
        _ => None,
    }
}

/// Reads a user from a row of the users table.
pub fn user_from_row(row: &DatabaseReturn) -> (r: Option<UserState>)
    ensures
        r == user_of_row(row.data@),
{
    let username = text_of(row, "username");
    let id_hashed = text_of(row, "id_hashed");
    let role = text_of(row, "role");
    let timestamp = number_of(row, "timestamp");
    match (username, id_hashed, role, timestamp) {
        (Some(username), Some(id_hashed), Some(role), Some(timestamp)) => Some(
            UserState { username, id_hashed, role, timestamp },
        ),
        _ => None,
    }
}

/// The log that a row of the logs table holds; `None` where a column is missing or
/// the timestamp is not a number.
pub open spec fn log_of_row(row: Map<Seq<char>, String>) -> Option<Log> {
    match (
        text_column(row, "id"@),
        text_column(row, "logtype"@),
        number_column(row, "timestamp"@),
        text_column(row, "content"@),
    ) {
        (Some(id), Some(logtype), Some(timestamp), Some(content)) => Some(
            Log { id, logtype, timestamp, content },
        ),
        _ => None,
    }
}

/// Reads a log from a row of the logs table.
pub fn log_from_row(row: &DatabaseReturn) -> (r: Option<Log>)
    ensures
        r == log_of_row(row.data@),
{
    let id = text_of(row, "id");
    let logtype = text_of(row, "logtype");
    let timestamp = number_of(row, "timestamp");
    let content = text_of(row, "content");
    match (id, logtype, timestamp, content) {
        (Some(id), Some(logtype), Some(timestamp), Some(content)) => Some(
            Log { id, logtype, timestamp, content },
        ),
        _ => None,
    }
}

/// The board that a row of the boards table holds, its metadata as text.
pub open spec fn board_of_row(row: Map<Seq<char>, String>) -> Option<Board<String>> {
    match (
        text_column(row, "name"@),
        number_column(row, "timestamp"@),
        text_column(row, "metadata"@),
    ) {
        (Some(name), Some(timestamp), Some(metadata)) => Some(Board { name, timestamp, metadata }),
        _ => None,
    }
}

/// Reads a board from a row of the boards table.
pub fn board_from_row(row: &DatabaseReturn) -> (r: Option<Board<String>>)
    ensures
        r == board_of_row(row.data@),
{
    let name = text_of(row, "name");
    let timestamp = number_of(row, "timestamp");
    let metadata = text_of(row, "metadata");
    match (name, timestamp, metadata) {
        (Some(name), Some(timestamp), Some(metadata)) => Some(Board { name, timestamp, metadata }),
        _ => None,
    }
}

/// The paste that a row of the pastes table holds, its metadata as text, with
/// `views` views.
pub open spec fn paste_of_row(row: Map<Seq<char>, String>, views: usize) -> Option<Paste<String>> {
    match (
        text_column(row, "custom_url"@),
        text_column(row, "id"@),
        text_column(row, "group_name"@),
        text_column(row, "edit_password"@),
        number_column(row, "pub_date"@),
        number_column(row, "edit_date"@),
        text_column(row, "content"@),
        text_column(row, "content_html"@),
        text_column(row, "metadata"@),
    ) {
        (
            Some(custom_url),
            Some(id),
            Some(group_name),
            Some(edit_password),
            Some(pub_date),
            Some(edit_date),
            Some(content),
            Some(content_html),
            Some(metadata),
        ) => Some(
            Paste {
                custom_url,
                id,
                group_name,
                edit_password,
                pub_date,
                edit_date,
                content,
                content_html,
                metadata,
                views,
            },
        ),
        _ => None,
    }
}

/// Reads a paste from a row of the pastes table; `views` is the count of its view logs.
pub fn paste_from_row(row: &DatabaseReturn, views: usize) -> (r: Option<Paste<String>>)
    ensures
        r == paste_of_row(row.data@, views),
{
    let custom_url = text_of(row, "custom_url");
    let id = text_of(row, "id");
    let group_name = text_of(row, "group_name");
    let edit_password = text_of(row, "edit_password");
    let pub_date = number_of(row, "pub_date");
    let edit_date = number_of(row, "edit_date");
    let content = text_of(row, "content");
    let content_html = text_of(row, "content_html");
    let metadata = text_of(row, "metadata");
    match (
        custom_url,
        id,
        group_name,
        edit_password,
        pub_date,
        edit_date,
        content,
        content_html,
        metadata,
    ) {
        (
            Some(custom_url),
            Some(id),
            Some(group_name),
            Some(edit_password),
            Some(pub_date),
            Some(edit_date),
            Some(content),
            Some(content_html),
            Some(metadata),
        ) => Some(
            Paste {
                custom_url,
                id,
                group_name,
                edit_password,
                pub_date,
                edit_date,
                content,
                content_html,
                metadata,
                views,
            },
        ),
        _ => None,
    }
}

// ---------------------------------------------------------------------------
// writing rows

/// `row` holds, under each of the columns `cols`, the text at the same place in `vals`.
pub open spec fn row_holds(
    row: Map<Seq<char>, String>,
    cols: Seq<Seq<char>>,
    vals: Seq<Seq<char>>,
) -> bool {
    &&& cols.len() == vals.len()
    &&& forall|i: int|
        0 <= i < cols.len() ==> #[trigger] row.contains_key(cols[i]) && row[cols[i]]@ == vals[i]
}

/// The columns of the users table, in order.
pub open spec fn user_columns() -> Seq<Seq<char>> {
    seq!["username"@, "id_hashed"@, "role"@, "timestamp"@]
}

/// The texts that a user is written as, in the order of `user_columns`.
pub open spec fn user_values(u: UserState) -> Seq<Seq<char>> {
    seq![u.username@, u.id_hashed@, u.role@, decimal_digits(u.timestamp as nat)]
}

/// The values that a new user is inserted with.
pub fn user_insert_values(u: &UserState) -> (r: Vec<String>)
    ensures
        r.deep_view() == user_values(*u),
{
    let r = vec![u.username.clone(), u.id_hashed.clone(), u.role.clone(), decimal_text(u.timestamp)];
    assert(r.deep_view() =~= user_values(*u));
    r
}

/// A user written to a row is read back unchanged.
pub proof fn law_user_row_round_trip(u: UserState, row: Map<Seq<char>, String>)
    requires
        row_holds(row, user_columns(), user_values(u)),
    ensures
        user_of_row(row) matches Some(v) && v.username@ == u.username@ && v.id_hashed@
            == u.id_hashed@ && v.role@ == u.role@ && v.timestamp == u.timestamp,
{
    let c = user_columns();
    assert(row.contains_key(c[0]) && row.contains_key(c[1]) && row.contains_key(c[2])
        && row.contains_key(c[3]));
    crate::number::law_parse_decimal_text(u.timestamp);
}

/// The columns of the logs table, in order.
pub open spec fn log_columns() -> Seq<Seq<char>> {
    seq!["id"@, "logtype"@, "timestamp"@, "content"@]
}

/// The texts that a log is written as, in the order of `log_columns`.
pub open spec fn log_values(l: Log) -> Seq<Seq<char>> {
    seq![l.id@, l.logtype@, decimal_digits(l.timestamp as nat), l.content@]
}

/// The values that a new log is inserted with.
pub fn log_insert_values(l: &Log) -> (r: Vec<String>)
    ensures
        r.deep_view() == log_values(*l),
{
    let r = vec![l.id.clone(), l.logtype.clone(), decimal_text(l.timestamp), l.content.clone()];
    assert(r.deep_view() =~= log_values(*l));
    r
}

/// A log written to a row is read back unchanged.
pub proof fn law_log_row_round_trip(l: Log, row: Map<Seq<char>, String>)
    requires
        row_holds(row, log_columns(), log_values(l)),
    ensures
        log_of_row(row) matches Some(v) && v.id@ == l.id@ && v.logtype@ == l.logtype@
            && v.timestamp == l.timestamp && v.content@ == l.content@,
{
    let c = log_columns();
    assert(row.contains_key(c[0]) && row.contains_key(c[1]) && row.contains_key(c[2])
        && row.contains_key(c[3]));
    crate::number::law_parse_decimal_text(l.timestamp);
}

/// The columns of the pastes table, in order.
pub open spec fn paste_columns() -> Seq<Seq<char>> {
    seq![
        "custom_url"@,
        "id"@,
        "group_name"@,
        "edit_password"@,
        "pub_date"@,
        "edit_date"@,
        "content"@,
        "content_html"@,
        "metadata"@,
    ]
}

/// The texts that a paste is written as, in the order of `paste_columns`: its edit
/// password as `password_hash` and its metadata as `metadata` (JSON text).
pub open spec fn paste_values(
    p: Paste<String>,
    password_hash: Seq<char>,
    metadata: Seq<char>,
) -> Seq<Seq<char>> {
    seq![
        p.custom_url@,
        p.id@,
        p.group_name@,
        password_hash,
        decimal_digits(p.pub_date as nat),
        decimal_digits(p.edit_date as nat),
        p.content@,
        p.content_html@,
        metadata,
    ]
}

/// The values that a new paste is inserted with.
pub fn paste_insert_values(p: &Paste<String>, password_hash: &String, metadata: &String) -> (r:
    Vec<String>)
    ensures
        r.deep_view() == paste_values(*p, password_hash@, metadata@),
{
    let r = vec![
        p.custom_url.clone(),
        p.id.clone(),
        p.group_name.clone(),
        password_hash.clone(),
        decimal_text(p.pub_date),
        decimal_text(p.edit_date),
        p.content.clone(),
        p.content_html.clone(),
        metadata.clone(),
    ];
    assert(r.deep_view() =~= paste_values(*p, password_hash@, metadata@));
    r
}

/// A paste written to a row is read back with the same fields, its edit password as
/// the hash and its metadata as the text it was written with.
pub proof fn law_paste_row_round_trip(
    p: Paste<String>,
    password_hash: Seq<char>,
    metadata: Seq<char>,
    views: usize,
    row: Map<Seq<char>, String>,
)
    requires
        row_holds(row, paste_columns(), paste_values(p, password_hash, metadata)),
    ensures
        paste_of_row(row, views) matches Some(v) && v.custom_url@ == p.custom_url@ && v.id@
            == p.id@ && v.group_name@ == p.group_name@ && v.edit_password@ == password_hash
            && v.pub_date == p.pub_date && v.edit_date == p.edit_date && v.content@ == p.content@
            && v.content_html@ == p.content_html@ && v.metadata@ == metadata && v.views == views,
{
    let c = paste_columns();
    assert(row.contains_key(c[0]) && row.contains_key(c[1]) && row.contains_key(c[2])
        && row.contains_key(c[3]) && row.contains_key(c[4]) && row.contains_key(c[5])
        && row.contains_key(c[6]) && row.contains_key(c[7]) && row.contains_key(c[8]));
    crate::number::law_parse_decimal_text(p.pub_date);
    crate::number::law_parse_decimal_text(p.edit_date);
}

// ---------------------------------------------------------------------------
// atomic pastes: a small file system kept as paste content

/// Whether paste content holds an atomic paste (it says `"_is_atomic":true`).
pub fn is_atomic_content(content: &str) -> (r: bool)
    ensures
        r == crate::text::contains(content@, "\"_is_atomic\":true"@),
{
    crate::text::contains_exec(content, "\"_is_atomic\":true")
}

/// `i` is the first place in `files` of a file at `path`.
pub open spec fn first_at(files: Seq<AtomicPasteFSFile>, path: Seq<char>, i: int) -> bool {
    &&& 0 <= i < files.len()
    &&& files[i].path@ == path
    &&& forall|j: int| 0 <= j < i ==> #[trigger] files[j].path@ != path
}

/// Some file in `files` is at `path`.
pub open spec fn has_path(files: Seq<AtomicPasteFSFile>, path: Seq<char>) -> bool {
    exists|i: int| 0 <= i < files.len() && #[trigger] files[i].path@ == path
}

/// The first place of a file at `path` (meaningful where there is one).
pub open spec fn first_index(files: Seq<AtomicPasteFSFile>, path: Seq<char>) -> int {
    choose|i: int| first_at(files, path, i)
}

/// The file that a lookup of `path` finds: the first one at that path.
pub open spec fn file_at(files: Seq<AtomicPasteFSFile>, path: Seq<char>) -> Option<
    AtomicPasteFSFile,
> {
    if has_path(files, path) {
        Some(files[first_index(files, path)])
    } else {
        None
    }
}

/// The files after `f` is saved: the first file at its path (where there is one) is
/// taken out, and `f` is put last.
pub open spec fn upserted(files: Seq<AtomicPasteFSFile>, f: AtomicPasteFSFile) -> Seq<
    AtomicPasteFSFile,
> {
    (if has_path(files, f.path@) {
        files.remove(first_index(files, f.path@))
    } else {
        files
    }).push(f)
}

/// No two files of `files` are at the same path.
pub open spec fn paths_distinct(files: Seq<AtomicPasteFSFile>) -> bool {
    forall|i: int, j: int|
        0 <= i < j < files.len() ==> #[trigger] files[i].path@ != #[trigger] files[j].path@
}

proof fn lemma_first_exists(files: Seq<AtomicPasteFSFile>, path: Seq<char>, k: int)
    requires
        0 <= k < files.len(),
        files[k].path@ == path,
    ensures
        first_at(files, path, first_index(files, path)),
        first_index(files, path) <= k,
    decreases k,
{
    if exists|j: int| 0 <= j < k && #[trigger] files[j].path@ == path {
        let j = choose|j: int| 0 <= j < k && #[trigger] files[j].path@ == path;
        lemma_first_exists(files, path, j);
    } else {
        assert(first_at(files, path, k));
        let i = first_index(files, path);
        if i != k {
            if i < k {
                assert(files[i].path@ == path);
            } else {
                assert(files[k].path@ != path);
            }
        }
    }
}

proof fn lemma_file_at(files: Seq<AtomicPasteFSFile>, path: Seq<char>)
    ensures
        has_path(files, path) ==> first_at(files, path, first_index(files, path)),
        has_path(files, path) ==> file_at(files, path) == Some(files[first_index(files, path)]),
        !has_path(files, path) ==> file_at(files, path) is None,
{
    if has_path(files, path) {
        let k = choose|i: int| 0 <= i < files.len() && #[trigger] files[i].path@ == path;
        lemma_first_exists(files, path, k);
    }
}

proof fn lemma_first_unique(files: Seq<AtomicPasteFSFile>, path: Seq<char>, i: int, j: int)
    requires
        first_at(files, path, i),
        first_at(files, path, j),
    ensures
        i == j,
{
    if i < j {
        assert(files[i].path@ != path);
    } else if j < i {
        assert(files[j].path@ != path);
    }
}

/// The place in `files` of the first file at `path`, if there is one.
pub fn find_file(files: &Vec<AtomicPasteFSFile>, path: &String) -> (r: Option<usize>)
    ensures
        match r {
            Some(i) => first_at(files@, path@, i as int) && i as int == first_index(files@, path@),
            None => !has_path(files@, path@),
        },
{
    let mut i: usize = 0;
    while i < files.len()
        invariant
            i <= files.len(),
            forall|j: int| 0 <= j < i ==> #[trigger] files@[j].path@ != path@,
        decreases files.len() - i,
    {
        if files[i].path.eq(path) {
            proof {
                lemma_file_at(files@, path@);
                lemma_first_unique(files@, path@, i as int, first_index(files@, path@));
            }
            return Some(i);
        }
        i += 1;
    }
    None
}

/// Saves a file in an atomic paste: a file already at its path is replaced, and the
/// saved file comes last.
pub fn upsert_file(paste: &mut AtomicPaste, path: String, content: String)
    ensures
        final(paste).files@ == upserted(old(paste).files@, AtomicPasteFSFile { path, content }),
        final(paste)._is_atomic == old(paste)._is_atomic,
{
    proof {
        lemma_file_at(paste.files@, path@);
    }
    match find_file(&paste.files, &path) {
        Some(i) => {
            let _ = paste.files.remove(i);
        },
        None => {},
    }
    paste.files.push(AtomicPasteFSFile { path, content });
}

/// The file that the editor opens at `path`: the one saved there, or a new page.
pub fn file_or_blank(files: &Vec<AtomicPasteFSFile>, path: &String) -> (r: AtomicPasteFSFile)
    ensures
        match file_at(files@, path@) {
            Some(f) => r.path == f.path && r.content == f.content,
            None => r.path == path && r.content@ == "<!-- New HTML Page -->"@,
        },
{
    proof {
        lemma_file_at(files@, path@);
    }
    match find_file(files, path) {
        Some(i) => AtomicPasteFSFile {
            path: files[i].path.clone(),
            content: files[i].content.clone(),
        },
        None => AtomicPasteFSFile {
            path: path.clone(),
            content: String::from_str("<!-- New HTML Page -->"),
        },
    }
}

/// Saving a file keeps the paths of an atomic paste distinct.
pub proof fn law_upsert_keeps_paths_distinct(files: Seq<AtomicPasteFSFile>, f: AtomicPasteFSFile)
    requires
        paths_distinct(files),
    ensures
        paths_distinct(upserted(files, f)),
{
    lemma_file_at(files, f.path@);
    let g = if has_path(files, f.path@) {
        files.remove(first_index(files, f.path@))
    } else {
        files
    };
    assert forall|i: int| 0 <= i < g.len() implies #[trigger] g[i].path@ != f.path@ by {
        if has_path(files, f.path@) {
            let k = first_index(files, f.path@);
            let oi = if i < k {
                i
            } else {
                i + 1
            };
            assert(g[i] == files[oi]);
            assert(files[k].path@ == f.path@);
            if oi < k {
                assert(files[oi].path@ != files[k].path@);
            } else {
                assert(files[k].path@ != files[oi].path@);
            }
        } else {
            assert(files[i].path@ != f.path@);
        }
    }
    assert(paths_distinct(g)) by {
        assert forall|i: int, j: int| 0 <= i < j < g.len() implies #[trigger] g[i].path@
            != #[trigger] g[j].path@ by {
            if has_path(files, f.path@) {
                let k = first_index(files, f.path@);
                let oi = if i < k {
                    i
                } else {
                    i + 1
                };
                let oj = if j < k {
                    j
                } else {
                    j + 1
                };
                assert(g[i] == files[oi] && g[j] == files[oj]);
                assert(files[oi].path@ != files[oj].path@);
            } else {
                assert(files[i].path@ != files[j].path@);
            }
        }
    }
    let h = upserted(files, f);
    assert(h == g.push(f));
    assert forall|i: int, j: int| 0 <= i < j < h.len() implies #[trigger] h[i].path@
        != #[trigger] h[j].path@ by {
        if j == g.len() {
            assert(h[i] == g[i]);
            assert(g[i].path@ != f.path@);
        } else {
            assert(h[i] == g[i] && h[j] == g[j]);
            assert(g[i].path@ != g[j].path@);
        }
    }
}

/// What a lookup finds at the path of a file just saved is that file, where paths are
/// distinct: an atomic paste gives back what was written to it.
pub proof fn law_read_after_upsert(files: Seq<AtomicPasteFSFile>, f: AtomicPasteFSFile)
    requires
        paths_distinct(files),
    ensures
        file_at(upserted(files, f), f.path@) == Some(f),
{
    law_upsert_keeps_paths_distinct(files, f);
    let h = upserted(files, f);
    let n = h.len() - 1;
    assert(h[n] == f);
    lemma_first_exists(h, f.path@, n);
    lemma_file_at(h, f.path@);
    let i = first_index(h, f.path@);
    if i < n {
        assert(h[i].path@ != h[n].path@);
    }
}

/// Saving a file leaves what a lookup finds at every other path as it was.
pub proof fn law_upsert_keeps_others(
    files: Seq<AtomicPasteFSFile>,
    f: AtomicPasteFSFile,
    other: Seq<char>,
)
    requires
        other != f.path@,
    ensures
        file_at(upserted(files, f), other) == file_at(files, other),
{
    lemma_file_at(files, f.path@);
    lemma_file_at(files, other);
    let g = if has_path(files, f.path@) {
        files.remove(first_index(files, f.path@))
    } else {
        files
    };
    let h = upserted(files, f);
    assert(h == g.push(f));
    lemma_file_at(h, other);
    // map places of g to places of files
    let k = if has_path(files, f.path@) {
        first_index(files, f.path@)
    } else {
        files.len() as int
    };
    assert forall|i: int| 0 <= i < g.len() implies #[trigger] g[i] == files[if i < k {
        i
    } else {
        i + 1
    }] by {}
    if has_path(files, other) {
        let o = first_index(files, other);
        assert(o != k) by {
            if o == k {
                assert(files[o].path@ == other);
            }
        }
        let og = if o < k {
            o
        } else {
            o - 1
        };
        assert(g[og] == files[o]);
        assert(h[og] == files[o]);
        assert(first_at(h, other, og)) by {
            assert forall|j: int| 0 <= j < og implies #[trigger] h[j].path@ != other by {
                let oj = if j < k {
                    j
                } else {
                    j + 1
                };
                assert(h[j] == files[oj]);
                assert(oj < o);
            }
        }
        lemma_first_unique(h, other, og, first_index(h, other));
    } else {
        assert(!has_path(h, other)) by {
            if has_path(h, other) {
                let j = choose|j: int| 0 <= j < h.len() && #[trigger] h[j].path@ == other;
                if j < g.len() {
                    let oj = if j < k {
                        j
                    } else {
                        j + 1
                    };
                    assert(h[j] == files[oj]);
                }
            }
        }
    }
}

// ---------------------------------------------------------------------------
// the paste and user caches

/// A copy of a paste.
pub fn copy_paste(p: &Paste<String>) -> (r: Paste<String>)
    ensures
        r == *p,
{
    Paste {
        custom_url: p.custom_url.clone(),
        id: p.id.clone(),
        group_name: p.group_name.clone(),
        edit_password: p.edit_password.clone(),
        pub_date: p.pub_date,
        edit_date: p.edit_date,
        content: p.content.clone(),
        content_html: p.content_html.clone(),
        metadata: p.metadata.clone(),
        views: p.views,
    }
}

/// What a paste lookup by `selector` finds in the cache: the cached paste, where the
/// cache is on, the lookup may use it (lookups by url) and it holds the selector.
pub open spec fn cached(
    cache: Map<Seq<char>, Paste<String>>,
    selector: Seq<char>,
    allow_cache: bool,
    enabled: bool,
) -> Option<Paste<String>> {
    if enabled && allow_cache && cache.contains_key(selector) {
        Some(cache[selector])
    } else {
        None
    }
}

/// Looks a paste up in the paste cache (the caller then counts its views afresh).
pub fn cached_paste(
    cache: &CacheStore<Paste<String>>,
    selector: &str,
    allow_cache: bool,
    enabled: bool,
) -> (r: Option<Paste<String>>)
    ensures
        r == cached(cache@, selector@, allow_cache, enabled),
{
    if !(enabled && allow_cache) {
        return None;
    }
    match cache.load(selector) {
        Some(p) => Some(copy_paste(p)),
        None => None,
    }
}

/// The cache after a paste read from the database is kept in it, under its url.
pub open spec fn remembered(
    cache: Map<Seq<char>, Paste<String>>,
    p: Paste<String>,
    allow_cache: bool,
    enabled: bool,
) -> Map<Seq<char>, Paste<String>> {
    if allow_cache && enabled {
        cache.insert(p.custom_url@, p)
    } else {
        cache
    }
}

/// Keeps a paste read from the database in the cache, under its url.
pub fn remember_paste(
    cache: &mut CacheStore<Paste<String>>,
    paste: &Paste<String>,
    allow_cache: bool,
    enabled: bool,
)
    ensures
        final(cache)@ == remembered(old(cache)@, *paste, allow_cache, enabled),
{
    if allow_cache && enabled {
        let _ = cache.store(paste.custom_url.clone(), copy_paste(paste));
    }
}

/// The cache after a changed or deleted paste is dropped from it.
pub open spec fn forgotten(
    cache: Map<Seq<char>, Paste<String>>,
    url: Seq<char>,
    enabled: bool,
) -> Map<Seq<char>, Paste<String>> {
    if enabled {
        cache.remove(url)
    } else {
        cache
    }
}

/// Drops a changed or deleted paste from the cache.
pub fn forget_paste(cache: &mut CacheStore<Paste<String>>, url: &str, enabled: bool)
    ensures
        final(cache)@ == forgotten(old(cache)@, url@, enabled),
{
    if enabled {
        cache.clear(url);
    }
}

/// A paste kept in the cache is what the next lookup of its url finds there.
pub proof fn law_cached_after_remember(cache: Map<Seq<char>, Paste<String>>, p: Paste<String>)
    ensures
        cached(remembered(cache, p, true, true), p.custom_url@, true, true) == Some(p),
{
}

/// Once a paste is dropped from the cache, no lookup of its url finds it there: an
/// edit or a deletion is never hidden by a stale copy.
pub proof fn law_forgotten_not_cached(
    cache: Map<Seq<char>, Paste<String>>,
    url: Seq<char>,
    allow_cache: bool,
)
    ensures
        cached(forgotten(cache, url, true), url, allow_cache, true) is None,
{
}

/// Keeping one paste leaves the cached copies of the other urls as they were.
pub proof fn law_remember_keeps_others(
    cache: Map<Seq<char>, Paste<String>>,
    p: Paste<String>,
    other: Seq<char>,
    allow_cache: bool,
    enabled: bool,
)
    requires
        other != p.custom_url@,
    ensures
        cached(remembered(cache, p, allow_cache, enabled), other, true, true) == cached(
            cache,
            other,
            true,
            true,
        ),
{
}

/// The user that a lookup by hashed id finds in the caches. The lookup tests the
/// paste cache for the id and then reads the user cache, so it needs the user cache
/// to hold every id that the paste cache holds (else it would stop).
pub open spec fn cached_user_of(
    paste_cache: Map<Seq<char>, Paste<String>>,
    auth_cache: Map<Seq<char>, UserState>,
    hashed: Seq<char>,
    enabled: bool,
) -> Option<UserState> {
    if enabled && paste_cache.contains_key(hashed) {
        Some(auth_cache[hashed])
    } else {
        None
    }
}

/// A copy of a user.
pub fn copy_user(u: &UserState) -> (r: UserState)
    ensures
        r == *u,
{
    UserState {
        username: u.username.clone(),
        id_hashed: u.id_hashed.clone(),
        role: u.role.clone(),
        timestamp: u.timestamp,
    }
}

/// Looks a user up by hashed id in the caches.
pub fn cached_user(
    paste_cache: &CacheStore<Paste<String>>,
    auth_cache: &CacheStore<UserState>,
    hashed: &str,
    enabled: bool,
) -> (r: Option<UserState>)
    requires
        enabled && paste_cache@.contains_key(hashed@) ==> auth_cache@.contains_key(hashed@),
    ensures
        r == cached_user_of(paste_cache@, auth_cache@, hashed@, enabled),
{
    if enabled && paste_cache.load(hashed).is_some() {
        match auth_cache.load(hashed) {
            Some(u) => Some(copy_user(u)),
            None => None,
        }
    } else {
        None
    }
}

/// Keeps a user read from the database in the user cache, under its hashed id.
pub fn remember_user(auth_cache: &mut CacheStore<UserState>, user: &UserState, enabled: bool)
    ensures
        final(auth_cache)@ == (if enabled {
            old(auth_cache)@.insert(user.id_hashed@, *user)
        } else {
            old(auth_cache)@
        }),
{
    if enabled {
        let _ = auth_cache.store(user.id_hashed.clone(), copy_user(user));
    }
}

// ---------------------------------------------------------------------------
// names

/// The pattern of the characters a paste url, a username or a board name may hold.
pub open spec fn name_pattern() -> Seq<char> {
    "^[\\w\\_\\-\\.\\!]+$"@
}

/// Whether the name pattern finds a match in `name` (a line of word characters, `_`,
/// `-`, `.` and `!`); `None` where the pattern does not compile.
pub open spec fn name_chars_match(name: Seq<char>) -> Option<bool> {
    match regex_captures(name_pattern(), true, false, Seq::empty(), name) {
        Some(rows) => Some(rows.len() > 0),
        None => None,
    }
}

/// `name` holds only the characters a name may hold (the pattern, which is fixed,
/// compiles and finds a match).
pub open spec fn name_chars_ok(name: Seq<char>) -> bool {
    name_chars_match(name) == Some(true)
}

/// Whether `name` holds only the characters a name may hold.
pub fn name_chars_allowed(name: &str) -> (r: bool)
    ensures
        r == name_chars_ok(name@),
{
    let groups: Vec<String> = Vec::new();
    assert(groups.deep_view() =~= Seq::<Seq<char>>::empty());
    match captures_all("^[\\w\\_\\-\\.\\!]+$", true, false, &groups, name) {
        Some(rows) => rows.len() > 0,
        None => false,
    }
}

// ---------------------------------------------------------------------------
// users

/// Checks the username of a new user: only allowed characters, and 2 to 500 bytes.
pub fn check_new_username(username: &str) -> (r: Result<(), String>)
    ensures
        r is Ok <==> name_chars_ok(username@) && 2 <= username.len() <= 500,
        r matches Err(m) ==> m@ == "Username is invalid"@,
{
    if !name_chars_allowed(username) || username.len() < 2 || username.len() > 500 {
        return Err(String::from_str("Username is invalid"));
    }
    Ok(())
}

/// A new user named `username`, created at `now`, with the role `member`, and the
/// unhashed id that it logs in with: a new random UUID, whose hash is the user's
/// public id.
pub fn new_user(username: String, now: u128) -> (r: (String, UserState))
    ensures
        is_uuid_v4_text(r.0@),
        r.1.id_hashed@ == hex_lower(sha256(encode_utf8(r.0@))),
        r.1.username == username,
        r.1.role@ == "member"@,
        r.1.timestamp == now,
{
    let unhashed = uuid();
    let id_hashed = hash(unhashed.clone());
    let timestamp = now;
    (unhashed, UserState { username, id_hashed, role: String::from_str("member"), timestamp })
}

// ---------------------------------------------------------------------------
// creating a paste

/// The metadata that a new paste created as `as_user` gets.
pub open spec fn new_metadata_of(m: PasteMetadata, as_user: Option<String>) -> bool {
    &&& m.owner@ == (match as_user {
        Some(u) => u@,
        None => Seq::<char>::empty(),
    })
    &&& m.private_source@ == "off"@
    &&& m.title matches Some(t) && t@ == Seq::<char>::empty()
    &&& m.description matches Some(d) && d@ == Seq::<char>::empty()
    &&& m.favicon is None
    &&& m.embed_color matches Some(c) && c@ == "#ff9999"@
    &&& m.view_password is None
}

/// Why a new paste is refused, given the byte lengths of its url, group name and
/// content and whether its url holds only allowed characters; `None` where it passes.
pub open spec fn paste_refusal(
    url_bytes: int,
    group_bytes: int,
    content_bytes: int,
    chars_ok: bool,
) -> Option<Seq<char>> {
    if url_bytes < 2 || url_bytes > 500 {
        Some("Custom URL is invalid"@)
    } else if group_bytes != 0 && (group_bytes < 2 || group_bytes > 500) {
        Some("Group Name is invalid"@)
    } else if content_bytes < 1 || content_bytes > 400_000 {
        Some("Content is invalid"@)
    } else if !chars_ok {
        Some("Custom URL is invalid"@)
    } else {
        None
    }
}

/// Makes a new paste ready to be stored: fills in an empty url or edit password, checks
/// the lengths of its url (2 to 500 bytes), group name (none, or 2 to 500 bytes) and
/// content (1 to 400 000 bytes) and the characters of its url, and gives the metadata
/// that it is stored with, or the message that refuses it.
pub fn prepare_paste(p: &mut Paste<String>, as_user: Option<String>) -> (r: Result<
    PasteMetadata,
    String,
>)
    ensures
        filled(old(p).custom_url@, final(p).custom_url@),
        filled(old(p).edit_password@, final(p).edit_password@),
        final(p).id == old(p).id && final(p).group_name == old(p).group_name && final(p).pub_date
            == old(p).pub_date && final(p).edit_date == old(p).edit_date && final(p).content
            == old(p).content && final(p).content_html == old(p).content_html
            && final(p).metadata == old(p).metadata && final(p).views == old(p).views,
        match paste_refusal(
            byte_len(final(p).custom_url@) as int,
            byte_len(final(p).group_name@) as int,
            byte_len(final(p).content@) as int,
            name_chars_ok(final(p).custom_url@),
        ) {
            Some(m) => r matches Err(e) && e@ == m,
            None => r matches Ok(meta) && new_metadata_of(meta, as_user),
        },
{
    let metadata = PasteMetadata {
        owner: match &as_user {
            Some(u) => u.clone(),
            None => String::new(),
        },
        private_source: String::from_str("off"),
        title: Some(String::new()),
        description: Some(String::new()),
        favicon: None,
        embed_color: Some(String::from_str("#ff9999")),
        view_password: None,
    };
    if p.custom_url.as_str().is_empty() {
        p.custom_url = short_random_id();
    }
    if p.edit_password.as_str().is_empty() {
        p.edit_password = short_random_id();
    }
    let url_bytes = p.custom_url.as_str().len();
    let group_bytes = p.group_name.as_str().len();
    let content_bytes = p.content.as_str().len();
    if url_bytes < 2 || url_bytes > 500 {
        return Err(String::from_str("Custom URL is invalid"));
    }
    if group_bytes != 0 && (group_bytes < 2 || group_bytes > 500) {
        return Err(String::from_str("Group Name is invalid"));
    }
    if content_bytes < 1 || content_bytes > 400_000 {
        return Err(String::from_str("Content is invalid"));
    }
    if !name_chars_allowed(p.custom_url.as_str()) {
        return Err(String::from_str("Custom URL is invalid"));
    }
    Ok(metadata)
}

/// The group that a paste creates when its group does not exist yet: it has the
/// paste's group name, the paste's edit password as its submit password, and the
/// paste's owner.
pub fn first_paste_group(p: &Paste<String>, metadata: &PasteMetadata) -> (g: Group<GroupMetadata>)
    ensures
        g.name == p.group_name,
        g.submit_password == p.edit_password,
        g.metadata.owner == metadata.owner,
{
    Group {
        name: p.group_name.clone(),
        submit_password: p.edit_password.clone(),
        metadata: GroupMetadata { owner: metadata.owner.clone() },
    }
}

/// The paste that a create request makes: its url and content trimmed, no group where
/// none is named, its content rendered from Markdown, both dates `now`, no id or
/// metadata yet (they are filled in when it is stored), and no views.
pub fn paste_from_request(
    custom_url: &str,
    edit_password: String,
    content: &str,
    group_name: Option<String>,
    now: u128,
) -> (r: Paste<String>)
    ensures
        r.custom_url@ == crate::text::trim(custom_url@),
        r.id@ == Seq::<char>::empty(),
        r.edit_password == edit_password,
        r.content@ == crate::text::trim(content@),
        r.content_html@ == rendered_markdown(crate::text::trim(content@)),
        r.pub_date == now && r.edit_date == now,
        r.group_name@ == (match group_name {
            Some(g) => g@,
            None => Seq::<char>::empty(),
        }),
        r.metadata@ == Seq::<char>::empty(),
        r.views == 0,
{
    let body = crate::text::trim_exec(content);
    let content_html = parse_markdown(body.clone());
    Paste {
        custom_url: crate::text::trim_exec(custom_url),
        id: String::new(),
        group_name: match group_name {
            Some(g) => g,
            None => String::new(),
        },
        edit_password,
        pub_date: now,
        edit_date: now,
        content: body,
        content_html,
        metadata: String::new(),
        views: 0,
    }
}

/// Whether a paste may be created: with an account, or without one where the server
/// does not require one (its `AUTH_REQUIRED` setting is unset).
pub fn create_allowed(has_account: bool, auth_required: &Option<String>) -> (r: bool)
    ensures
        r == (has_account || auth_required is None),
{
    has_account || auth_required.is_none()
}

/// Whether the API withholds a paste whose metadata is the JSON text `metadata`: its
/// source is private, or it has a view password.
pub fn metadata_hides_paste(metadata: &str) -> (r: bool)
    ensures
        r == (crate::text::contains(metadata@, "\"private_source\":\"on\","@)
            || crate::text::contains(metadata@, "\"view_password\":\""@)),
{
    crate::text::contains_exec(metadata, "\"private_source\":\"on\",")
        || crate::text::contains_exec(metadata, "\"view_password\":\"")
}

/// A paste's edit password opens it later: what is stored is its hash, and the
/// password checks compare against that hash.
pub proof fn law_stored_password_opens(password: Seq<char>)
    ensures
        password_matches(password, hex_lower(sha256(encode_utf8(password)))),
{
}

/// Checks that a paste created in an existing group has the group's submit password
/// as its edit password.
pub fn check_group_password(edit_password: &String, group: &Group<String>) -> (r: Result<(), String>)
    ensures
        r is Ok <==> password_matches(edit_password@, group.submit_password@),
        r matches Err(m) ==> m@
            == "The paste edit password must match the group submit password during creation."@,
{
    if !hash(edit_password.clone()).eq(&group.submit_password) {
        return Err(
            String::from_str(
                "The paste edit password must match the group submit password during creation.",
            ),
        );
    }
    Ok(())
}

/// A group as it is stored: its submit password hashed.
pub fn stored_group(props: &Group<GroupMetadata>) -> (g: Group<GroupMetadata>)
    ensures
        g.name == props.name,
        g.submit_password@ == hex_lower(sha256(encode_utf8(props.submit_password@))),
        g.metadata.owner == props.metadata.owner,
{
    Group {
        name: props.name.clone(),
        submit_password: hash(props.submit_password.clone()),
        metadata: GroupMetadata { owner: props.metadata.owner.clone() },
    }
}

/// Gives a paste about to be stored a new random id, and gives the values it is
/// inserted with: its edit password hashed and its metadata as the JSON text `metadata`.
pub fn new_paste_row(p: &mut Paste<String>, metadata: &String) -> (r: Vec<String>)
    ensures
        exists|u: Seq<char>|
            is_uuid_v4_text(u) && final(p).id@ == hex_lower(sha256(encode_utf8(u))),
        final(p).id@.len() == 64,
        final(p).custom_url == old(p).custom_url && final(p).group_name == old(p).group_name
            && final(p).edit_password == old(p).edit_password && final(p).pub_date
            == old(p).pub_date && final(p).edit_date == old(p).edit_date && final(p).content
            == old(p).content && final(p).content_html == old(p).content_html
            && final(p).metadata == old(p).metadata && final(p).views == old(p).views,
        r.deep_view() == paste_values(
            *final(p),
            hex_lower(sha256(encode_utf8(final(p).edit_password@))),
            metadata@,
        ),
{
    p.id = random_id();
    let password_hash = hash(p.edit_password.clone());
    paste_insert_values(p, &password_hash, metadata)
}

// ---------------------------------------------------------------------------
// the steps of a create request

/// The answer that refuses a create request with `message`.
pub open spec fn refused_with(a: DefaultReturn<Option<Paste<String>>>, message: Seq<char>) -> bool {
    !a.success && a.message@ == message && a.payload is None
}

/// What a create request does next. The request runs as a sequence of steps: each
/// step function takes what the previous action found and gives the next action.
pub enum CreateStep {
    /// Answer the request with this and stop.
    Answer(DefaultReturn<Option<Paste<String>>>),
    /// Look up the group that the paste names; then call `after_group_lookup`.
    LookupGroup { metadata: PasteMetadata },
    /// Create this group; then call `after_group_created`.
    CreateGroup { group: Group<GroupMetadata>, metadata: PasteMetadata },
    /// Look up whether a paste is stored under the paste's url (its metadata, as
    /// JSON text, is what it is stored with); then call `after_paste_lookup`.
    LookupPaste { metadata: PasteMetadata },
    /// Insert this row (the values of `paste`); then call `after_paste_insert`.
    Insert { paste: Paste<String>, values: Vec<String> },
}

/// The first step of creating `props` as `as_user`: fills in an empty url or edit
/// password and checks the paste (see `prepare_paste`); a refused paste is answered
/// with the refusal, a paste in a group looks its group up, any other looks its url up.
pub fn begin_paste_creation(props: &mut Paste<String>, as_user: Option<String>) -> (r: CreateStep)
    ensures
        filled(old(props).custom_url@, final(props).custom_url@),
        filled(old(props).edit_password@, final(props).edit_password@),
        final(props).id == old(props).id && final(props).group_name == old(props).group_name
            && final(props).pub_date == old(props).pub_date && final(props).edit_date == old(
            props,
        ).edit_date && final(props).content == old(props).content && final(props).content_html
            == old(props).content_html && final(props).metadata == old(props).metadata
            && final(props).views == old(props).views,
        match paste_refusal(
            byte_len(final(props).custom_url@) as int,
            byte_len(final(props).group_name@) as int,
            byte_len(final(props).content@) as int,
            name_chars_ok(final(props).custom_url@),
        ) {
            Some(m) => r matches CreateStep::Answer(a) && refused_with(a, m),
            None => if final(props).group_name@.len() == 0 {
                r matches CreateStep::LookupPaste { metadata } && new_metadata_of(
                    metadata,
                    as_user,
                )
            } else {
                r matches CreateStep::LookupGroup { metadata } && new_metadata_of(
                    metadata,
                    as_user,
                )
            },
        },
{
    match prepare_paste(props, as_user) {
        Err(m) => CreateStep::Answer(DefaultReturn { success: false, message: m, payload: None }),
        Ok(metadata) => {
            if props.group_name.as_str().is_empty() {
                CreateStep::LookupPaste { metadata }
            } else {
                CreateStep::LookupGroup { metadata }
            }
        },
    }
}

/// The step after the paste's group was looked up (`found`). A missing group is
/// created (see `first_paste_group`); a group whose submit password the paste's
/// edit password does not open refuses the paste; otherwise the paste's url becomes
/// `group/url` and that url is looked up.
pub fn after_group_lookup(
    props: &mut Paste<String>,
    metadata: PasteMetadata,
    found: Option<Group<String>>,
) -> (r: CreateStep)
    ensures
        match found {
            None => {
                &&& *final(props) == *old(props)
                &&& r matches CreateStep::CreateGroup { group, metadata: m }
                &&& m == metadata && group.name == old(props).group_name && group.submit_password
                    == old(props).edit_password && group.metadata.owner == metadata.owner
            },
            Some(g) => if password_matches(old(props).edit_password@, g.submit_password@) {
                &&& final(props).custom_url@ == old(props).group_name@ + "/"@ + old(
                    props,
                ).custom_url@
                &&& final(props).id == old(props).id && final(props).group_name == old(
                    props,
                ).group_name && final(props).edit_password == old(props).edit_password
                    && final(props).pub_date == old(props).pub_date && final(props).edit_date
                    == old(props).edit_date && final(props).content == old(props).content
                    && final(props).content_html == old(props).content_html
                    && final(props).metadata == old(props).metadata && final(props).views
                    == old(props).views
                &&& r matches CreateStep::LookupPaste { metadata: m } && m == metadata
            } else {
                &&& *final(props) == *old(props)
                &&& r matches CreateStep::Answer(a)
                &&& refused_with(
                    a,
                    "The paste edit password must match the group submit password during creation."@,
                )
            },
        },
{
    match found {
        None => {
            let group = first_paste_group(props, &metadata);
            CreateStep::CreateGroup { group, metadata }
        },
        Some(g) => match check_group_password(&props.edit_password, &g) {
            Err(m) => CreateStep::Answer(
                DefaultReturn { success: false, message: m, payload: None },
            ),
            Ok(()) => {
                props.custom_url = crate::db::grouped_url(
                    props.group_name.as_str(),
                    props.custom_url.as_str(),
                );
                CreateStep::LookupPaste { metadata }
            },
        },
    }
}

/// The step after the paste's group was created (`created`: `Err` holds the message
/// that refused it): a refusal answers the request with its message; otherwise the
/// paste's url becomes `group/url` and that url is looked up.
pub fn after_group_created(
    props: &mut Paste<String>,
    metadata: PasteMetadata,
    created: Result<(), String>,
) -> (r: CreateStep)
    ensures
        match created {
            Err(m) => {
                &&& *final(props) == *old(props)
                &&& r matches CreateStep::Answer(a)
                &&& refused_with(a, m@)
            },
            Ok(()) => {
                &&& final(props).custom_url@ == old(props).group_name@ + "/"@ + old(
                    props,
                ).custom_url@
                &&& final(props).id == old(props).id && final(props).group_name == old(
                    props,
                ).group_name && final(props).edit_password == old(props).edit_password
                    && final(props).pub_date == old(props).pub_date && final(props).edit_date
                    == old(props).edit_date && final(props).content == old(props).content
                    && final(props).content_html == old(props).content_html
                    && final(props).metadata == old(props).metadata && final(props).views
                    == old(props).views
                &&& r matches CreateStep::LookupPaste { metadata: m } && m == metadata
            },
        },
{
    match created {
        Err(m) => CreateStep::Answer(DefaultReturn { success: false, message: m, payload: None }),
        Ok(()) => {
            props.custom_url = crate::db::grouped_url(
                props.group_name.as_str(),
                props.custom_url.as_str(),
            );
            CreateStep::LookupPaste { metadata }
        },
    }
}

/// The step after the paste's url was looked up (`taken`: a paste is stored there).
/// An url that is taken refuses the paste; otherwise the paste is inserted as a copy
/// of `props` with a new random id, its edit password hashed and its metadata as the
/// JSON text `metadata` (the caller's paste keeps its id).
pub fn after_paste_lookup(props: &Paste<String>, metadata: &String, taken: bool) -> (r: CreateStep)
    ensures
        if taken {
            r matches CreateStep::Answer(a) && refused_with(a, "Paste already exists!"@)
        } else {
            &&& r matches CreateStep::Insert { paste, values }
            &&& exists|u: Seq<char>|
                is_uuid_v4_text(u) && paste.id@ == hex_lower(sha256(encode_utf8(u)))
            &&& paste.id@.len() == 64
            &&& paste.custom_url == props.custom_url && paste.group_name == props.group_name
                && paste.edit_password == props.edit_password && paste.pub_date == props.pub_date
                && paste.edit_date == props.edit_date && paste.content == props.content
                && paste.content_html == props.content_html && paste.metadata == props.metadata
                && paste.views == props.views
            &&& values.deep_view() == paste_values(
                paste,
                hex_lower(sha256(encode_utf8(paste.edit_password@))),
                metadata@,
            )
        },
{
    if taken {
        return CreateStep::Answer(
            DefaultReturn {
                success: false,
                message: String::from_str("Paste already exists!"),
                payload: None,
            },
        );
    }
    let mut paste = copy_paste(props);
    let values = new_paste_row(&mut paste, metadata);
    CreateStep::Insert { paste, values }
}

/// The answer after the insert of `paste` (`inserted`: `Err` holds the message that
/// refused it): the refusal, or success with the paste's edit password (not hashed)
/// as the message and the paste as the payload.
pub fn after_paste_insert(paste: Paste<String>, inserted: Result<(), String>) -> (r: DefaultReturn<
    Option<Paste<String>>,
>)
    ensures
        match inserted {
            Err(m) => refused_with(r, m@),
            Ok(()) => r.success && r.message == paste.edit_password && r.payload == Some(paste),
        },
{
    match inserted {
        Err(m) => DefaultReturn { success: false, message: m, payload: None },
        Ok(()) => {
            let message = paste.edit_password.clone();
            DefaultReturn { success: true, message, payload: Some(paste) }
        },
    }
}

// ---------------------------------------------------------------------------
// editing and deleting a paste

/// Checks an edit of `paste` (owned by `owner`, as its metadata says) made with
/// `edit_password` as `edit_as`: the owner needs no password, anyone else needs the
/// paste's edit password.
pub fn check_edit_password(
    paste: &Paste<String>,
    owner: &String,
    edit_password: String,
    edit_as: &Option<String>,
) -> (r: Result<(), String>)
    ensures
        r is Ok <==> (edit_as.deep_view() == Some(owner@)) || password_matches(
            edit_password@,
            paste.edit_password@,
        ),
        r matches Err(m) ==> m@ == "Password invalid"@,
{
    let skip = match edit_as {
        Some(u) => u.eq(owner),
        None => false,
    };
    if !skip && !hash(edit_password).eq(&paste.edit_password) {
        return Err(String::from_str("Password invalid"));
    }
    Ok(())
}

/// Checks that `paste` (owned by `owner`) may have its metadata edited or be deleted
/// with `edit_password` as `as_user`, whose account has the role `as_role` where it
/// was found: the owner and staff need no password.
pub fn check_manage_password(
    paste: &Paste<String>,
    owner: &String,
    edit_password: String,
    as_user: &Option<String>,
    as_role: &Option<String>,
) -> (r: Result<(), String>)
    ensures
        r is Ok <==> (as_user.deep_view() == Some(owner@)) || (as_role.deep_view() == Some(
            "staff"@,
        )) || password_matches(edit_password@, paste.edit_password@),
        r matches Err(m) ==> m@ == "Password invalid"@,
{
    let staff = String::from_str("staff");
    let skip = match as_user {
        Some(u) => u.eq(owner),
        None => false,
    } || match as_role {
        Some(role) => role.eq(&staff),
        None => false,
    };
    if !skip && !hash(edit_password).eq(&paste.edit_password) {
        return Err(String::from_str("Password invalid"));
    }
    Ok(())
}

/// The edit password (hashed) and the url that an edited paste is stored with: the new
/// ones where given, else the paste's own.
pub fn edited_fields(
    paste: &Paste<String>,
    new_url: &Option<String>,
    new_edit_password: Option<String>,
) -> (r: (String, String))
    ensures
        r.0@ == (match new_edit_password {
            Some(pw) => hex_lower(sha256(encode_utf8(pw@))),
            None => paste.edit_password@,
        }),
        r.1@ == (match new_url {
            Some(u) => u@,
            None => paste.custom_url@,
        }),
{
    let password_hash = match new_edit_password {
        Some(pw) => hash(pw),
        None => paste.edit_password.clone(),
    };
    let url = match new_url {
        Some(u) => u.clone(),
        None => paste.custom_url.clone(),
    };
    (password_hash, url)
}

// ---------------------------------------------------------------------------
// the steps of an edit or delete request

/// `a` answers a request with success, `message`, and `url` as its payload.
pub open spec fn succeeded_with(a: DefaultReturn<Option<String>>, message: Seq<char>, url: Seq<char>) -> bool {
    &&& a.success
    &&& a.message@ == message
    &&& a.payload matches Some(u)
    &&& u@ == url
}

/// `a` refuses a request with `message`.
pub open spec fn failed_with(a: DefaultReturn<Option<String>>, message: Seq<char>) -> bool {
    !a.success && a.message@ == message && a.payload is None
}

/// What an edit or delete request does next. The request runs as a sequence of
/// steps: each step function takes what the previous action found and gives the next
/// action.
pub enum PasteChange {
    /// Answer the request with this and stop.
    Answer(DefaultReturn<Option<String>>),
    /// Look up whether a paste is stored under the new url `url`; then call
    /// `after_edit_url_check`.
    CheckNewUrl { url: String },
    /// Look up the account `username`; then call `after_delete_user_lookup` with its role.
    LookupUser { username: String },
    /// Set the content, rendered content, edit password hash, custom url and edit
    /// date of the row whose url is the last value to the values before it; then call
    /// `after_paste_update`, and where it succeeds remove `forget` from the paste cache
    /// where there is one.
    Update { values: Vec<String>, custom_url: String, forget: Option<String> },
    /// Delete the row whose url is `url`, then the logs whose content is like
    /// `log_pattern`; then call `after_paste_delete`, and where it succeeds remove
    /// `forget` from the paste cache where there is one.
    Delete { url: String, log_pattern: String, forget: Option<String> },
}

fn failure(message: &str) -> (a: DefaultReturn<Option<String>>)
    ensures
        failed_with(a, message@),
{
    DefaultReturn { success: false, message: String::from_str(message), payload: None }
}

/// `r` stores an allowed edit `edit` of `paste` (stored under `edit.url`) at the time
/// `now`: the new content, rendered from Markdown, the new password hashed (the old
/// hash where none is given), the new url (the paste's own where none is given), and
/// `now`; the cache entry of the new url is removed where the cache is on.
pub open spec fn site_edit_stored(
    edit: crate::db::PasteEdit,
    paste: Paste<String>,
    cache: bool,
    now: u128,
    r: PasteChange,
) -> bool {
    let hash_after = match edit.new_edit_password {
        Some(pw) => hex_lower(sha256(encode_utf8(pw@))),
        None => paste.edit_password@,
    };
    let url_after = match edit.new_url {
        Some(u) => u@,
        None => paste.custom_url@,
    };
    &&& r matches PasteChange::Update { values, custom_url, forget }
    &&& values.deep_view() == seq![
        edit.content@,
        rendered_markdown(edit.content@),
        hash_after,
        url_after,
        decimal_digits(now as nat),
        edit.url@,
    ]
    &&& custom_url@ == url_after
    &&& if cache {
        forget matches Some(f) && f@ == url_after
    } else {
        forget is None
    }
}

fn site_edit_update(edit: &crate::db::PasteEdit, paste: &Paste<String>, cache: bool, now: u128) -> (r:
    PasteChange)
    ensures
        site_edit_stored(*edit, *paste, cache, now, r),
{
    let new_password = match &edit.new_edit_password {
        Some(pw) => Some(pw.clone()),
        None => None,
    };
    let (password_hash, custom_url) = edited_fields(paste, &edit.new_url, new_password);
    let html = parse_markdown(edit.content.clone());
    let values = vec![
        edit.content.clone(),
        html,
        password_hash,
        custom_url.clone(),
        decimal_text(now),
        edit.url.clone(),
    ];
    let forget = if cache {
        Some(custom_url.clone())
    } else {
        None
    };
    proof {
        assert(values.deep_view() =~= seq![
            values@[0]@,
            values@[1]@,
            values@[2]@,
            values@[3]@,
            values@[4]@,
            values@[5]@,
        ]);
    }
    PasteChange::Update { values, custom_url, forget }
}

/// The step of an edit after the paste at `edit.url` was looked up (`found`; its
/// metadata names `owner`), at the time `now`, with the paste cache on where `cache`.
/// A missing paste is answered "Paste does not exist!"; an edit that
/// `check_edit_password` refuses is answered "Password invalid"; an edit that changes
/// the url checks the new url first; any other is stored (see `site_edit_stored`).
pub fn after_edit_paste_found(
    edit: &crate::db::PasteEdit,
    found: &Option<Paste<String>>,
    owner: &String,
    cache: bool,
    now: u128,
) -> (r: PasteChange)
    ensures
        match found {
            None => r matches PasteChange::Answer(a) && failed_with(a, "Paste does not exist!"@),
            Some(paste) => if !(edit.edit_as.deep_view() == Some(owner@) || password_matches(
                edit.edit_password@,
                paste.edit_password@,
            )) {
                r matches PasteChange::Answer(a) && failed_with(a, "Password invalid"@)
            } else {
                match edit.new_url {
                    Some(n) => r matches PasteChange::CheckNewUrl { url } && url == n,
                    None => site_edit_stored(*edit, *paste, cache, now, r),
                }
            },
        },
{
    match found {
        None => PasteChange::Answer(failure("Paste does not exist!")),
        Some(paste) => {
            if check_edit_password(paste, owner, edit.edit_password.clone(), &edit.edit_as).is_err() {
                return PasteChange::Answer(failure("Password invalid"));
            }
            match &edit.new_url {
                Some(n) => PasteChange::CheckNewUrl { url: n.clone() },
                None => site_edit_update(edit, paste, cache, now),
            }
        },
    }
}

/// The step of an allowed edit of `paste` after its new url was looked up (`taken`:
/// a paste is stored there): a taken url is answered "A paste with this URL already
/// exists!"; otherwise the edit is stored (see `site_edit_stored`).
pub fn after_edit_url_check(
    edit: &crate::db::PasteEdit,
    paste: &Paste<String>,
    taken: bool,
    cache: bool,
    now: u128,
) -> (r: PasteChange)
    ensures
        taken ==> (r matches PasteChange::Answer(a) && failed_with(
            a,
            "A paste with this URL already exists!"@,
        )),
        !taken ==> site_edit_stored(*edit, *paste, cache, now, r),
{
    if taken {
        PasteChange::Answer(failure("A paste with this URL already exists!"))
    } else {
        site_edit_update(edit, paste, cache, now)
    }
}

/// The answer after the update of an edit (`updated`: `Err` holds the message that
/// refused it): the refusal, or "Paste updated!" with the paste's url after the edit.
pub fn after_paste_update(updated: Result<(), String>, custom_url: String) -> (r: DefaultReturn<
    Option<String>,
>)
    ensures
        match updated {
            Err(m) => failed_with(r, m@),
            Ok(()) => succeeded_with(r, "Paste updated!"@, custom_url@),
        },
{
    match updated {
        Err(m) => DefaultReturn { success: false, message: m, payload: None },
        Ok(()) => DefaultReturn {
            success: true,
            message: String::from_str("Paste updated!"),
            payload: Some(custom_url),
        },
    }
}

/// `r` deletes the paste at `url` where `password` (given as `delete_as`, whose
/// account has the role `role`) may: the owner and staff need no password, anyone
/// else the paste's edit password ("Password invalid" otherwise). The deletion
/// removes the paste, the logs whose content is like `<url>::%`, and, where the cache
/// is on, the cached paste.
pub open spec fn site_delete_decided(
    url: Seq<char>,
    paste: Paste<String>,
    owner: Seq<char>,
    password: Seq<char>,
    delete_as: Option<Seq<char>>,
    role: Option<Seq<char>>,
    cache: bool,
    r: PasteChange,
) -> bool {
    if delete_as == Some(owner) || role == Some("staff"@) || password_matches(
        password,
        paste.edit_password@,
    ) {
        &&& r matches PasteChange::Delete { url: u, log_pattern, forget }
        &&& u@ == url
        &&& log_pattern@ == url + "::%"@
        &&& if cache {
            forget matches Some(f) && f@ == url
        } else {
            forget is None
        }
    } else {
        r matches PasteChange::Answer(a) && failed_with(a, "Password invalid"@)
    }
}

fn site_delete_plan(
    url: &String,
    paste: &Paste<String>,
    owner: &String,
    password: String,
    delete_as: &Option<String>,
    role: &Option<String>,
    cache: bool,
) -> (r: PasteChange)
    ensures
        site_delete_decided(
            url@,
            *paste,
            owner@,
            password@,
            delete_as.deep_view(),
            role.deep_view(),
            cache,
            r,
        ),
{
    if check_manage_password(paste, owner, password, delete_as, role).is_err() {
        return PasteChange::Answer(failure("Password invalid"));
    }
    let mut pattern: Vec<char> = Vec::new();
    push_str(&mut pattern, url.as_str());
    push_str(&mut pattern, "::%");
    let forget = if cache {
        Some(url.clone())
    } else {
        None
    };
    PasteChange::Delete { url: url.clone(), log_pattern: string_of(&pattern), forget }
}

/// The step of a delete of the paste at `url` after it was looked up (`found`; its
/// metadata names `owner`), made with `password` as `delete_as`. A missing paste is
/// answered "Paste does not exist!"; a delete made as an account looks that account
/// up first; any other is decided at once (see `site_delete_decided`, with no role).
pub fn after_delete_paste_found(
    url: &String,
    found: &Option<Paste<String>>,
    owner: &String,
    password: String,
    delete_as: &Option<String>,
    cache: bool,
) -> (r: PasteChange)
    ensures
        match found {
            None => r matches PasteChange::Answer(a) && failed_with(a, "Paste does not exist!"@),
            Some(paste) => match delete_as {
                Some(u) => r matches PasteChange::LookupUser { username } && username == u,
                None => site_delete_decided(
                    url@,
                    *paste,
                    owner@,
                    password@,
                    None,
                    None,
                    cache,
                    r,
                ),
            },
        },
{
    match found {
        None => PasteChange::Answer(failure("Paste does not exist!")),
        Some(paste) => match delete_as {
            Some(u) => PasteChange::LookupUser { username: u.clone() },
            None => site_delete_plan(url, paste, owner, password, &None, &None, cache),
        },
    }
}

/// The step of a delete made as an account after that account was looked up (`role`:
/// its role, `None` where it was not found): decided as `site_delete_decided` says.
pub fn after_delete_user_lookup(
    url: &String,
    paste: &Paste<String>,
    owner: &String,
    password: String,
    delete_as: &Option<String>,
    role: &Option<String>,
    cache: bool,
) -> (r: PasteChange)
    ensures
        site_delete_decided(
            url@,
            *paste,
            owner@,
            password@,
            delete_as.deep_view(),
            role.deep_view(),
            cache,
            r,
        ),
{
    site_delete_plan(url, paste, owner, password, delete_as, role, cache)
}

/// The answer after a delete (`paste_deleted`: `Err` holds the message that refused
/// the delete of the paste; `logs_deleted`: the delete of its logs succeeded): the
/// refusal, "Failed to delete paste" where the logs stay, or "Paste deleted!" with
/// the url.
pub fn after_paste_delete(paste_deleted: Result<(), String>, logs_deleted: bool, url: String) -> (r:
    DefaultReturn<Option<String>>)
    ensures
        match paste_deleted {
            Err(m) => failed_with(r, m@),
            Ok(()) => if logs_deleted {
                succeeded_with(r, "Paste deleted!"@, url@)
            } else {
                failed_with(r, "Failed to delete paste"@)
            },
        },
{
    match paste_deleted {
        Err(m) => DefaultReturn { success: false, message: m, payload: None },
        Ok(()) => if logs_deleted {
            DefaultReturn {
                success: true,
                message: String::from_str("Paste deleted!"),
                payload: Some(url),
            }
        } else {
            failure("Failed to delete paste")
        },
    }
}

/// The content of the log that counts a view of the paste at `url` by `view_as`.
pub fn view_log_content(url: &str, view_as: &str) -> (r: String)
    ensures
        r@ == url@ + "::"@ + view_as@,
{
    let mut v: Vec<char> = Vec::new();
    push_str(&mut v, url);
    push_str(&mut v, "::");
    push_str(&mut v, view_as);
    string_of(&v)
}

// ---------------------------------------------------------------------------
// boards

/// The pattern that finds the posts of the board `name` by their log content.
pub fn board_filter(name: &str) -> (r: String)
    ensures
        r@ == "%\"board\":\""@ + name@ + "\"%"@,
{
    let mut v: Vec<char> = Vec::new();
    push_str(&mut v, "%\"board\":\"");
    push_str(&mut v, name);
    push_str(&mut v, "\"%");
    string_of(&v)
}

/// The pattern that finds the replies to the post `id` by their log content.
pub fn reply_filter(id: &str) -> (r: String)
    ensures
        r@ == "%\"reply\":\""@ + id@ + "\"%"@,
{
    let mut v: Vec<char> = Vec::new();
    push_str(&mut v, "%\"reply\":\"");
    push_str(&mut v, id);
    push_str(&mut v, "\"%");
    string_of(&v)
}

/// The number of posts a page of posts skips: the offset given, else none.
pub fn page_offset(offset: Option<i32>) -> (r: i32)
    ensures
        r == (match offset {
            Some(o) => o,
            None => 0,
        }),
{
    match offset {
        Some(o) => o,
        None => 0,
    }
}

/// The metadata that a new board created by `owner` gets: public, open to anonymous
/// and to open posting, with no welcome message.
pub fn new_board_metadata(owner: String) -> (m: BoardMetadata)
    ensures
        m.owner == owner,
        m.is_private@ == "no"@,
        m.allow_anonymous matches Some(a) && a@ == "yes"@,
        m.allow_open_posting matches Some(o) && o@ == "yes"@,
        m.about is None,
{
    BoardMetadata {
        owner,
        is_private: String::from_str("no"),
        allow_anonymous: Some(String::from_str("yes")),
        allow_open_posting: Some(String::from_str("yes")),
        about: None,
    }
}

/// Checks the name of a new board: 2 to 250 bytes, of allowed characters.
pub fn check_board_name(name: &str) -> (r: Result<(), String>)
    ensures
        r is Ok <==> 2 <= name.len() <= 250 && name_chars_ok(name@),
        r matches Err(m) ==> m@ == "Name is invalid"@,
{
    if name.len() < 2 || name.len() > 250 {
        return Err(String::from_str("Name is invalid"));
    }
    if !name_chars_allowed(name) {
        return Err(String::from_str("Name is invalid"));
    }
    Ok(())
}

/// Checks the content of a new board post: 2 to 200 000 bytes.
pub fn check_post_content(content: &str) -> (r: Result<(), String>)
    ensures
        r is Ok <==> 2 <= content.len() <= 200_000,
        r matches Err(m) ==> m@ == "Content is invalid"@,
{
    if content.len() < 2 || content.len() > 200_000 {
        return Err(String::from_str("Content is invalid"));
    }
    Ok(())
}

/// `o` is present and holds `t`.
pub open spec fn set_to(o: Option<Seq<char>>, t: Seq<char>) -> bool {
    o == Some(t)
}

/// Why a post by `as_user` (with role `as_role`) on a board with metadata `board` is
/// refused; `None` where it may be made.
pub open spec fn post_refusal(
    board: BoardMetadata,
    as_user: Option<Seq<char>>,
    as_role: Option<Seq<char>>,
) -> Option<Seq<char>> {
    if set_to(board.allow_anonymous.deep_view(), "no"@) && as_user is None {
        Some("An account is required to do this"@)
    } else if set_to(board.allow_open_posting.deep_view(), "no"@) && !(as_user is Some && (
    as_user == Some(board.owner@) || as_role == Some("staff"@))) {
        Some("You do not have permission to do this"@)
    } else {
        None
    }
}

fn set_to_exec(o: &Option<String>, t: &str) -> (r: bool)
    ensures
        r == set_to(o.deep_view(), t@),
{
    match o {
        Some(v) => {
            let w = String::from_str(t);
            v.eq(&w)
        },
        None => false,
    }
}

/// Checks that `as_user` (with role `as_role`) may post on a board with metadata
/// `board`: a board closed to anonymous posting needs an account, and one closed to
/// open posting needs its owner or staff. The role must be known wherever the board is
/// closed to open posting and the post is made with an account.
pub fn authorize_board_post(
    board: &BoardMetadata,
    as_user: &Option<String>,
    as_role: &Option<String>,
) -> (r: Result<(), String>)
    requires
        set_to(board.allow_open_posting.deep_view(), "no"@) && as_user is Some ==> as_role is Some,
    ensures
        match post_refusal(*board, as_user.deep_view(), as_role.deep_view()) {
            Some(m) => r matches Err(e) && e@ == m,
            None => r is Ok,
        },
{
    if set_to_exec(&board.allow_anonymous, "no") && as_user.is_none() {
        return Err(String::from_str("An account is required to do this"));
    }
    if set_to_exec(&board.allow_open_posting, "no") {
        let can_post = match as_user {
            Some(u) => {
                let is_owner = u.eq(&board.owner);
                let is_staff = match as_role {
                    Some(role) => {
                        let staff = String::from_str("staff");
                        role.eq(&staff)
                    },
                    None => false,
                };
                is_owner || is_staff
            },
            None => false,
        };
        if !can_post {
            return Err(String::from_str("You do not have permission to do this"));
        }
    }
    Ok(())
}

/// The post that is logged for a request `props` made as `as_user`: by `as_user`, or
/// `Anonymous` without an account; its content rendered from Markdown, not hidden, not
/// pinned, and with no count of replies.
pub fn new_board_post(props: &BoardPostLog, as_user: Option<String>) -> (r: BoardPostLog)
    ensures
        r.author@ == (match as_user {
            Some(u) => u@,
            None => "Anonymous"@,
        }),
        r.content == props.content,
        r.content_html@ == rendered_markdown(props.content@),
        r.board == props.board,
        !r.is_hidden,
        r.reply == props.reply,
        r.pinned == Some(false),
        r.replies is None,
{
    BoardPostLog {
        author: match as_user {
            Some(u) => u,
            None => String::from_str("Anonymous"),
        },
        content: props.content.clone(),
        content_html: parse_markdown(props.content.clone()),
        board: props.board.clone(),
        is_hidden: false,
        reply: match &props.reply {
            Some(x) => Some(x.clone()),
            None => None,
        },
        pinned: Some(false),
        replies: None,
    }
}

/// Whether `user` may change a board's metadata to `metadata`: it is the owner that
/// the metadata names, or staff.
pub fn can_edit_board(user: &UserState, metadata: &BoardMetadata) -> (r: bool)
    ensures
        r == (user.username@ == metadata.owner@ || user.role@ == "staff"@),
{
    let staff = String::from_str("staff");
    user.username.eq(&metadata.owner) || user.role.eq(&staff)
}

} // verus!
