//! Options of the paste store, and the rules that its requests follow.
use vstd::prelude::*;

use crate::bundlesdb::{number_column, text_column, DatabaseReturn};
use crate::number::parse_u128;
use super::model::{
    metadata_with_template, Paste, PasteClone, PasteCreate, PasteError, PasteMetadata,
    PublicPaste,
};
use crate::pattern::{captures_all, regex_captures};
use crate::text::{all_ascii, ascii_lowercase, ascii_lowercase_exec, byte_len, chars_of, string_of};
use crate::utility::{
    filled, hash, is_uuid_v4_text, random_id, sha256, short_random_id, unix_epoch_timestamp,
};
use crate::text::hex_lower;
use vstd::utf8::encode_utf8;

verus! {

/// How paste views are counted.
pub enum ViewMode {
    /// Only authenticated users can count as a paste view and only once
    AuthenticatedOnce,
    /// Anybody can count as a paste view multiple times;
    /// views are only stored in the cache when using this mode
    OpenMultiple,
}

/// The table that holds pastes: its name, caching prefix and column names.
pub struct PastesTableConfig {
    /// The name of the table
    pub table_name: String,
    /// The caching prefix associated with the table
    pub prefix: String,
    /// Mapping for the `id` column
    pub id: String,
    /// Mapping for the `url` column
    pub url: String,
    /// Mapping for the `password` column
    pub password: String,
    /// Mapping for the `content` column
    pub content: String,
    /// Mapping for the `date_published` column
    pub date_published: String,
    /// Mapping for the `date_edited` column
    pub date_edited: String,
    /// Mapping for the `metadata` column
    pub metadata: String,
}

/// The table that holds views: its name and caching prefix.
pub struct ViewsTableConfig {
    /// The name of the table
    pub table_name: String,
    /// The caching prefix associated with the table
    pub prefix: String,
}

/// The default pastes table: `pastes`, prefix `paste`, each column named as its field.
pub open spec fn is_default_pastes_table(c: PastesTableConfig) -> bool {
    &&& c.table_name@ == "pastes"@
    &&& c.prefix@ == "paste"@
    &&& c.id@ == "id"@
    &&& c.url@ == "url"@
    &&& c.password@ == "password"@
    &&& c.content@ == "content"@
    &&& c.date_published@ == "date_published"@
    &&& c.date_edited@ == "date_edited"@
    &&& c.metadata@ == "metadata"@
}

/// The default views table: `views`, prefix `views`.
pub open spec fn is_default_views_table(c: ViewsTableConfig) -> bool {
    c.table_name@ == "views"@ && c.prefix@ == "views"@
}

impl Default for PastesTableConfig {
    fn default() -> (r: Self)
        ensures
            is_default_pastes_table(r),
    {
        PastesTableConfig {
            table_name: String::from_str("pastes"),
            prefix: String::from_str("paste"),
            id: String::from_str("id"),
            url: String::from_str("url"),
            password: String::from_str("password"),
            content: String::from_str("content"),
            date_published: String::from_str("date_published"),
            date_edited: String::from_str("date_edited"),
            metadata: String::from_str("metadata"),
        }
    }
}

impl Default for ViewsTableConfig {
    fn default() -> (r: Self)
        ensures
            is_default_views_table(r),
    {
        ViewsTableConfig { table_name: String::from_str("views"), prefix: String::from_str("views") }
    }
}

/// The options of a paste store.
pub struct ServerOptions {
    /// If pastes can require a password to be viewed
    pub view_password: bool,
    /// If authentication through guppy is enabled
    pub guppy: bool,
    /// If pastes can have a owner username (guppy required)
    pub paste_ownership: bool,
    /// View mode options
    pub view_mode: ViewMode,
    /// Pastes table config
    pub table_pastes: PastesTableConfig,
    /// Views table config
    pub table_views: ViewsTableConfig,
}

impl ServerOptions {
    /// Enable all options
    pub fn truthy() -> (r: Self)
        ensures
            r.view_password && r.guppy && r.paste_ownership,
            r.view_mode is OpenMultiple,
            is_default_pastes_table(r.table_pastes),
            is_default_views_table(r.table_views),
    {
        ServerOptions {
            view_password: true,
            guppy: true,
            paste_ownership: true,
            view_mode: ViewMode::OpenMultiple,
            table_pastes: PastesTableConfig::default(),
            table_views: ViewsTableConfig::default(),
        }
    }
}

/// The options that the lightweight site runs its paste store with: view passwords
/// and paste ownership on, guppy sign-in and `AuthenticatedOnce` views where a guppy
/// root is set (`OpenMultiple` views otherwise), and its own table names: pastes in
/// `cr_pastes` (prefix `cr_paste`, url in `custom_url`, password in `edit_password`,
/// dates in `pub_date` and `edit_date`) and views in `cr_views` (prefix `cr_views`).
pub fn site_options(guppy_root_set: bool) -> (r: ServerOptions)
    ensures
        r.view_password && r.paste_ownership,
        r.guppy == guppy_root_set,
        guppy_root_set ==> r.view_mode is AuthenticatedOnce,
        !guppy_root_set ==> r.view_mode is OpenMultiple,
        r.table_pastes.table_name@ == "cr_pastes"@ && r.table_pastes.prefix@ == "cr_paste"@
            && r.table_pastes.id@ == "id"@ && r.table_pastes.url@ == "custom_url"@
            && r.table_pastes.password@ == "edit_password"@ && r.table_pastes.content@
            == "content"@ && r.table_pastes.date_published@ == "pub_date"@
            && r.table_pastes.date_edited@ == "edit_date"@ && r.table_pastes.metadata@
            == "metadata"@,
        r.table_views.table_name@ == "cr_views"@ && r.table_views.prefix@ == "cr_views"@,
{
    let defaults = PastesTableConfig::default();
    ServerOptions {
        view_password: true,
        guppy: guppy_root_set,
        paste_ownership: true,
        view_mode: if guppy_root_set {
            ViewMode::AuthenticatedOnce
        } else {
            ViewMode::OpenMultiple
        },
        table_pastes: PastesTableConfig {
            table_name: String::from_str("cr_pastes"),
            prefix: String::from_str("cr_paste"),
            id: defaults.id,
            url: String::from_str("custom_url"),
            password: String::from_str("edit_password"),
            content: String::from_str("content"),
            date_published: String::from_str("pub_date"),
            date_edited: String::from_str("edit_date"),
            metadata: defaults.metadata,
        },
        table_views: ViewsTableConfig {
            table_name: String::from_str("cr_views"),
            prefix: String::from_str("cr_views"),
        },
    }
}

impl Default for ServerOptions {
    /// Disable all options
    fn default() -> (r: Self)
        ensures
            !r.view_password && !r.guppy && !r.paste_ownership,
            r.view_mode is OpenMultiple,
            is_default_pastes_table(r.table_pastes),
            is_default_views_table(r.table_views),
    {
        ServerOptions {
            view_password: false,
            guppy: false,
            paste_ownership: false,
            view_mode: ViewMode::OpenMultiple,
            table_pastes: PastesTableConfig::default(),
            table_views: ViewsTableConfig::default(),
        }
    }
}

// ---------------------------------------------------------------------------
// paste urls

/// What `idna::punycode::encode_str` gives for `input`.
pub uninterp spec fn punycode_encode(input: Seq<char>) -> Option<Seq<char>>;

/// Runs `idna::punycode::encode_str`. As its source shows, the basic (ASCII) code
/// points are copied in order and followed by `-` when there is at least one, so an
/// all-ASCII input (of at most `u32::MAX` bytes) comes back with `-` appended (or
/// empty, when it was empty); and all that it writes is ASCII. The encoding of other
/// code points is left to the name `punycode_encode`.
#[verifier::external_body]
fn punycode_encode_str(input: &str) -> (r: Option<String>)
    ensures
        r.deep_view() == punycode_encode(input@),
        all_ascii(input@) && input@.len() <= u32::MAX ==> r.deep_view() == Some(
            if input@.len() == 0 {
                Seq::<char>::empty()
            } else {
                input@.push('-')
            },
        ),
        r matches Some(s) ==> all_ascii(s@),
{
    idna::punycode::encode_str(input)
}

/// `s` without one `-` that ends it.
pub open spec fn strip_dash(s: Seq<char>) -> Seq<char> {
    if s.len() > 0 && s.last() == '-' {
        s.drop_last()
    } else {
        s
    }
}

/// The url under which a paste with url `url` is stored: its Punycode encoding, in
/// lowercase, without a `-` that ends it; `None` where the encoding fails.
pub open spec fn stored_url(url: Seq<char>) -> Option<Seq<char>> {
    match punycode_encode(url) {
        Some(e) => Some(strip_dash(ascii_lowercase(e))),
        None => None,
    }
}

/// The url that a paste is renamed to on an edit: the Punycode encoding of `url`
/// (case kept) without a `-` that ends it; `None` where the encoding fails.
pub open spec fn renamed_url(url: Seq<char>) -> Option<Seq<char>> {
    match punycode_encode(url) {
        Some(e) => Some(strip_dash(e)),
        None => None,
    }
}

fn strip_dash_exec(mut v: Vec<char>) -> (r: Vec<char>)
    ensures
        r@ == strip_dash(v@),
{
    if v.len() > 0 && v[v.len() - 1] == '-' {
        v.pop();
    }
    v
}

/// The stored form of an encoded url: in lowercase, without a `-` that ends it.
pub fn normalize_encoded_url(encoded: &str) -> (r: String)
    requires
        all_ascii(encoded@),
    ensures
        r@ == strip_dash(ascii_lowercase(encoded@)),
{
    let v = chars_of(encoded);
    let low = ascii_lowercase_exec(&v);
    string_of(&strip_dash_exec(low))
}

/// The url under which a paste with url `url` is stored; `None` where the Punycode
/// encoding fails (where the store itself would stop).
pub fn normalize_url(url: &str) -> (r: Option<String>)
    ensures
        r.deep_view() == stored_url(url@),
{
    match punycode_encode_str(url) {
        Some(e) => Some(normalize_encoded_url(e.as_str())),
        None => None,
    }
}

/// The url that a paste is renamed to on an edit; `None` where the Punycode encoding
/// fails.
pub fn encode_new_url(url: &str) -> (r: Option<String>)
    ensures
        r.deep_view() == renamed_url(url@),
{
    match punycode_encode_str(url) {
        Some(e) => {
            let v = chars_of(e.as_str());
            Some(string_of(&strip_dash_exec(v)))
        },
        None => None,
    }
}

/// A non-empty ASCII url is stored as its lowercase form.
pub proof fn law_ascii_url_stored_lowercase(url: Seq<char>)
    requires
        all_ascii(url),
        0 < url.len() <= u32::MAX,
        punycode_encode(url) == Some(url.push('-')),
    ensures
        stored_url(url) == Some(ascii_lowercase(url)),
{
    assert(ascii_lowercase(url.push('-')) =~= ascii_lowercase(url).push('-'));
    assert(ascii_lowercase(url.push('-')).drop_last() =~= ascii_lowercase(url));
}

// ---------------------------------------------------------------------------
// the rules of requests

/// The pattern of the characters a paste url may hold.
pub open spec fn url_pattern() -> Seq<char> {
    "^[\\w\\_\\-\\.\\!\\p{Extended_Pictographic}]+$"@
}

/// Whether the url pattern finds a match in `url` (a line of word characters, `_`,
/// `-`, `.`, `!` and pictographs); `None` where the pattern does not compile.
pub open spec fn url_chars_match(url: Seq<char>) -> Option<bool> {
    match regex_captures(url_pattern(), true, false, Seq::empty(), url) {
        Some(rows) => Some(rows.len() > 0),
        None => None,
    }
}

/// Whether `url` holds only the characters a paste url may hold; `None` where the
/// pattern could not be used.
pub fn url_chars_ok(url: &str) -> (r: Option<bool>)
    ensures
        r == url_chars_match(url@),
{
    let groups: Vec<String> = Vec::new();
    assert(groups.deep_view() =~= Seq::<Seq<char>>::empty());
    match captures_all("^[\\w\\_\\-\\.\\!\\p{Extended_Pictographic}]+$", true, false, &groups, url) {
        Some(rows) => Some(rows.len() > 0),
        None => None,
    }
}

/// Why a new paste is refused, given the byte lengths of its url (once filled in) and
/// content and whether its url holds only allowed characters: `None` where it is accepted.
pub open spec fn create_refusal(url_bytes: int, content_bytes: int, chars_ok: bool) -> Option<
    PasteError,
> {
    if url_bytes > 250 || url_bytes < 3 {
        Some(PasteError::ValueError)
    } else if content_bytes > 200_000 || content_bytes < 1 {
        Some(PasteError::ValueError)
    } else if !chars_ok {
        Some(PasteError::ValueError)
    } else {
        None
    }
}

/// Checks the fields of a new paste: the url has 3 to 250 bytes, the content 1 to
/// 200 000 bytes, and the url only allowed characters.
pub fn check_paste_create(url: &str, content: &str, chars_ok: bool) -> (r: Result<(), PasteError>)
    ensures
        match create_refusal(url.len() as int, content.len() as int, chars_ok) {
            Some(e) => r == Err::<(), PasteError>(e),
            None => r is Ok,
        },
{
    if url.len() > 250 || url.len() < 3 {
        return Err(PasteError::ValueError);
    }
    if content.len() > 200_000 || content.len() < 1 {
        return Err(PasteError::ValueError);
    }
    if !chars_ok {
        return Err(PasteError::ValueError);
    }
    Ok(())
}

/// `p` is a paste stored with url `url`, content `content`, the hash of `password`,
/// a new random id and the metadata `metadata`.
pub open spec fn stored_paste(
    p: Paste,
    url: Seq<char>,
    content: Seq<char>,
    password: Seq<char>,
    metadata: PasteMetadata,
) -> bool {
    &&& p.url@ == url
    &&& p.content@ == content
    &&& p.password@ == hex_lower(sha256(encode_utf8(password)))
    &&& exists|u: Seq<char>| is_uuid_v4_text(u) && p.id@ == hex_lower(sha256(encode_utf8(u)))
    &&& p.id@.len() == 64
    &&& p.metadata == metadata
}

/// `p` was stored at the time `now`.
pub open spec fn dated(p: Paste, now: u128) -> bool {
    p.date_published == now && p.date_edited == now
}

fn filled_field(s: String) -> (r: String)
    ensures
        filled(s@, r@),
        r@.len() > 0,
{
    if s.as_str().is_empty() {
        short_random_id()
    } else {
        s
    }
}

/// `r` is what a create request `props` (its url already in stored form) gives at
/// the time `now`: with its url and password filled in, a paste that
/// `create_refusal` refuses gives that error; any other gives the (unhashed) password
/// and the stored paste, with `props`' content, no template, and `now` as both dates.
pub open spec fn created_as(props: PasteCreate, now: u128, r: Result<(String, Paste), PasteError>) -> bool {
    exists|url: Seq<char>, password: Seq<char>|
        #![trigger filled(props.url@, url), filled(props.password@, password)]
        filled(props.url@, url) && filled(props.password@, password) && match create_refusal(
            byte_len(url) as int,
            byte_len(props.content@) as int,
            url_chars_match(url) == Some(true),
        ) {
            Some(e) => r == Err::<(String, Paste), PasteError>(e),
            None => r matches Ok(pair) && pair.0@ == password && stored_paste(
                pair.1,
                url,
                props.content@,
                password,
                pair.1.metadata,
            ) && metadata_with_template(pair.1.metadata, Seq::empty()) && dated(pair.1, now),
        }
}

/// `r` is what a request `props` (its url already in stored form) that uses `source`
/// as its template gives at the time `now`: with its url and password filled in, an
/// url of other than 3 to 250 bytes of allowed characters gives `ValueError`; any
/// other gives the (unhashed) password and the stored paste, with `source`'s content,
/// `source` as its template, and `now` as both dates.
pub open spec fn cloned_as(
    props: PasteClone,
    source: Paste,
    now: u128,
    r: Result<(String, Paste), PasteError>,
) -> bool {
    exists|url: Seq<char>, password: Seq<char>|
        #![trigger filled(props.url@, url), filled(props.password@, password)]
        filled(props.url@, url) && filled(props.password@, password) && if byte_len(url) > 250
            || byte_len(url) < 3 || url_chars_match(url) != Some(true) {
            r matches Err(e) && e is ValueError
        } else {
            r matches Ok(pair) && pair.0@ == password && stored_paste(
                pair.1,
                url,
                source.content@,
                password,
                pair.1.metadata,
            ) && metadata_with_template(pair.1.metadata, source.url@) && dated(pair.1, now)
        }
}

/// Makes the paste that a create request `props` (its url already in stored form)
/// stores: an empty url or password is filled in, the paste is checked (see
/// `check_paste_create`, with the url checked against the url pattern), and it gets a
/// new id, the hash of its password, `now` as both dates, and empty metadata.
/// Gives the (unhashed) password and the paste.
pub fn new_paste(props: PasteCreate, now: u128) -> (r: Result<(String, Paste), PasteError>)
    ensures
        created_as(props, now, r),
{
    let url = filled_field(props.url);
    let password = filled_field(props.password);
    let chars_ok = match url_chars_ok(url.as_str()) {
        Some(b) => b,
        None => false,
    };
    match check_paste_create(url.as_str(), props.content.as_str(), chars_ok) {
        Err(e) => Err(e),
        Ok(()) => {
            let id = random_id();
            let hashed = hash(password.clone());
            let date_published = now;
            let date_edited = now;
            let paste = Paste {
                id,
                url,
                content: props.content,
                password: hashed,
                date_published,
                date_edited,
                metadata: PasteMetadata::default(),
            };
            Ok((password, paste))
        },
    }
}

/// Makes the paste that a request `props` (its url already in stored form) creates
/// from the template `source`: an empty url or password is filled in, the url is
/// checked (see `check_paste_clone`), and the paste gets `source`'s content, a new id,
/// the hash of its password, `now` as both dates, and metadata that names `source`
/// as its template. Gives the (unhashed) password and the paste.
pub fn cloned_paste(props: PasteClone, source: Paste, now: u128) -> (r: Result<
    (String, Paste),
    PasteError,
>)
    ensures
        cloned_as(props, source, now, r),
{
    let url = filled_field(props.url);
    let password = filled_field(props.password);
    let chars_ok = match url_chars_ok(url.as_str()) {
        Some(b) => b,
        None => false,
    };
    match check_paste_clone(url.as_str(), chars_ok) {
        Err(e) => Err(e),
        Ok(()) => {
            let id = random_id();
            let hashed = hash(password.clone());
            let date_published = now;
            let date_edited = now;
            let content = source.content.clone();
            let metadata = PasteMetadata::from_paste(source);
            let paste = Paste {
                id,
                url,
                content,
                password: hashed,
                date_published,
                date_edited,
                metadata,
            };
            Ok((password, paste))
        },
    }
}

/// A paste that a create request makes opens with the password the request gives
/// back: deleting it, or editing it as anyone, with that password is allowed.
pub proof fn law_created_paste_opens_with_its_password(
    props: PasteCreate,
    now: u128,
    password: String,
    paste: Paste,
)
    requires
        created_as(props, now, Ok::<(String, Paste), PasteError>((password, paste))),
    ensures
        hex_lower(sha256(encode_utf8(password@))) == paste.password@,
        forall|editor: Option<(Seq<char>, Seq<Seq<char>>)>|
            #![trigger edit_allowed(paste.password@, paste.metadata.owner@, password@, editor)]
            edit_allowed(paste.password@, paste.metadata.owner@, password@, editor),
{
}

/// A paste that a clone request makes opens with the password the request gives
/// back: deleting it, or editing it as anyone, with that password is allowed.
pub proof fn law_cloned_paste_opens_with_its_password(
    props: PasteClone,
    source: Paste,
    now: u128,
    password: String,
    paste: Paste,
)
    requires
        cloned_as(props, source, now, Ok::<(String, Paste), PasteError>((password, paste))),
    ensures
        hex_lower(sha256(encode_utf8(password@))) == paste.password@,
        forall|editor: Option<(Seq<char>, Seq<Seq<char>>)>|
            #![trigger edit_allowed(paste.password@, paste.metadata.owner@, password@, editor)]
            edit_allowed(paste.password@, paste.metadata.owner@, password@, editor),
{
}

// ---------------------------------------------------------------------------
// the steps of a create or clone request

/// What a create or clone request does next.
pub enum PasteCreateStep {
    /// Refuse the request with this error and stop.
    Refuse(PasteError),
    /// Look up whether a paste is stored under `url` (the new paste's url in stored
    /// form); then call `after_create_lookup` or `after_clone_lookup`.
    LookupUrl { url: String },
    /// Look up the template paste stored under `url`; then call `after_source_lookup`.
    LookupSource { url: String },
    /// Insert `paste`; the request then gives `(password, paste)`, or `ValueError`
    /// where its metadata cannot be written as JSON, or `Other` where the insert fails.
    Insert { password: String, paste: Paste },
}

/// The step that a prepared paste (see `new_paste` and `cloned_paste`) gives.
pub open spec fn step_of(res: Result<(String, Paste), PasteError>) -> PasteCreateStep {
    match res {
        Ok(pair) => PasteCreateStep::Insert { password: pair.0, paste: pair.1 },
        Err(e) => PasteCreateStep::Refuse(e),
    }
}

fn step_of_exec(res: Result<(String, Paste), PasteError>) -> (r: PasteCreateStep)
    ensures
        r == step_of(res),
{
    match res {
        Ok(pair) => PasteCreateStep::Insert { password: pair.0, paste: pair.1 },
        Err(e) => PasteCreateStep::Refuse(e),
    }
}

/// The first step of a create or clone request for the url `url`: the url in stored
/// form (see `stored_url`) is looked up; an url that cannot be encoded refuses the
/// request with `Other`.
pub fn begin_paste_create(url: &str) -> (r: PasteCreateStep)
    ensures
        match stored_url(url@) {
            Some(u) => r matches PasteCreateStep::LookupUrl { url: s } && s@ == u,
            None => r == PasteCreateStep::Refuse(PasteError::Other),
        },
{
    match normalize_url(url) {
        Some(u) => PasteCreateStep::LookupUrl { url: u },
        None => PasteCreateStep::Refuse(PasteError::Other),
    }
}

/// A prepared paste `paste`, given back with `password`, is stored under `url` with
/// `content`, the hash of `password`, no template, and one time as both dates.
pub open spec fn inserted_new(
    r: PasteCreateStep,
    url: Seq<char>,
    content: Seq<char>,
    password: Seq<char>,
    template: Seq<char>,
) -> bool {
    &&& r matches PasteCreateStep::Insert { password: pw, paste }
    &&& pw@ == password
    &&& stored_paste(paste, url, content, password, paste.metadata)
    &&& metadata_with_template(paste.metadata, template)
    &&& paste.date_published == paste.date_edited
}

/// The step of a create request `props` after its url in stored form, `url`, was
/// looked up (`taken`: a paste is stored there). A taken url refuses it with
/// `AlreadyExists`. Otherwise its url and password are filled in and it is checked
/// (see `create_refusal`): a refused paste is refused with that error; any other is
/// made (see `new_paste`) at the time the system clock gives, or refused with `Other`
/// where the clock stands before the epoch.
pub fn after_create_lookup(props: PasteCreate, url: String, taken: bool) -> (r: PasteCreateStep)
    ensures
        taken ==> r == PasteCreateStep::Refuse(PasteError::AlreadyExists),
        !taken ==> exists|u: Seq<char>, password: Seq<char>|
            #![trigger filled(url@, u), filled(props.password@, password)]
            filled(url@, u) && filled(props.password@, password) && match create_refusal(
                byte_len(u) as int,
                byte_len(props.content@) as int,
                url_chars_match(u) == Some(true),
            ) {
                Some(e) => r == PasteCreateStep::Refuse(e),
                None => r == PasteCreateStep::Refuse(PasteError::Other) || inserted_new(
                    r,
                    u,
                    props.content@,
                    password,
                    Seq::empty(),
                ),
            },
{
    if taken {
        return PasteCreateStep::Refuse(PasteError::AlreadyExists);
    }
    let ghost given = url@;
    let ghost given_password = props.password@;
    let url = filled_field(url);
    let password = filled_field(props.password);
    let ghost u = url@;
    let ghost pw = password@;
    assert(filled(given, u) && filled(given_password, pw));
    let chars_ok = match url_chars_ok(url.as_str()) {
        Some(b) => b,
        None => false,
    };
    if let Err(e) = check_paste_create(url.as_str(), props.content.as_str(), chars_ok) {
        return PasteCreateStep::Refuse(e);
    }
    match unix_epoch_timestamp() {
        None => PasteCreateStep::Refuse(PasteError::Other),
        Some(now) => {
            let res = new_paste(PasteCreate { url, content: props.content, password }, now);
            step_of_exec(res)
        },
    }
}

/// The step of a clone request `props` after its url in stored form was looked up
/// (`taken`): a taken url refuses it with `AlreadyExists`; otherwise its template is
/// looked up.
pub fn after_clone_lookup(props: &PasteClone, taken: bool) -> (r: PasteCreateStep)
    ensures
        if taken {
            r == PasteCreateStep::Refuse(PasteError::AlreadyExists)
        } else {
            r matches PasteCreateStep::LookupSource { url } && url == props.source
        },
{
    if taken {
        PasteCreateStep::Refuse(PasteError::AlreadyExists)
    } else {
        PasteCreateStep::LookupSource { url: props.source.clone() }
    }
}

/// The step of a clone request `props` (its url in stored form being `url`) after
/// its template was looked up (`source`): a failed lookup refuses it with its error
/// (`NotFound` for a missing template). Otherwise its url and password are filled in
/// and the url is checked (3 to 250 bytes of allowed characters): a refused url gives
/// `ValueError`; any other paste is made from the template (see `cloned_paste`) at
/// the time the system clock gives, or refused with `Other` where the clock stands
/// before the epoch.
pub fn after_source_lookup(props: PasteClone, url: String, source: Result<Paste, PasteError>) -> (r:
    PasteCreateStep)
    ensures
        match source {
            Err(e) => r == PasteCreateStep::Refuse(e),
            Ok(s) => exists|u: Seq<char>, password: Seq<char>|
                #![trigger filled(url@, u), filled(props.password@, password)]
                filled(url@, u) && filled(props.password@, password) && if byte_len(u) > 250
                    || byte_len(u) < 3 || url_chars_match(u) != Some(true) {
                    r == PasteCreateStep::Refuse(PasteError::ValueError)
                } else {
                    r == PasteCreateStep::Refuse(PasteError::Other) || inserted_new(
                        r,
                        u,
                        s.content@,
                        password,
                        s.url@,
                    )
                },
        },
{
    let s = match source {
        Err(e) => {
            return PasteCreateStep::Refuse(e);
        },
        Ok(s) => s,
    };
    let ghost given = url@;
    let ghost given_password = props.password@;
    let url = filled_field(url);
    let password = filled_field(props.password);
    let ghost u = url@;
    let ghost pw = password@;
    assert(filled(given, u) && filled(given_password, pw));
    let chars_ok = match url_chars_ok(url.as_str()) {
        Some(b) => b,
        None => false,
    };
    if let Err(e) = check_paste_clone(url.as_str(), chars_ok) {
        return PasteCreateStep::Refuse(e);
    }
    match unix_epoch_timestamp() {
        None => PasteCreateStep::Refuse(PasteError::Other),
        Some(now) => {
            let res = cloned_paste(PasteClone { source: props.source, url, password }, s, now);
            step_of_exec(res)
        },
    }
}

/// Checks the url of a paste made from a template: 3 to 250 bytes of allowed characters.
pub fn check_paste_clone(url: &str, chars_ok: bool) -> (r: Result<(), PasteError>)
    ensures
        r is Err <==> (url.len() > 250 || url.len() < 3 || !chars_ok),
        r matches Err(e) ==> e is ValueError,
{
    if url.len() > 250 || url.len() < 3 {
        return Err(PasteError::ValueError);
    }
    if !chars_ok {
        return Err(PasteError::ValueError);
    }
    Ok(())
}

/// What counting a view of a paste does.
pub enum ViewCount {
    /// nothing is counted
    NotCounted,
    /// the view is recorded for the viewer, then counted
    RecordThenCount,
    /// the view is counted
    Count,
}

/// What counting a view does, in `mode`, for a viewer who has viewed the paste
/// before (`Some(true)`), has not (`Some(false)`), or is not signed in (`None`):
/// views counted once per signed-in user are recorded then counted the first time
/// only; open views are always counted.
pub open spec fn view_count_of(mode: ViewMode, viewer_has_viewed: Option<bool>) -> ViewCount {
    match mode {
        ViewMode::AuthenticatedOnce => match viewer_has_viewed {
            Some(false) => ViewCount::RecordThenCount,
            _ => ViewCount::NotCounted,
        },
        ViewMode::OpenMultiple => ViewCount::Count,
    }
}

/// The viewers on record and the view count of a paste after a view by `viewer`
/// (`None`: nobody signed in), as `view_count_of` decides.
pub open spec fn after_view(
    mode: ViewMode,
    viewers: Set<Seq<char>>,
    count: nat,
    viewer: Option<Seq<char>>,
) -> (Set<Seq<char>>, nat) {
    let has_viewed = match viewer {
        Some(v) => Some(viewers.contains(v)),
        None => None,
    };
    match view_count_of(mode, has_viewed) {
        ViewCount::NotCounted => (viewers, count),
        ViewCount::RecordThenCount => (viewers.insert(viewer->0), count + 1),
        ViewCount::Count => (viewers, count + 1),
    }
}

/// The viewers on record and the view count after the views of `views`, in order.
pub open spec fn after_views(
    mode: ViewMode,
    viewers: Set<Seq<char>>,
    count: nat,
    views: Seq<Option<Seq<char>>>,
) -> (Set<Seq<char>>, nat)
    decreases views.len(),
{
    if views.len() == 0 {
        (viewers, count)
    } else {
        let next = after_view(mode, viewers, count, views[0]);
        after_views(mode, next.0, next.1, views.drop_first())
    }
}

/// Where views are counted once per signed-in user, however many views come in, the
/// count grows by exactly the number of users newly on record, and a user is newly on
/// record only after viewing: no user adds more than one view, and nobody who is not
/// signed in adds any.
pub proof fn law_views_counted_once_per_user(
    viewers: Set<Seq<char>>,
    count: nat,
    views: Seq<Option<Seq<char>>>,
)
    requires
        viewers.finite(),
    ensures
        ({
            let end = after_views(ViewMode::AuthenticatedOnce, viewers, count, views);
            &&& end.0.finite()
            &&& viewers.subset_of(end.0)
            &&& end.1 == count + end.0.len() - viewers.len()
            &&& forall|v: Seq<char>| #[trigger]
                end.0.contains(v) ==> viewers.contains(v) || views.contains(Some(v))
        }),
    decreases views.len(),
{
    if views.len() > 0 {
        let next = after_view(ViewMode::AuthenticatedOnce, viewers, count, views[0]);
        law_views_counted_once_per_user(next.0, next.1, views.drop_first());
        let end = after_views(ViewMode::AuthenticatedOnce, viewers, count, views);
        assert(end == after_views(ViewMode::AuthenticatedOnce, next.0, next.1, views.drop_first()));
        assert forall|v: Seq<char>| #[trigger]
            end.0.contains(v) implies viewers.contains(v) || views.contains(Some(v)) by {
            if !viewers.contains(v) && !next.0.contains(v) {
                let k = choose|k: int| 0 <= k < views.drop_first().len() && views.drop_first()[k]
                    == Some(v);
                assert(views[k + 1] == Some(v));
            } else if !viewers.contains(v) {
                assert(views[0] == Some(v));
            }
        }
    }
}

/// Decides how a view is counted under `mode`, given whether the viewer has viewed
/// the paste before (`None` where the viewer is not signed in): in `AuthenticatedOnce`
/// mode only a signed-in viewer's first view counts, and it is recorded; in
/// `OpenMultiple` mode every view counts.
pub fn view_count_action(mode: &ViewMode, viewer_has_viewed: Option<bool>) -> (r: ViewCount)
    ensures
        r == view_count_of(*mode, viewer_has_viewed),
{
    match mode {
        ViewMode::AuthenticatedOnce => match viewer_has_viewed {
            Some(false) => ViewCount::RecordThenCount,
            _ => ViewCount::NotCounted,
        },
        ViewMode::OpenMultiple => ViewCount::Count,
    }
}

/// The account a request is made as: its username and the permissions of its level.
pub struct Editor {
    pub username: String,
    pub permissions: Vec<String>,
}

/// `editor` may act on a paste owned by `owner` without its password: it is the
/// owner, or its level has the `ManagePastes` permission.
pub open spec fn passwordless_for(editor: Option<(Seq<char>, Seq<Seq<char>>)>, owner: Seq<char>) -> bool {
    match editor {
        Some((name, perms)) => name == owner || perms.contains("ManagePastes"@),
        None => false,
    }
}

/// The view of an optional editor: its username and permissions.
pub open spec fn editor_view(e: Option<Editor>) -> Option<(Seq<char>, Seq<Seq<char>>)> {
    match e {
        Some(ed) => Some((ed.username@, ed.permissions.deep_view())),
        None => None,
    }
}


/// Whether `editing_as` may act on a paste owned by `owner` without its password.
pub fn can_skip_password(editing_as: &Option<Editor>, owner: &String) -> (r: bool)
    ensures
        r == passwordless_for(editor_view(*editing_as), owner@),
{
    match editing_as {
        Some(ua) => ua.username.eq(owner) || crate::text::contains_text(&ua.permissions, "ManagePastes"),
        None => false,
    }
}

/// An edit of `existing` with `password`, made as `editing_as`, is allowed: the
/// editor needs no password, or the password hashes to the stored hash.
pub open spec fn edit_allowed(
    existing_hash: Seq<char>,
    owner: Seq<char>,
    password: Seq<char>,
    editor: Option<(Seq<char>, Seq<Seq<char>>)>,
) -> bool {
    passwordless_for(editor, owner) || hex_lower(sha256(encode_utf8(password))) == existing_hash
}

/// Checks that an edit (of content or of metadata) of `existing` may be made.
pub fn authorize_edit(existing: &Paste, password: String, editing_as: &Option<Editor>) -> (r: Result<
    (),
    PasteError,
>)
    ensures
        r is Ok <==> edit_allowed(
            existing.password@,
            existing.metadata.owner@,
            password@,
            editor_view(*editing_as),
        ),
        r matches Err(e) ==> e is PasswordIncorrect,
{
    if can_skip_password(editing_as, &existing.metadata.owner) {
        return Ok(());
    }
    let h = hash(password);
    if !h.eq(&existing.password) {
        return Err(PasteError::PasswordIncorrect);
    }
    Ok(())
}

/// Checks the password of a paste that is to be deleted.
pub fn authorize_delete(existing: &Paste, password: String) -> (r: Result<(), PasteError>)
    ensures
        r is Ok <==> hex_lower(sha256(encode_utf8(password@))) == existing.password@,
        r matches Err(e) ==> e is PasswordIncorrect,
{
    let h = hash(password);
    if !h.eq(&existing.password) {
        return Err(PasteError::PasswordIncorrect);
    }
    Ok(())
}

/// The stored password hash after an edit: the hash of the new password, or the
/// old hash when no new password is given.
pub fn edited_password(new_password: String, existing_hash: &String) -> (r: String)
    ensures
        r@ == (if new_password@.len() == 0 {
            existing_hash@
        } else {
            hex_lower(sha256(encode_utf8(new_password@)))
        }),
{
    if new_password.as_str().is_empty() {
        existing_hash.clone()
    } else {
        hash(new_password)
    }
}

/// The url an edited paste is stored under: the new url (the paste's own where none is
/// given) encoded as on a rename; `None` where the encoding fails.
pub fn edited_url(new_url: &String, existing_url: &String) -> (r: Option<String>)
    ensures
        r.deep_view() == renamed_url(
            if new_url@.len() == 0 {
                existing_url@
            } else {
                new_url@
            },
        ),
{
    if new_url.as_str().is_empty() {
        encode_new_url(existing_url.as_str())
    } else {
        encode_new_url(new_url.as_str())
    }
}

// ---------------------------------------------------------------------------
// the steps of an edit or delete request

/// What an edit or delete request does next.
pub enum PasteChangeStep {
    /// Refuse the request with this error and stop.
    Refuse(PasteError),
    /// Look up the paste stored under `url`; then call `after_edit_paste_lookup` or
    /// `after_delete_paste_lookup`.
    LookupPaste { url: String },
    /// Set the content, password hash, url and edit date of the row whose url is the
    /// last value to the values before it, then remove the cache entry `stale_key`;
    /// the request succeeds where the update does, and fails with `Other` where it
    /// does not.
    Update { values: Vec<String>, stale_key: String },
    /// Remove the cache entry `views_key`, delete the row whose url is `url`, then
    /// remove the cache entry `paste_key` and, where `drop_view_logs`, delete the view
    /// logs of `url`; the request fails with `Other` where a delete fails.
    Delete { url: String, views_key: String, paste_key: String, drop_view_logs: bool },
}

/// The first step of an edit or delete request for the paste at `url`: it is looked
/// up under its url in stored form (see `stored_url`); an url that cannot be encoded
/// refuses the request with `Other`.
pub fn begin_paste_change(url: &str) -> (r: PasteChangeStep)
    ensures
        match stored_url(url@) {
            Some(u) => r matches PasteChangeStep::LookupPaste { url: s } && s@ == u,
            None => r == PasteChangeStep::Refuse(PasteError::Other),
        },
{
    match normalize_url(url) {
        Some(u) => PasteChangeStep::LookupPaste { url: u },
        None => PasteChangeStep::Refuse(PasteError::Other),
    }
}

fn prefixed_key(prefix: &String, key: &String) -> (r: String)
    ensures
        r@ == prefix@ + ":"@ + key@,
{
    let mut v: Vec<char> = Vec::new();
    crate::text::push_str(&mut v, prefix.as_str());
    crate::text::push_str(&mut v, ":");
    crate::text::push_str(&mut v, key.as_str());
    string_of(&v)
}

/// `r` stores an allowed edit of `existing` (stored under `url`) at the time `now`:
/// the new content, the new password hashed (the old hash where none is given), the
/// new url (the paste's own where none is given) encoded as on a rename, and `now`,
/// with `<pastes prefix>:<url>` as the stale cache entry; `Other` where the url
/// cannot be encoded.
pub open spec fn edit_stored_at(
    existing: Paste,
    url: Seq<char>,
    new_content: Seq<char>,
    new_url: Seq<char>,
    new_password: Seq<char>,
    pastes_prefix: Seq<char>,
    now: u128,
    r: PasteChangeStep,
) -> bool {
    let hash_after = if new_password.len() == 0 {
        existing.password@
    } else {
        hex_lower(sha256(encode_utf8(new_password)))
    };
    match renamed_url(if new_url.len() == 0 { existing.url@ } else { new_url }) {
        Some(u) => {
            &&& r matches PasteChangeStep::Update { values, stale_key }
            &&& values.deep_view() == seq![
                new_content,
                hash_after,
                u,
                crate::number::decimal_digits(now as nat),
                url,
            ]
            &&& stale_key@ == pastes_prefix + ":"@ + url
        },
        None => r == PasteChangeStep::Refuse(PasteError::Other),
    }
}

/// The step of an edit after the paste stored under `url` was looked up (`found`):
/// a failed lookup refuses the edit with its error (`NotFound` for a missing paste);
/// an edit that `authorize_edit` refuses is refused with `PasswordIncorrect`;
/// otherwise the edit is stored at the time the system clock gives (see
/// `edit_stored_at`); where the clock stands before the epoch the edit is refused
/// with `Other`.
pub fn after_edit_paste_lookup(
    found: Result<Paste, PasteError>,
    url: &String,
    password: String,
    new_content: String,
    new_url: &String,
    new_password: String,
    editing_as: &Option<Editor>,
    pastes_prefix: &String,
) -> (r: PasteChangeStep)
    ensures
        match found {
            Err(e) => r == PasteChangeStep::Refuse(e),
            Ok(existing) => if !edit_allowed(
                existing.password@,
                existing.metadata.owner@,
                password@,
                editor_view(*editing_as),
            ) {
                r == PasteChangeStep::Refuse(PasteError::PasswordIncorrect)
            } else {
                r == PasteChangeStep::Refuse(PasteError::Other) || exists|now: u128|
                    #![trigger crate::number::decimal_digits(now as nat)]
                    edit_stored_at(
                        existing,
                        url@,
                        new_content@,
                        new_url@,
                        new_password@,
                        pastes_prefix@,
                        now,
                        r,
                    )
            },
        },
{
    let existing = match found {
        Err(e) => {
            return PasteChangeStep::Refuse(e);
        },
        Ok(p) => p,
    };
    if authorize_edit(&existing, password, editing_as).is_err() {
        return PasteChangeStep::Refuse(PasteError::PasswordIncorrect);
    }
    let hash_after = edited_password(new_password, &existing.password);
    let url_after = match edited_url(new_url, &existing.url) {
        Some(u) => u,
        None => {
            return PasteChangeStep::Refuse(PasteError::Other);
        },
    };
    let now = match unix_epoch_timestamp() {
        Some(t) => t,
        None => {
            return PasteChangeStep::Refuse(PasteError::Other);
        },
    };
    let values = vec![
        new_content,
        hash_after,
        url_after,
        crate::number::decimal_text(now),
        url.clone(),
    ];
    let stale_key = prefixed_key(pastes_prefix, url);
    let r = PasteChangeStep::Update { values, stale_key };
    assert(edit_stored_at(
        existing,
        url@,
        values@[0]@,
        new_url@,
        new_password@,
        pastes_prefix@,
        now,
        r,
    )) by {
        assert(values.deep_view() =~= seq![
            values@[0]@,
            values@[1]@,
            values@[2]@,
            values@[3]@,
            values@[4]@,
        ]);
    }
    r
}

/// The step of a delete after the paste stored under `url` was looked up (`found`):
/// a failed lookup refuses the delete with its error; a password that does not open
/// the paste refuses it with `PasswordIncorrect`; otherwise the paste is deleted,
/// with `<views prefix>:<url>` and `<pastes prefix>:<url>` as the stale cache entries
/// and its view logs dropped where views are counted once per user.
pub fn after_delete_paste_lookup(
    found: Result<Paste, PasteError>,
    url: &String,
    password: String,
    options: &ServerOptions,
) -> (r: PasteChangeStep)
    ensures
        match found {
            Err(e) => r == PasteChangeStep::Refuse(e),
            Ok(existing) => if hex_lower(sha256(encode_utf8(password@))) != existing.password@ {
                r == PasteChangeStep::Refuse(PasteError::PasswordIncorrect)
            } else {
                &&& r matches PasteChangeStep::Delete { url: u, views_key, paste_key, drop_view_logs }
                &&& u == url
                &&& views_key@ == options.table_views.prefix@ + ":"@ + url@
                &&& paste_key@ == options.table_pastes.prefix@ + ":"@ + url@
                &&& drop_view_logs == (options.view_mode is AuthenticatedOnce)
            },
        },
{
    let existing = match found {
        Err(e) => {
            return PasteChangeStep::Refuse(e);
        },
        Ok(p) => p,
    };
    if authorize_delete(&existing, password).is_err() {
        return PasteChangeStep::Refuse(PasteError::PasswordIncorrect);
    }
    let drop_view_logs = match options.view_mode {
        ViewMode::AuthenticatedOnce => true,
        ViewMode::OpenMultiple => false,
    };
    PasteChangeStep::Delete {
        url: url.clone(),
        views_key: prefixed_key(&options.table_views.prefix, url),
        paste_key: prefixed_key(&options.table_pastes.prefix, url),
        drop_view_logs,
    }
}

/// The paste that a row of the pastes table holds, its columns named by `config`, with
/// `metadata` parsed from its metadata column; `None` where a column is missing or a
/// date is not a number.
pub open spec fn paste_of_columns(
    row: Map<Seq<char>, String>,
    config: PastesTableConfig,
    metadata: PasteMetadata,
) -> Option<Paste> {
    match (
        text_column(row, config.id@),
        text_column(row, config.url@),
        text_column(row, config.password@),
        text_column(row, config.content@),
        number_column(row, config.date_published@),
        number_column(row, config.date_edited@),
    ) {
        (
            Some(id),
            Some(url),
            Some(password),
            Some(content),
            Some(date_published),
            Some(date_edited),
        ) => Some(Paste { id, url, content, password, date_published, date_edited, metadata }),
        _ => None,
    }
}

fn column_text(row: &DatabaseReturn, name: &String) -> (r: Option<String>)
    ensures
        r == text_column(row.data@, name@),
{
    match row.data.load(name.as_str()) {
        Some(t) => Some(t.clone()),
        None => None,
    }
}

fn column_number(row: &DatabaseReturn, name: &String) -> (r: Option<u128>)
    ensures
        r == number_column(row.data@, name@),
{
    match row.data.load(name.as_str()) {
        Some(t) => parse_u128(t.as_str()),
        None => None,
    }
}

/// Reads a paste from a row of the pastes table whose columns `config` names.
pub fn paste_from_columns(row: &DatabaseReturn, config: &PastesTableConfig, metadata: PasteMetadata) -> (r:
    Option<Paste>)
    ensures
        r == paste_of_columns(row.data@, *config, metadata),
{
    let id = column_text(row, &config.id);
    let url = column_text(row, &config.url);
    let password = column_text(row, &config.password);
    let content = column_text(row, &config.content);
    let date_published = column_number(row, &config.date_published);
    let date_edited = column_number(row, &config.date_edited);
    match (id, url, password, content, date_published, date_edited) {
        (
            Some(id),
            Some(url),
            Some(password),
            Some(content),
            Some(date_published),
            Some(date_edited),
        ) => Some(Paste { id, url, content, password, date_published, date_edited, metadata }),
        _ => None,
    }
}

/// The owner that edited metadata is stored with, given whether the request carried a
/// token, whether the store signs users in (`guppy`) and keeps owners
/// (`paste_ownership`), the user the token belongs to where it was found, and the owner
/// the request asked for: without a token the paste has no owner; with one, where
/// both options are on, it belongs to the token's user (no one where the token is
/// unknown); else the asked-for owner stays.
pub fn owner_after_edit(
    has_token: bool,
    options: &ServerOptions,
    token_user: Option<String>,
    asked: String,
) -> (r: String)
    ensures
        r@ == (if !has_token {
            Seq::<char>::empty()
        } else if options.guppy && options.paste_ownership {
            match token_user {
                Some(u) => u@,
                None => Seq::<char>::empty(),
            }
        } else {
            asked@
        }),
{
    if !has_token {
        String::new()
    } else if options.guppy && options.paste_ownership {
        match token_user {
            Some(u) => u,
            None => String::new(),
        }
    } else {
        asked
    }
}

/// What the API answers for the paste `p`: a paste with a view password is refused
/// (`Other`); any other is given without its id and password.
pub fn public_paste(p: Paste) -> (r: Result<PublicPaste, PasteError>)
    ensures
        p.metadata.view_password@.len() > 0 ==> (r matches Err(e) && e is Other),
        p.metadata.view_password@.len() == 0 ==> (r matches Ok(q) && q.url == p.url
            && q.content == p.content && q.date_published == p.date_published
            && q.date_edited == p.date_edited && q.metadata == p.metadata),
{
    if !p.metadata.view_password.as_str().is_empty() {
        return Err(PasteError::Other);
    }
    Ok(PublicPaste::from_paste(p))
}

/// Whether the page that asks for a view password is shown instead of the paste:
/// view passwords are enabled and the paste has one that `given` does not match.
pub fn view_password_required(enabled: bool, given: &String, stored: &String) -> (r: bool)
    ensures
        r == (enabled && stored@.len() > 0 && given@ != stored@),
{
    if !enabled {
        return false;
    }
    if !given.as_str().is_empty() {
        !stored.as_str().is_empty() && !given.eq(stored)
    } else {
        !stored.as_str().is_empty()
    }
}

/// Whether the editor pages let `auth_user` edit without a password: the paste has
/// an owner and it is `auth_user`.
pub fn is_passwordless(owner: &String, auth_user: &String) -> (r: bool)
    ensures
        r == (owner@.len() > 0 && auth_user@ == owner@),
{
    !owner.as_str().is_empty() && auth_user.eq(owner)
}

} // verus!
