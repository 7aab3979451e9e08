//! What the site's pages show: the values every page is built with, who may see a
//! paste or a board, and the head tags and texts of a paste page.
use vstd::prelude::*;

use crate::bundlesdb::{BoardMetadata, BoardPostLog, UserState};
use crate::db::{edit_skips_password, listed_as, PasteMetadata, PastePermissionLevel};
use crate::number::{decimal_digits, decimal_text};
use crate::text::{
    push_str, replace_all, replace_all_exec, replace_first, replace_first_exec, starts_with,
    starts_with_exec, string_of, unquoted_prefix, unquoted_prefix_exec,
};

verus! {

/// The values that every page is built with.
pub struct BaseTemplate {
    pub info: String,
    pub auth_state: bool,
    pub guppy: String,
    pub deducktive: String,
    pub site_name: String,
    pub body_embed: String,
}

/// `o`'s text, or `d` where it is absent.
pub open spec fn text_or(o: Option<Seq<char>>, d: Seq<char>) -> Seq<char> {
    match o {
        Some(t) => t,
        None => d,
    }
}

fn text_or_exec(o: Option<String>, d: &str) -> (r: String)
    ensures
        r@ == text_or(o.deep_view(), d@),
{
    match o {
        Some(t) => t,
        None => String::from_str(d),
    }
}

/// The values every page is built with, from whether the request carried a token and
/// the settings `INFO`, `BODY_EMBED`, `GUPPY_ROOT`, `DEDUCKTIVE_ROOT` and `SITE_NAME`
/// where they are set: the info page defaults to `/pub/info` and the site name to
/// `Bundlrs`; the others default to nothing.
pub fn get_base_values(
    token_cookie: bool,
    info: Option<String>,
    body_embed: Option<String>,
    guppy_root: Option<String>,
    deducktive_root: Option<String>,
    site_name: Option<String>,
) -> (r: BaseTemplate)
    ensures
        r.info@ == text_or(info.deep_view(), "/pub/info"@),
        r.auth_state == token_cookie,
        r.guppy@ == text_or(guppy_root.deep_view(), Seq::empty()),
        r.deducktive@ == text_or(deducktive_root.deep_view(), Seq::empty()),
        r.site_name@ == text_or(site_name.deep_view(), "Bundlrs"@),
        r.body_embed@ == text_or(body_embed.deep_view(), Seq::empty()),
{
    proof {
        reveal_strlit("");
    }
    BaseTemplate {
        info: text_or_exec(info, "/pub/info"),
        auth_state: token_cookie,
        guppy: text_or_exec(guppy_root, ""),
        deducktive: text_or_exec(deducktive_root, ""),
        site_name: text_or_exec(site_name, "Bundlrs"),
        body_embed: text_or_exec(body_embed, ""),
    }
}

/// The cookie that clears a token whose user does not exist.
pub open spec fn token_refresh_cookie() -> Seq<char> {
    "__Secure-Token=refresh; SameSite=Strict; Secure; Path=/; HostOnly=true; HttpOnly=true; Max-Age=0"@
}

/// The `Set-Cookie` value of a page, given whether the request's token (where it
/// carried one) belongs to a user: a token of no user is cleared, else nothing is set.
pub fn auth_set_cookie(token_user_found: Option<bool>) -> (r: String)
    ensures
        r@ == (if token_user_found == Some(false) {
            token_refresh_cookie()
        } else {
            Seq::empty()
        }),
{
    match token_user_found {
        Some(false) => String::from_str(
            "__Secure-Token=refresh; SameSite=Strict; Secure; Path=/; HostOnly=true; HttpOnly=true; Max-Age=0",
        ),
        _ => String::new(),
    }
}

/// How long a login token cookie lasts, in seconds: a year.
pub open spec fn token_max_age() -> nat {
    60 * 60 * 24 * 365
}

/// The cookie that signs a user in with the token `uid`, for a year.
pub open spec fn login_cookie_of(uid: Seq<char>) -> Seq<char> {
    "__Secure-Token="@ + uid
        + "; SameSite=Lax; Secure; Path=/; HostOnly=true; HttpOnly=true; Max-Age="@
        + decimal_digits(token_max_age())
}

/// The `Set-Cookie` value of the login callback: the token cookie for `uid` where one
/// is given, else nothing.
pub fn callback_set_cookie(uid: &Option<String>) -> (r: String)
    ensures
        r@ == (match uid {
            Some(u) => login_cookie_of(u@),
            None => Seq::empty(),
        }),
{
    match uid {
        Some(u) => {
            let mut v: Vec<char> = Vec::new();
            push_str(&mut v, "__Secure-Token=");
            push_str(&mut v, u.as_str());
            push_str(
                &mut v,
                "; SameSite=Lax; Secure; Path=/; HostOnly=true; HttpOnly=true; Max-Age=",
            );
            let age = decimal_text(60 * 60 * 24 * 365);
            push_str(&mut v, age.as_str());
            string_of(&v)
        },
        None => String::new(),
    }
}

/// Base values for the base template of the lightweight site.
pub struct BaseStore {
    /// `SITE_NAME` variable
    pub site_name: String,
    /// `INFO_URL` variable, "what" in the footer
    pub info_url: String,
    /// `BODY_EMBED` variable, HTML that is embedded on every page
    pub body_embed: String,
    /// `GUPPY_ROOT` variable, for guppy auth (disabled if not provided)
    pub guppy_root: String,
    /// `SECRET` variable, "true" makes the footer not link to the source
    pub secret: bool,
}

impl BaseStore {
    /// The base values, from the variables `SITE_NAME`, `INFO_URL`, `BODY_EMBED`,
    /// `GUPPY_ROOT` and `SECRET` where they are set: the site name defaults to
    /// `Crangon`, and the footer is secret only where `SECRET` is `true`.
    pub fn new(
        site_name: Option<String>,
        info_url: Option<String>,
        body_embed: Option<String>,
        guppy_root: Option<String>,
        secret: Option<String>,
    ) -> (r: Self)
        ensures
            r.site_name@ == text_or(site_name.deep_view(), "Crangon"@),
            r.info_url@ == text_or(info_url.deep_view(), Seq::empty()),
            r.body_embed@ == text_or(body_embed.deep_view(), Seq::empty()),
            r.guppy_root@ == text_or(guppy_root.deep_view(), Seq::empty()),
            r.secret == (secret.deep_view() == Some("true"@)),
    {
        proof {
            reveal_strlit("");
        }
        let is_secret = match &secret {
            Some(s) => {
                let t = String::from_str("true");
                s.eq(&t)
            },
            None => false,
        };
        BaseStore {
            site_name: text_or_exec(site_name, "Crangon"),
            info_url: text_or_exec(info_url, ""),
            body_embed: text_or_exec(body_embed, ""),
            guppy_root: text_or_exec(guppy_root, ""),
            secret: is_secret,
        }
    }
}

// ---------------------------------------------------------------------------
// query parameters

/// The query of the home page.
pub struct HomeQueryProps {
    pub editing: Option<String>,
}

/// The query of a paste page.
pub struct PasteViewProps {
    pub view: Option<String>,
}

/// The query of the staff users page.
pub struct UsersQueryProps {
    pub username: Option<String>,
}

/// The query of the staff pastes page.
pub struct PastesQueryProps {
    pub offset: Option<i32>,
    pub search_content: Option<String>,
}

/// The query of the login callback.
pub struct CallbackQueryProps {
    /// sent to the client as its token
    pub uid: Option<String>,
}

/// The query of a paste page of the lightweight site.
pub struct PasteViewQuery {
    pub view_password: String,
}

/// A request to render markdown.
pub struct RenderMarkdown {
    pub content: String,
}

// ---------------------------------------------------------------------------
// the home page (the editor)

/// Whether the source of a paste with `metadata` may be opened by `viewer`: a paste
/// whose source is private opens only for its owner.
pub fn source_visible(metadata: &PasteMetadata, viewer: &Option<String>) -> (r: bool)
    ensures
        r == (metadata.private_source@ != "on"@ || viewer.deep_view() == Some(metadata.owner@)),
{
    let on = String::from_str("on");
    if !metadata.private_source.eq(&on) {
        return true;
    }
    match viewer {
        Some(u) => u.eq(&metadata.owner),
        None => false,
    }
}

/// Paste content as the editor script takes it: backslashes, backticks, dollar signs
/// and slashes escaped with a backslash.
pub open spec fn editor_text(content: Seq<char>) -> Seq<char> {
    replace_all(
        replace_all(
            replace_all(replace_all(content, "\\"@, "\\\\"@), "`"@, "\\`"@),
            "$"@,
            "\\$"@,
        ),
        "/"@,
        "\\/"@,
    )
}

/// Escapes paste content for the editor script.
pub fn escape_for_editor(content: &str) -> (r: String)
    ensures
        r@ == editor_text(content@),
{
    proof {
        reveal_strlit("\\");
        reveal_strlit("`");
        reveal_strlit("$");
        reveal_strlit("/");
    }
    let a = replace_all_exec(content, "\\", "\\\\");
    let b = replace_all_exec(a.as_str(), "`", "\\`");
    let c = replace_all_exec(b.as_str(), "$", "\\$");
    replace_all_exec(c.as_str(), "/", "\\/")
}

/// Whether `viewer` may edit the paste with `metadata` in the editor without its
/// password: the owner, or a user listed as `EditTextPasswordless` or `Passwordless`.
pub fn password_not_needed(metadata: &PasteMetadata, viewer: &Option<String>) -> (r: bool)
    ensures
        r == edit_skips_password(
            viewer.deep_view(),
            metadata.owner@,
            metadata.permissions_list@,
        ),
{
    match viewer {
        Some(u) => {
            if u.eq(&metadata.owner) {
                return true;
            }
            match metadata.permissions_list.load(u.as_str()) {
                Some(level) => *level == PastePermissionLevel::EditTextPasswordless || *level
                    == PastePermissionLevel::Passwordless,
                None => false,
            }
        },
        None => false,
    }
}

// ---------------------------------------------------------------------------
// a paste page

/// What a paste page does before showing the paste, by its view password.
pub enum ViewGate {
    /// the paste is shown
    Show,
    /// the page asks for the view password
    AskPassword,
    /// the paste is locked because its owner was banned
    OwnerBanned,
    /// the given view password is wrong
    WrongPassword,
}

/// What a paste page does for a paste whose view password is `view_password`, when
/// `given` comes with the request: with no password given, a password other than `off`
/// is asked for (or the paste is shown as locked where its owner was banned); a given
/// password must be the paste's.
pub open spec fn view_gate(view_password: Option<Seq<char>>, given: Option<Seq<char>>) -> ViewGate {
    match view_password {
        Some(vp) => if given is None && vp != "off"@ {
            if starts_with(vp, "LOCKED(USER_BANNED)-"@) {
                ViewGate::OwnerBanned
            } else {
                ViewGate::AskPassword
            }
        } else if given is Some && given != Some(vp) {
            ViewGate::WrongPassword
        } else {
            ViewGate::Show
        },
        None => ViewGate::Show,
    }
}

/// A paste with a view password other than `off` is shown only to a request that
/// gives that password.
pub proof fn law_view_password_protects(view_password: Seq<char>, given: Option<Seq<char>>)
    requires
        view_password != "off"@,
    ensures
        view_gate(Some(view_password), given) is Show ==> given == Some(view_password),
{
}


/// The pastes of a banned user are locked: a paste with the metadata a ban gives is
/// answered, to anyone who gives no view password, with the owner-banned refusal.
pub proof fn law_banned_paste_is_locked(m: PasteMetadata)
    requires
        crate::db::locked_metadata(m),
    ensures
        view_gate(m.view_password.deep_view(), None) == ViewGate::OwnerBanned,
{
    let v = m.view_password->0@;
    let prefix = "LOCKED(USER_BANNED)-"@;
    reveal_strlit("LOCKED(USER_BANNED)-");
    reveal_strlit("off");
    assert(v.subrange(0, prefix.len() as int) =~= prefix);
    assert(v.len() != "off"@.len());
}

/// Decides what a paste page does by the view password.
pub fn paste_view_gate(view_password: &Option<String>, given: &Option<String>) -> (r: ViewGate)
    ensures
        r == view_gate(view_password.deep_view(), given.deep_view()),
{
    match view_password {
        Some(vp) => {
            let off = String::from_str("off");
            if given.is_none() && !vp.eq(&off) {
                if starts_with_exec(vp.as_str(), "LOCKED(USER_BANNED)-") {
                    ViewGate::OwnerBanned
                } else {
                    ViewGate::AskPassword
                }
            } else {
                match given {
                    Some(g) => if !g.eq(vp) {
                        ViewGate::WrongPassword
                    } else {
                        ViewGate::Show
                    },
                    None => ViewGate::Show,
                }
            }
        },
        None => ViewGate::Show,
    }
}

/// A plain answer of a page: its status, its content type where it sets one, and
/// its body.
pub struct TextAnswer {
    pub status: u16,
    pub content_type: Option<String>,
    pub body: String,
}

/// `a` answers with `status`, content type `content_type` and body `body`.
pub open spec fn answers(
    a: TextAnswer,
    status: u16,
    content_type: Option<Seq<char>>,
    body: Seq<char>,
) -> bool {
    a.status == status && a.content_type.deep_view() == content_type && a.body@ == body
}

fn text_answer(status: u16, content_type: Option<&str>, body: &str) -> (a: TextAnswer)
    ensures
        answers(
            a,
            status,
            match content_type {
                Some(c) => Some(c@),
                None => None,
            },
            body@,
        ),
{
    TextAnswer {
        status,
        content_type: match content_type {
            Some(c) => Some(String::from_str(c)),
            None => None,
        },
        body: String::from_str(body),
    }
}

/// The text that refuses to show a paste's contents.
pub open spec fn no_permission_text() -> Seq<char> {
    "You do not have permission to view this paste's contents."@
}

/// What a paste page answers.
pub enum PasteViewAnswer {
    /// a plain answer
    Text(TextAnswer),
    /// the page that asks for the view password of the paste at `custom_url`, with
    /// status 200
    PasswordPage { custom_url: String },
    /// the paste page itself, with status 200
    Page,
}

/// What a paste page does: the user whose view it counts (where any), and its answer.
pub struct PasteViewPlan {
    pub count_view_as: Option<String>,
    pub answer: PasteViewAnswer,
}

/// Decides a paste page for the paste at `custom_url` with `metadata`, opened with the
/// query view password `query_view` by `viewer` (where signed in). First the view
/// password: a paste locked because its owner was banned is answered 404 "Failed to
/// view paste (LOCKED: OWNER BANNED)", a missing password with the password page, a
/// wrong one 404 with the no-permission text, and none of these counts a view. Past
/// the password, a signed-in viewer's view is counted, and then a viewer listed as
/// blocked is answered 406 (text/plain) "You're blocked from this paste."; everyone
/// else gets the paste page.
pub fn paste_view_plan(
    metadata: &PasteMetadata,
    custom_url: &String,
    query_view: &Option<String>,
    viewer: &Option<String>,
) -> (r: PasteViewPlan)
    ensures
        match view_gate(metadata.view_password.deep_view(), query_view.deep_view()) {
            ViewGate::OwnerBanned => r.count_view_as is None && (r.answer matches PasteViewAnswer::Text(a)
                && answers(a, 404, None, "Failed to view paste (LOCKED: OWNER BANNED)"@)),
            ViewGate::AskPassword => r.count_view_as is None && (r.answer matches PasteViewAnswer::PasswordPage { custom_url: u }
                && u@ == custom_url@),
            ViewGate::WrongPassword => r.count_view_as is None && (r.answer matches PasteViewAnswer::Text(a)
                && answers(a, 404, None, no_permission_text())),
            ViewGate::Show => r.count_view_as.deep_view() == viewer.deep_view() && if (viewer matches Some(u)
                && listed_as(metadata.permissions_list@, u@, PastePermissionLevel::Blocked)) {
                r.answer matches PasteViewAnswer::Text(a) && answers(
                    a,
                    406,
                    Some("text/plain"@),
                    "You're blocked from this paste."@,
                )
            } else {
                r.answer is Page
            },
        },
{
    match paste_view_gate(&metadata.view_password, query_view) {
        ViewGate::OwnerBanned => PasteViewPlan {
            count_view_as: None,
            answer: PasteViewAnswer::Text(
                text_answer(404, None, "Failed to view paste (LOCKED: OWNER BANNED)"),
            ),
        },
        ViewGate::AskPassword => PasteViewPlan {
            count_view_as: None,
            answer: PasteViewAnswer::PasswordPage { custom_url: custom_url.clone() },
        },
        ViewGate::WrongPassword => PasteViewPlan {
            count_view_as: None,
            answer: PasteViewAnswer::Text(
                text_answer(404, None, "You do not have permission to view this paste's contents."),
            ),
        },
        ViewGate::Show => match viewer {
            Some(u) => {
                let blocked = is_blocked(metadata, u);
                PasteViewPlan {
                    count_view_as: Some(u.clone()),
                    answer: if blocked {
                        PasteViewAnswer::Text(
                            text_answer(406, Some("text/plain"), "You're blocked from this paste."),
                        )
                    } else {
                        PasteViewAnswer::Page
                    },
                }
            },
            None => PasteViewPlan { count_view_as: None, answer: PasteViewAnswer::Page },
        },
    }
}

/// What the editor (home) page answers when it opens the paste with `metadata` (where
/// one was asked for and found) for `viewer`: a paste with a private source that is
/// not the viewer's is answered 404 with the no-permission text; `None` where the
/// editor opens.
pub fn home_refusal(metadata: &Option<PasteMetadata>, viewer: &Option<String>) -> (r: Option<
    TextAnswer,
>)
    ensures
        match metadata {
            Some(m) => if m.private_source@ == "on"@ && viewer.deep_view() != Some(m.owner@) {
                r matches Some(a) && answers(a, 404, None, no_permission_text())
            } else {
                r is None
            },
            None => r is None,
        },
{
    match metadata {
        Some(m) => if source_visible(m, viewer) {
            None
        } else {
            Some(text_answer(404, None, "You do not have permission to view this paste's contents."))
        },
        None => None,
    }
}

/// What a create request is refused with, given whether it carried a token and the
/// token's user was found (`None` without a token) and the `AUTH_REQUIRED` setting: an
/// unknown token is answered 404 "Invalid token", and a request without a token 406
/// "This server requires an account to create pastes" where the setting is set;
/// `None` where the paste may be created.
pub fn create_request_refusal(token_user_found: Option<bool>, auth_required: &Option<String>) -> (r:
    Option<TextAnswer>)
    ensures
        match token_user_found {
            Some(false) => r matches Some(a) && answers(a, 404, None, "Invalid token"@),
            Some(true) => r is None,
            None => if auth_required is Some {
                r matches Some(a) && answers(
                    a,
                    406,
                    None,
                    "This server requires an account to create pastes"@,
                )
            } else {
                r is None
            },
        },
{
    match token_user_found {
        Some(false) => Some(text_answer(404, None, "Invalid token")),
        Some(true) => None,
        None => if auth_required.is_some() {
            Some(text_answer(406, None, "This server requires an account to create pastes"))
        } else {
            None
        },
    }
}

/// What a ban request is refused with, given the permissions of the token's user
/// (`None` without a signed-in user): 406 "An account is required to do this." without
/// one, and 406 "Only staff can do this" for a user without the `ManageUsers`

/// How a staff dashboard page answers.
pub enum StaffGate {
    /// Nobody is signed in: the "401" page.
    SignIn,
    /// The signed-in account lacks the permission: this answer.
    Refuse(TextAnswer),
    /// The page is shown.
    Show,
}

/// Decides a staff dashboard page (the dashboard, its users and its pastes) for the
/// signed-in account whose level has `token_user_permissions` (`None` where nobody is
/// signed in): shown only with the `StaffDashboard` permission; an account without
/// it gets 404 "You do not have permission to do this".
pub fn staff_dashboard_gate(token_user_permissions: &Option<Vec<String>>) -> (r: StaffGate)
    ensures
        match token_user_permissions {
            None => r is SignIn,
            Some(p) => if p.deep_view().contains("StaffDashboard"@) {
                r is Show
            } else {
                r matches StaffGate::Refuse(a) && answers(
                    a,
                    404,
                    None,
                    "You do not have permission to do this"@,
                )
            },
        },
{
    match token_user_permissions {
        None => StaffGate::SignIn,
        Some(p) => if crate::text::contains_text(p, "StaffDashboard") {
            StaffGate::Show
        } else {
            StaffGate::Refuse(text_answer(404, None, "You do not have permission to do this"))
        },
    }
}

/// permission; `None` where the ban goes ahead.
pub fn ban_request_refusal(token_user_permissions: &Option<Vec<String>>) -> (r: Option<TextAnswer>)
    ensures
        match token_user_permissions {
            None => r matches Some(a) && answers(a, 406, None, "An account is required to do this."@),
            Some(p) => if p.deep_view().contains("ManageUsers"@) {
                r is None
            } else {
                r matches Some(a) && answers(a, 406, None, "Only staff can do this"@)
            },
        },
{
    match token_user_permissions {
        None => Some(text_answer(406, None, "An account is required to do this.")),
        Some(p) => if crate::text::contains_text(p, "ManageUsers") {
            None
        } else {
            Some(text_answer(406, None, "Only staff can do this"))
        },
    }
}

/// What a lightweight paste page (or its editor) does.
pub enum LightViewPlan {
    /// the page that asks for the view password; no view is counted
    PasswordPage,
    /// the view is counted and the page shown
    CountThenShow,
}

/// Decides a lightweight paste page: where view passwords are enabled and the paste
/// has one that the query's does not match, the password page, with no view counted;
/// else the view is counted and the page shown.
pub fn light_view_plan(enabled: bool, given: &String, stored: &String) -> (r: LightViewPlan)
    ensures
        (r is PasswordPage) == (enabled && stored@.len() > 0 && given@ != stored@),
{
    if crate::pastemd::database::view_password_required(enabled, given, stored) {
        LightViewPlan::PasswordPage
    } else {
        LightViewPlan::CountThenShow
    }
}

/// The controls a profile page shows.
pub struct ProfileControls {
    /// the follow button's label, where the button shows
    pub follow_label: Option<String>,
    /// the link that opens the about text for editing
    pub edit_link: bool,
    /// the form that edits the about text
    pub edit_form: bool,
}

/// The controls of a profile page, given whether it is the viewer's own profile, the
/// request's sign-in state, whether the viewer follows the profile and whether the
/// page is in edit mode: the follow button ("Unfollow" for a followed profile, else
/// "Follow") shows on another user's profile to a signed-in viewer; the edit link
/// shows on the viewer's own profile outside edit mode; the edit form in edit mode.
pub fn profile_controls(own: bool, auth_state: Option<bool>, is_following: bool, edit_mode: bool) -> (r:
    ProfileControls)
    ensures
        match r.follow_label {
            Some(l) => !own && auth_state == Some(true) && l@ == (if is_following {
                "Unfollow"@
            } else {
                "Follow"@
            }),
            None => !(!own && auth_state == Some(true)),
        },
        r.edit_link == (own && !edit_mode),
        r.edit_form == edit_mode,
{
    let signed_in = match auth_state {
        Some(b) => b,
        None => false,
    };
    ProfileControls {
        follow_label: if !own && signed_in {
            Some(
                String::from_str(
                    if is_following {
                        "Unfollow"
                    } else {
                        "Follow"
                    },
                ),
            )
        } else {
            None
        },
        edit_link: own && !edit_mode,
        edit_form: edit_mode,
    }
}

/// Whether `username` is listed as blocked from the paste with `metadata`.
pub fn is_blocked(metadata: &PasteMetadata, username: &String) -> (r: bool)
    ensures
        r == listed_as(metadata.permissions_list@, username@, PastePermissionLevel::Blocked),
{
    match metadata.permissions_list.load(username.as_str()) {
        Some(level) => *level == PastePermissionLevel::Blocked,
        None => false,
    }
}

/// `o` is absent or empty.
pub open spec fn blank(o: Option<Seq<char>>) -> bool {
    match o {
        Some(t) => t.len() == 0,
        None => true,
    }
}

/// The title of a paste page: the paste's title, or its url where it has none.
pub open spec fn page_title(url: Seq<char>, title: Option<Seq<char>>) -> Seq<char> {
    if blank(title) {
        url
    } else {
        title->0
    }
}

/// The title of the page of the paste at `url`.
pub fn paste_title(url: &str, title: &Option<String>) -> (r: String)
    ensures
        r@ == page_title(url@, title.deep_view()),
{
    match title {
        Some(t) => if t.as_str().is_empty() {
            String::from_str(url)
        } else {
            t.clone()
        },
        None => String::from_str(url),
    }
}

/// What a paste page says of a paste with no description: its first 100 characters,
/// double quotes turned into apostrophes.
pub open spec fn preview_text(content: Seq<char>) -> Seq<char> {
    unquoted_prefix(content, 100)
}

/// The first `min(100, len)` characters of `content`, each double quote turned into an
/// apostrophe (so the text cannot close the attribute it stands in).
pub open spec fn first_hundred_unquoted(content: Seq<char>) -> Seq<char> {
    Seq::new(
        if content.len() <= 100 { content.len() } else { 100 },
        |i: int| if content[i] == '"' { '\'' } else { content[i] },
    )
}

/// A paste without a description is described, in its page head, by its first 100
/// characters (fewer where it is shorter), double quotes turned into apostrophes: its
/// head is the head of the same paste whose description is that text. That text is
/// never longer than 100 characters.
pub proof fn law_undescribed_paste_previews_its_start(
    page_url: Seq<char>,
    url: Seq<char>,
    metadata: PasteMetadata,
    described: PasteMetadata,
    content: Seq<char>,
)
    requires
        blank(metadata.description.deep_view()),
        described.description matches Some(d) && d@ == first_hundred_unquoted(content),
        content.len() > 0,
        described.title == metadata.title,
        described.embed_color == metadata.embed_color,
        described.favicon == metadata.favicon,
    ensures
        paste_head_tags(page_url, url, metadata, content) == paste_head_tags(
            page_url,
            url,
            described,
            content,
        ),
        first_hundred_unquoted(content).len() <= 100,
        first_hundred_unquoted(content).len() == content.len() || first_hundred_unquoted(
            content,
        ).len() == 100,
{
    assert(preview_text(content) =~= first_hundred_unquoted(content));
}

/// The head of a paste with a description does not depend on its content: the
/// description, not a preview, describes it.
pub proof fn law_described_paste_head_ignores_content(
    page_url: Seq<char>,
    url: Seq<char>,
    metadata: PasteMetadata,
    content: Seq<char>,
    other_content: Seq<char>,
)
    requires
        !blank(metadata.description.deep_view()),
    ensures
        paste_head_tags(page_url, url, metadata, content) == paste_head_tags(
            page_url,
            url,
            metadata,
            other_content,
        ),
{
}

/// The line break and indent between the head tags of a paste page.
pub open spec fn head_break() -> Seq<char> {
    "\n                    "@
}

/// The head tags of the page of the paste at `url` with `metadata` and `content`,
/// served at `page_url`: its link, title, description (or preview), theme color
/// (`#ff9999` by default) and icon (`/static/favicon.svg` by default).
pub open spec fn paste_head_tags(
    page_url: Seq<char>,
    url: Seq<char>,
    metadata: PasteMetadata,
    content: Seq<char>,
) -> Seq<char> {
    let description = if blank(metadata.description.deep_view()) {
        preview_text(content)
    } else {
        metadata.description->0@
    };
    "<meta property=\"og:url\" content=\""@ + page_url + "\" />"@ + head_break()
        + "<meta property=\"og:title\" content=\""@ + page_title(url, metadata.title.deep_view())
        + "\" />"@ + head_break() + "<meta property=\"og:description\" content=\""@ + description
        + "\" />"@ + head_break() + "<meta name=\"theme-color\" content=\""@ + text_or(
        metadata.embed_color.deep_view(),
        "#ff9999"@,
    ) + "\" />"@ + head_break() + "<link rel=\"icon\" href=\""@ + text_or(
        metadata.favicon.deep_view(),
        "/static/favicon.svg"@,
    ) + "\" />"@
}

fn push_opt_or(v: &mut Vec<char>, o: &Option<String>, d: &str)
    ensures
        final(v)@ == old(v)@ + text_or(o.deep_view(), d@),
{
    match o {
        Some(t) => push_str(v, t.as_str()),
        None => push_str(v, d),
    }
}

/// Builds the head tags of a paste page.
pub fn paste_head(page_url: &str, url: &str, metadata: &PasteMetadata, content: &str) -> (r:
    String)
    ensures
        r@ == paste_head_tags(page_url@, url@, *metadata, content@),
{
    let description = match &metadata.description {
        Some(d) => if d.as_str().is_empty() {
            unquoted_prefix_exec(content, 100)
        } else {
            d.clone()
        },
        None => unquoted_prefix_exec(content, 100),
    };
    let title = paste_title(url, &metadata.title);
    let br = "\n                    ";
    let mut v: Vec<char> = Vec::new();
    push_str(&mut v, "<meta property=\"og:url\" content=\"");
    push_str(&mut v, page_url);
    push_str(&mut v, "\" />");
    push_str(&mut v, br);
    push_str(&mut v, "<meta property=\"og:title\" content=\"");
    push_str(&mut v, title.as_str());
    push_str(&mut v, "\" />");
    push_str(&mut v, br);
    push_str(&mut v, "<meta property=\"og:description\" content=\"");
    push_str(&mut v, description.as_str());
    push_str(&mut v, "\" />");
    push_str(&mut v, br);
    push_str(&mut v, "<meta name=\"theme-color\" content=\"");
    push_opt_or(&mut v, &metadata.embed_color, "#ff9999");
    push_str(&mut v, "\" />");
    push_str(&mut v, br);
    push_str(&mut v, "<link rel=\"icon\" href=\"");
    push_opt_or(&mut v, &metadata.favicon, "/static/favicon.svg");
    push_str(&mut v, "\" />");
    string_of(&v)
}

/// The name a paste page shows for the paste's owner: the owner's nickname where the
/// owner's account has one, else the owner's username.
pub fn owner_display_name(nickname: &Option<String>, owner: &String) -> (r: String)
    ensures
        r@ == text_or(nickname.deep_view(), owner@),
{
    match nickname {
        Some(n) => n.clone(),
        None => owner.clone(),
    }
}

/// A paste page with its own icon: the site's icon link in `body` is renamed so that
/// it no longer counts (its first `rel="icon"` becomes `rel="old_icon"`).
pub fn retire_site_icon(body: &str, has_favicon: bool) -> (r: String)
    ensures
        r@ == (if has_favicon {
            replace_first(body@, "rel=\"icon\""@, "rel=\"old_icon\""@)
        } else {
            body@
        }),
{
    if has_favicon {
        replace_first_exec(body, "rel=\"icon\"", "rel=\"old_icon\"")
    } else {
        String::from_str(body)
    }
}

// ---------------------------------------------------------------------------
// a paste page of the lightweight site

/// The line break and indent between the head tags of a lightweight paste page.
pub open spec fn light_head_break() -> Seq<char> {
    "\n                        "@
}

/// The head tags of a lightweight paste page: description (or preview), theme color
/// (`#6ee7b7` by default) and icon (`/static/favicon.svg` by default).
pub open spec fn light_head_tags(
    metadata: crate::pastemd::model::PasteMetadata,
    content: Seq<char>,
) -> Seq<char> {
    let description = if metadata.description@.len() == 0 {
        preview_text(content)
    } else {
        metadata.description@
    };
    let theme = if metadata.theme_color@.len() == 0 {
        "#6ee7b7"@
    } else {
        metadata.theme_color@
    };
    let icon = if metadata.favicon@.len() == 0 {
        "/static/favicon.svg"@
    } else {
        metadata.favicon@
    };
    "<meta property=\"og:description\" content=\""@ + description + "\" />"@ + light_head_break()
        + "<meta name=\"theme-color\" content=\""@ + theme + "\" />"@ + light_head_break()
        + "<link rel=\"icon\" href=\""@ + icon + "\" />"@
}

fn push_or(v: &mut Vec<char>, t: &String, d: &str)
    ensures
        final(v)@ == old(v)@ + (if t@.len() == 0 {
            d@
        } else {
            t@
        }),
{
    if t.as_str().is_empty() {
        push_str(v, d);
    } else {
        push_str(v, t.as_str());
    }
}

/// Builds the head tags of a lightweight paste page.
pub fn light_paste_head(metadata: &crate::pastemd::model::PasteMetadata, content: &str) -> (r:
    String)
    ensures
        r@ == light_head_tags(*metadata, content@),
{
    let preview = unquoted_prefix_exec(content, 100);
    let br = "\n                        ";
    let mut v: Vec<char> = Vec::new();
    push_str(&mut v, "<meta property=\"og:description\" content=\"");
    push_or(&mut v, &metadata.description, preview.as_str());
    push_str(&mut v, "\" />");
    push_str(&mut v, br);
    push_str(&mut v, "<meta name=\"theme-color\" content=\"");
    push_or(&mut v, &metadata.theme_color, "#6ee7b7");
    push_str(&mut v, "\" />");
    push_str(&mut v, br);
    push_str(&mut v, "<link rel=\"icon\" href=\"");
    push_or(&mut v, &metadata.favicon, "/static/favicon.svg");
    push_str(&mut v, "\" />");
    string_of(&v)
}

/// The title of a lightweight paste page: the paste's title, or its url where the
/// title is empty.
pub fn light_paste_title(url: &String, title: &String) -> (r: String)
    ensures
        r@ == (if title@.len() == 0 {
            url@
        } else {
            title@
        }),
{
    if title.as_str().is_empty() {
        url.clone()
    } else {
        title.clone()
    }
}

// ---------------------------------------------------------------------------
// boards and accounts

/// Whether a board with metadata `m` is shown to `viewer`: a board whose `is_private`
/// is `yes` only to its owner and to staff; any other board to everyone.
pub fn board_visible_to(m: &BoardMetadata, viewer: &Option<UserState>) -> (r: bool)
    ensures
        r == (m.is_private@ != "yes"@ || (viewer matches Some(u) && (u.username@ == m.owner@
            || u.role@ == "staff"@))),
{
    let yes = String::from_str("yes");
    if !m.is_private.eq(&yes) {
        return true;
    }
    match viewer {
        Some(u) => may_view_private_board(u, m),
        None => false,
    }
}


/// The answer that refuses a board page to `viewer`: a private board (`is_private`
/// is `yes`) is not found (404) for an anonymous viewer, with the paste permission
/// text, and for a signed-in viewer that is neither its owner nor staff, with the
/// board permission text; `None` where the board is shown.
pub fn board_refusal(m: &BoardMetadata, viewer: &Option<UserState>) -> (r: Option<TextAnswer>)
    ensures
        if m.is_private@ != "yes"@ {
            r is None
        } else {
            match viewer {
                None => r matches Some(a) && answers(a, 404, None, no_permission_text()),
                Some(u) => if u.username@ == m.owner@ || u.role@ == "staff"@ {
                    r is None
                } else {
                    r matches Some(a) && answers(
                        a,
                        404,
                        None,
                        "You do not have permission to view this board's contents."@,
                    )
                },
            }
        },
{
    let yes = String::from_str("yes");
    if !m.is_private.eq(&yes) {
        return None;
    }
    match viewer {
        None => Some(
            text_answer(404, None, "You do not have permission to view this paste's contents."),
        ),
        Some(u) => if may_view_private_board(u, m) {
            None
        } else {
            Some(text_answer(404, None, "You do not have permission to view this board's contents."))
        },
    }
}

/// Whether `user` may see a private board with `metadata`: its owner or staff.
pub fn may_view_private_board(user: &UserState, metadata: &BoardMetadata) -> (r: bool)
    ensures
        r == (user.username@ == metadata.owner@ || user.role@ == "staff"@),
{
    let staff = String::from_str("staff");
    user.username.eq(&metadata.owner) || user.role.eq(&staff)
}

/// Whether `user` (signed in where `auth_state` says so) may delete `post` on a board
/// with `board` as metadata: the board's owner, staff, or the post's author.
pub fn can_delete_post(
    auth_state: bool,
    user: &Option<UserState>,
    board: &BoardMetadata,
    post: &BoardPostLog,
) -> (r: bool)
    ensures
        r == (auth_state && (user matches Some(u) && (u.username@ == board.owner@ || u.role@
            == "staff"@ || u.username@ == post.author@))),
{
    if !auth_state {
        return false;
    }
    match user {
        Some(u) => {
            let staff = String::from_str("staff");
            u.username.eq(&board.owner) || u.role.eq(&staff) || u.username.eq(&post.author)
        },
        None => false,
    }
}


/// A post's rendered content as a board shows it: its style tags neutralized (`<style>`
/// and `</style>` have their `<` escaped).
pub open spec fn shown_post_html(content_html: Seq<char>) -> Seq<char> {
    replace_all(replace_all(content_html, "<style>"@, "&lt;style>"@), "</style>"@, "&lt;/style>"@)
}

/// Neutralizes the style tags of a post's rendered content.
pub fn post_html(content_html: &str) -> (r: String)
    ensures
        r@ == shown_post_html(content_html@),
{
    proof {
        reveal_strlit("<style>");
        reveal_strlit("</style>");
    }
    let a = replace_all_exec(content_html, "<style>", "&lt;style>");
    replace_all_exec(a.as_str(), "</style>", "&lt;/style>")
}

/// Whether a post shows the pin: it is shown among the pinned posts, or it is pinned.
pub fn post_shows_pin(in_pinned_section: bool, pinned: Option<bool>) -> (r: bool)
    ensures
        r == (in_pinned_section || pinned == Some(true)),
{
    in_pinned_section || match pinned {
        Some(p) => p,
        None => false,
    }
}

/// The class of a post's box: `reply` for a reply and `pinned` for a post that shows the
/// pin, each in its slot (left empty otherwise).
pub open spec fn post_class_of(is_reply: bool, pinned: bool) -> Seq<char> {
    "card message "@ + (if is_reply {
        "reply"@
    } else {
        Seq::empty()
    }) + " "@ + (if pinned {
        "pinned"@
    } else {
        Seq::empty()
    }) + " round full flex g-4"@
}

/// Builds the class of a post's box.
pub fn post_class(is_reply: bool, pinned: bool) -> (r: String)
    ensures
        r@ == post_class_of(is_reply, pinned),
{
    proof {
        reveal_strlit("");
    }
    let mut v: Vec<char> = Vec::new();
    push_str(&mut v, "card message ");
    push_str(&mut v, if is_reply {
        "reply"
    } else {
        ""
    });
    push_str(&mut v, " ");
    push_str(&mut v, if pinned {
        "pinned"
    } else {
        ""
    });
    push_str(&mut v, " round full flex g-4");
    string_of(&v)
}

/// Whether `viewer` (whose level has `viewer_permissions`) may manage the account
/// `profile`: its own, or any with the `ManageUsers` permission.
pub fn can_manage_user(viewer: &String, viewer_permissions: &Vec<String>, profile: &String) -> (r:
    bool)
    ensures
        r == (viewer@ == profile@ || viewer_permissions.deep_view().contains("ManageUsers"@)),
{
    viewer.eq(profile) || crate::text::contains_text(viewer_permissions, "ManageUsers")
}

/// Whether a profile page shows its edit controls: the signed-in user is the profile's.
pub fn can_edit_profile(active_user: &Option<String>, profile: &String) -> (r: bool)
    ensures
        r == (active_user.deep_view() == Some(profile@)),
{
    match active_user {
        Some(u) => u.eq(profile),
        None => false,
    }
}

} // verus!
