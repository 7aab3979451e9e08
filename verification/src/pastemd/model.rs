//! Paste records and request bodies.
use vstd::prelude::*;

verus! {

/// A stored paste.
pub struct Paste {
    pub id: String,
    pub url: String,
    pub content: String,
    /// The hash of the edit password.
    pub password: String,
    pub date_published: u128,
    pub date_edited: u128,
    pub metadata: PasteMetadata,
}

/// The metadata of a paste.
pub struct PasteMetadata {
    /// Paste page title
    pub title: String,
    /// Paste page description
    pub description: String,
    /// Paste theme color
    pub theme_color: String,
    /// Paste favicon link
    pub favicon: String,
    /// Paste view password (can be disabled)
    pub view_password: String,
    /// Paste owner username
    pub owner: String,
    /// Paste template settings: empty when the paste neither is nor uses a template,
    /// `@` when it is a template, else the URL of the template it derives from.
    pub template: String,
}

/// All fields of `m` are empty but the template, which is `template`.
pub open spec fn metadata_with_template(m: PasteMetadata, template: Seq<char>) -> bool {
    &&& m.title@ == Seq::<char>::empty()
    &&& m.description@ == Seq::<char>::empty()
    &&& m.theme_color@ == Seq::<char>::empty()
    &&& m.favicon@ == Seq::<char>::empty()
    &&& m.view_password@ == Seq::<char>::empty()
    &&& m.owner@ == Seq::<char>::empty()
    &&& m.template@ == template
}

impl Default for PasteMetadata {
    /// Metadata with every field empty.
    fn default() -> (r: Self)
        ensures
            metadata_with_template(r, Seq::empty()),
    {
        PasteMetadata {
            title: String::new(),
            description: String::new(),
            theme_color: String::new(),
            favicon: String::new(),
            view_password: String::new(),
            owner: String::new(),
            template: String::new(),
        }
    }
}

impl PasteMetadata {
    /// Metadata that uses the paste `value` as its template.
    pub fn from_paste(value: Paste) -> (r: Self)
        ensures
            metadata_with_template(r, value.url@),
    {
        PasteMetadata {
            title: String::new(),
            description: String::new(),
            theme_color: String::new(),
            favicon: String::new(),
            view_password: String::new(),
            owner: String::new(),
            template: value.url,
        }
    }
}

/// A paste as the public sees it: without its id and password.
pub struct PublicPaste {
    pub url: String,
    pub content: String,
    pub date_published: u128,
    pub date_edited: u128,
    pub metadata: PasteMetadata,
}

impl PublicPaste {
    /// The public part of `value`.
    pub fn from_paste(value: Paste) -> (r: Self)
        ensures
            r.url == value.url,
            r.content == value.content,
            r.date_published == value.date_published,
            r.date_edited == value.date_edited,
            r.metadata == value.metadata,
    {
        PublicPaste {
            url: value.url,
            content: value.content,
            date_published: value.date_published,
            date_edited: value.date_edited,
            metadata: value.metadata,
        }
    }
}

/// The body of a request to create a paste.
pub struct PasteCreate {
    /// The paste url
    pub url: String,
    /// The content of the paste
    pub content: String,
    /// The paste edit password
    pub password: String,
}

/// The body of a request to create a paste from a template.
pub struct PasteClone {
    /// The url of the paste used as a template
    pub source: String,
    /// The paste url
    pub url: String,
    /// The paste edit password
    pub password: String,
}

/// The body of a request to delete a paste.
pub struct PasteDelete {
    /// The password of the paste
    pub password: String,
}

/// The body of a request to edit a paste.
pub struct PasteEdit {
    /// The password of the paste
    pub password: String,
    /// The updated content of the paste
    pub new_content: String,
    /// The updated password of the paste
    pub new_password: String,
    /// The updated url of the paste
    pub new_url: String,
}

/// The body of a request to edit a paste's metadata.
pub struct PasteEditMetadata {
    /// The password of the paste
    pub password: String,
    /// The updated metadata of the paste
    pub metadata: PasteMetadata,
}

/// The query of the authentication callback.
pub struct CallbackQueryProps {
    /// The user id that is sent to the client as a token
    pub uid: String,
}

/// General API errors
pub enum PasteError {
    PasswordIncorrect,
    AlreadyExists,
    ValueError,
    NotFound,
    Other,
}

/// The message of each error.
pub open spec fn paste_error_message(e: PasteError) -> Seq<char> {
    match e {
        PasteError::PasswordIncorrect => "The given password is invalid."@,
        PasteError::AlreadyExists => "A paste with this URL already exists."@,
        PasteError::ValueError => "One of the field values given is invalid."@,
        PasteError::NotFound => "No paste with this URL has been found."@,
        PasteError::Other => "An unspecified error has occured"@,
    }
}

/// The HTTP status that each error is answered with.
pub open spec fn paste_error_status(e: PasteError) -> u16 {
    match e {
        PasteError::PasswordIncorrect => 401,
        PasteError::AlreadyExists => 400,
        PasteError::NotFound => 404,
        _ => 500,
    }
}

impl PasteError {
    /// The message of the error.
    pub fn to_string(&self) -> (r: String)
        ensures
            r@ == paste_error_message(*self),
    {
        match self {
            PasteError::PasswordIncorrect => String::from_str("The given password is invalid."),
            PasteError::AlreadyExists => String::from_str("A paste with this URL already exists."),
            PasteError::ValueError => String::from_str("One of the field values given is invalid."),
            PasteError::NotFound => String::from_str("No paste with this URL has been found."),
            PasteError::Other => String::from_str("An unspecified error has occured"),
        }
    }

    /// The HTTP status of the response to the error (also its payload).
    pub fn status(&self) -> (r: u16)
        ensures
            r == paste_error_status(*self),
    {
        match self {
            PasteError::PasswordIncorrect => 401,
            PasteError::AlreadyExists => 400,
            PasteError::NotFound => 404,
            _ => 500,
        }
    }
}

} // verus!
