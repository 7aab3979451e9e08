use bundlrs::sql::{database_options, env_database_options};
use bundlrs::config::port_from;
use bundlrs::number::parse_u16;
use bundlrs::pastemd::database::{site_options, ViewMode};
use bundlrs::markdown::{apply_site_markup, parse_markdown, parse_site_markdown};
use bundlrs::model::DatabaseError;
use bundlrs::sql::{connection_url, question_placeholders, DatabaseOpts};

#[test]
fn site_markup_turns_blocks_into_elements() {
    assert_eq!(apply_site_markup("[s]hi[/s]".to_string()), Some("<span>hi</span>".to_string()));
    assert_eq!(
        apply_site_markup("&lt;(x)&gt;".to_string()),
        Some("<script type=\"env/mod\">x</script>".to_string())
    );
    assert_eq!(
        apply_site_markup("@&lt;(x)&gt;".to_string()),
        Some("<script type=\"env/group-mod\">x</script>".to_string())
    );
    assert_eq!(apply_site_markup("[s]a\nb[/s]".to_string()), Some("<span>a\nb</span>".to_string()));
    assert_eq!(apply_site_markup("plain".to_string()), Some("plain".to_string()));
}

#[test]
fn connection_urls() {
    let opts = DatabaseOpts {
        _type: Some("mysql".to_string()),
        host: None,
        user: "u".to_string(),
        pass: "p".to_string(),
        name: "db".to_string(),
        cache_enabled: None,
    };
    assert_eq!(connection_url("mysql", &opts), "mysql://u:p@localhost/db");
    let remote = DatabaseOpts { host: Some("h:5432".to_string()), ..opts };
    assert_eq!(connection_url("postgres", &remote), "postgres://u:p@h:5432/db");
    assert!(question_placeholders("sqlite"));
    assert!(question_placeholders("mysql"));
    assert!(!question_placeholders("postgres"));
}

#[test]
fn database_errors_have_messages() {
    assert_eq!(DatabaseError::MustBeUnique.to_string(), "One or more of the given values must be unique but is not.");
    assert_eq!(DatabaseError::NotFound.to_string(), "No asset with this selector could be found.");
    let r: bundlrs::bundlesdb::DefaultReturn<Option<String>> = DatabaseError::NotAllowed.into_default_return();
    assert!(!r.success);
    assert_eq!(r.message, "You are not allowed to access this resource.");
    assert_eq!(r.payload, None);
}

#[test]
fn database_options_need_credentials_for_server_databases() {
    let s = |x: &str| Some(x.to_string());
    assert!(database_options(s("postgres"), None, s("u"), None, s("n")).is_none());
    assert!(database_options(s("mysql"), None, None, s("p"), s("n")).is_none());
    let pg = database_options(s("postgres"), s("h"), s("u"), s("p"), s("n")).unwrap();
    assert_eq!(pg.user, "u");
    assert_eq!(pg.host, s("h"));
    let lite = database_options(s("sqlite"), None, s("u"), None, None).unwrap();
    assert_eq!(lite.user, "");
    assert_eq!(lite.name, "");
    let none = database_options(None, None, None, None, None).unwrap();
    assert!(none._type.is_none());
    let env = env_database_options(None, None, s("u"), None, None);
    assert_eq!(env.user, "u");
    assert_eq!(env.pass, "");
}

#[test]
fn ports_come_from_the_argument() {
    assert_eq!(port_from(&None), Some(8080));
    assert_eq!(port_from(&Some("3000".to_string())), Some(3000));
    assert_eq!(port_from(&Some("65536".to_string())), None);
    assert_eq!(port_from(&Some("http".to_string())), None);
    for x in ["0", "65535", "+80", "-1", "", "99999999999999999999999999999999999999999"] {
        assert_eq!(parse_u16(x), x.parse::<u16>().ok(), "input {:?}", x);
    }
}

#[test]
fn the_lightweight_site_options() {
    let with = site_options(true);
    assert!(with.guppy);
    assert!(matches!(with.view_mode, ViewMode::AuthenticatedOnce));
    assert_eq!(with.table_pastes.table_name, "cr_pastes");
    assert_eq!(with.table_pastes.url, "custom_url");
    assert_eq!(with.table_pastes.id, "id");
    assert_eq!(with.table_views.table_name, "cr_views");
    let without = site_options(false);
    assert!(!without.guppy);
    assert!(matches!(without.view_mode, ViewMode::OpenMultiple));
}

#[test]
fn markdown_is_rendered_then_marked_up() {
    let html = parse_site_markdown("**bold** [s]hi[/s]".to_string()).unwrap();
    assert!(html.contains("<strong>bold</strong>"));
    assert!(html.contains("<span>hi</span>"));
    let plain = sauropod::markdown::parse_markdown("**bold** [s]hi[/s]".to_string(), Vec::new());
    assert_eq!(parse_markdown("**bold** [s]hi[/s]".to_string()), plain);
    assert_ne!(plain, "**bold** [s]hi[/s]");
    assert_eq!(Some(html), apply_site_markup(plain));
}
