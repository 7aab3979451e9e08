use bundlrs::utility::{format_html, hash, random_id, short_random_id, unix_epoch_timestamp, uuid};

fn is_lower_hex(s: &str) -> bool {
    s.chars().all(|c| c.is_ascii_digit() || ('a'..='f').contains(&c))
}

#[test]
fn hash_is_lowercase_hex_sha256() {
    assert_eq!(
        hash(String::new()),
        "e3b0c44298fc1c149afbf4c8996fb92427ae41e4649b934ca495991b7852b855"
    );
    assert_eq!(
        hash("abc".to_string()),
        "ba7816bf8f01cfea414140de5dae2223b00361a396177a9cb410ff61f20015ad"
    );
    assert_ne!(hash("abc".to_string()), "abc");
}

#[test]
fn uuid_is_a_hyphenated_version_four_uuid() {
    let u = uuid();
    assert_eq!(u.len(), 36);
    let c: Vec<char> = u.chars().collect();
    for i in [8, 13, 18, 23] {
        assert_eq!(c[i], '-');
    }
    assert_eq!(c[14], '4');
    assert!("89ab".contains(c[19]));
    let digits: String = u.chars().filter(|c| *c != '-').collect();
    assert_eq!(digits.len(), 32);
    assert!(is_lower_hex(&digits));
}

#[test]
fn random_ids_are_hashes() {
    let a = random_id();
    let b = random_id();
    assert_eq!(a.len(), 64);
    assert!(is_lower_hex(&a));
    assert_ne!(a, b);
    let s = short_random_id();
    assert_eq!(s.len(), 10);
    assert!(is_lower_hex(&s));
}

#[test]
fn timestamps_do_not_go_back() {
    let a = unix_epoch_timestamp().unwrap();
    let b = unix_epoch_timestamp().unwrap();
    assert!(a > 1_600_000_000_000);
    assert!(b >= a);
}

fn expected_page(icon: &str, head: &str, input: &str, embed: &str) -> String {
    format!(
        "<!DOCTYPE html>
<html lang=\"en\">
    <head>
        <meta charset=\"UTF-8\" />
        <meta name=\"viewport\" content=\"width=device-width, initial-scale=1.0\" />
        <meta http-equiv=\"content-security-policy\" content=\"default-src 'self' blob:; img-src * data:; media-src *; font-src *; style-src 'unsafe-inline' 'self' blob: *; script-src 'self' 'unsafe-inline' blob: *; object-src 'self' blob: *; upgrade-insecure-requests; connect-src *; frame-src 'self' blob: data: *\" />
        
        {}
        <meta name=\"theme-color\" content=\"#ff9999\" />
        <meta property=\"og:type\" content=\"website\" />
        <meta property=\"og:site_name\" content=\"::SITE_NAME::\" />
        {head}

        <link rel=\"stylesheet\" href=\"/static/style.css\" />
        <script type=\"module\" src=\"/static/js/Footer.js\"></script>
    </head>
    <body>
        {input}
        {embed}
    </body>
</html>",
        icon
    )
}

#[test]
fn format_html_frames_a_page_with_defaults() {
    let page = format_html("<p>hi</p>".to_string(), "<title>t</title>", None, None, None, None);
    let expected = expected_page(
        "<link rel=\"icon\" href=\"/static/favicon.svg\" />",
        "<title>t</title>",
        "<p>hi</p>",
        "",
    )
    .replace("::SITE_NAME::", "Bundlrs");
    assert_eq!(page, expected);
}

#[test]
fn format_html_keeps_a_page_icon_and_fills_in_settings() {
    let head = "<link rel=\"icon\" href=\"/x.png\" />";
    let page = format_html(
        "::GUPPY_ROOT::|::PUFFER_ROOT::".to_string(),
        head,
        Some("<b>e</b>".to_string()),
        Some("Site".to_string()),
        Some("https://g".to_string()),
        None,
    );
    let expected = expected_page("", head, "https://g|", "<b>e</b>").replace("::SITE_NAME::", "Site");
    assert_eq!(page, expected);
    assert!(!page.contains("/static/favicon.svg"));
}
