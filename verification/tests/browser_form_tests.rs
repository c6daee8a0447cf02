use semantic_browser::browser::{parse_bool, parse_unsigned, BrowserConfig, BrowserSettings, NavigationOptions};
use semantic_browser::form_analyzer::{FieldDescription, FieldType, FormAnalyzer, FormPurpose};
use semantic_browser::form_interaction::{FormConfig, FormData};

#[test]
fn test_browser_config_default() {
    let config = BrowserConfig::default();
    assert!(config.headless);
    assert!(config.block_ads);
    assert!(!config.block_images);
    assert_eq!(config.timeout_secs, 30);
    assert_eq!(config.pool_size, 2);
}

#[test]
fn test_navigation_options_default() {
    let options = NavigationOptions::default();
    assert!(options.wait_for_selector.is_none());
    assert!(options.cookies.is_empty());
    assert!(!options.take_screenshot);
    assert!(options.execute_js.is_none());
}

fn empty_settings() -> BrowserSettings {
    BrowserSettings {
        chromium_path: None,
        headless: None,
        block_ads: None,
        block_images: None,
        timeout_secs: None,
        pool_size: None,
        user_data_dir: None,
    }
}

#[test]
fn settings_override_defaults_and_bad_values_fall_back() {
    let mut s = empty_settings();
    s.headless = Some("false".to_string());
    s.block_images = Some("yes".to_string());
    s.timeout_secs = Some("+45".to_string());
    s.pool_size = Some("-3".to_string());
    s.user_data_dir = Some("  /tmp/profile  ".to_string());
    let c = BrowserConfig::from_settings(&s, Some("/fallback".to_string()));
    assert!(!c.headless);
    assert!(c.block_ads);
    assert!(!c.block_images);
    assert_eq!(c.timeout_secs, 45);
    assert_eq!(c.pool_size, 2);
    assert_eq!(c.user_data_dir, Some("/tmp/profile".to_string()));

    s.user_data_dir = Some("   ".to_string());
    let c = BrowserConfig::from_settings(&s, Some("/fallback".to_string()));
    assert_eq!(c.user_data_dir, Some("/fallback".to_string()));
}

#[test]
fn number_and_bool_parsing_follow_str_parse() {
    assert_eq!(parse_unsigned("0", u64::MAX), Some(0));
    assert_eq!(parse_unsigned("18446744073709551615", u64::MAX), Some(u64::MAX));
    assert_eq!(parse_unsigned("18446744073709551616", u64::MAX), None);
    assert_eq!(parse_unsigned("+", u64::MAX), None);
    assert_eq!(parse_unsigned("", u64::MAX), None);
    assert_eq!(parse_unsigned(" 1", u64::MAX), None);
    assert_eq!(parse_unsigned("007", 10), Some(7));
    assert_eq!(parse_unsigned("11", 10), None);
    for s in ["0", "42", "+9", "x", "4294967296", "-1"] {
        assert_eq!(parse_unsigned(s, u32::MAX as u64), s.parse::<u32>().ok().map(u64::from));
    }
    assert_eq!(parse_bool("true"), Some(true));
    assert_eq!(parse_bool("false"), Some(false));
    assert_eq!(parse_bool("True"), None);
}

#[test]
fn test_field_type_from_input() {
    assert_eq!(FieldType::from_input_type("email"), FieldType::Email);
    assert_eq!(FieldType::from_input_type("password"), FieldType::Password);
    assert_eq!(FieldType::from_input_type("text"), FieldType::Text);
}

#[test]
fn field_types_are_case_insensitive_and_grouped() {
    assert_eq!(FieldType::from_input_type("EMAIL"), FieldType::Email);
    assert_eq!(FieldType::from_input_type("phone"), FieldType::Tel);
    assert_eq!(FieldType::from_input_type("datetime-local"), FieldType::Date);
    assert_eq!(FieldType::from_input_type("week"), FieldType::Date);
    assert_eq!(FieldType::from_input_type("submit"), FieldType::Unknown);
}

#[test]
fn form_purpose_detection() {
    assert_eq!(FormAnalyzer::detect_purpose(&[FieldType::Text, FieldType::Password], None), FormPurpose::Login);
    assert_eq!(FormAnalyzer::detect_purpose(&[FieldType::Email, FieldType::Password], None), FormPurpose::Login);
    assert_eq!(
        FormAnalyzer::detect_purpose(&[FieldType::Text, FieldType::Email, FieldType::Password, FieldType::Password], None),
        FormPurpose::Registration
    );
    assert_eq!(FormAnalyzer::detect_purpose(&[FieldType::Text], None), FormPurpose::Search);
    assert_eq!(FormAnalyzer::detect_purpose(&[FieldType::Text, FieldType::Text], None), FormPurpose::Unknown);
    assert_eq!(FormAnalyzer::detect_purpose(&[FieldType::Text], Some("/Account/SignIn")), FormPurpose::Login);
    assert_eq!(FormAnalyzer::detect_purpose(&[], Some("/checkout")), FormPurpose::Payment);
    assert_eq!(FormAnalyzer::detect_purpose(&[FieldType::Text], Some("/contact-us")), FormPurpose::Contact);
    assert_eq!(FormAnalyzer::detect_purpose(&[FieldType::Text, FieldType::Password], Some("/register")), FormPurpose::Registration);
}

#[test]
fn test_form_data_builder() {
    let data = FormData::new()
        .text("#username", "admin")
        .text("#password", "secret123")
        .checkbox("#remember", true)
        .radio("gender", "male");

    assert_eq!(data.text_fields.get("#username"), Some(&"admin".to_string()));
    assert_eq!(data.text_fields.get("#password"), Some(&"secret123".to_string()));
    assert_eq!(data.checkboxes.get("#remember"), Some(&true));
    assert_eq!(data.radio_buttons.get("gender"), Some(&"male".to_string()));
}

#[test]
fn form_data_later_values_replace_earlier_ones() {
    let data = FormData::new().select("#country", "fr").select("#country", "de").text("#a", "1").text("#a", "2");
    assert_eq!(data.select_fields.get("#country"), Some(&"de".to_string()));
    assert_eq!(data.text_fields.get("#a"), Some(&"2".to_string()));
    assert_eq!(data.text_fields.len(), 1);
}

#[test]
fn test_form_config_default() {
    let config = FormConfig::default();
    assert_eq!(config.element_timeout, 10);
    assert_eq!(config.typing_delay, 100);
    assert!(config.wait_for_navigation);
}

#[test]
fn test_analyze_login_form() {
    let html = r#"
            <form action="/login" method="post">
                <label for="username">Username</label>
                <input type="text" id="username" name="username" required>

                <label for="password">Password</label>
                <input type="password" id="password" name="password" required>

                <button type="submit">Login</button>
            </form>
        "#;

    let forms = FormAnalyzer::analyze_html(html);
    assert_eq!(forms.len(), 1);

    let form = &forms[0];
    assert_eq!(form.purpose, FormPurpose::Login);
    assert_eq!(form.fields.len(), 2);
    assert!(form.submit_button.is_some());
    assert_eq!(form.submit_button.as_deref(), Some("button[type='submit']"));
    assert_eq!(form.selector, "form:nth-of-type(1)");
    assert_eq!(form.method, "POST");
    assert_eq!(form.action.as_deref(), Some("/login"));

    let user = &form.fields[0];
    assert_eq!(user.selector, "#username");
    assert_eq!(user.field_type, FieldType::Text);
    assert_eq!(user.label.as_deref(), Some("Username"));
    assert!(user.required);
    assert_eq!(user.alternatives, vec!["#username", "input[name='username']", "[name='username']"]);
    assert_eq!(form.fields[1].field_type, FieldType::Password);
    assert_eq!(form.fields_by_type(FieldType::Password).len(), 1);

    // Find username field: the float score stays with the caller.
    let score = |f: &FieldDescription, hint: &str| -> f32 {
        let h = hint.to_lowercase();
        let parts = [(&f.id, 0.4f32), (&f.name, 0.3), (&f.label, 0.2), (&f.placeholder, 0.1)];
        parts.iter().filter(|(v, _)| v.as_ref().map_or(false, |t| t.to_lowercase().contains(&h))).map(|(_, w)| *w).sum()
    };
    let username_field = form
        .fields
        .iter()
        .max_by(|a, b| score(a, "username").partial_cmp(&score(b, "username")).unwrap())
        .filter(|f| score(f, "username") > 0.3);
    assert!(username_field.is_some(), "Username field should be found");
    let field = username_field.unwrap();
    let s = score(field, "username");
    assert!(s > 0.3, "Similarity score should be > 0.3, got {}", s);
}

#[test]
fn analyze_form_fields_order_labels_and_selectors() {
    let html = r#"
        <form id="c" action="/contact-us">
            <label>Your name <input name="who"></label>
            <input type="submit" id="go">
            <input type="hidden">
            <textarea name="msg" placeholder="Say hi"></textarea>
            <select><option>a</option></select>
        </form>
        <form><input type="text"></form>
    "#;
    let forms = FormAnalyzer::analyze_html(html);
    assert_eq!(forms.len(), 2);
    let f = &forms[0];
    assert_eq!(f.purpose, FormPurpose::Contact);
    assert_eq!(f.method, "GET");
    assert_eq!(f.submit_button.as_deref(), Some("#go"));
    let sel: Vec<&str> = f.fields.iter().map(|x| x.selector.as_str()).collect();
    assert_eq!(sel, vec!["input[name='who']", "input:nth-of-type(3)", "textarea[name='msg']", "select:nth-of-type(1)"]);
    assert_eq!(f.fields[0].label.as_deref(), Some("Your name"));
    assert_eq!(f.fields[1].field_type, FieldType::Hidden);
    assert_eq!(f.fields[2].field_type, FieldType::Textarea);
    assert_eq!(f.fields[2].placeholder.as_deref(), Some("Say hi"));
    assert_eq!(f.fields[2].alternatives, vec!["textarea[name='msg']"]);
    assert_eq!(f.fields[3].field_type, FieldType::Select);
    assert!(f.fields[3].alternatives.is_empty());
    let g = &forms[1];
    assert_eq!(g.selector, "form:nth-of-type(2)");
    assert_eq!(g.purpose, FormPurpose::Search);
    assert!(g.submit_button.is_none());
}

#[test]
fn page_values_that_would_break_a_selector_give_no_label() {
    let html = r#"<form>
        <label for="ok">Name</label><input type="text" id="ok">
        <label for="x'],:not(:not(a))">Evil</label><input type="text" id="x'],:not(:not(a))">
        <label>Mail <input type="email" name="a(b"></label>
    </form>"#;
    let forms = FormAnalyzer::analyze_html(html);
    assert_eq!(forms.len(), 1);
    let f = &forms[0].fields;
    assert_eq!(f.len(), 3);
    assert_eq!(f[0].label.as_deref(), Some("Name"));
    assert_eq!(f[1].label, None);
    assert_eq!(f[2].label, None);
}
