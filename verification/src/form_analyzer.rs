//! Discovery of the forms of a page, and classification of form fields and of
//! whole forms.
//!
//! The page is read with `scraper` (the forms, their controls and attributes, and
//! the labels); which fields a form has, how they are located and what the form is
//! for is decided here.
use vstd::prelude::*;
use crate::kg::{decimal, decimal_string};
use crate::page_meta::{lemma_selector_safe_concat, opt_chars, selector_safe};
use crate::text::{
    chars_of, contains, contains_exec, lowercased, push_str, str_eq, string_of, to_lower, to_upper, trim, trim_exec,
    uppercased,
};

verus! {

/// Type of form field.
#[derive(Debug, Clone, Copy, PartialEq, Eq, Structural)]
pub enum FieldType {
    Text,
    Email,
    Password,
    Tel,
    Number,
    Url,
    Search,
    Date,
    Checkbox,
    Radio,
    Select,
    Textarea,
    File,
    Hidden,
    Unknown,
}

/// The field type of a lowercase HTML `type` attribute.
pub open spec fn field_type_of(t: Seq<char>) -> FieldType {
    if t == "text"@ {
        FieldType::Text
    } else if t == "email"@ {
        FieldType::Email
    } else if t == "password"@ {
        FieldType::Password
    } else if t == "tel"@ || t == "phone"@ {
        FieldType::Tel
    } else if t == "number"@ {
        FieldType::Number
    } else if t == "url"@ {
        FieldType::Url
    } else if t == "search"@ {
        FieldType::Search
    } else if t == "date"@ || t == "datetime-local"@ || t == "month"@ || t == "week"@ || t
        == "time"@ {
        FieldType::Date
    } else if t == "checkbox"@ {
        FieldType::Checkbox
    } else if t == "radio"@ {
        FieldType::Radio
    } else if t == "file"@ {
        FieldType::File
    } else if t == "hidden"@ {
        FieldType::Hidden
    } else {
        FieldType::Unknown
    }
}

/// Law: an attribute that is its own lowercase form (such as the result of
/// `to_lowercase` wherever lowercasing that text again changes nothing) gets the
/// type that [`field_type_of`] gives it directly: `tel` and `phone` a `Tel`, the
/// date and time types a `Date`, and so on.
pub proof fn law_field_type_of_lowercase(t: Seq<char>)
    requires
        lowercased(t) == t,
    ensures
        field_type_of(lowercased(t)) == field_type_of(t),
        (t == "tel"@ || t == "phone"@) ==> field_type_of(lowercased(t)) == FieldType::Tel,
{
    reveal_strlit("text");
    reveal_strlit("email");
    reveal_strlit("password");
    reveal_strlit("tel");
    reveal_strlit("phone");
    assert("email"@[0] != "phone"@[0]);
    assert("text"@.len() != "tel"@.len() && "text"@.len() != "phone"@.len());
    assert("password"@.len() != "tel"@.len() && "password"@.len() != "phone"@.len());
    assert("email"@.len() != "tel"@.len());
}

impl FieldType {
    /// The field type of an HTML input `type` attribute, compared case-insensitively.
    pub fn from_input_type(type_attr: &str) -> (r: Self)
        ensures
            r == field_type_of(lowercased(type_attr@)),
    {
        let lower = to_lower(type_attr);
        let t = lower.as_str();
        if str_eq(t, "text") {
            FieldType::Text
        } else if str_eq(t, "email") {
            FieldType::Email
        } else if str_eq(t, "password") {
            FieldType::Password
        } else if str_eq(t, "tel") || str_eq(t, "phone") {
            FieldType::Tel
        } else if str_eq(t, "number") {
            FieldType::Number
        } else if str_eq(t, "url") {
            FieldType::Url
        } else if str_eq(t, "search") {
            FieldType::Search
        } else if str_eq(t, "date") || str_eq(t, "datetime-local") || str_eq(t, "month") || str_eq(
            t,
            "week",
        ) || str_eq(t, "time") {
            FieldType::Date
        } else if str_eq(t, "checkbox") {
            FieldType::Checkbox
        } else if str_eq(t, "radio") {
            FieldType::Radio
        } else if str_eq(t, "file") {
            FieldType::File
        } else if str_eq(t, "hidden") {
            FieldType::Hidden
        } else {
            FieldType::Unknown
        }
    }
}

/// Form purpose classification.
#[derive(Debug, Clone, Copy, PartialEq, Eq, Structural)]
pub enum FormPurpose {
    Login,
    Registration,
    Search,
    Contact,
    Payment,
    Profile,
    Settings,
    Comment,
    Unknown,
}

/// Some field of `fields` has type `t`.
pub open spec fn has_field(fields: Seq<FieldType>, t: FieldType) -> bool {
    exists|i: int| 0 <= i < fields.len() && fields[i] == t
}

/// How many fields of `fields` have type `t`.
pub open spec fn count_fields(fields: Seq<FieldType>, t: FieldType) -> nat
    decreases fields.len(),
{
    if fields.len() == 0 {
        0
    } else {
        count_fields(fields.drop_last(), t) + if fields.last() == t {
            1nat
        } else {
            0nat
        }
    }
}

/// The purpose that a lowercase form action URL reveals, if any.
pub open spec fn purpose_of_action(a: Seq<char>) -> Option<FormPurpose> {
    if contains(a, "login"@) || contains(a, "signin"@) {
        Some(FormPurpose::Login)
    } else if contains(a, "register"@) || contains(a, "signup"@) {
        Some(FormPurpose::Registration)
    } else if contains(a, "search"@) {
        Some(FormPurpose::Search)
    } else if contains(a, "contact"@) {
        Some(FormPurpose::Contact)
    } else if contains(a, "payment"@) || contains(a, "checkout"@) {
        Some(FormPurpose::Payment)
    } else {
        None
    }
}

/// The purpose of a form with these field types and this action URL: first by
/// keywords of the action, then by its fields (a password with an email or one
/// text field among at most three fields is a login, a password and an email
/// among more is a registration, a lone text field is a search).
pub open spec fn form_purpose(fields: Seq<FieldType>, action: Option<Seq<char>>) -> FormPurpose {
    let by_action = match action {
        Some(a) => purpose_of_action(lowercased(a)),
        None => None,
    };
    let has_password = has_field(fields, FieldType::Password);
    let has_email = has_field(fields, FieldType::Email);
    let text_fields = count_fields(fields, FieldType::Text);
    match by_action {
        Some(p) => p,
        None => if has_password && (has_email || text_fields == 1) && fields.len() <= 3 {
            FormPurpose::Login
        } else if has_password && has_email && fields.len() > 3 {
            FormPurpose::Registration
        } else if fields.len() == 1 && fields[0] == FieldType::Text {
            FormPurpose::Search
        } else {
            FormPurpose::Unknown
        },
    }
}

/// Law: the keywords of a form's action URL (compared in lowercase) decide its
/// purpose whatever its fields, in this order: `login` or `signin` make a login
/// form, then `register` or `signup` a registration form, then `search` a search
/// form, `contact` a contact form, and `payment` or `checkout` a payment form.
pub proof fn law_action_keywords_decide_purpose(fields: Seq<FieldType>, action: Seq<char>)
    ensures
        ({
            let a = lowercased(action);
            let login = contains(a, "login"@) || contains(a, "signin"@);
            let registration = contains(a, "register"@) || contains(a, "signup"@);
            let search = contains(a, "search"@);
            let contact = contains(a, "contact"@);
            let payment = contains(a, "payment"@) || contains(a, "checkout"@);
            &&& login ==> form_purpose(fields, Some(action)) == FormPurpose::Login
            &&& !login && registration ==> form_purpose(fields, Some(action)) == FormPurpose::Registration
            &&& !login && !registration && search ==> form_purpose(fields, Some(action)) == FormPurpose::Search
            &&& !login && !registration && !search && contact ==> form_purpose(fields, Some(action))
                == FormPurpose::Contact
            &&& !login && !registration && !search && !contact && payment ==> form_purpose(fields, Some(action))
                == FormPurpose::Payment
        }),
{
}

/// Form analyzer.
pub struct FormAnalyzer;

/// Whether `needle` occurs in the characters `hay`.
fn has_word(hay: &Vec<char>, needle: &str) -> (r: bool)
    ensures
        r == contains(hay@, needle@),
{
    let n = chars_of(needle);
    contains_exec(hay, &n)
}

impl FormAnalyzer {
    /// The purpose of a form, from its action URL and the types of its fields.
    pub fn detect_purpose(fields: &[FieldType], action: Option<&str>) -> (r: FormPurpose)
        ensures
            r == form_purpose(
                fields@,
                match action {
                    Some(a) => Some(a@),
                    None => None,
                },
            ),
    {
        if let Some(action_url) = action {
            let lower = to_lower(action_url);
            let a = chars_of(lower.as_str());
            if has_word(&a, "login") || has_word(&a, "signin") {
                return FormPurpose::Login;
            }
            if has_word(&a, "register") || has_word(&a, "signup") {
                return FormPurpose::Registration;
            }
            if has_word(&a, "search") {
                return FormPurpose::Search;
            }
            if has_word(&a, "contact") {
                return FormPurpose::Contact;
            }
            if has_word(&a, "payment") || has_word(&a, "checkout") {
                return FormPurpose::Payment;
            }
        }
        let mut has_password = false;
        let mut has_email = false;
        let mut text_fields: usize = 0;
        let mut i: usize = 0;
        while i < fields.len()
            invariant
                i <= fields@.len(),
                has_password == has_field(fields@.take(i as int), FieldType::Password),
                has_email == has_field(fields@.take(i as int), FieldType::Email),
                text_fields == count_fields(fields@.take(i as int), FieldType::Text),
                text_fields <= i,
            decreases fields.len() - i,
        {
            let f = fields[i];
            proof {
                let s = fields@.take(i + 1);
                assert(s.drop_last() =~= fields@.take(i as int));
                assert(s.last() == f);
                assert(has_field(s, FieldType::Password) == (has_field(fields@.take(i as int), FieldType::Password) || f == FieldType::Password)) by {
                    if f == FieldType::Password {
                        assert(s[i as int] == f);
                    }
                    if has_field(fields@.take(i as int), FieldType::Password) {
                        let j = choose|j: int| 0 <= j < i && fields@.take(i as int)[j] == FieldType::Password;
                        assert(s[j] == FieldType::Password);
                    }
                }
                assert(has_field(s, FieldType::Email) == (has_field(fields@.take(i as int), FieldType::Email) || f == FieldType::Email)) by {
                    if f == FieldType::Email {
                        assert(s[i as int] == f);
                    }
                    if has_field(fields@.take(i as int), FieldType::Email) {
                        let j = choose|j: int| 0 <= j < i && fields@.take(i as int)[j] == FieldType::Email;
                        assert(s[j] == FieldType::Email);
                    }
                }
            }
            if f == FieldType::Password {
                has_password = true;
            }
            if f == FieldType::Email {
                has_email = true;
            }
            if f == FieldType::Text {
                text_fields = text_fields + 1;
            }
            i = i + 1;
        }
        assert(fields@.take(fields@.len() as int) =~= fields@);
        if has_password && (has_email || text_fields == 1) && fields.len() <= 3 {
            return FormPurpose::Login;
        }
        if has_password && has_email && fields.len() > 3 {
            return FormPurpose::Registration;
        }
        if fields.len() == 1 && fields[0] == FieldType::Text {
            return FormPurpose::Search;
        }
        FormPurpose::Unknown
    }
}

// ------------------------------------------------------------ reading the page

/// A form control as the page holds it: its `type`, `name`, `id` and
/// `placeholder` attributes and whether it has `required`.
#[derive(Debug)]
pub struct RawControl {
    pub type_attr: Option<String>,
    pub name: Option<String>,
    pub id: Option<String>,
    pub placeholder: Option<String>,
    pub required: bool,
}

/// A control as values.
pub type ControlView = (Option<Seq<char>>, Option<Seq<char>>, Option<Seq<char>>, Option<Seq<char>>, bool);

/// A control as values.
pub open spec fn control_view(c: RawControl) -> ControlView {
    (opt_chars(c.type_attr), opt_chars(c.name), opt_chars(c.id), opt_chars(c.placeholder), c.required)
}

/// Name for the number of `form` elements of a page, as `scraper` parses it.
pub uninterp spec fn html_form_count(html: Seq<char>) -> nat;

/// Name for the attribute `attr` of the `i`-th `form` element of a page.
pub uninterp spec fn html_form_attr(html: Seq<char>, i: nat, attr: Seq<char>) -> Option<Seq<char>>;

/// Name for the elements with tag `tag` inside the `i`-th form of a page, in
/// document order, as controls.
pub uninterp spec fn html_form_controls(html: Seq<char>, i: nat, tag: Seq<char>) -> Seq<ControlView>;

/// Name for the first element matching the CSS selector `selector` inside the
/// `i`-th form of a page: nothing when none matches, else its `id` attribute (if
/// it has one).
pub uninterp spec fn html_form_first_id(html: Seq<char>, i: nat, selector: Seq<char>) -> Option<Option<Seq<char>>>;

/// Name for the text of the first element of a page matching the CSS selector
/// `selector` (its text nodes joined): an error when the selector cannot be parsed.
pub uninterp spec fn html_first_text(html: Seq<char>, selector: Seq<char>) -> Result<Option<Seq<char>>, ()>;

/// Name for the elements of a page matching the CSS selector `outer`, in document
/// order: the text of each (its text nodes joined), and whether it holds an
/// element matching `inner` (none at all when either selector cannot be parsed).
pub uninterp spec fn html_texts_holding(html: Seq<char>, outer: Seq<char>, inner: Seq<char>) -> Seq<(Seq<char>, bool)>;

/// A value of the page that may be put between the quotes of an attribute
/// selector: it has no quote, backslash or `(`, so it can neither end the quoted
/// value nor open a pseudo-class.
pub open spec fn quotable(v: Seq<char>) -> bool {
    forall|i: int| 0 <= i < v.len() ==> v[i] != '\'' && v[i] != '\\' && v[i] != '('
}

/// Whether a page value may be put between the quotes of an attribute selector.
fn is_quotable(v: &str) -> (r: bool)
    ensures
        r == quotable(v@),
{
    let cs = chars_of(v);
    let mut i: usize = 0;
    while i < cs.len()
        invariant
            i <= cs@.len(),
            cs@ == v@,
            forall|k: int| 0 <= k < i ==> cs@[k] != '\'' && cs@[k] != '\\' && cs@[k] != '(',
        decreases cs.len() - i,
    {
        if cs[i] == '\'' || cs[i] == '\\' || cs[i] == '(' {
            return false;
        }
        i = i + 1;
    }
    true
}

/// A quotable value between two texts without `(` makes a text without `(`.
proof fn lemma_quoted_selector_safe(before: Seq<char>, v: Seq<char>, after: Seq<char>)
    requires
        selector_safe(before),
        selector_safe(after),
        quotable(v),
    ensures
        selector_safe(before + v + after),
{
    lemma_selector_safe_concat(before, v);
    lemma_selector_safe_concat(before + v, after);
}

/// The selectors that the form reader uses hold no `(`.
proof fn lemma_form_selectors_safe()
    ensures
        selector_safe("input"@),
        selector_safe("textarea"@),
        selector_safe("select"@),
        selector_safe("label"@),
        selector_safe("input[type='submit']"@),
        selector_safe("button[type='submit']"@),
        selector_safe("button"@),
        selector_safe("label[for='"@),
        selector_safe("input[name='"@),
        selector_safe("']"@),
{
    reveal_strlit("input");
    reveal_strlit("textarea");
    reveal_strlit("select");
    reveal_strlit("label");
    reveal_strlit("input[type='submit']");
    reveal_strlit("button[type='submit']");
    reveal_strlit("button");
    reveal_strlit("label[for='");
    reveal_strlit("input[name='");
    reveal_strlit("']");
}

/// The selector of the labels for the element with id `id`.
pub open spec fn label_for_selector(id: Seq<char>) -> Seq<char> {
    "label[for='"@ + id + "']"@
}

/// The selector of the inputs named `name`.
pub open spec fn input_named_selector(name: Seq<char>) -> Seq<char> {
    "input[name='"@ + name + "']"@
}

/// Counts the `form` elements of a page parsed with `scraper::Html::parse_document`.
/// Claimed: the count is `html_form_count` of the page.
#[verifier::external_body]
fn form_count(html: &str) -> (r: usize)
    ensures
        r == html_form_count(html@),
{
    let doc = scraper::Html::parse_document(html);
    let Ok(sel) = scraper::Selector::parse("form") else { return 0 };
    doc.select(&sel).count()
}

/// Reads the attribute `attr` of the `i`-th `form` element of a page. Claimed:
/// the result is `html_form_attr` of the three arguments.
#[verifier::external_body]
fn form_attr(html: &str, i: usize, attr: &str) -> (r: Option<String>)
    ensures
        opt_chars(r) == html_form_attr(html@, i as nat, attr@),
{
    let doc = scraper::Html::parse_document(html);
    let sel = scraper::Selector::parse("form").ok()?;
    doc.select(&sel).nth(i)?.value().attr(attr).map(String::from)
}

/// Lists the elements with tag `tag` inside the `i`-th `form` element of a page,
/// with their attributes. Claimed: the result is `html_form_controls` of the
/// three arguments.
#[verifier::external_body]
fn form_controls(html: &str, i: usize, tag: &str) -> (r: Vec<RawControl>)
    requires
        selector_safe(tag@),
    ensures
        r@.map_values(|c: RawControl| control_view(c)) == html_form_controls(html@, i as nat, tag@),
{
    let doc = scraper::Html::parse_document(html);
    let (Ok(form_sel), Ok(sel)) = (scraper::Selector::parse("form"), scraper::Selector::parse(tag)) else { return Vec::new() };
    let Some(form) = doc.select(&form_sel).nth(i) else { return Vec::new() };
    form.select(&sel).map(|e| e.value()).map(|v| RawControl {
        type_attr: v.attr("type").map(String::from), name: v.attr("name").map(String::from),
        id: v.attr("id").map(String::from), placeholder: v.attr("placeholder").map(String::from),
        required: v.attr("required").is_some(),
    }).collect()
}

/// Finds the first element matching `selector` inside the `i`-th `form` element
/// of a page and reads its `id`. Claimed: the result is `html_form_first_id` of
/// the three arguments.
#[verifier::external_body]
fn form_first_id(html: &str, i: usize, selector: &str) -> (r: Option<Option<String>>)
    requires
        selector_safe(selector@),
    ensures
        match r {
            Some(x) => html_form_first_id(html@, i as nat, selector@) == Some(opt_chars(x)),
            None => html_form_first_id(html@, i as nat, selector@) is None,
        },
{
    let doc = scraper::Html::parse_document(html);
    let (form_sel, sel) = (scraper::Selector::parse("form").ok()?, scraper::Selector::parse(selector).ok()?);
    let first = doc.select(&form_sel).nth(i)?.select(&sel).next()?;
    Some(first.value().attr("id").map(String::from))
}

/// Joins the text nodes of the first element of a page matching `selector`.
/// Claimed: the result is `html_first_text` of the two texts.
#[verifier::external_body]
fn first_text(html: &str, selector: &str) -> (r: Result<Option<String>, ()>)
    requires
        selector_safe(selector@),
    ensures
        match r {
            Ok(t) => html_first_text(html@, selector@) == Ok::<Option<Seq<char>>, ()>(opt_chars(t)),
            Err(_) => html_first_text(html@, selector@) is Err,
        },
{
    let doc = scraper::Html::parse_document(html);
    let sel = scraper::Selector::parse(selector).map_err(|_| ())?;
    Ok(doc.select(&sel).next().map(|l| l.text().collect::<String>()))
}

/// Lists the elements of a page matching `outer` with their text and whether each
/// holds an element matching `inner`. Claimed: the result is `html_texts_holding`
/// of the three texts.
#[verifier::external_body]
fn texts_holding(html: &str, outer: &str, inner: &str) -> (r: Vec<(String, bool)>)
    requires
        selector_safe(outer@),
        selector_safe(inner@),
    ensures
        r@.map_values(|p: (String, bool)| (p.0@, p.1)) == html_texts_holding(html@, outer@, inner@),
{
    let doc = scraper::Html::parse_document(html);
    let (Ok(outer), Ok(inner)) = (scraper::Selector::parse(outer), scraper::Selector::parse(inner)) else { return Vec::new() };
    doc.select(&outer).map(|l| (l.text().collect::<String>(), l.select(&inner).next().is_some())).collect()
}

/// The text `before`, then `middle`, then `after`.
fn framed(before: &str, middle: &str, after: &str) -> (r: String)
    ensures
        r@ == before@ + middle@ + after@,
{
    let mut s = before.to_owned();
    push_str(&mut s, middle);
    push_str(&mut s, after);
    s
}

// ------------------------------------------------------------ fields and forms

/// Description of a form field. (Its confidence score, a float, is not kept here:
/// it follows from which of `id`, `name`, `label` and `placeholder` are set.)
#[derive(Debug, Clone)]
pub struct FieldDescription {
    /// CSS selector to locate the field
    pub selector: String,
    /// Semantic type of the field
    pub field_type: FieldType,
    /// Label text associated with the field
    pub label: Option<String>,
    /// Placeholder text
    pub placeholder: Option<String>,
    /// Name attribute
    pub name: Option<String>,
    /// ID attribute
    pub id: Option<String>,
    /// Whether the field is required
    pub required: bool,
    /// Alternative selectors
    pub alternatives: Vec<String>,
}

/// A field as values.
pub type FieldView = (
    Seq<char>,
    FieldType,
    Option<Seq<char>>,
    Option<Seq<char>>,
    Option<Seq<char>>,
    Option<Seq<char>>,
    bool,
    Seq<Seq<char>>,
);

/// A field as values.
pub open spec fn field_view(f: FieldDescription) -> FieldView {
    (
        f.selector@,
        f.field_type,
        opt_chars(f.label),
        opt_chars(f.placeholder),
        opt_chars(f.name),
        opt_chars(f.id),
        f.required,
        f.alternatives@.map_values(|a: String| a@),
    )
}

/// Complete form description.
#[derive(Debug, Clone)]
pub struct FormDescription {
    /// CSS selector for the form element
    pub selector: String,
    /// Detected purpose of the form
    pub purpose: FormPurpose,
    /// All fields in the form
    pub fields: Vec<FieldDescription>,
    /// Submit button selector
    pub submit_button: Option<String>,
    /// Form action URL
    pub action: Option<String>,
    /// Form method (GET/POST)
    pub method: String,
}

/// A form as values.
pub type FormView = (Seq<char>, FormPurpose, Seq<FieldView>, Option<Seq<char>>, Option<Seq<char>>, Seq<char>);

/// A form as values.
pub open spec fn form_view(f: FormDescription) -> FormView {
    (
        f.selector@,
        f.purpose,
        f.fields@.map_values(|x: FieldDescription| field_view(x)),
        opt_chars(f.submit_button),
        opt_chars(f.action),
        f.method@,
    )
}

/// The text of the first label that holds the input.
pub open spec fn first_labelled(ls: Seq<(Seq<char>, bool)>) -> Option<Seq<char>>
    decreases ls.len(),
{
    if ls.len() == 0 {
        None
    } else if ls[0].1 {
        Some(ls[0].0)
    } else {
        first_labelled(ls.drop_first())
    }
}

/// The label of a field, trimmed: that of `label[for=id]` when the field has an
/// id and there is one (nothing at all when the id makes no valid selector or
/// cannot be quoted in one), else that of the first label holding an input with
/// the field's name (nothing when the name cannot be quoted).
pub open spec fn field_label(html: Seq<char>, id: Option<Seq<char>>, name: Option<Seq<char>>) -> Option<Seq<char>> {
    let by_name = match name {
        Some(n) => if !quotable(n) {
            None
        } else {
            match first_labelled(html_texts_holding(html, "label"@, input_named_selector(n))) {
                Some(t) => Some(trim(t)),
                None => None,
            }
        },
        None => None,
    };
    match id {
        Some(i) => if !quotable(i) {
            None
        } else {
            match html_first_text(html, label_for_selector(i)) {
            Err(_) => None,
                Ok(Some(t)) => Some(trim(t)),
                Ok(None) => by_name,
            }
        },
        None => by_name,
    }
}

/// The selector of a field: by id, else by name, else by position.
pub open spec fn located(tag: Seq<char>, id: Option<Seq<char>>, name: Option<Seq<char>>, index: nat) -> Seq<char> {
    match id {
        Some(i) => "#"@ + i,
        None => match name {
            Some(n) => tag + "[name='"@ + n + "']"@,
            None => tag + ":nth-of-type("@ + decimal(index + 1) + ")"@,
        },
    }
}

/// The alternative selectors of a field: by id, by name (and, for an input, by
/// bare name).
pub open spec fn alternatives_of(tag: Seq<char>, id: Option<Seq<char>>, name: Option<Seq<char>>, bare_name: bool) -> Seq<Seq<char>> {
    (match id {
        Some(i) => seq!["#"@ + i],
        None => Seq::empty(),
    }) + match name {
        Some(n) => if bare_name {
            seq![tag + "[name='"@ + n + "']"@, "[name='"@ + n + "']"@]
        } else {
            seq![tag + "[name='"@ + n + "']"@]
        },
        None => Seq::empty(),
    }
}

/// Input types that are buttons, not fields.
pub open spec fn skipped_input(t: Seq<char>) -> bool {
    t == "submit"@ || t == "button"@ || t == "reset"@ || t == "image"@
}

/// The field of an input, unless it is a button.
pub open spec fn input_field(html: Seq<char>, c: ControlView, index: nat) -> Option<FieldView> {
    let t = match c.0 {
        Some(t) => t,
        None => "text"@,
    };
    if skipped_input(t) {
        None
    } else {
        Some(
            (
                located("input"@, c.2, c.1, index),
                field_type_of(lowercased(t)),
                field_label(html, c.2, c.1),
                c.3,
                c.1,
                c.2,
                c.4,
                alternatives_of("input"@, c.2, c.1, true),
            ),
        )
    }
}

/// The field of a textarea.
pub open spec fn textarea_field(html: Seq<char>, c: ControlView, index: nat) -> FieldView {
    (
        located("textarea"@, c.2, c.1, index),
        FieldType::Textarea,
        field_label(html, c.2, c.1),
        c.3,
        c.1,
        c.2,
        c.4,
        alternatives_of("textarea"@, c.2, c.1, false),
    )
}

/// The field of a select (which has no placeholder).
pub open spec fn select_field(html: Seq<char>, c: ControlView, index: nat) -> FieldView {
    (
        located("select"@, c.2, c.1, index),
        FieldType::Select,
        field_label(html, c.2, c.1),
        None,
        c.1,
        c.2,
        c.4,
        alternatives_of("select"@, c.2, c.1, false),
    )
}

/// The fields of the first `n` inputs.
pub open spec fn input_fields(html: Seq<char>, cs: Seq<ControlView>, n: nat) -> Seq<FieldView>
    decreases n,
{
    if n == 0 {
        Seq::empty()
    } else {
        let prev = input_fields(html, cs, (n - 1) as nat);
        match input_field(html, cs[n - 1], (n - 1) as nat) {
            Some(f) => prev.push(f),
            None => prev,
        }
    }
}

/// The fields of the `i`-th form: its inputs (buttons skipped), then its
/// textareas, then its selects.
pub open spec fn form_fields(html: Seq<char>, i: nat) -> Seq<FieldView> {
    let ins = html_form_controls(html, i, "input"@);
    let tas = html_form_controls(html, i, "textarea"@);
    let sels = html_form_controls(html, i, "select"@);
    input_fields(html, ins, ins.len()) + Seq::new(tas.len(), |k: int| textarea_field(html, tas[k], k as nat)) + Seq::new(
        sels.len(),
        |k: int| select_field(html, sels[k], k as nat),
    )
}

/// A submit candidate: by its id when it has one, else by `fallback`.
pub open spec fn submit_choice(x: Option<Seq<char>>, fallback: Seq<char>) -> Seq<char> {
    match x {
        Some(id) => "#"@ + id,
        None => fallback,
    }
}

/// The submit button of the `i`-th form: its first `input[type='submit']`, else
/// its first `button[type='submit']`, else its first `button`.
pub open spec fn submit_of(html: Seq<char>, i: nat) -> Option<Seq<char>> {
    match html_form_first_id(html, i, "input[type='submit']"@) {
        Some(x) => Some(submit_choice(x, "input[type='submit']"@)),
        None => match html_form_first_id(html, i, "button[type='submit']"@) {
            Some(x) => Some(submit_choice(x, "button[type='submit']"@)),
            None => match html_form_first_id(html, i, "button"@) {
                Some(x) => Some(submit_choice(x, "button"@)),
                None => None,
            },
        },
    }
}

/// The description of the `i`-th form of a page.
pub open spec fn form_of(html: Seq<char>, i: nat) -> FormView {
    let fields = form_fields(html, i);
    let action = html_form_attr(html, i, "action"@);
    (
        "form:nth-of-type("@ + decimal(i + 1) + ")"@,
        form_purpose(fields.map_values(|f: FieldView| f.1), action),
        fields,
        submit_of(html, i),
        action,
        uppercased(
            match html_form_attr(html, i, "method"@) {
                Some(m) => m,
                None => "get"@,
            },
        ),
    )
}

/// A text with its surrounding whitespace removed.
fn trimmed(t: &str) -> (r: String)
    ensures
        r@ == trim(t@),
{
    let v = chars_of(t);
    let w = trim_exec(&v);
    string_of(w.as_slice())
}

/// `#id`, or the selector for a name.
fn hash_id(id: &str) -> (r: String)
    ensures
        r@ == "#"@ + id@,
{
    let mut s = "#".to_owned();
    push_str(&mut s, id);
    s
}

/// `tag[name='name']`.
fn by_name(tag: &str, name: &str) -> (r: String)
    ensures
        r@ == tag@ + "[name='"@ + name@ + "']"@,
{
    let mut s = tag.to_owned();
    push_str(&mut s, "[name='");
    push_str(&mut s, name);
    push_str(&mut s, "']");
    s
}

fn copy_opt(o: &Option<String>) -> (r: Option<String>)
    ensures
        opt_chars(r) == opt_chars(*o),
{
    match o {
        Some(t) => Some(t.clone()),
        None => None,
    }
}

impl FormAnalyzer {
    /// Find the label of a field; see [`field_label`].
    fn find_label(html: &str, id: &Option<String>, name: &Option<String>) -> (r: Option<String>)
        ensures
            opt_chars(r) == field_label(html@, opt_chars(*id), opt_chars(*name)),
    {
        proof {
            lemma_form_selectors_safe();
        }
        if let Some(i) = id {
            if !is_quotable(i.as_str()) {
                return None;
            }
            proof {
                lemma_quoted_selector_safe("label[for='"@, i@, "']"@);
            }
            match first_text(html, framed("label[for='", i.as_str(), "']").as_str()) {
                Err(_) => return None,
                Ok(Some(t)) => return Some(trimmed(t.as_str())),
                Ok(None) => {},
            }
        }
        match name {
            Some(n) => {
                if !is_quotable(n.as_str()) {
                    return None;
                }
                proof {
                    lemma_quoted_selector_safe("input[name='"@, n@, "']"@);
                }
                let ls = texts_holding(html, "label", framed("input[name='", n.as_str(), "']").as_str());
                let ghost lv = ls@.map_values(|p: (String, bool)| (p.0@, p.1));
                let mut k: usize = 0;
                assert(lv.subrange(0, lv.len() as int) =~= lv);
                while k < ls.len()
                    invariant
                        k <= ls@.len(),
                        lv == ls@.map_values(|p: (String, bool)| (p.0@, p.1)),
                        first_labelled(lv) == first_labelled(lv.subrange(k as int, lv.len() as int)),
                        field_label(html@, opt_chars(*id), opt_chars(*name)) == match first_labelled(lv) {
                            Some(t) => Some(trim(t)),
                            None => None,
                        },
                    decreases ls.len() - k,
                {
                    let ghost rest = lv.subrange(k as int, lv.len() as int);
                    assert(rest.drop_first() =~= lv.subrange(k + 1, lv.len() as int));
                    assert(rest[0] == lv[k as int]);
                    assert(lv[k as int] == (ls@[k as int].0@, ls@[k as int].1));
                    if ls[k].1 {
                        return Some(trimmed(ls[k].0.as_str()));
                    }
                    k = k + 1;
                }
                assert(lv.subrange(k as int, lv.len() as int).len() == 0);
                None
            },
            None => None,
        }
    }

    /// The selector of a field; see [`located`].
    fn locate(tag: &str, id: &Option<String>, name: &Option<String>, index: usize) -> (r: String)
        requires
            index < usize::MAX,
        ensures
            r@ == located(tag@, opt_chars(*id), opt_chars(*name), index as nat),
    {
        match id {
            Some(i) => hash_id(i.as_str()),
            None => match name {
                Some(n) => by_name(tag, n.as_str()),
                None => {
                    let mut s = tag.to_owned();
                    push_str(&mut s, ":nth-of-type(");
                    push_str(&mut s, decimal_string(index + 1).as_str());
                    push_str(&mut s, ")");
                    s
                },
            },
        }
    }

    /// The alternative selectors of a field; see [`alternatives_of`].
    fn alternatives(tag: &str, id: &Option<String>, name: &Option<String>, bare_name: bool) -> (r: Vec<String>)
        ensures
            r@.map_values(|a: String| a@) == alternatives_of(tag@, opt_chars(*id), opt_chars(*name), bare_name),
    {
        let mut alts: Vec<String> = Vec::new();
        if let Some(i) = id {
            alts.push(hash_id(i.as_str()));
        }
        if let Some(n) = name {
            alts.push(by_name(tag, n.as_str()));
            if bare_name {
                alts.push(by_name("", n.as_str()));
            }
        }
        proof {
            reveal_strlit("");
            assert(alts@.map_values(|a: String| a@) =~= alternatives_of(tag@, opt_chars(*id), opt_chars(*name), bare_name));
        }
        alts
    }

    /// The field of an input element, unless it is a button.
    fn analyze_input(html: &str, input: &RawControl, index: usize) -> (r: Option<FieldDescription>)
        requires
            index < usize::MAX,
        ensures
            match r {
                Some(f) => input_field(html@, control_view(*input), index as nat) == Some(field_view(f)),
                None => input_field(html@, control_view(*input), index as nat) is None,
            },
    {
        let input_type = match &input.type_attr {
            Some(t) => t.clone(),
            None => "text".to_owned(),
        };
        let t = input_type.as_str();
        if str_eq(t, "submit") || str_eq(t, "button") || str_eq(t, "reset") || str_eq(t, "image") {
            return None;
        }
        let field_type = FieldType::from_input_type(t);
        let selector = Self::locate("input", &input.id, &input.name, index);
        let label = Self::find_label(html, &input.id, &input.name);
        let alternatives = Self::alternatives("input", &input.id, &input.name, true);
        Some(
            FieldDescription {
                selector,
                field_type,
                label,
                placeholder: copy_opt(&input.placeholder),
                name: copy_opt(&input.name),
                id: copy_opt(&input.id),
                required: input.required,
                alternatives,
            },
        )
    }

    /// The field of a textarea element.
    fn analyze_textarea(html: &str, textarea: &RawControl, index: usize) -> (r: FieldDescription)
        requires
            index < usize::MAX,
        ensures
            field_view(r) == textarea_field(html@, control_view(*textarea), index as nat),
    {
        FieldDescription {
            selector: Self::locate("textarea", &textarea.id, &textarea.name, index),
            field_type: FieldType::Textarea,
            label: Self::find_label(html, &textarea.id, &textarea.name),
            placeholder: copy_opt(&textarea.placeholder),
            name: copy_opt(&textarea.name),
            id: copy_opt(&textarea.id),
            required: textarea.required,
            alternatives: Self::alternatives("textarea", &textarea.id, &textarea.name, false),
        }
    }

    /// The field of a select element.
    fn analyze_select(html: &str, select: &RawControl, index: usize) -> (r: FieldDescription)
        requires
            index < usize::MAX,
        ensures
            field_view(r) == select_field(html@, control_view(*select), index as nat),
    {
        FieldDescription {
            selector: Self::locate("select", &select.id, &select.name, index),
            field_type: FieldType::Select,
            label: Self::find_label(html, &select.id, &select.name),
            placeholder: None,
            name: copy_opt(&select.name),
            id: copy_opt(&select.id),
            required: select.required,
            alternatives: Self::alternatives("select", &select.id, &select.name, false),
        }
    }

    /// The fields of the `i`-th form; see [`form_fields`].
    fn discover_fields(html: &str, i: usize) -> (r: Vec<FieldDescription>)
        ensures
            r@.map_values(|f: FieldDescription| field_view(f)) == form_fields(html@, i as nat),
    {
        proof {
            lemma_form_selectors_safe();
        }
        let inputs = form_controls(html, i, "input");
        let textareas = form_controls(html, i, "textarea");
        let selects = form_controls(html, i, "select");
        let ghost ins = inputs@.map_values(|c: RawControl| control_view(c));
        let ghost tas = textareas@.map_values(|c: RawControl| control_view(c));
        let ghost sels = selects@.map_values(|c: RawControl| control_view(c));
        let mut fields: Vec<FieldDescription> = Vec::new();
        let mut j: usize = 0;
        while j < inputs.len()
            invariant
                j <= inputs@.len(),
                ins == inputs@.map_values(|c: RawControl| control_view(c)),
                fields@.map_values(|f: FieldDescription| field_view(f)) == input_fields(html@, ins, j as nat),
            decreases inputs.len() - j,
        {
            if let Some(f) = Self::analyze_input(html, &inputs[j], j) {
                fields.push(f);
            }
            proof {
                assert(fields@.map_values(|f: FieldDescription| field_view(f)) =~= input_fields(html@, ins, (j + 1) as nat));
            }
            j = j + 1;
        }
        let ghost n_in = fields@.len();
        let mut k: usize = 0;
        while k < textareas.len()
            invariant
                k <= textareas@.len(),
                tas == textareas@.map_values(|c: RawControl| control_view(c)),
                n_in == input_fields(html@, ins, ins.len()).len(),
                fields@.map_values(|f: FieldDescription| field_view(f)) == input_fields(html@, ins, ins.len())
                    + Seq::new(k as nat, |x: int| textarea_field(html@, tas[x], x as nat)),
            decreases textareas.len() - k,
        {
            let f = Self::analyze_textarea(html, &textareas[k], k);
            let ghost before = fields@.map_values(|f: FieldDescription| field_view(f));
            let ghost fv = field_view(f);
            fields.push(f);
            proof {
                let a = input_fields(html@, ins, ins.len());
                let g = |x: int| textarea_field(html@, tas[x], x as nat);
                assert(fields@.map_values(|f: FieldDescription| field_view(f)) =~= before.push(fv));
                assert(a + Seq::new((k + 1) as nat, g) =~= (a + Seq::new(k as nat, g)).push(g(k as int)));
            }
            k = k + 1;
        }
        let mut m: usize = 0;
        while m < selects.len()
            invariant
                m <= selects@.len(),
                sels == selects@.map_values(|c: RawControl| control_view(c)),
                fields@.map_values(|f: FieldDescription| field_view(f)) == input_fields(html@, ins, ins.len())
                    + Seq::new(tas.len(), |x: int| textarea_field(html@, tas[x], x as nat)) + Seq::new(
                    m as nat,
                    |x: int| select_field(html@, sels[x], x as nat),
                ),
            decreases selects.len() - m,
        {
            let f = Self::analyze_select(html, &selects[m], m);
            let ghost before = fields@.map_values(|f: FieldDescription| field_view(f));
            let ghost fv = field_view(f);
            fields.push(f);
            proof {
                let a = input_fields(html@, ins, ins.len()) + Seq::new(tas.len(), |x: int| textarea_field(html@, tas[x], x as nat));
                let g = |x: int| select_field(html@, sels[x], x as nat);
                assert(fields@.map_values(|f: FieldDescription| field_view(f)) =~= before.push(fv));
                assert(a + Seq::new((m + 1) as nat, g) =~= (a + Seq::new(m as nat, g)).push(g(m as int)));
            }
            m = m + 1;
        }
        fields
    }

    /// The submit button of the `i`-th form; see [`submit_of`].
    fn find_submit_button(html: &str, i: usize) -> (r: Option<String>)
        ensures
            opt_chars(r) == submit_of(html@, i as nat),
    {
        proof {
            lemma_form_selectors_safe();
        }
        if let Some(x) = form_first_id(html, i, "input[type='submit']") {
            return Some(
                match x {
                    Some(id) => hash_id(id.as_str()),
                    None => "input[type='submit']".to_owned(),
                },
            );
        }
        if let Some(x) = form_first_id(html, i, "button[type='submit']") {
            return Some(
                match x {
                    Some(id) => hash_id(id.as_str()),
                    None => "button[type='submit']".to_owned(),
                },
            );
        }
        if let Some(x) = form_first_id(html, i, "button") {
            return Some(
                match x {
                    Some(id) => hash_id(id.as_str()),
                    None => "button".to_owned(),
                },
            );
        }
        None
    }

    /// The description of the `i`-th form; see [`form_of`].
    fn analyze_form_element(html: &str, i: usize) -> (r: FormDescription)
        requires
            i < usize::MAX,
        ensures
            form_view(r) == form_of(html@, i as nat),
    {
        let mut selector = "form:nth-of-type(".to_owned();
        push_str(&mut selector, decimal_string(i + 1).as_str());
        push_str(&mut selector, ")");
        let action = form_attr(html, i, "action");
        let method = match form_attr(html, i, "method") {
            Some(m) => to_upper(m.as_str()),
            None => to_upper("get"),
        };
        let fields = Self::discover_fields(html, i);
        let mut types: Vec<FieldType> = Vec::new();
        let mut k: usize = 0;
        while k < fields.len()
            invariant
                k <= fields@.len(),
                types@ == fields@.take(k as int).map_values(|f: FieldDescription| f.field_type),
            decreases fields.len() - k,
        {
            types.push(fields[k].field_type);
            assert(fields@.take(k + 1).map_values(|f: FieldDescription| f.field_type) =~= types@);
            k = k + 1;
        }
        proof {
            assert(fields@.take(fields@.len() as int) =~= fields@);
            assert(types@ =~= fields@.map_values(|f: FieldDescription| field_view(f)).map_values(|f: FieldView| f.1));
        }
        let purpose = match &action {
            Some(a) => Self::detect_purpose(types.as_slice(), Some(a.as_str())),
            None => Self::detect_purpose(types.as_slice(), None),
        };
        let submit_button = Self::find_submit_button(html, i);
        FormDescription { selector, purpose, fields, submit_button, action, method }
    }

    /// Analyze HTML to discover forms, in document order.
    pub fn analyze_html(html: &str) -> (r: Vec<FormDescription>)
        ensures
            r@.map_values(|f: FormDescription| form_view(f)) == Seq::new(
                html_form_count(html@),
                |i: int| form_of(html@, i as nat),
            ),
    {
        let n = form_count(html);
        let mut forms: Vec<FormDescription> = Vec::new();
        let mut i: usize = 0;
        while i < n
            invariant
                i <= n,
                n == html_form_count(html@),
                forms@.map_values(|f: FormDescription| form_view(f)) == Seq::new(i as nat, |x: int| form_of(html@, x as nat)),
            decreases n - i,
        {
            let f = Self::analyze_form_element(html, i);
            let ghost before = forms@.map_values(|f: FormDescription| form_view(f));
            let ghost fv = form_view(f);
            forms.push(f);
            proof {
                let g = |x: int| form_of(html@, x as nat);
                assert(forms@.map_values(|f: FormDescription| form_view(f)) =~= before.push(fv));
                assert(Seq::new((i + 1) as nat, g) =~= Seq::new(i as nat, g).push(g(i as int)));
            }
            i = i + 1;
        }
        forms
    }
}

/// The fields of `fields` with type `t`, in order.
pub open spec fn fields_with(fields: Seq<FieldDescription>, t: FieldType) -> Seq<FieldDescription>
    decreases fields.len(),
{
    if fields.len() == 0 {
        Seq::empty()
    } else {
        let prev = fields_with(fields.drop_last(), t);
        if fields.last().field_type == t {
            prev.push(fields.last())
        } else {
            prev
        }
    }
}

impl FormDescription {
    /// All fields of a type, in order.
    pub fn fields_by_type(&self, field_type: FieldType) -> (r: Vec<&FieldDescription>)
        ensures
            r@.map_values(|f: &FieldDescription| *f) == fields_with(self.fields@, field_type),
    {
        let mut out: Vec<&FieldDescription> = Vec::new();
        let mut i: usize = 0;
        while i < self.fields.len()
            invariant
                i <= self.fields@.len(),
                out@.map_values(|f: &FieldDescription| *f) == fields_with(self.fields@.take(i as int), field_type),
            decreases self.fields.len() - i,
        {
            proof {
                assert(self.fields@.take(i + 1).drop_last() =~= self.fields@.take(i as int));
            }
            if self.fields[i].field_type == field_type {
                out.push(&self.fields[i]);
            }
            proof {
                assert(out@.map_values(|f: &FieldDescription| *f) =~= fields_with(self.fields@.take(i + 1), field_type));
            }
            i = i + 1;
        }
        assert(self.fields@.take(self.fields@.len() as int) =~= self.fields@);
        out
    }
}

} // verus!
