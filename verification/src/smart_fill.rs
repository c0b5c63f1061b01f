//! Smart form filling: matching form-field labels to the keys of a user profile,
//! choosing select options and yes/no answers, and tallying what was filled.

use vstd::prelude::*;
use crate::act::FormFieldError;
use crate::error::{tivana_error_text, TivanaError};
use crate::json::{entry_lookup, find_entry, JsonValue};
use crate::perceive::{opt_view, FormField, SelectOption};
use crate::text::{
    chars_eq, chars_of, contains_chars, lowercase, seq_contains, str_contains, str_eq,
    to_lowercase,
};

verus! {

/// The text a profile value fills in: strings as they are, numbers by their
/// floating-point text, booleans as "Yes" or "No"; other values have none.
pub open spec fn value_text(v: JsonValue) -> Option<Seq<char>> {
    match v {
        JsonValue::Str(s) => Some(s@),
        JsonValue::Number(n) => Some(n.float_text@),
        JsonValue::Bool(b) => Some(
            if b {
                "Yes"@
            } else {
                "No"@
            },
        ),
        _ => None,
    }
}

/// Two names overlap when either contains the other.
pub open spec fn names_overlap(a: Seq<char>, b: Seq<char>) -> bool {
    seq_contains(a, b) || seq_contains(b, a)
}

/// The first profile entry whose (lowercased) key overlaps `label` and whose value has
/// a text: its original key and that text.
pub open spec fn direct_match(
    label: Seq<char>,
    keys: Seq<Seq<char>>,
    profile: Seq<(String, JsonValue)>,
) -> Option<(Seq<char>, Seq<char>)>
    decreases profile.len(),
{
    if profile.len() == 0 || keys.len() == 0 {
        None
    } else if names_overlap(label, keys[0]) && value_text(profile[0].1) is Some {
        Some((profile[0].0@, value_text(profile[0].1).unwrap()))
    } else {
        direct_match(label, keys.drop_first(), profile.drop_first())
    }
}

/// The label patterns and profile keys of the built-in mapping table, in order.
pub open spec fn mapping_table() -> Seq<(Seq<Seq<char>>, Seq<char>)> {
    seq![
        (seq!["first name"@, "first_name"@, "firstname"@, "given name"@, "fname"@], "firstName"@),
        (
            seq!["last name"@, "last_name"@, "lastname"@, "surname"@, "family name"@, "lname"@],
            "lastName"@,
        ),
        (seq!["full name"@, "full_name"@, "fullname"@, "your name"@], "fullName"@),
        (seq!["email"@, "e-mail"@, "email address"@], "email"@),
        (
            seq!["phone"@, "telephone"@, "tel"@, "phone number"@, "mobile"@, "cell"@],
            "phone"@,
        ),
        (seq!["city"@, "town"@], "city"@),
        (seq!["state"@, "province"@, "region"@], "state"@),
        (
            seq!["zip"@, "zip code"@, "zipcode"@, "postal code"@, "postal"@, "postcode"@],
            "zip"@,
        ),
        (seq!["address"@, "street address"@, "street"@, "address line"@], "address"@),
        (
            seq![
                "years of experience"@,
                "years experience"@,
                "experience"@,
                "yrs experience"@,
                "years_experience"@,
            ],
            "yearsExperience"@,
        ),
        (
            seq![
                "salary"@,
                "expected salary"@,
                "desired salary"@,
                "compensation"@,
                "salary expectation"@,
            ],
            "salary"@,
        ),
        (seq!["linkedin"@, "linkedin url"@, "linkedin profile"@], "linkedIn"@),
        (seq!["github"@, "github url"@, "github profile"@], "github"@),
        (
            seq!["current title"@, "job title"@, "title"@, "position"@, "role"@],
            "currentTitle"@,
        ),
        (
            seq![
                "current company"@,
                "company"@,
                "employer"@,
                "organization"@,
                "company name"@,
            ],
            "currentCompany"@,
        ),
        (
            seq!["education"@, "degree"@, "school"@, "university"@, "highest education"@],
            "education"@,
        ),
        (
            seq![
                "authorized"@,
                "work authorization"@,
                "authorized to work"@,
                "legally authorized"@,
                "eligible to work"@,
            ],
            "authorized"@,
        ),
        (
            seq![
                "sponsorship"@,
                "visa sponsorship"@,
                "require sponsorship"@,
                "need sponsorship"@,
            ],
            "sponsorship"@,
        ),
        (
            seq![
                "start date"@,
                "available start"@,
                "earliest start"@,
                "availability"@,
                "date available"@,
            ],
            "startDate"@,
        ),
        (seq!["website"@, "portfolio"@, "personal website"@, "url"@], "website"@),
        (seq!["cover letter"@, "cover_letter"@], "coverLetter"@),
        (seq!["summary"@, "about"@, "bio"@, "about yourself"@], "summary"@),
        (seq!["country"@, "nationality"@], "country"@),
    ]
}

/// Whether some pattern overlaps the label.
pub open spec fn any_pattern_overlaps(label: Seq<char>, patterns: Seq<Seq<char>>) -> bool {
    exists|j: int| 0 <= j < patterns.len() && names_overlap(label, #[trigger] patterns[j])
}

/// The first row of the mapping table, from row `i` on, whose patterns overlap the label
/// and whose profile key holds a value with a text: that key and text.
pub open spec fn table_match(label: Seq<char>, profile: Seq<(String, JsonValue)>, i: int) -> Option<
    (Seq<char>, Seq<char>),
>
    decreases mapping_table().len() - i,
{
    if i < 0 || i >= mapping_table().len() {
        None
    } else {
        let row = mapping_table()[i];
        if any_pattern_overlaps(label, row.0) && entry_lookup(profile, row.1) is Some
            && value_text(entry_lookup(profile, row.1).unwrap()) is Some {
            Some((row.1, value_text(entry_lookup(profile, row.1).unwrap()).unwrap()))
        } else {
            table_match(label, profile, i + 1)
        }
    }
}

/// The profile key and value text that a (lowercased) label is matched to: first a
/// direct overlap with a profile key, then the mapping table, then a direct overlap
/// with the field's lowercased name or id, when that is not empty and differs from the
/// label.
pub open spec fn profile_match(
    label: Seq<char>,
    keys: Seq<Seq<char>>,
    profile: Seq<(String, JsonValue)>,
    alt: Seq<char>,
) -> Option<(Seq<char>, Seq<char>)> {
    if direct_match(label, keys, profile) is Some {
        direct_match(label, keys, profile)
    } else if table_match(label, profile, 0) is Some {
        table_match(label, profile, 0)
    } else if alt.len() > 0 && alt != label {
        direct_match(alt, keys, profile)
    } else {
        None
    }
}

/// The lowercased keys of a profile.
pub open spec fn lowered_keys(profile: Seq<(String, JsonValue)>) -> Seq<Seq<char>> {
    profile.map_values(|e: (String, JsonValue)| lowercase(e.0@))
}

/// The name a field is matched by when its label is not used: its name, else its id,
/// else nothing.
pub open spec fn alt_name(field: FormField) -> Seq<char> {
    match field.name {
        Some(n) => n@,
        None => match field.id {
            Some(i) => i@,
            None => Seq::empty(),
        },
    }
}

/// The text of a profile value, if it has one.
pub fn text_of_value(v: &JsonValue) -> (r: Option<String>)
    ensures
        opt_view(r) == value_text(*v),
{
    match v {
        JsonValue::Str(s) => Some(s.clone()),
        JsonValue::Number(n) => Some(n.float_text.clone()),
        JsonValue::Bool(b) => Some(
            if *b {
                String::from_str("Yes")
            } else {
                String::from_str("No")
            },
        ),
        _ => None,
    }
}

fn overlap(a: &Vec<char>, b: &Vec<char>) -> (r: bool)
    ensures
        r == names_overlap(a@, b@),
{
    contains_chars(a, b) || contains_chars(b, a)
}

/// The first profile entry whose lowercased key overlaps `label` and whose value has a
/// text.
pub fn direct_profile_match(
    label: &Vec<char>,
    keys: &Vec<Vec<char>>,
    profile: &Vec<(String, JsonValue)>,
) -> (r: Option<(String, String)>)
    requires
        keys@.len() == profile@.len(),
    ensures
        match r {
            Some((k, t)) => direct_match(label@, keys@.map_values(|c: Vec<char>| c@), profile@)
                == Some((k@, t@)),
            None => direct_match(label@, keys@.map_values(|c: Vec<char>| c@), profile@) is None,
        },
{
    let ghost kv = keys@.map_values(|c: Vec<char>| c@);
    let mut i: usize = 0;
    assert(kv.skip(0) =~= kv);
    assert(profile@.skip(0) =~= profile@);
    while i < profile.len()
        invariant
            i <= profile@.len(),
            keys@.len() == profile@.len(),
            kv == keys@.map_values(|c: Vec<char>| c@),
            direct_match(label@, kv, profile@) == direct_match(
                label@,
                kv.skip(i as int),
                profile@.skip(i as int),
            ),
        decreases profile.len() - i,
    {
        assert(kv.skip(i as int).drop_first() =~= kv.skip(i + 1));
        assert(profile@.skip(i as int).drop_first() =~= profile@.skip(i + 1));
        assert(kv.skip(i as int)[0] == keys@[i as int]@);
        assert(profile@.skip(i as int)[0] == profile@[i as int]);
        if overlap(label, &keys[i]) {
            match text_of_value(&profile[i].1) {
                Some(t) => {
                    return Some((profile[i].0.clone(), t));
                },
                None => {},
            }
        }
        i = i + 1;
    }
    None
}

/// One row of the mapping table: its label patterns and its profile key.
fn mapping_row(i: usize) -> (r: (Vec<&'static str>, &'static str))
    requires
        i < mapping_table().len(),
    ensures
        r.0@.map_values(|s: &str| s@) == mapping_table()[i as int].0,
        r.1@ == mapping_table()[i as int].1,
{
    let r = match i {
        0 => (vec!["first name", "first_name", "firstname", "given name", "fname"], "firstName"),
        1 => (
            vec!["last name", "last_name", "lastname", "surname", "family name", "lname"],
            "lastName",
        ),
        2 => (vec!["full name", "full_name", "fullname", "your name"], "fullName"),
        3 => (vec!["email", "e-mail", "email address"], "email"),
        4 => (vec!["phone", "telephone", "tel", "phone number", "mobile", "cell"], "phone"),
        5 => (vec!["city", "town"], "city"),
        6 => (vec!["state", "province", "region"], "state"),
        7 => (vec!["zip", "zip code", "zipcode", "postal code", "postal", "postcode"], "zip"),
        8 => (vec!["address", "street address", "street", "address line"], "address"),
        9 => (
            vec![
                "years of experience",
                "years experience",
                "experience",
                "yrs experience",
                "years_experience",
            ],
            "yearsExperience",
        ),
        10 => (
            vec![
                "salary",
                "expected salary",
                "desired salary",
                "compensation",
                "salary expectation",
            ],
            "salary",
        ),
        11 => (vec!["linkedin", "linkedin url", "linkedin profile"], "linkedIn"),
        12 => (vec!["github", "github url", "github profile"], "github"),
        13 => (vec!["current title", "job title", "title", "position", "role"], "currentTitle"),
        14 => (
            vec!["current company", "company", "employer", "organization", "company name"],
            "currentCompany",
        ),
        15 => (
            vec!["education", "degree", "school", "university", "highest education"],
            "education",
        ),
        16 => (
            vec![
                "authorized",
                "work authorization",
                "authorized to work",
                "legally authorized",
                "eligible to work",
            ],
            "authorized",
        ),
        17 => (
            vec!["sponsorship", "visa sponsorship", "require sponsorship", "need sponsorship"],
            "sponsorship",
        ),
        18 => (
            vec![
                "start date",
                "available start",
                "earliest start",
                "availability",
                "date available",
            ],
            "startDate",
        ),
        19 => (vec!["website", "portfolio", "personal website", "url"], "website"),
        20 => (vec!["cover letter", "cover_letter"], "coverLetter"),
        21 => (vec!["summary", "about", "bio", "about yourself"], "summary"),
        _ => (vec!["country", "nationality"], "country"),
    };
    assert(r.0@.map_values(|s: &str| s@) =~= mapping_table()[i as int].0);
    r
}

/// Whether some pattern of a mapping row overlaps the label.
fn row_overlaps(label: &Vec<char>, patterns: &Vec<&'static str>) -> (r: bool)
    ensures
        r == any_pattern_overlaps(label@, patterns@.map_values(|s: &str| s@)),
{
    let ghost ps = patterns@.map_values(|s: &str| s@);
    let mut j: usize = 0;
    while j < patterns.len()
        invariant
            j <= patterns@.len(),
            ps == patterns@.map_values(|s: &str| s@),
            forall|k: int| 0 <= k < j ==> !names_overlap(label@, #[trigger] ps[k]),
        decreases patterns.len() - j,
    {
        let p = chars_of(patterns[j]);
        if overlap(label, &p) {
            assert(names_overlap(label@, ps[j as int]));
            return true;
        }
        j = j + 1;
    }
    false
}

/// The first row of the mapping table whose patterns overlap the label and whose
/// profile key holds a value with a text.
fn table_profile_match(label: &Vec<char>, profile: &Vec<(String, JsonValue)>) -> (r: Option<
    (String, String),
>)
    ensures
        match r {
            Some((k, t)) => table_match(label@, profile@, 0) == Some((k@, t@)),
            None => table_match(label@, profile@, 0) is None,
        },
{
    assert(mapping_table().len() == 23);
    let mut i: usize = 0;
    while i < 23
        invariant
            i <= 23,
            mapping_table().len() == 23,
            table_match(label@, profile@, 0) == table_match(label@, profile@, i as int),
        decreases 23 - i,
    {
        let (patterns, key) = mapping_row(i);
        if row_overlaps(label, &patterns) {
            match find_entry(profile, key) {
                Some(v) => {
                    match text_of_value(v) {
                        Some(t) => {
                            return Some((String::from_str(key), t));
                        },
                        None => {},
                    }
                },
                None => {},
            }
        }
        i = i + 1;
    }
    None
}

/// Matches a lowercased label to a profile entry, given the profile's lowercased keys
/// and the field's lowercased name or id.
pub fn match_profile(
    label: &Vec<char>,
    keys: &Vec<Vec<char>>,
    profile: &Vec<(String, JsonValue)>,
    alt: &Vec<char>,
) -> (r: Option<(String, String)>)
    requires
        keys@.len() == profile@.len(),
    ensures
        match r {
            Some((k, t)) => profile_match(
                label@,
                keys@.map_values(|c: Vec<char>| c@),
                profile@,
                alt@,
            ) == Some((k@, t@)),
            None => profile_match(label@, keys@.map_values(|c: Vec<char>| c@), profile@, alt@)
                is None,
        },
{
    match direct_profile_match(label, keys, profile) {
        Some(m) => {
            return Some(m);
        },
        None => {},
    }
    match table_profile_match(label, profile) {
        Some(m) => {
            return Some(m);
        },
        None => {},
    }
    if alt.len() > 0 && !chars_eq(alt, label) {
        direct_profile_match(alt, keys, profile)
    } else {
        None
    }
}

/// The lowercased keys of a profile, as characters.
fn lowered_key_chars(profile: &Vec<(String, JsonValue)>) -> (keys: Vec<Vec<char>>)
    ensures
        keys@.len() == profile@.len(),
        keys@.map_values(|c: Vec<char>| c@) == lowered_keys(profile@),
{
    let mut keys: Vec<Vec<char>> = Vec::new();
    let mut i: usize = 0;
    while i < profile.len()
        invariant
            i <= profile@.len(),
            keys@.len() == i,
            forall|k: int| 0 <= k < i ==> #[trigger] keys@[k]@ == lowercase(profile@[k].0@),
        decreases profile.len() - i,
    {
        let lowered = to_lowercase(profile[i].0.as_str());
        keys.push(chars_of(lowered.as_str()));
        i = i + 1;
    }
    assert(keys@.map_values(|c: Vec<char>| c@) =~= lowered_keys(profile@));
    keys
}

/// The field's name, else its id, else the empty string.
fn alt_name_of(field: &FormField) -> (s: &str)
    ensures
        s@ == alt_name(*field),
{
    match &field.name {
        Some(n) => n.as_str(),
        None => match &field.id {
            Some(i) => i.as_str(),
            None => {
                proof {
                    reveal_strlit("");
                }
                ""
            },
        },
    }
}

/// Match a field label to a profile key using fuzzy matching. `label` is the field's
/// lowercased label; the result is the profile key and the text to fill in.
pub fn match_label_to_profile_key(
    label: &str,
    profile: &Vec<(String, JsonValue)>,
    field: &FormField,
) -> (r: Option<(String, String)>)
    ensures
        match r {
            Some((k, t)) => profile_match(
                label@,
                lowered_keys(profile@),
                profile@,
                lowercase(alt_name(*field)),
            ) == Some((k@, t@)),
            None => profile_match(
                label@,
                lowered_keys(profile@),
                profile@,
                lowercase(alt_name(*field)),
            ) is None,
        },
{
    let keys = lowered_key_chars(profile);
    let label_chars = chars_of(label);
    let alt_lower = to_lowercase(alt_name_of(field));
    let alt_chars = chars_of(alt_lower.as_str());
    match_profile(&label_chars, &keys, profile, &alt_chars)
}

/// A field that was successfully matched and filled
#[derive(Debug)]
pub struct SmartFillMatch {
    pub tivana_id: String,
    pub label: String,
    pub profile_key: String,
    pub value: String,
}

/// A field that could not be matched
#[derive(Debug)]
pub struct SmartFillSkip {
    pub tivana_id: Option<String>,
    pub label: Option<String>,
    pub reason: String,
}

/// Result of a smart form fill operation
#[derive(Debug)]
pub struct SmartFillResult {
    pub fields_filled: Vec<SmartFillMatch>,
    pub fields_skipped: Vec<SmartFillSkip>,
    pub total_fields: usize,
    pub filled_count: usize,
    pub duration_ms: u64,
    pub errors: Vec<FormFieldError>,
}

/// How a matched field is filled.
#[derive(Debug)]
pub enum FillAction {
    /// Set a select element to the option with this value; with no matching option
    /// the fill fails.
    Select { option_value: Option<String> },
    /// Click the radio button of the group that answers yes (or no).
    Radio { affirmative: bool, value_lower: String },
    /// Click the checkbox when its state must change.
    Checkbox { toggle: bool },
    /// Click the input and type the value, clearing it first.
    Text,
}

/// What smart fill does with one form field.
#[derive(Debug)]
pub enum FieldPlan {
    /// Hidden, disabled, or a reCAPTCHA field that is skipped silently.
    Pass,
    /// Reported as skipped.
    Skip(SmartFillSkip),
    /// Filled with a profile value.
    Fill { fill: SmartFillMatch, action: FillAction },
}

/// The label a field is matched by: its label, else its name, else its id, else "".
pub open spec fn field_label(field: FormField) -> Seq<char> {
    match field.label {
        Some(l) => l@,
        None => alt_name(field),
    }
}

/// The field's input type, or "" when it has none.
pub open spec fn field_type(field: FormField) -> Seq<char> {
    match field.input_type {
        Some(t) => t@,
        None => Seq::empty(),
    }
}

/// Whether the field's name mentions reCAPTCHA, in any case.
pub open spec fn is_recaptcha_field(field: FormField) -> bool {
    match field.name {
        Some(n) => seq_contains(lowercase(n@), "recaptcha"@),
        None => false,
    }
}

/// The profile key and text that a field is matched to.
pub open spec fn field_match(field: FormField, profile: Seq<(String, JsonValue)>) -> Option<
    (Seq<char>, Seq<char>),
> {
    profile_match(
        lowercase(field_label(field)),
        lowered_keys(profile),
        profile,
        lowercase(alt_name(field)),
    )
}

/// The (lowercased) answers that count as yes.
pub open spec fn is_affirmative_text(s: Seq<char>) -> bool {
    s == "true"@ || s == "yes"@ || s == "1"@ || s == "y"@
}

/// An option whose value or text equals the (lowercased) wanted value, ignoring case.
pub open spec fn option_exact(o: SelectOption, v: Seq<char>) -> bool {
    lowercase(o.value@) == v || lowercase(o.text@) == v
}

/// An option whose text contains or is contained in the wanted value, or whose value
/// contains it, ignoring case.
pub open spec fn option_fuzzy(o: SelectOption, v: Seq<char>) -> bool {
    seq_contains(lowercase(o.text@), v) || seq_contains(v, lowercase(o.text@)) || seq_contains(
        lowercase(o.value@),
        v,
    )
}

/// The index of the first option, from `from` on, that matches exactly (or fuzzily).
pub open spec fn first_option(opts: Seq<SelectOption>, v: Seq<char>, from: int, exact: bool) -> Option<
    int,
>
    decreases opts.len() - from,
{
    if from < 0 || from >= opts.len() {
        None
    } else if (if exact {
        option_exact(opts[from], v)
    } else {
        option_fuzzy(opts[from], v)
    }) {
        Some(from)
    } else {
        first_option(opts, v, from + 1, exact)
    }
}

/// The best option for a lowercased value: the first exact match, else the first
/// fuzzy one.
pub open spec fn best_option(opts: Seq<SelectOption>, v: Seq<char>) -> Option<int> {
    if first_option(opts, v, 0, true) is Some {
        first_option(opts, v, 0, true)
    } else {
        first_option(opts, v, 0, false)
    }
}

/// The option value a select field is set to for a profile value, if any matches.
pub open spec fn select_choice_ok(
    options: Option<Vec<SelectOption>>,
    value: Seq<char>,
    chosen: Option<String>,
) -> bool {
    match options {
        None => chosen is None,
        Some(opts) => match best_option(opts@, lowercase(value)) {
            Some(i) => chosen matches Some(c) && c@ == opts@[i].value@,
            None => chosen is None,
        },
    }
}

/// How a field is filled with a value: selects by their best option, radios and
/// checkboxes by whether the value answers yes, other inputs by typing.
pub open spec fn fill_action_ok(field: FormField, value: Seq<char>, a: FillAction) -> bool {
    if field.tag_name@ == "select"@ {
        a matches FillAction::Select { option_value } && select_choice_ok(
            field.options,
            value,
            option_value,
        )
    } else if field_type(field) == "radio"@ {
        a matches FillAction::Radio { affirmative, value_lower } && affirmative
            == is_affirmative_text(lowercase(value)) && value_lower@ == lowercase(value)
    } else if field_type(field) == "checkbox"@ {
        a matches FillAction::Checkbox { toggle } && toggle == (is_affirmative_text(
            lowercase(value),
        ) != (field.checked == Some(true)))
    } else {
        a is Text
    }
}

/// What smart fill does with a field: hidden and disabled fields pass; fields without
/// a tivana id are skipped; reCAPTCHA fields pass when asked; the rest are filled with
/// their matched profile value or skipped when nothing matches.
pub open spec fn plan_ok(
    field: FormField,
    profile: Seq<(String, JsonValue)>,
    skip_recaptcha: bool,
    plan: FieldPlan,
) -> bool {
    if !field.visible || field.disabled {
        plan is Pass
    } else if field.tivana_id is None {
        plan matches FieldPlan::Skip(s) && s.tivana_id is None && opt_view(s.label) == opt_view(
            field.label,
        ) && s.reason@ == "No tivana ID"@
    } else if skip_recaptcha && is_recaptcha_field(field) {
        plan is Pass
    } else {
        match field_match(field, profile) {
            None => plan matches FieldPlan::Skip(s) && opt_view(s.tivana_id) == opt_view(
                field.tivana_id,
            ) && opt_view(s.label) == Some(field_label(field)) && s.reason@
                == "No matching profile key"@,
            Some((k, v)) => plan matches FieldPlan::Fill { fill, action } && Some(fill.tivana_id@)
                == opt_view(field.tivana_id) && fill.label@ == field_label(field)
                && fill.profile_key@ == k && fill.value@ == v && fill_action_ok(field, v, action),
        }
    }
}

/// Whether a (lowercased) value answers yes.
pub fn is_affirmative(value_lower: &str) -> (b: bool)
    ensures
        b == is_affirmative_text(value_lower@),
{
    str_eq(value_lower, "true") || str_eq(value_lower, "yes") || str_eq(value_lower, "1")
        || str_eq(value_lower, "y")
}

fn option_matches(o: &SelectOption, v: &Vec<char>, exact: bool) -> (b: bool)
    ensures
        b == (if exact {
            option_exact(*o, v@)
        } else {
            option_fuzzy(*o, v@)
        }),
{
    let value_lower = chars_of(to_lowercase(o.value.as_str()).as_str());
    let text_lower = chars_of(to_lowercase(o.text.as_str()).as_str());
    if exact {
        chars_eq(&value_lower, v) || chars_eq(&text_lower, v)
    } else {
        contains_chars(&text_lower, v) || contains_chars(v, &text_lower) || contains_chars(
            &value_lower,
            v,
        )
    }
}

fn first_option_index(opts: &Vec<SelectOption>, v: &Vec<char>, exact: bool) -> (r: Option<usize>)
    ensures
        match r {
            Some(i) => first_option(opts@, v@, 0, exact) == Some(i as int) && i < opts@.len(),
            None => first_option(opts@, v@, 0, exact) is None,
        },
{
    let mut i: usize = 0;
    while i < opts.len()
        invariant
            i <= opts@.len(),
            first_option(opts@, v@, 0, exact) == first_option(opts@, v@, i as int, exact),
        decreases opts.len() - i,
    {
        if option_matches(&opts[i], v, exact) {
            return Some(i);
        }
        i = i + 1;
    }
    None
}

/// The value of the option a select field is set to for a profile value.
pub fn choose_select_option(options: &Option<Vec<SelectOption>>, value: &str) -> (r: Option<String>)
    ensures
        select_choice_ok(*options, value@, r),
{
    match options {
        None => None,
        Some(opts) => {
            let v = chars_of(to_lowercase(value).as_str());
            match first_option_index(opts, &v, true) {
                Some(i) => Some(opts[i].value.clone()),
                None => match first_option_index(opts, &v, false) {
                    Some(i) => Some(opts[i].value.clone()),
                    None => None,
                },
            }
        },
    }
}

proof fn lemma_first_option_found(opts: Seq<SelectOption>, v: Seq<char>, from: int, exact: bool)
    requires
        0 <= from,
    ensures
        match first_option(opts, v, from, exact) {
            Some(k) => from <= k < opts.len() && (if exact {
                option_exact(opts[k], v)
            } else {
                option_fuzzy(opts[k], v)
            }),
            None => forall|i: int|
                from <= i < opts.len() ==> !(if exact {
                    option_exact(#[trigger] opts[i], v)
                } else {
                    option_fuzzy(opts[i], v)
                }),
        },
    decreases opts.len() - from,
{
    if from < opts.len() {
        lemma_first_option_found(opts, v, from + 1, exact);
    }
}

/// Whether an option's value or text equals the wanted value, ignoring case.
pub open spec fn equals_ignoring_case(o: SelectOption, value: Seq<char>) -> bool {
    lowercase(o.value@) == lowercase(value) || lowercase(o.text@) == lowercase(value)
}

/// Whether an option resembles the wanted value, ignoring case: its text contains the
/// value or is contained in it, or its value contains it.
pub open spec fn resembles_ignoring_case(o: SelectOption, value: Seq<char>) -> bool {
    seq_contains(lowercase(o.text@), lowercase(value)) || seq_contains(lowercase(value), lowercase(o.text@))
        || seq_contains(lowercase(o.value@), lowercase(value))
}

/// A select is set to an exact match whenever there is one: when some option (the
/// `i`-th) has a value or text equal to the wanted value ignoring case, the chosen
/// value is that of the first such option, never that of a merely similar option.
pub proof fn law_exact_option_preferred(
    opts: Vec<SelectOption>,
    value: Seq<char>,
    chosen: Option<String>,
    i: int,
)
    requires
        select_choice_ok(Some(opts), value, chosen),
        0 <= i < opts@.len(),
        equals_ignoring_case(opts@[i], value),
    ensures
        chosen matches Some(c) && exists|j: int|
            0 <= j <= i && c@ == opts@[j].value@ && #[trigger] equals_ignoring_case(opts@[j], value)
                && forall|k: int| 0 <= k < j ==> !equals_ignoring_case(#[trigger] opts@[k], value),
{
    let v = lowercase(value);
    lemma_first_option_found(opts@, v, 0, true);
    assert(option_exact(opts@[i], v));
    match first_option(opts@, v, 0, true) {
        Some(k) => {
            lemma_first_option_first(opts@, v, 0, true);
            assert(best_option(opts@, v) == Some(k));
            assert(equals_ignoring_case(opts@[k], value));
            if k > i {
                assert(!option_exact(opts@[i], v));
            }
        },
        None => {
            assert(false);
        },
    }
}

/// Without an exact match, a select is set to the first option that resembles the
/// wanted value, and is left alone when none does.
pub proof fn law_similar_option_otherwise(opts: Vec<SelectOption>, value: Seq<char>, chosen: Option<String>)
    requires
        select_choice_ok(Some(opts), value, chosen),
        forall|k: int| 0 <= k < opts@.len() ==> !equals_ignoring_case(#[trigger] opts@[k], value),
    ensures
        (exists|k: int| 0 <= k < opts@.len() && #[trigger] resembles_ignoring_case(opts@[k], value))
            ==> (chosen matches Some(c) && exists|j: int|
            0 <= j < opts@.len() && c@ == opts@[j].value@ && #[trigger] resembles_ignoring_case(
                opts@[j],
                value,
            ) && forall|k: int| 0 <= k < j ==> !resembles_ignoring_case(#[trigger] opts@[k], value)),
        (forall|k: int| 0 <= k < opts@.len() ==> !#[trigger] resembles_ignoring_case(opts@[k], value))
            ==> chosen is None,
{
    let v = lowercase(value);
    lemma_first_option_found(opts@, v, 0, true);
    lemma_first_option_found(opts@, v, 0, false);
    lemma_first_option_first(opts@, v, 0, false);
    match first_option(opts@, v, 0, true) {
        Some(k) => {
            assert(!equals_ignoring_case(opts@[k], value));
        },
        None => {},
    }
    match first_option(opts@, v, 0, false) {
        Some(k) => {
            assert(resembles_ignoring_case(opts@[k], value));
        },
        None => {
            if exists|k: int| 0 <= k < opts@.len() && #[trigger] resembles_ignoring_case(opts@[k], value) {
                let k = choose|k: int| 0 <= k < opts@.len() && #[trigger] resembles_ignoring_case(opts@[k], value);
                assert(option_fuzzy(opts@[k], v));
            }
        },
    }
}

proof fn lemma_first_option_first(opts: Seq<SelectOption>, v: Seq<char>, from: int, exact: bool)
    requires
        0 <= from,
    ensures
        first_option(opts, v, from, exact) matches Some(k) ==> forall|i: int|
            from <= i < k ==> !(if exact {
                option_exact(#[trigger] opts[i], v)
            } else {
                option_fuzzy(opts[i], v)
            }),
    decreases opts.len() - from,
{
    if from < opts.len() {
        lemma_first_option_first(opts, v, from + 1, exact);
    }
}

fn fill_action_for(field: &FormField, value: &str) -> (a: FillAction)
    ensures
        fill_action_ok(*field, value@, a),
{
    let kind: &str = match &field.input_type {
        Some(t) => t.as_str(),
        None => {
            proof {
                reveal_strlit("");
            }
            ""
        },
    };
    assert(kind@ == field_type(*field));
    if str_eq(field.tag_name.as_str(), "select") {
        FillAction::Select { option_value: choose_select_option(&field.options, value) }
    } else if str_eq(kind, "radio") {
        let value_lower = to_lowercase(value);
        let affirmative = is_affirmative(value_lower.as_str());
        FillAction::Radio { affirmative, value_lower }
    } else if str_eq(kind, "checkbox") {
        let value_lower = to_lowercase(value);
        let should_check = is_affirmative(value_lower.as_str());
        let is_checked = match field.checked {
            Some(c) => c,
            None => false,
        };
        FillAction::Checkbox { toggle: should_check != is_checked }
    } else {
        FillAction::Text
    }
}

/// Decides what smart fill does with one form field.
pub fn plan_field(field: &FormField, profile: &Vec<(String, JsonValue)>, skip_recaptcha: bool) -> (plan: FieldPlan)
    ensures
        plan_ok(*field, profile@, skip_recaptcha, plan),
{
    if !field.visible || field.disabled {
        return FieldPlan::Pass;
    }
    let tivana_id = match &field.tivana_id {
        Some(id) => id.clone(),
        None => {
            return FieldPlan::Skip(
                SmartFillSkip {
                    tivana_id: None,
                    label: field.label.clone(),
                    reason: String::from_str("No tivana ID"),
                },
            );
        },
    };
    if skip_recaptcha {
        match &field.name {
            Some(name) => {
                if str_contains(to_lowercase(name.as_str()).as_str(), "recaptcha") {
                    return FieldPlan::Pass;
                }
            },
            None => {},
        }
    }
    let label_str: &str = match &field.label {
        Some(l) => l.as_str(),
        None => alt_name_of(field),
    };
    let label_lower = to_lowercase(label_str);
    match match_label_to_profile_key(label_lower.as_str(), profile, field) {
        Some((key, value)) => {
            let action = fill_action_for(field, value.as_str());
            FieldPlan::Fill {
                fill: SmartFillMatch {
                    tivana_id,
                    label: String::from_str(label_str),
                    profile_key: key,
                    value,
                },
                action,
            }
        },
        None => FieldPlan::Skip(
            SmartFillSkip {
                tivana_id: Some(tivana_id),
                label: Some(String::from_str(label_str)),
                reason: String::from_str("No matching profile key"),
            },
        ),
    }
}

/// The error of a select field for which no option matches the value.
pub fn no_matching_option(value: &str) -> (e: TivanaError)
    ensures
        e matches TivanaError::Browser(m) && m@ == "No matching option for value: "@ + value@,
{
    TivanaError::Browser(String::from_str("No matching option for value: ").concat(value))
}

/// The outcome of clicking a radio group, from what the page script answered:
/// `not_found` fails, anything else succeeds.
pub fn radio_outcome(answer: &str, tivana_id: &str) -> (r: Result<(), TivanaError>)
    ensures
        answer@ == "not_found"@ ==> (r matches Err(TivanaError::Browser(m)) && m@
            == "Radio element not found: "@ + tivana_id@),
        answer@ != "not_found"@ ==> r is Ok,
{
    if str_eq(answer, "not_found") {
        Err(TivanaError::Browser(String::from_str("Radio element not found: ").concat(tivana_id)))
    } else {
        Ok(())
    }
}

/// One field's record in a smart-fill tally: the field lands in exactly one of the
/// filled, skipped and error lists, once; the rest of the tally is unchanged.
pub open spec fn smart_field_step(b: SmartFillResult, a: SmartFillResult) -> bool {
    &&& a.total_fields == b.total_fields
    &&& a.filled_count == b.filled_count
    &&& a.duration_ms == b.duration_ms
    &&& {
        ||| (a.fields_filled@.len() == b.fields_filled@.len() + 1 && a.fields_filled@.drop_last()
            == b.fields_filled@ && a.fields_skipped@ == b.fields_skipped@ && a.errors@ == b.errors@)
        ||| (a.fields_skipped@.len() == b.fields_skipped@.len() + 1
            && a.fields_skipped@.drop_last() == b.fields_skipped@ && a.fields_filled@
            == b.fields_filled@ && a.errors@ == b.errors@)
        ||| (a.errors@.len() == b.errors@.len() + 1 && a.errors@.drop_last() == b.errors@
            && a.fields_filled@ == b.fields_filled@ && a.fields_skipped@ == b.fields_skipped@)
    }
}

/// The fields a smart-fill tally has accounted for.
pub open spec fn fields_accounted(r: SmartFillResult) -> nat {
    r.fields_filled@.len() + r.fields_skipped@.len() + r.errors@.len()
}

impl SmartFillResult {
    /// An empty tally for a form with `total_fields` fields.
    pub fn begin(total_fields: usize) -> (r: Self)
        ensures
            r.fields_filled@.len() == 0,
            r.fields_skipped@.len() == 0,
            r.errors@.len() == 0,
            r.total_fields == total_fields,
            r.filled_count == 0,
            r.duration_ms == 0,
    {
        SmartFillResult {
            fields_filled: Vec::new(),
            fields_skipped: Vec::new(),
            total_fields,
            filled_count: 0,
            duration_ms: 0,
            errors: Vec::new(),
        }
    }

    /// The result when the form's fields could not be read: nothing filled, and one
    /// error for the whole form ("*").
    pub fn form_fields_unavailable(e: &TivanaError, duration_ms: u64) -> (r: Self)
        ensures
            r.fields_filled@.len() == 0,
            r.fields_skipped@.len() == 0,
            r.total_fields == 0,
            r.filled_count == 0,
            r.duration_ms == duration_ms,
            r.errors@.len() == 1,
            r.errors@[0].field@ == "*"@,
            r.errors@[0].error@ == "Failed to get form fields: "@ + tivana_error_text(*e),
    {
        let text = String::from_str("Failed to get form fields: ").concat(e.to_string().as_str());
        let mut errors: Vec<FormFieldError> = Vec::new();
        errors.push(FormFieldError { field: String::from_str("*"), error: text });
        SmartFillResult {
            fields_filled: Vec::new(),
            fields_skipped: Vec::new(),
            total_fields: 0,
            filled_count: 0,
            duration_ms,
            errors,
        }
    }

    /// Records a skipped field.
    pub fn record_skip(&mut self, skip: SmartFillSkip)
        ensures
            final(self).fields_skipped@ == old(self).fields_skipped@.push(skip),
            final(self).fields_filled@ == old(self).fields_filled@,
            final(self).errors@ == old(self).errors@,
            final(self).total_fields == old(self).total_fields,
            final(self).filled_count == old(self).filled_count,
            final(self).duration_ms == old(self).duration_ms,
            smart_field_step(*old(self), *final(self)),
    {
        self.fields_skipped.push(skip);
        assert(self.fields_skipped@.drop_last() =~= old(self).fields_skipped@);
    }

    /// Records the outcome of filling a matched field: a success lists the field as
    /// filled, a failure adds an error under its tivana id.
    pub fn record_fill(&mut self, fill: SmartFillMatch, outcome: Result<(), TivanaError>)
        ensures
            final(self).fields_skipped@ == old(self).fields_skipped@,
            final(self).total_fields == old(self).total_fields,
            final(self).filled_count == old(self).filled_count,
            final(self).duration_ms == old(self).duration_ms,
            match outcome {
                Ok(()) => final(self).fields_filled@ == old(self).fields_filled@.push(fill)
                    && final(self).errors@ == old(self).errors@,
                Err(e) => final(self).fields_filled@ == old(self).fields_filled@
                    && final(self).errors@.len() == old(self).errors@.len() + 1
                    && final(self).errors@.drop_last() == old(self).errors@
                    && final(self).errors@.last().field@ == fill.tivana_id@
                    && final(self).errors@.last().error@ == tivana_error_text(e),
            },
            smart_field_step(*old(self), *final(self)),
    {
        match outcome {
            Ok(()) => {
                self.fields_filled.push(fill);
                assert(self.fields_filled@.drop_last() =~= old(self).fields_filled@);
            },
            Err(e) => {
                let error = e.to_string();
                self.errors.push(FormFieldError { field: fill.tivana_id, error });
                assert(self.errors@.drop_last() =~= old(self).errors@);
            },
        }
    }

    /// Closes the tally: the filled count and the elapsed time.
    pub fn finish(&mut self, duration_ms: u64)
        ensures
            final(self).filled_count == final(self).fields_filled@.len(),
            final(self).duration_ms == duration_ms,
            final(self).fields_filled@ == old(self).fields_filled@,
            final(self).fields_skipped@ == old(self).fields_skipped@,
            final(self).errors@ == old(self).errors@,
            final(self).total_fields == old(self).total_fields,
    {
        self.filled_count = self.fields_filled.len();
        self.duration_ms = duration_ms;
    }
}

/// Smart fill accounts for each field exactly once: after `n` field records from an
/// empty tally, the filled, skipped and failed fields add up to `n`.
pub proof fn law_smart_fill_fields_counted_once(steps: Seq<SmartFillResult>)
    requires
        steps.len() > 0,
        fields_accounted(steps[0]) == 0,
        forall|i: int| 0 <= i < steps.len() - 1 ==> #[trigger] smart_field_step(steps[i], steps[i + 1]),
    ensures
        fields_accounted(steps.last()) == steps.len() - 1,
        steps.last().total_fields == steps[0].total_fields,
    decreases steps.len(),
{
    if steps.len() > 1 {
        let t = steps.drop_last();
        assert forall|i: int| 0 <= i < t.len() - 1 implies #[trigger] smart_field_step(t[i], t[i + 1]) by {
            assert(smart_field_step(steps[i], steps[i + 1]));
        }
        law_smart_fill_fields_counted_once(t);
        let k = steps.len() - 2;
        assert(smart_field_step(steps[k], steps[k + 1]));
    }
}

/// Smart fill never touches a hidden or disabled field, whatever the profile.
pub proof fn law_hidden_or_disabled_fields_untouched(
    field: FormField,
    profile: Seq<(String, JsonValue)>,
    skip_recaptcha: bool,
    plan: FieldPlan,
)
    requires
        !field.visible || field.disabled,
        plan_ok(field, profile, skip_recaptcha, plan),
    ensures
        plan is Pass,
{
}

/// A visible, enabled field without a tivana id is reported skipped ("No tivana ID"),
/// whatever the profile.
pub proof fn law_fields_without_id_skipped(
    field: FormField,
    profile: Seq<(String, JsonValue)>,
    skip_recaptcha: bool,
    plan: FieldPlan,
)
    requires
        field.visible && !field.disabled,
        field.tivana_id is None,
        plan_ok(field, profile, skip_recaptcha, plan),
    ensures
        plan matches FieldPlan::Skip(s) && s.tivana_id is None && s.reason@ == "No tivana ID"@,
{
}

/// A field is filled only with the text of a profile value: the key of a match is a
/// profile key holding a value with that text.
pub proof fn law_filled_values_come_from_profile(
    label: Seq<char>,
    keys: Seq<Seq<char>>,
    profile: Seq<(String, JsonValue)>,
    alt: Seq<char>,
)
    requires
        keys.len() == profile.len(),
    ensures
        profile_match(label, keys, profile, alt) matches Some((k, t)) ==> exists|i: int|
            0 <= i < profile.len() && (#[trigger] profile[i]).0@ == k && value_text(profile[i].1)
                == Some(t) || (entry_lookup(profile, k) is Some && value_text(
                entry_lookup(profile, k).unwrap(),
            ) == Some(t)),
{
    lemma_direct_match_from_profile(label, keys, profile);
    lemma_direct_match_from_profile(alt, keys, profile);
    lemma_table_match_from_profile(label, profile, 0);
}

proof fn lemma_direct_match_from_profile(
    label: Seq<char>,
    keys: Seq<Seq<char>>,
    profile: Seq<(String, JsonValue)>,
)
    ensures
        direct_match(label, keys, profile) matches Some((k, t)) ==> exists|i: int|
            0 <= i < profile.len() && (#[trigger] profile[i]).0@ == k && value_text(profile[i].1)
                == Some(t),
    decreases profile.len(),
{
    if profile.len() > 0 && keys.len() > 0 {
        lemma_direct_match_from_profile(label, keys.drop_first(), profile.drop_first());
        if !(names_overlap(label, keys[0]) && value_text(profile[0].1) is Some) {
            if direct_match(label, keys, profile) is Some {
                let (k, t) = direct_match(label, keys, profile).unwrap();
                let i = choose|i: int|
                    0 <= i < profile.drop_first().len() && (#[trigger] profile.drop_first()[i]).0@
                        == k && value_text(profile.drop_first()[i].1) == Some(t);
                assert(profile[i + 1] == profile.drop_first()[i]);
            }
        }
    }
}

proof fn lemma_table_match_from_profile(label: Seq<char>, profile: Seq<(String, JsonValue)>, i: int)
    ensures
        table_match(label, profile, i) matches Some((k, t)) ==> entry_lookup(profile, k) is Some
            && value_text(entry_lookup(profile, k).unwrap()) == Some(t),
    decreases mapping_table().len() - i,
{
    if 0 <= i < mapping_table().len() {
        lemma_table_match_from_profile(label, profile, i + 1);
    }
}

} // verus!
