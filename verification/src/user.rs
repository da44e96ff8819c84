use vstd::prelude::*;

use chrono::Datelike;

use crate::error::{ApplicationError, ApplicationResult};
use crate::text::owned;
use crate::types::{is_valid_email, is_valid_url, Email, Url};

verus! {

/// The id a user signs up with.
pub struct UserId {
    id: String,
}

impl View for UserId {
    type V = Seq<char>;

    closed spec fn view(&self) -> Seq<char> {
        self.id@
    }
}

impl UserId {
    /// The id spelled `id` (not checked; see [`is_valid_user_id`]).
    pub fn from_string(id: String) -> (u: UserId)
        ensures
            u@ == id@,
    {
        UserId { id }
    }

    /// The id as text.
    pub fn as_str(&self) -> (s: &str)
        ensures
            s@ == self@,
    {
        self.id.as_str()
    }

    /// An owned copy of the id's text.
    pub fn to_string(&self) -> (s: String)
        ensures
            s@ == self@,
    {
        self.id.clone()
    }

    /// Whether two ids are spelled the same.
    pub fn same_as(&self, other: &UserId) -> (b: bool)
        ensures
            b == (self@ == other@),
    {
        self.id == other.id
    }
}

impl Clone for UserId {
    fn clone(&self) -> (r: Self)
        ensures
            r@ == self@,
    {
        UserId { id: self.id.clone() }
    }
}


/// The pattern user ids must match: a letter or digit, then up to 38 more,
/// each possibly preceded by one hyphen.
pub const USER_ID_PATTERN: &'static str = "^[a-zA-Z0-9]([a-zA-Z0-9]?|[\\-]?([a-zA-Z0-9])){0,38}$";

/// Name for what `regex::Regex::new(pattern)` followed by `is_match(s)`
/// answers: `None` when the pattern does not compile, else whether `s` matches.
pub uninterp spec fn regex_match_result(pattern: Seq<char>, s: Seq<char>) -> Option<bool>;

/// Whether `c` is an ASCII letter or digit (`[a-zA-Z0-9]`).
pub open spec fn is_id_alnum(c: char) -> bool {
    ('a' <= c && c <= 'z') || ('A' <= c && c <= 'Z') || ('0' <= c && c <= '9')
}

/// How many ASCII letters and digits `s` holds.
pub open spec fn alnum_count(s: Seq<char>) -> nat
    decreases s.len(),
{
    if s.len() == 0 {
        0
    } else {
        alnum_count(s.drop_last()) + (if is_id_alnum(s.last()) { 1nat } else { 0nat })
    }
}

/// The texts that [`USER_ID_PATTERN`] matches: a letter or digit first, then
/// letters, digits and hyphens, each hyphen followed by a letter or digit,
/// with at most 39 letters and digits in all (the first one and one for each
/// of at most 38 repetitions of the group).
pub open spec fn user_id_text(s: Seq<char>) -> bool {
    &&& s.len() >= 1
    &&& is_id_alnum(s[0])
    &&& forall|i: int|
        0 <= i < s.len() ==> is_id_alnum(#[trigger] s[i]) || (s[i] == '-' && i + 1 < s.len() && is_id_alnum(
            s[i + 1],
        ))
    &&& alnum_count(s) <= 39
}

/// Calls `regex::Regex::new(pattern)` and, when it compiles, `Regex::is_match(s)`.
/// Claimed: the answer is a function of the pattern and the text alone; for
/// [`USER_ID_PATTERN`] the pattern compiles and, by the regex syntax that the
/// crate documents (`$` being the end of the text), matches exactly the texts
/// of [`user_id_text`].
#[verifier::external_body]
fn regex_is_match(pattern: &str, s: &str) -> (r: Option<bool>)
    ensures
        r == regex_match_result(pattern@, s@),
        pattern@ == USER_ID_PATTERN@ ==> r == Some(user_id_text(s@)),
{
    match regex::Regex::new(pattern) {
        Ok(re) => Some(re.is_match(s)),
        Err(_) => None,
    }
}

/// Whether `s` is a well-formed user id: it matches [`USER_ID_PATTERN`]
/// (see [`user_id_text`]).
pub open spec fn is_valid_user_id(s: Seq<char>) -> bool {
    user_id_text(s)
}

impl UserId {
    /// Whether the id is well formed (see [`is_valid_user_id`]).
    pub fn is_valid(&self) -> (b: bool)
        ensures
            b == is_valid_user_id(self@),
    {
        match regex_is_match(USER_ID_PATTERN, self.id.as_str()) {
            Some(b) => b,
            None => false,
        }
    }
}

/// A calendar date.
#[derive(Clone, Copy, Debug, PartialEq, Eq, Structural)]
pub struct Date {
    pub year: i32,
    pub month: u32,
    pub day: u32,
}

/// Whether date `a` is not later than date `b`.
pub open spec fn date_le(a: Date, b: Date) -> bool {
    a.year < b.year || (a.year == b.year && (a.month < b.month || (a.month == b.month && a.day <= b.day)))
}

/// Whether `y` is a leap year of the proleptic Gregorian calendar.
pub open spec fn is_leap_year(y: int) -> bool {
    (y % 4 == 0 && y % 100 != 0) || y % 400 == 0
}

/// The number of days of month `m` of year `y`.
pub open spec fn days_in_month(y: int, m: int) -> int {
    if m == 2 {
        if is_leap_year(y) { 29 } else { 28 }
    } else if m == 4 || m == 6 || m == 9 || m == 11 {
        30
    } else {
        31
    }
}

/// Whether `d` is a day of the proleptic Gregorian calendar within the
/// years a calendar date can have (from -262143 to 262142).
pub open spec fn date_valid(d: Date) -> bool {
    &&& -262143 <= d.year <= 262142
    &&& 1 <= d.month <= 12
    &&& 1 <= d.day <= days_in_month(d.year as int, d.month as int)
}

impl Date {
    /// The date of `year`, `month` and `day`, when that is a day of the
    /// calendar (see [`date_valid`]).
    pub fn from_ymd(year: i32, month: u32, day: u32) -> (r: Option<Date>)
        ensures
            r is Some <==> date_valid(Date { year, month, day }),
            r matches Some(d) ==> d == (Date { year, month, day }),
    {
        if year < -262143 || year > 262142 || month < 1 || month > 12 || day < 1 {
            return None;
        }
        let shifted: i64 = year as i64 + 400000;
        let leap = (shifted % 4 == 0 && shifted % 100 != 0) || shifted % 400 == 0;
        assert(leap == is_leap_year(year as int)) by {
            assert(shifted % 4 == (year as int) % 4);
            assert(shifted % 100 == (year as int) % 100);
            assert(shifted % 400 == (year as int) % 400);
        }
        let days: u32 = if month == 2 {
            if leap { 29 } else { 28 }
        } else if month == 4 || month == 6 || month == 9 || month == 11 {
            30
        } else {
            31
        };
        if day > days {
            None
        } else {
            Some(Date { year, month, day })
        }
    }

    /// Whether this date is not later than `other`.
    pub fn le(&self, other: &Date) -> (b: bool)
        ensures
            b == date_le(*self, *other),
    {
        self.year < other.year || (self.year == other.year && (self.month < other.month
            || (self.month == other.month && self.day <= other.day)))
    }
}

/// Calls `chrono::Utc::now().date_naive()` and takes the year, month and day
/// of the result. Claimed: a day of the calendar (a `NaiveDate` is always
/// one, within its year range); which date comes out depends on the clock.
#[verifier::external_body]
fn today() -> (d: Date)
    ensures
        1 <= d.month <= 12,
        1 <= d.day <= 31,
        date_valid(d),
{
    let now = chrono::Utc::now().date_naive();
    Date { year: now.year(), month: now.month(), day: now.day() }
}

/// Accepts a birth date that is not in the future, `today` being the current date.
pub fn validate_birthdate_on(birthdate: &Date, today: &Date) -> (r: Result<(), &'static str>)
    ensures
        r is Ok <==> date_le(*birthdate, *today),
        r matches Err(code) ==> code@ == "FUTURE_BIRTHDATE"@,
{
    if birthdate.le(today) {
        Ok(())
    } else {
        Err("FUTURE_BIRTHDATE")
    }
}

/// Accepts a birth date that is not later than the current date read from
/// the clock; returns that date beside the answer.
pub fn validate_birthdate(birthdate: &Date) -> (r: (Result<(), &'static str>, Date))
    ensures
        r.0 is Ok <==> date_le(*birthdate, r.1),
        r.0 matches Err(code) ==> code@ == "FUTURE_BIRTHDATE"@,
{
    let now = today();
    (validate_birthdate_on(birthdate, &now), now)
}

/// A user's gender.
#[derive(Clone, Copy, Debug, PartialEq, Eq, Structural)]
pub enum Gender {
    Male,
    Female,
    Others,
}

/// The name a gender is stored under.
pub open spec fn gender_name(g: Gender) -> Seq<char> {
    match g {
        Gender::Male => "male"@,
        Gender::Female => "female"@,
        Gender::Others => "others"@,
    }
}

/// The gender stored under `s`, if any.
pub open spec fn parse_gender(s: Seq<char>) -> Option<Gender> {
    if s == "male"@ {
        Some(Gender::Male)
    } else if s == "female"@ {
        Some(Gender::Female)
    } else if s == "others"@ {
        Some(Gender::Others)
    } else {
        None
    }
}

impl Gender {
    /// The gender assumed when none is given: `Others`.
    pub fn default() -> (g: Gender)
        ensures
            g == Gender::Others,
    {
        Gender::Others
    }

    /// The stored name: `male`, `female` or `others`.
    pub fn as_str(&self) -> (s: &'static str)
        ensures
            s@ == gender_name(*self),
    {
        match self {
            Gender::Male => "male",
            Gender::Female => "female",
            Gender::Others => "others",
        }
    }

    /// The gender stored under `s`, if any.
    pub fn from_str(s: &str) -> (r: Option<Gender>)
        ensures
            r == parse_gender(s@),
    {
        if crate::text::str_equals(s, "male") {
            Some(Gender::Male)
        } else if crate::text::str_equals(s, "female") {
            Some(Gender::Female)
        } else if crate::text::str_equals(s, "others") {
            Some(Gender::Others)
        } else {
            None
        }
    }
}

/// A user's id together with the token they signed in with.
pub struct UserAuthInfo {
    pub id: UserId,
    pub token: String,
}

/// A user's profile.
pub struct User {
    pub id: UserId,
    pub name: String,
    pub gender: Gender,
    pub birthdate: Option<Date>,
    pub icon_url: Option<Url>,
}

impl User {
    /// The profile made of the given parts.
    pub fn new(id: UserId, name: String, gender: Gender, birthdate: Option<Date>, icon_url: Option<Url>) -> (u: User)
        ensures
            u.id@ == id@,
            u.name@ == name@,
            u.gender == gender,
            u.birthdate == birthdate,
            u.icon_url == icon_url,
    {
        User { id, name, gender, birthdate, icon_url }
    }
}

/// A field of a user form.
#[derive(Clone, Copy, Debug, PartialEq, Eq, Structural)]
pub enum UserField {
    Id,
    Name,
    Email,
    Birthdate,
    IconUrl,
    Password,
}

/// The name of a form field.
pub open spec fn user_field_name(f: UserField) -> Seq<char> {
    match f {
        UserField::Id => "id"@,
        UserField::Name => "name"@,
        UserField::Email => "email"@,
        UserField::Birthdate => "birthdate"@,
        UserField::IconUrl => "icon_url"@,
        UserField::Password => "password"@,
    }
}

impl UserField {
    /// The field's name.
    pub fn as_str(&self) -> (s: &'static str)
        ensures
            s@ == user_field_name(*self),
    {
        match self {
            UserField::Id => "id",
            UserField::Name => "name",
            UserField::Email => "email",
            UserField::Birthdate => "birthdate",
            UserField::IconUrl => "icon_url",
            UserField::Password => "password",
        }
    }
}

/// Whether a display name has from 1 to 50 characters.
pub open spec fn name_ok(n: Seq<char>) -> bool {
    1 <= n.len() <= 50
}

/// Whether a password has at least 6 characters.
pub open spec fn password_ok(p: Seq<char>) -> bool {
    p.len() >= 6
}

/// A form whose filled-in fields are checked, each on its own.
pub struct UserValidateRequest {
    pub id: Option<UserId>,
    pub name: Option<String>,
    pub email: Option<Email>,
    pub birthdate: Option<Date>,
    pub icon_url: Option<Url>,
    pub password: Option<String>,
}

/// The fields of `req` that are filled in and malformed, in form order, with
/// `today` the current date.
pub open spec fn invalid_fields(req: UserValidateRequest, today: Date) -> Seq<UserField> {
    let id_bad = req.id matches Some(i) && !is_valid_user_id(i@);
    let name_bad = req.name matches Some(n) && !name_ok(n@);
    let email_bad = req.email matches Some(e) && !is_valid_email(e@);
    let birth_bad = req.birthdate matches Some(b) && !date_le(b, today);
    let url_bad = req.icon_url matches Some(u) && !is_valid_url(u@);
    let pw_bad = req.password matches Some(p) && !password_ok(p@);
    flagged_fields(id_bad, name_bad, email_bad, birth_bad, url_bad, pw_bad)
}

/// The fields flagged, in form order.
pub open spec fn flagged_fields(id: bool, name: bool, email: bool, birth: bool, url: bool, pw: bool) -> Seq<UserField> {
    (if id { seq![UserField::Id] } else { Seq::empty() })
        + (if name { seq![UserField::Name] } else { Seq::empty() })
        + (if email { seq![UserField::Email] } else { Seq::empty() })
        + (if birth { seq![UserField::Birthdate] } else { Seq::empty() })
        + (if url { seq![UserField::IconUrl] } else { Seq::empty() })
        + (if pw { seq![UserField::Password] } else { Seq::empty() })
}

fn collect_fields(id: bool, name: bool, email: bool, birth: bool, url: bool, pw: bool) -> (r: Vec<UserField>)
    ensures
        r@ == flagged_fields(id, name, email, birth, url, pw),
{
    let mut r: Vec<UserField> = Vec::new();
    if id { r.push(UserField::Id); }
    if name { r.push(UserField::Name); }
    if email { r.push(UserField::Email); }
    if birth { r.push(UserField::Birthdate); }
    if url { r.push(UserField::IconUrl); }
    if pw { r.push(UserField::Password); }
    assert(r@ =~= flagged_fields(id, name, email, birth, url, pw));
    r
}

/// Checks an e-mail address again with `validator` (through [`Email`]'s check).
fn email_valid(e: &Email) -> (b: bool)
    ensures
        b == is_valid_email(e@),
{
    let copy = owned(e.as_str());
    Email::try_from(copy).is_ok()
}

fn url_valid(u: &Url) -> (b: bool)
    ensures
        b == is_valid_url(u@),
{
    let copy = owned(u.as_str());
    Url::try_from(copy).is_ok()
}

impl UserValidateRequest {
    /// The fields that are filled in and malformed, in form order, with
    /// `today` the current date (see [`invalid_fields`]).
    pub fn invalid_fields(&self, today: &Date) -> (r: Vec<UserField>)
        ensures
            r@ == invalid_fields(*self, *today),
    {
        let id_bad = match &self.id {
            Some(i) => !i.is_valid(),
            None => false,
        };
        let name_bad = match &self.name {
            Some(n) => {
                let len = n.as_str().unicode_len();
                !(1 <= len && len <= 50)
            },
            None => false,
        };
        let email_bad = match &self.email {
            Some(e) => !email_valid(e),
            None => false,
        };
        let birth_bad = match &self.birthdate {
            Some(b) => validate_birthdate_on(b, today).is_err(),
            None => false,
        };
        let url_bad = match &self.icon_url {
            Some(u) => !url_valid(u),
            None => false,
        };
        let pw_bad = match &self.password {
            Some(p) => p.as_str().unicode_len() < 6,
            None => false,
        };
        assert(id_bad == (self.id matches Some(i) && !is_valid_user_id(i@)));
        assert(name_bad == (self.name matches Some(n) && !name_ok(n@)));
        assert(email_bad == (self.email matches Some(e) && !is_valid_email(e@)));
        assert(birth_bad == (self.birthdate matches Some(b) && !date_le(b, *today)));
        assert(url_bad == (self.icon_url matches Some(u) && !is_valid_url(u@)));
        assert(pw_bad == (self.password matches Some(p) && !password_ok(p@)));
        collect_fields(id_bad, name_bad, email_bad, birth_bad, url_bad, pw_bad)
    }

    /// Accepts the form when no filled-in field is malformed; else refused
    /// with a validation error.
    pub fn validate(&self, today: &Date) -> (r: ApplicationResult<()>)
        ensures
            r is Ok <==> invalid_fields(*self, *today).len() == 0,
            r matches Err(e) ==> e is ValidationError,
    {
        let bad = self.invalid_fields(today);
        if bad.len() == 0 {
            Ok(())
        } else {
            Err(ApplicationError::ValidationError(owned("Validation failed for the user form.")))
        }
    }
}

/// A sign-up form.
pub struct UserCreateRequest {
    pub id: UserId,
    pub name: String,
    pub email: Email,
    pub gender: Gender,
    pub birthdate: Option<Date>,
    pub icon_url: Option<Url>,
    pub password: String,
}

/// The check of a sign-up form: every field filled in.
pub open spec fn create_form(req: UserCreateRequest) -> UserValidateRequest {
    UserValidateRequest {
        id: Some(req.id),
        name: Some(req.name),
        email: Some(req.email),
        birthdate: req.birthdate,
        icon_url: req.icon_url,
        password: Some(req.password),
    }
}

/// A sign-up form checks every field it has: its id against the user-id
/// pattern, its name, e-mail address and password always, and its birthdate
/// and icon address when given. A field is flagged exactly when it is
/// malformed, and the form is accepted exactly when none is.
pub proof fn sign_up_form_checks_every_field(req: UserCreateRequest, today: Date)
    ensures
        invalid_fields(create_form(req), today).contains(UserField::Id) <==> !is_valid_user_id(req.id@),
        invalid_fields(create_form(req), today).contains(UserField::Name) <==> !name_ok(req.name@),
        invalid_fields(create_form(req), today).contains(UserField::Email) <==> !is_valid_email(req.email@),
        invalid_fields(create_form(req), today).contains(UserField::Birthdate) <==> (req.birthdate matches Some(b)
            && !date_le(b, today)),
        invalid_fields(create_form(req), today).contains(UserField::IconUrl) <==> (req.icon_url matches Some(u)
            && !is_valid_url(u@)),
        invalid_fields(create_form(req), today).contains(UserField::Password) <==> !password_ok(req.password@),
        invalid_fields(create_form(req), today).len() == 0 <==> ({
            &&& is_valid_user_id(req.id@)
            &&& name_ok(req.name@)
            &&& is_valid_email(req.email@)
            &&& (req.birthdate matches Some(b) ==> date_le(b, today))
            &&& (req.icon_url matches Some(u) ==> is_valid_url(u@))
            &&& password_ok(req.password@)
        }),
{
    let id = !is_valid_user_id(req.id@);
    let name = !name_ok(req.name@);
    let email = !is_valid_email(req.email@);
    let birth = req.birthdate matches Some(b) && !date_le(b, today);
    let url = req.icon_url matches Some(u) && !is_valid_url(u@);
    let pw = !password_ok(req.password@);
    assert(invalid_fields(create_form(req), today) == flagged_fields(id, name, email, birth, url, pw));
    lemma_flagged_fields(id, name, email, birth, url, pw);
}

proof fn lemma_flagged_fields(id: bool, name: bool, email: bool, birth: bool, url: bool, pw: bool)
    ensures
        flagged_fields(id, name, email, birth, url, pw).contains(UserField::Id) <==> id,
        flagged_fields(id, name, email, birth, url, pw).contains(UserField::Name) <==> name,
        flagged_fields(id, name, email, birth, url, pw).contains(UserField::Email) <==> email,
        flagged_fields(id, name, email, birth, url, pw).contains(UserField::Birthdate) <==> birth,
        flagged_fields(id, name, email, birth, url, pw).contains(UserField::IconUrl) <==> url,
        flagged_fields(id, name, email, birth, url, pw).contains(UserField::Password) <==> pw,
        flagged_fields(id, name, email, birth, url, pw).len() == 0 <==> !(id || name || email || birth || url || pw),
{
    broadcast use vstd::seq_lib::lemma_seq_concat_contains_all_elements, vstd::seq_lib::lemma_seq_contains;

    let f = flagged_fields(id, name, email, birth, url, pw);
    assert(seq![UserField::Id][0] == UserField::Id);
    assert(seq![UserField::Name][0] == UserField::Name);
    assert(seq![UserField::Email][0] == UserField::Email);
    assert(seq![UserField::Birthdate][0] == UserField::Birthdate);
    assert(seq![UserField::IconUrl][0] == UserField::IconUrl);
    assert(seq![UserField::Password][0] == UserField::Password);
    assert(f.contains(UserField::Id) <==> id);
    assert(f.contains(UserField::Name) <==> name);
    assert(f.contains(UserField::Email) <==> email);
    assert(f.contains(UserField::Birthdate) <==> birth);
    assert(f.contains(UserField::IconUrl) <==> url);
    assert(f.contains(UserField::Password) <==> pw);
}

impl UserCreateRequest {
    /// The fields of the form that are malformed, in form order.
    pub fn invalid_fields(&self, today: &Date) -> (r: Vec<UserField>)
        ensures
            r@ == invalid_fields(create_form(*self), *today),
            r@.contains(UserField::Id) <==> !is_valid_user_id(self.id@),
            r@.contains(UserField::Password) <==> !password_ok(self.password@),
    {
        proof {
            sign_up_form_checks_every_field(*self, *today);
        }
        let form = UserValidateRequest {
            id: Some(self.id.clone()),
            name: Some(self.name.clone()),
            email: Some(self.email.clone()),
            birthdate: self.birthdate,
            icon_url: match &self.icon_url { Some(u) => Some(u.clone()), None => None },
            password: Some(self.password.clone()),
        };
        let r = form.invalid_fields(today);
        assert(invalid_fields(form, *today) =~= invalid_fields(create_form(*self), *today));
        r
    }

    /// The new user, their e-mail address and password; refused with a
    /// validation error when a field is malformed.
    pub fn into_parts(self, today: &Date) -> (r: ApplicationResult<(User, Email, String)>)
        ensures
            r is Ok <==> invalid_fields(create_form(self), *today).len() == 0,
            r matches Ok((u, e, p)) ==> {
                &&& u.id@ == self.id@
                &&& u.name@ == self.name@
                &&& u.gender == self.gender
                &&& u.birthdate == self.birthdate
                &&& u.icon_url == self.icon_url
                &&& e@ == self.email@
                &&& p@ == self.password@
            },
            r matches Err(err) ==> err is ValidationError,
            r is Ok ==> is_valid_user_id(self.id@) && name_ok(self.name@) && is_valid_email(self.email@) && password_ok(
                self.password@,
            ),
    {
        proof {
            sign_up_form_checks_every_field(self, *today);
        }
        let bad = self.invalid_fields(today);
        if bad.len() != 0 {
            return Err(ApplicationError::ValidationError(owned("Validation failed for the sign-up form.")));
        }
        let user = User::new(self.id, self.name, self.gender, self.birthdate, self.icon_url);
        Ok((user, self.email, self.password))
    }
}

/// A profile change: the fields given replace the user's.
pub struct UserUpdateRequest {
    pub name: Option<String>,
    pub gender: Option<Gender>,
    pub birthdate: Option<Date>,
    pub icon_url: Option<Url>,
}

impl UserUpdateRequest {
    /// The given fields that are malformed, in form order.
    pub fn invalid_fields(&self, today: &Date) -> (r: Vec<UserField>)
        ensures
            r@ == invalid_fields(
                UserValidateRequest {
                    id: None,
                    name: self.name,
                    email: None,
                    birthdate: self.birthdate,
                    icon_url: self.icon_url,
                    password: None,
                },
                *today,
            ),
    {
        let form = UserValidateRequest {
            id: None,
            name: match &self.name { Some(n) => Some(n.clone()), None => None },
            email: None,
            birthdate: self.birthdate,
            icon_url: match &self.icon_url { Some(u) => Some(u.clone()), None => None },
            password: None,
        };
        form.invalid_fields(today)
    }

    /// Applies the change to `user`: each given field replaces the user's.
    pub fn apply_to(self, user: &mut User)
        ensures
            final(user).id == old(user).id,
            final(user).name == (match self.name { Some(n) => n, None => old(user).name }),
            final(user).gender == (match self.gender { Some(g) => g, None => old(user).gender }),
            final(user).birthdate == (match self.birthdate { Some(b) => Some(b), None => old(user).birthdate }),
            final(user).icon_url == (match self.icon_url { Some(u) => Some(u), None => old(user).icon_url }),
    {
        match self.name {
            Some(n) => user.name = n,
            None => {},
        }
        match self.gender {
            Some(g) => user.gender = g,
            None => {},
        }
        match self.birthdate {
            Some(b) => user.birthdate = Some(b),
            None => {},
        }
        match self.icon_url {
            Some(u) => user.icon_url = Some(u),
            None => {},
        }
    }
}

} // verus!
