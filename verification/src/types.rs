use std::marker::PhantomData;

use validator::{ValidateEmail, ValidateUrl};
use vstd::prelude::*;

use crate::error::{ApplicationError, ApplicationResult};
use crate::text::owned;

verus! {

/// A character of nanoid's URL-safe alphabet (`A-Za-z0-9_-`).
pub open spec fn is_url_safe_char(c: char) -> bool {
    ||| c == '_'
    ||| c == '-'
    ||| ('0' <= c && c <= '9')
    ||| ('a' <= c && c <= 'z')
    ||| ('A' <= c && c <= 'Z')
}

/// Calls `nanoid::format` with nanoid's default random source and its URL-safe
/// alphabet `nanoid::alphabet::SAFE`. Claimed: the id has `size` characters,
/// each from that alphabet. Which characters come out is left to chance.
#[verifier::external_body]
fn random_nanoid(size: usize) -> (id: String)
    requires
        1 <= size <= usize::MAX / 8,
    ensures
        id@.len() == size,
        forall|i: int| 0 <= i < id@.len() ==> is_url_safe_char(#[trigger] id@[i]),
{
    nanoid::format(nanoid::rngs::default, &nanoid::alphabet::SAFE, size)
}

/// A random identifier of `LEN` URL-safe characters, typed by what it identifies.
pub struct NanoId<T, const LEN: usize> {
    id: String,
    _phantom: PhantomData<T>,
}

impl<T, const LEN: usize> View for NanoId<T, LEN> {
    type V = Seq<char>;

    closed spec fn view(&self) -> Seq<char> {
        self.id@
    }
}

impl<T, const LEN: usize> NanoId<T, LEN> {
    /// A fresh random id of `LEN` URL-safe characters.
    pub fn new() -> (r: Self)
        requires
            1 <= LEN <= usize::MAX / 8,
        ensures
            r@.len() == LEN,
            forall|i: int| 0 <= i < r@.len() ==> is_url_safe_char(#[trigger] r@[i]),
    {
        Self::from_string(random_nanoid(LEN))
    }

    /// The id whose text is `id`.
    pub fn from_string(id: String) -> (r: Self)
        ensures
            r@ == id@,
    {
        NanoId { id, _phantom: PhantomData }
    }

    /// The text of the id.
    pub fn as_str(&self) -> (s: &str)
        ensures
            s@ == self@,
    {
        self.id.as_str()
    }

    /// An owned copy of the text of the id.
    pub fn to_string(&self) -> (s: String)
        ensures
            s@ == self@,
    {
        self.id.clone()
    }

    /// Whether two ids have the same text.
    pub fn same_as(&self, other: &Self) -> (b: bool)
        ensures
            b == (self@ == other@),
    {
        self.id == other.id
    }
}

impl<T, const LEN: usize> Clone for NanoId<T, LEN> {
    fn clone(&self) -> (r: Self)
        ensures
            r@ == self@,
    {
        NanoId { id: self.id.clone(), _phantom: PhantomData }
    }
}

/// Name for what `validator::ValidateEmail::validate_email` answers for a text
/// (the HTML5 e-mail grammar, with IDN domains).
pub uninterp spec fn is_valid_email(s: Seq<char>) -> bool;

/// Calls `validator::ValidateEmail::validate_email` on `s`. Claimed: the answer
/// is a function of the text alone.
#[verifier::external_body]
fn check_email(s: &str) -> (b: bool)
    ensures
        b == is_valid_email(s@),
{
    s.validate_email()
}

/// Name for what `validator::ValidateUrl::validate_url` answers for a text
/// (whether `url::Url::parse` accepts it).
pub uninterp spec fn is_valid_url(s: Seq<char>) -> bool;

/// Calls `validator::ValidateUrl::validate_url` on `s`. Claimed: the answer is
/// a function of the text alone.
#[verifier::external_body]
fn check_url(s: &str) -> (b: bool)
    ensures
        b == is_valid_url(s@),
{
    s.validate_url()
}

/// A validated e-mail address.
pub struct Email {
    value: String,
}

impl View for Email {
    type V = Seq<char>;

    closed spec fn view(&self) -> Seq<char> {
        self.value@
    }
}

impl Email {
    /// Accepts `value` exactly when it is a valid e-mail address.
    pub fn try_from(value: String) -> (r: ApplicationResult<Email>)
        ensures
            r is Ok <==> is_valid_email(value@),
            r matches Ok(e) ==> e@ == value@,
            r matches Err(err) ==> err is DomainError,
    {
        if check_email(value.as_str()) {
            Ok(Email { value })
        } else {
            Err(ApplicationError::DomainError(owned("Validation failed for Email!")))
        }
    }

    /// The address as text.
    pub fn as_str(&self) -> (s: &str)
        ensures
            s@ == self@,
    {
        self.value.as_str()
    }

    /// Whether `self` and `other` spell the same address.
    pub fn same_as(&self, other: &Email) -> (b: bool)
        ensures
            b == (self@ == other@),
    {
        self.value == other.value
    }
}

impl Clone for Email {
    fn clone(&self) -> (r: Self)
        ensures
            r@ == self@,
    {
        Email { value: self.value.clone() }
    }
}

/// A validated URL.
pub struct Url {
    value: String,
}

impl View for Url {
    type V = Seq<char>;

    closed spec fn view(&self) -> Seq<char> {
        self.value@
    }
}

impl Url {
    /// Accepts `value` exactly when it parses as a URL.
    pub fn try_from(value: String) -> (r: ApplicationResult<Url>)
        ensures
            r is Ok <==> is_valid_url(value@),
            r matches Ok(u) ==> u@ == value@,
            r matches Err(err) ==> err is DomainError,
    {
        if check_url(value.as_str()) {
            Ok(Url { value })
        } else {
            Err(ApplicationError::DomainError(owned("Validation failed for Url!")))
        }
    }

    /// The URL as text.
    pub fn as_str(&self) -> (s: &str)
        ensures
            s@ == self@,
    {
        self.value.as_str()
    }
}

impl Clone for Url {
    fn clone(&self) -> (r: Self)
        ensures
            r@ == self@,
    {
        Url { value: self.value.clone() }
    }
}

/// An encoded polyline (Google's polyline format, precision 5).
pub struct Polyline(String);

impl View for Polyline {
    type V = Seq<char>;

    closed spec fn view(&self) -> Seq<char> {
        self.0@
    }
}

impl Polyline {
    /// The empty polyline.
    pub fn new() -> (p: Polyline)
        ensures
            p@ == Seq::<char>::empty(),
    {
        Polyline(String::new())
    }

    /// The polyline whose encoded text is `s`.
    pub fn from_string(s: String) -> (p: Polyline)
        ensures
            p@ == s@,
    {
        Polyline(s)
    }

    /// The encoded text.
    pub fn into_string(self) -> (s: String)
        ensures
            s@ == self@,
    {
        self.0
    }

    /// The encoded text, borrowed.
    pub fn as_str(&self) -> (s: &str)
        ensures
            s@ == self@,
    {
        self.0.as_str()
    }
}

} // verus!
