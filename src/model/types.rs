//! Validated scalar values of the API: identifiers, calendar dates,
//! timestamps and slugs. Each wraps a string that always has its format.
use vstd::prelude::*;
use crate::error::ValidationError;

verus! {

pub open spec fn is_digit(c: char) -> bool {
    '0' <= c && c <= '9'
}

pub open spec fn is_hex_digit(c: char) -> bool {
    is_digit(c) || ('a' <= c && c <= 'f') || ('A' <= c && c <= 'F')
}

pub open spec fn is_slug_char(c: char) -> bool {
    ('a' <= c && c <= 'z') || is_digit(c) || c == '-'
}

/// What a template character admits: `#` a decimal digit, `*` a hexadecimal
/// digit, any other character only itself.
pub open spec fn slot_admits(slot: char, c: char) -> bool {
    if slot == '#' {
        is_digit(c)
    } else if slot == '*' {
        is_hex_digit(c)
    } else {
        c == slot
    }
}

/// `s` has exactly the length of `template` and each of its characters is
/// admitted by the template character at the same position.
pub open spec fn fits_template(s: Seq<char>, template: Seq<char>) -> bool {
    &&& s.len() == template.len()
    &&& forall|i: int| 0 <= i < s.len() ==> slot_admits(#[trigger] template[i], s[i])
}

/// The canonical 8-4-4-4-12 grouping of hexadecimal digits.
pub open spec fn is_identifier(s: Seq<char>) -> bool {
    fits_template(s, "********-****-****-****-************"@)
}

/// `YYYY-MM-DD`.
pub open spec fn is_calendar_date(s: Seq<char>) -> bool {
    fits_template(s, "####-##-##"@)
}

/// `YYYY-MM-DDThh:mm:ss.mmmZ`, with literal `T`, `.` and `Z`.
pub open spec fn is_timestamp(s: Seq<char>) -> bool {
    fits_template(s, "####-##-##T##:##:##.###Z"@)
}

/// One or more lowercase letters, decimal digits and hyphens.
pub open spec fn is_slug(s: Seq<char>) -> bool {
    &&& s.len() > 0
    &&& forall|i: int| 0 <= i < s.len() ==> is_slug_char(#[trigger] s[i])
}

fn char_is_digit(c: char) -> (r: bool)
    ensures
        r == is_digit(c),
{
    '0' <= c && c <= '9'
}

fn char_is_hex_digit(c: char) -> (r: bool)
    ensures
        r == is_hex_digit(c),
{
    char_is_digit(c) || ('a' <= c && c <= 'f') || ('A' <= c && c <= 'F')
}

fn slot_check(slot: char, c: char) -> (r: bool)
    ensures
        r == slot_admits(slot, c),
{
    if slot == '#' {
        char_is_digit(c)
    } else if slot == '*' {
        char_is_hex_digit(c)
    } else {
        c == slot
    }
}

/// Whole-string match of `s` against a fixed-width template.
pub fn matches_template(s: &str, template: &str) -> (r: bool)
    ensures
        r == fits_template(s@, template@),
{
    let n = template.unicode_len();
    if s.unicode_len() != n {
        return false;
    }
    let mut i: usize = 0;
    while i < n
        invariant
            n == template@.len(),
            n == s@.len(),
            i <= n,
            forall|j: int| 0 <= j < i ==> slot_admits(#[trigger] template@[j], s@[j]),
        decreases n - i,
    {
        if !slot_check(template.get_char(i), s.get_char(i)) {
            return false;
        }
        i = i + 1;
    }
    true
}

/// Whole-string test for the slug alphabet.
pub fn check_slug(s: &str) -> (r: bool)
    ensures
        r == is_slug(s@),
{
    let n = s.unicode_len();
    if n == 0 {
        return false;
    }
    let mut i: usize = 0;
    while i < n
        invariant
            n == s@.len(),
            i <= n,
            forall|j: int| 0 <= j < i ==> is_slug_char(#[trigger] s@[j]),
        decreases n - i,
    {
        let c = s.get_char(i);
        if !(('a' <= c && c <= 'z') || char_is_digit(c) || c == '-') {
            return false;
        }
        i = i + 1;
    }
    true
}

/// An identifier in the canonical 8-4-4-4-12 hexadecimal grouping.
#[derive(Debug, PartialEq, Eq)]
pub struct UUID(String);

impl View for UUID {
    type V = Seq<char>;

    closed spec fn view(&self) -> Seq<char> {
        self.0@
    }
}

impl UUID {
    #[verifier::type_invariant]
    spec fn well_formed(self) -> bool {
        is_identifier(self.0@)
    }

    /// The wrapped string.
    pub closed spec fn text(self) -> String {
        self.0
    }

    /// What construction from `uuid` gives.
    pub closed spec fn from_text(uuid: String) -> Result<UUID, ValidationError> {
        if is_identifier(uuid@) {
            Ok(UUID(uuid))
        } else {
            Err(ValidationError::Identifier(uuid))
        }
    }

    /// Accepts exactly the strings in the identifier format.
    pub fn new(uuid: String) -> (r: Result<UUID, ValidationError>)
        ensures
            r is Ok <==> is_identifier(uuid@),
            r matches Ok(v) ==> v@ == uuid@,
            r matches Err(e) ==> e == ValidationError::Identifier(uuid),
            r == UUID::from_text(uuid),
    {
        if matches_template(uuid.as_str(), "********-****-****-****-************") {
            Ok(UUID(uuid))
        } else {
            Err(ValidationError::Identifier(uuid))
        }
    }

    /// The wrapped text, unchanged.
    pub fn as_str(&self) -> (r: &str)
        ensures
            r@ == self@,
            is_identifier(r@),
    {
        proof {
            use_type_invariant(self);
        }
        self.0.as_str()
    }

    /// Rendering for interpolation into URLs: the wrapped text, unquoted.
    pub fn to_string(&self) -> (r: String)
        ensures
            r@ == self@,
    {
        self.0.clone()
    }
}

impl TryFrom<String> for UUID {
    type Error = ValidationError;

    fn try_from(uuid: String) -> (r: Result<UUID, ValidationError>)
        ensures
            r is Ok <==> is_identifier(uuid@),
            r matches Ok(v) ==> v@ == uuid@,
    {
        UUID::new(uuid)
    }
}

impl vstd::std_specs::convert::TryFromSpecImpl<String> for UUID {
    open spec fn obeys_try_from_spec() -> bool {
        true
    }

    open spec fn try_from_spec(uuid: String) -> Result<UUID, ValidationError> {
        UUID::from_text(uuid)
    }
}

impl TryFrom<&str> for UUID {
    type Error = ValidationError;

    fn try_from(uuid: &str) -> (r: Result<UUID, ValidationError>)
        ensures
            r is Ok <==> is_identifier(uuid@),
            r matches Ok(v) ==> v@ == uuid@,
    {
        UUID::new(String::from_str(uuid))
    }
}

impl vstd::std_specs::convert::TryFromSpecImpl<&str> for UUID {
    open spec fn obeys_try_from_spec() -> bool {
        false
    }

    open spec fn try_from_spec(uuid: &str) -> Result<UUID, ValidationError> {
        arbitrary()
    }
}

impl From<UUID> for String {
    fn from(uuid: UUID) -> (r: String)
        ensures
            r@ == uuid@,
    {
        uuid.0
    }
}

impl vstd::std_specs::convert::FromSpecImpl<UUID> for String {
    open spec fn obeys_from_spec() -> bool {
        true
    }

    open spec fn from_spec(uuid: UUID) -> String {
        uuid.text()
    }
}

impl<'a> From<&'a UUID> for &'a str {
    fn from(uuid: &'a UUID) -> (r: &'a str)
        ensures
            r@ == uuid@,
    {
        uuid.as_str()
    }
}

impl<'a> vstd::std_specs::convert::FromSpecImpl<&'a UUID> for &'a str {
    open spec fn obeys_from_spec() -> bool {
        false
    }

    open spec fn from_spec(uuid: &'a UUID) -> &'a str {
        arbitrary()
    }
}

/// Construction of an identifier succeeds on exactly the strings in the
/// identifier format, and the value it gives renders as its input,
/// character for character; on any other string (a partial match at either
/// end included) it is a validation error naming that string.
pub proof fn identifier_construction(s: String)
    ensures
        is_identifier(s@) ==> (UUID::from_text(s) matches Ok(v) && v@ == s@),
        !is_identifier(s@) ==> UUID::from_text(s) == Err::<UUID, ValidationError>(ValidationError::Identifier(s)),
{
}

/// A calendar date in `YYYY-MM-DD` form.
#[derive(Debug, PartialEq, Eq)]
pub struct Date(String);

impl View for Date {
    type V = Seq<char>;

    closed spec fn view(&self) -> Seq<char> {
        self.0@
    }
}

impl Date {
    #[verifier::type_invariant]
    spec fn well_formed(self) -> bool {
        is_calendar_date(self.0@)
    }

    /// The wrapped string.
    pub closed spec fn text(self) -> String {
        self.0
    }

    /// What construction from `date` gives.
    pub closed spec fn from_text(date: String) -> Result<Date, ValidationError> {
        if is_calendar_date(date@) {
            Ok(Date(date))
        } else {
            Err(ValidationError::CalendarDate(date))
        }
    }

    /// Accepts exactly the strings in its format.
    pub fn new(date: String) -> (r: Result<Date, ValidationError>)
        ensures
            r is Ok <==> is_calendar_date(date@),
            r matches Ok(v) ==> v@ == date@,
            r matches Err(e) ==> e == ValidationError::CalendarDate(date),
            r == Date::from_text(date),
    {
        if matches_template(date.as_str(), "####-##-##") {
            Ok(Date(date))
        } else {
            Err(ValidationError::CalendarDate(date))
        }
    }

    /// The wrapped text, unchanged.
    pub fn as_str(&self) -> (r: &str)
        ensures
            r@ == self@,
            is_calendar_date(r@),
    {
        proof {
            use_type_invariant(self);
        }
        self.0.as_str()
    }

    /// Rendering for interpolation into URLs: the wrapped text, unquoted.
    pub fn to_string(&self) -> (r: String)
        ensures
            r@ == self@,
    {
        self.0.clone()
    }
}

impl TryFrom<String> for Date {
    type Error = ValidationError;

    fn try_from(date: String) -> (r: Result<Date, ValidationError>)
        ensures
            r is Ok <==> is_calendar_date(date@),
            r matches Ok(v) ==> v@ == date@,
    {
        Date::new(date)
    }
}

impl vstd::std_specs::convert::TryFromSpecImpl<String> for Date {
    open spec fn obeys_try_from_spec() -> bool {
        true
    }

    open spec fn try_from_spec(date: String) -> Result<Date, ValidationError> {
        Date::from_text(date)
    }
}

impl TryFrom<&str> for Date {
    type Error = ValidationError;

    fn try_from(date: &str) -> (r: Result<Date, ValidationError>)
        ensures
            r is Ok <==> is_calendar_date(date@),
            r matches Ok(v) ==> v@ == date@,
    {
        Date::new(String::from_str(date))
    }
}

impl vstd::std_specs::convert::TryFromSpecImpl<&str> for Date {
    open spec fn obeys_try_from_spec() -> bool {
        false
    }

    open spec fn try_from_spec(date: &str) -> Result<Date, ValidationError> {
        arbitrary()
    }
}

impl From<Date> for String {
    fn from(date: Date) -> (r: String)
        ensures
            r@ == date@,
    {
        date.0
    }
}

impl vstd::std_specs::convert::FromSpecImpl<Date> for String {
    open spec fn obeys_from_spec() -> bool {
        true
    }

    open spec fn from_spec(date: Date) -> String {
        date.text()
    }
}

impl<'a> From<&'a Date> for &'a str {
    fn from(date: &'a Date) -> (r: &'a str)
        ensures
            r@ == date@,
    {
        date.as_str()
    }
}

impl<'a> vstd::std_specs::convert::FromSpecImpl<&'a Date> for &'a str {
    open spec fn obeys_from_spec() -> bool {
        false
    }

    open spec fn from_spec(date: &'a Date) -> &'a str {
        arbitrary()
    }
}

/// A point in time in `YYYY-MM-DDThh:mm:ss.mmmZ` form.
#[derive(Debug, PartialEq, Eq)]
pub struct Timestamp(String);

impl View for Timestamp {
    type V = Seq<char>;

    closed spec fn view(&self) -> Seq<char> {
        self.0@
    }
}

impl Timestamp {
    #[verifier::type_invariant]
    spec fn well_formed(self) -> bool {
        is_timestamp(self.0@)
    }

    /// The wrapped string.
    pub closed spec fn text(self) -> String {
        self.0
    }

    /// What construction from `timestamp` gives.
    pub closed spec fn from_text(timestamp: String) -> Result<Timestamp, ValidationError> {
        if is_timestamp(timestamp@) {
            Ok(Timestamp(timestamp))
        } else {
            Err(ValidationError::Timestamp(timestamp))
        }
    }

    /// Accepts exactly the strings in its format.
    pub fn new(timestamp: String) -> (r: Result<Timestamp, ValidationError>)
        ensures
            r is Ok <==> is_timestamp(timestamp@),
            r matches Ok(v) ==> v@ == timestamp@,
            r matches Err(e) ==> e == ValidationError::Timestamp(timestamp),
            r == Timestamp::from_text(timestamp),
    {
        if matches_template(timestamp.as_str(), "####-##-##T##:##:##.###Z") {
            Ok(Timestamp(timestamp))
        } else {
            Err(ValidationError::Timestamp(timestamp))
        }
    }

    /// The wrapped text, unchanged.
    pub fn as_str(&self) -> (r: &str)
        ensures
            r@ == self@,
            is_timestamp(r@),
    {
        proof {
            use_type_invariant(self);
        }
        self.0.as_str()
    }

    /// Rendering for interpolation into URLs: the wrapped text, unquoted.
    pub fn to_string(&self) -> (r: String)
        ensures
            r@ == self@,
    {
        self.0.clone()
    }
}

impl TryFrom<String> for Timestamp {
    type Error = ValidationError;

    fn try_from(timestamp: String) -> (r: Result<Timestamp, ValidationError>)
        ensures
            r is Ok <==> is_timestamp(timestamp@),
            r matches Ok(v) ==> v@ == timestamp@,
    {
        Timestamp::new(timestamp)
    }
}

impl vstd::std_specs::convert::TryFromSpecImpl<String> for Timestamp {
    open spec fn obeys_try_from_spec() -> bool {
        true
    }

    open spec fn try_from_spec(timestamp: String) -> Result<Timestamp, ValidationError> {
        Timestamp::from_text(timestamp)
    }
}

impl TryFrom<&str> for Timestamp {
    type Error = ValidationError;

    fn try_from(timestamp: &str) -> (r: Result<Timestamp, ValidationError>)
        ensures
            r is Ok <==> is_timestamp(timestamp@),
            r matches Ok(v) ==> v@ == timestamp@,
    {
        Timestamp::new(String::from_str(timestamp))
    }
}

impl vstd::std_specs::convert::TryFromSpecImpl<&str> for Timestamp {
    open spec fn obeys_try_from_spec() -> bool {
        false
    }

    open spec fn try_from_spec(timestamp: &str) -> Result<Timestamp, ValidationError> {
        arbitrary()
    }
}

impl From<Timestamp> for String {
    fn from(timestamp: Timestamp) -> (r: String)
        ensures
            r@ == timestamp@,
    {
        timestamp.0
    }
}

impl vstd::std_specs::convert::FromSpecImpl<Timestamp> for String {
    open spec fn obeys_from_spec() -> bool {
        true
    }

    open spec fn from_spec(timestamp: Timestamp) -> String {
        timestamp.text()
    }
}

impl<'a> From<&'a Timestamp> for &'a str {
    fn from(timestamp: &'a Timestamp) -> (r: &'a str)
        ensures
            r@ == timestamp@,
    {
        timestamp.as_str()
    }
}

impl<'a> vstd::std_specs::convert::FromSpecImpl<&'a Timestamp> for &'a str {
    open spec fn obeys_from_spec() -> bool {
        false
    }

    open spec fn from_spec(timestamp: &'a Timestamp) -> &'a str {
        arbitrary()
    }
}

/// A key made of lowercase letters, decimal digits and hyphens.
#[derive(Debug, PartialEq, Eq)]
pub struct Slug(String);

impl View for Slug {
    type V = Seq<char>;

    closed spec fn view(&self) -> Seq<char> {
        self.0@
    }
}

impl Slug {
    #[verifier::type_invariant]
    spec fn well_formed(self) -> bool {
        is_slug(self.0@)
    }

    /// The wrapped string.
    pub closed spec fn text(self) -> String {
        self.0
    }

    /// What construction from `slug` gives.
    pub closed spec fn from_text(slug: String) -> Result<Slug, ValidationError> {
        if is_slug(slug@) {
            Ok(Slug(slug))
        } else {
            Err(ValidationError::Slug(slug))
        }
    }

    /// Accepts exactly the strings in its format.
    pub fn new(slug: String) -> (r: Result<Slug, ValidationError>)
        ensures
            r is Ok <==> is_slug(slug@),
            r matches Ok(v) ==> v@ == slug@,
            r matches Err(e) ==> e == ValidationError::Slug(slug),
            r == Slug::from_text(slug),
    {
        if check_slug(slug.as_str()) {
            Ok(Slug(slug))
        } else {
            Err(ValidationError::Slug(slug))
        }
    }

    /// The wrapped text, unchanged.
    pub fn as_str(&self) -> (r: &str)
        ensures
            r@ == self@,
            is_slug(r@),
    {
        proof {
            use_type_invariant(self);
        }
        self.0.as_str()
    }

    /// Rendering for interpolation into URLs: the wrapped text, unquoted.
    pub fn to_string(&self) -> (r: String)
        ensures
            r@ == self@,
    {
        self.0.clone()
    }
}

impl TryFrom<String> for Slug {
    type Error = ValidationError;

    fn try_from(slug: String) -> (r: Result<Slug, ValidationError>)
        ensures
            r is Ok <==> is_slug(slug@),
            r matches Ok(v) ==> v@ == slug@,
    {
        Slug::new(slug)
    }
}

impl vstd::std_specs::convert::TryFromSpecImpl<String> for Slug {
    open spec fn obeys_try_from_spec() -> bool {
        true
    }

    open spec fn try_from_spec(slug: String) -> Result<Slug, ValidationError> {
        Slug::from_text(slug)
    }
}

impl TryFrom<&str> for Slug {
    type Error = ValidationError;

    fn try_from(slug: &str) -> (r: Result<Slug, ValidationError>)
        ensures
            r is Ok <==> is_slug(slug@),
            r matches Ok(v) ==> v@ == slug@,
    {
        Slug::new(String::from_str(slug))
    }
}

impl vstd::std_specs::convert::TryFromSpecImpl<&str> for Slug {
    open spec fn obeys_try_from_spec() -> bool {
        false
    }

    open spec fn try_from_spec(slug: &str) -> Result<Slug, ValidationError> {
        arbitrary()
    }
}

impl From<Slug> for String {
    fn from(slug: Slug) -> (r: String)
        ensures
            r@ == slug@,
    {
        slug.0
    }
}

impl vstd::std_specs::convert::FromSpecImpl<Slug> for String {
    open spec fn obeys_from_spec() -> bool {
        true
    }

    open spec fn from_spec(slug: Slug) -> String {
        slug.text()
    }
}

impl<'a> From<&'a Slug> for &'a str {
    fn from(slug: &'a Slug) -> (r: &'a str)
        ensures
            r@ == slug@,
    {
        slug.as_str()
    }
}

impl<'a> vstd::std_specs::convert::FromSpecImpl<&'a Slug> for &'a str {
    open spec fn obeys_from_spec() -> bool {
        false
    }

    open spec fn from_spec(slug: &'a Slug) -> &'a str {
        arbitrary()
    }
}

} // verus!
