//! HTTP response statuses: which of them mean success, and how they read in a
//! failure message.

use vstd::prelude::*;

verus! {

/// The text that `reqwest::StatusCode` displays for the status numbered `code`:
/// the number followed by its standard reason phrase.
pub uninterp spec fn status_display(code: u16) -> Seq<char>;

/// The character that writes the decimal digit `d`.
pub open spec fn digit_char(d: int) -> char
    recommends
        0 <= d < 10,
{
    seq!['0', '1', '2', '3', '4', '5', '6', '7', '8', '9'][d]
}

/// The three decimal digits of a status number between 100 and 999.
pub open spec fn code_digits(code: u16) -> Seq<char>
    recommends
        100 <= code <= 999,
{
    seq![
        digit_char(code as int / 100),
        digit_char(code as int / 10 % 10),
        digit_char(code as int % 10),
    ]
}

/// `text` opens with the three digits of `code` and a space.
pub open spec fn opens_with_code(text: Seq<char>, code: u16) -> bool {
    &&& text.len() >= 4
    &&& text.subrange(0, 3) == code_digits(code)
    &&& text[3] == ' '
}

/// Asks `reqwest::StatusCode::is_success` about the status numbered `code`.
/// Trusted: the answer is yes exactly for the numbers 200 to 299.
#[verifier::external_body]
fn status_code_is_success(code: u16) -> (yes: bool)
    requires
        100 <= code <= 999,
    ensures
        yes == (200 <= code < 300),
{
    match reqwest::StatusCode::from_u16(code) {
        Ok(status) => status.is_success(),
        Err(_) => false,
    }
}

/// Formats the status numbered `code` with the `Display` impl of
/// `reqwest::StatusCode`. Trusted: the result is a function of the number
/// alone, and it starts with the number in decimal and one space; the reason
/// phrase that follows is left unstated.
#[verifier::external_body]
fn status_code_text(code: u16) -> (text: String)
    requires
        100 <= code <= 999,
    ensures
        text@ == status_display(code),
        opens_with_code(text@, code),
{
    match reqwest::StatusCode::from_u16(code) {
        Ok(status) => status.to_string(),
        Err(_) => String::new(),
    }
}

/// The status of an HTTP response, a number between 100 and 999.
#[derive(Clone, Copy, Debug, PartialEq, Eq)]
pub struct HttpStatus {
    code: u16,
}

impl HttpStatus {
    #[verifier::type_invariant]
    spec fn in_range(self) -> bool {
        100 <= self.code <= 999
    }

    /// The status number.
    pub closed spec fn number(self) -> u16 {
        self.code
    }

    /// Whether the status reports success: a number from 200 to 299.
    pub open spec fn success(self) -> bool {
        200 <= self.number() < 300
    }

    /// The status numbered `code`, if `code` is a status number at all.
    pub fn new(code: u16) -> (status: Option<HttpStatus>)
        ensures
            status is Some <==> 100 <= code <= 999,
            status matches Some(s) ==> s.number() == code,
    {
        if 100 <= code && code <= 999 {
            Some(HttpStatus { code })
        } else {
            None
        }
    }

    /// The status number.
    pub fn code(&self) -> (code: u16)
        ensures
            code == self.number(),
            100 <= code <= 999,
    {
        proof {
            use_type_invariant(self);
        }
        self.code
    }

    /// Whether the status reports success.
    pub fn is_success(&self) -> (yes: bool)
        ensures
            yes == self.success(),
    {
        proof {
            use_type_invariant(self);
        }
        status_code_is_success(self.code)
    }

    /// The status as it reads in a message, such as `404 Not Found`.
    pub fn text(&self) -> (text: String)
        ensures
            text@ == status_display(self.number()),
            opens_with_code(text@, self.number()),
    {
        proof {
            use_type_invariant(self);
        }
        status_code_text(self.code)
    }
}

} // verus!
