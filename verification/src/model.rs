use vstd::prelude::*;
use vstd::string::StrSliceExecFns;
use vstd::string::StringExecFns;

use unicode_segmentation::UnicodeSegmentation;

verus! {

/// The mathematical value of a stored resource: its natural key and its
/// payload, both as sequences of characters.
pub ghost struct UserView {
    pub name: Seq<char>,
    pub password: Seq<char>,
}

/// A stored resource: a user record whose identity is its name.
pub struct User {
    pub name: String,
    pub password: String,
}

impl View for User {
    type V = UserView;

    open spec fn view(&self) -> UserView {
        UserView { name: self.name@, password: self.password@ }
    }
}

impl Clone for User {
    fn clone(&self) -> (r: Self)
        ensures
            r@ == self@,
    {
        User { name: self.name.clone(), password: self.password.clone() }
    }
}

impl User {
    /// The one-line rendering of the record.
    pub fn describe(&self) -> (r: String)
        ensures
            r@ == "User => name: "@ + self.name@ + ", password: "@ + self.password@,
    {
        let mut r = String::from_str("User => name: ");
        r.append(self.name.as_str());
        r.append(", password: ");
        r.append(self.password.as_str());
        r
    }
}

/// The number of extended grapheme clusters of a string: a function of its
/// characters alone.
pub uninterp spec fn grapheme_count_of(s: Seq<char>) -> nat;

/// Whether a character has the Unicode `White_Space` property: a function of
/// the character alone.
pub uninterp spec fn is_whitespace_char(c: char) -> bool;

/// Relies on unicode_segmentation's `UnicodeSegmentation::graphemes`: the
/// extended grapheme clusters of a string, and so their number, depend on its
/// characters alone.
#[verifier::external_body]
fn grapheme_count(s: &str) -> (r: usize)
    ensures
        r as nat == grapheme_count_of(s@),
{
    s.graphemes(true).count()
}

/// Relies on std's `char::is_whitespace`: whether a character has the Unicode
/// `White_Space` property depends on the character alone.
pub assume_specification[ char::is_whitespace ](c: char) -> (r: bool)
    ensures
        r == is_whitespace_char(c),
;

/// Every character of the string is whitespace; true of the empty string.
pub open spec fn all_whitespace(s: Seq<char>) -> bool {
    forall|i: int| 0 <= i < s.len() ==> is_whitespace_char(s[i])
}

/// A character a name may never contain.
pub open spec fn is_forbidden_char(c: char) -> bool {
    c == '/' || c == '(' || c == ')' || c == '"' || c == '<' || c == '>' || c == '\\' || c == '{'
        || c == '}'
}

/// A well-formed name: neither empty nor whitespace only, at most 256
/// grapheme clusters long, and free of forbidden characters.
pub open spec fn valid_name(s: Seq<char>) -> bool {
    &&& !all_whitespace(s)
    &&& grapheme_count_of(s) <= 256
    &&& forall|i: int| 0 <= i < s.len() ==> !is_forbidden_char(s[i])
}

/// Checks a raw string against `valid_name`: a well-formed string is handed
/// back unchanged, anything else is rejected with a message naming it.
pub fn validate(s: String) -> (r: Result<String, String>)
    ensures
        r is Ok <==> valid_name(s@),
        r is Ok ==> r->Ok_0 == s,
        r is Err ==> r->Err_0@ == s@ + " not a valid username"@,
{
    let n = s.as_str().unicode_len();
    let mut all_ws = true;
    let mut has_forbidden = false;
    let mut i: usize = 0;
    while i < n
        invariant
            n == s@.len(),
            0 <= i <= n,
            all_ws == (forall|j: int| 0 <= j < i ==> is_whitespace_char(s@[j])),
            has_forbidden == (exists|j: int| 0 <= j < i && is_forbidden_char(s@[j])),
        decreases n - i,
    {
        let c = s.as_str().get_char(i);
        if !c.is_whitespace() {
            all_ws = false;
        }
        if c == '/' || c == '(' || c == ')' || c == '"' || c == '<' || c == '>' || c == '\\'
            || c == '{' || c == '}' {
            has_forbidden = true;
        }
        i += 1;
    }
    let too_long = grapheme_count(s.as_str()) > 256;
    if all_ws || too_long || has_forbidden {
        let mut msg = s;
        msg.append(" not a valid username");
        Err(msg)
    } else {
        Ok(s)
    }
}

/// The raw payload a caller submits before validation.
pub struct FormData {
    pub name: String,
    pub password: String,
}

/// A name that passed `validate`.
#[derive(Debug)]
pub struct UserName(String);

/// A password that passed `validate`.
#[derive(Debug)]
pub struct UserPassword(String);

impl View for UserName {
    type V = Seq<char>;

    closed spec fn view(&self) -> Seq<char> {
        self.0@
    }
}

impl View for UserPassword {
    type V = Seq<char>;

    closed spec fn view(&self) -> Seq<char> {
        self.0@
    }
}

impl UserName {
    pub fn as_str(&self) -> (r: &str)
        ensures
            r@ == self@,
    {
        self.0.as_str()
    }
}

impl UserPassword {
    pub fn as_str(&self) -> (r: &str)
        ensures
            r@ == self@,
    {
        self.0.as_str()
    }
}

/// A resource both of whose fields passed validation.
#[derive(Debug)]
pub struct NewUser {
    pub name: UserName,
    pub password: UserPassword,
}

impl FormData {
    /// Validates both fields and wraps them; malformed input is rejected with
    /// the offending field's message, never by aborting.
    pub fn try_into(self) -> (r: Result<NewUser, String>)
        ensures
            r is Ok <==> valid_name(self.name@) && valid_name(self.password@),
            r is Ok ==> r->Ok_0.name@ == self.name@ && r->Ok_0.password@ == self.password@,
            r is Err ==> r->Err_0@ == (if !valid_name(self.name@) {
                self.name@
            } else {
                self.password@
            }) + " not a valid username"@,
    {
        let vname = match validate(self.name) {
            Ok(n) => n,
            Err(e) => {
                return Err(e);
            },
        };
        let vpass = match validate(self.password) {
            Ok(p) => p,
            Err(e) => {
                return Err(e);
            },
        };
        Ok(NewUser { name: UserName(vname), password: UserPassword(vpass) })
    }
}

} // verus!
