use unicode_segmentation::UnicodeSegmentation;
use vstd::prelude::*;
use vstd::std_specs::cmp::PartialEqSpec;

verus! {

/// The number of extended grapheme clusters (user-perceived characters) of `s`.
pub uninterp spec fn grapheme_count(s: Seq<char>) -> nat;

/// Relies on unicode_segmentation's `graphemes(true)`: the extended grapheme
/// clusters of `s`, here only counted.
#[verifier::external_body]
fn count_graphemes(s: &str) -> (r: usize)
    ensures
        r as nat == grapheme_count(s@),
{
    s.graphemes(true).count()
}

/// The most grapheme clusters a subscriber name may hold.
pub const MAX_NAME_GRAPHEMES: usize = 256;

/// Unicode's `White_Space` property, which `char::is_whitespace` and
/// `str::trim` go by.
pub open spec fn is_white_space(c: char) -> bool {
    let u = c as u32;
    (0x9 <= u <= 0xd) || u == 0x20 || u == 0x85 || u == 0xa0 || u == 0x1680 || (0x2000 <= u
        <= 0x200a) || u == 0x2028 || u == 0x2029 || u == 0x202f || u == 0x205f || u == 0x3000
}

/// `s` is empty once trimmed: every character is white space.
pub open spec fn is_blank(s: Seq<char>) -> bool {
    forall|i: int| 0 <= i < s.len() ==> is_white_space(#[trigger] s[i])
}

/// The characters that a subscriber name may not hold.
pub open spec fn is_forbidden(c: char) -> bool {
    c == '/' || c == '(' || c == ')' || c == '"' || c == '<' || c == '>' || c == '\\' || c
        == '{' || c == '}'
}

pub open spec fn has_forbidden(s: Seq<char>) -> bool {
    exists|i: int| 0 <= i < s.len() && is_forbidden(#[trigger] s[i])
}

/// What a subscriber name must satisfy, given its grapheme cluster count.
pub open spec fn name_ok(s: Seq<char>, graphemes: nat) -> bool {
    !is_blank(s) && graphemes <= MAX_NAME_GRAPHEMES && !has_forbidden(s)
}

pub open spec fn valid_name(s: Seq<char>) -> bool {
    name_ok(s, grapheme_count(s))
}

/// The same test as `char::is_whitespace`.
pub fn is_white_space_char(c: char) -> (r: bool)
    ensures
        r == is_white_space(c),
{
    let u = c as u32;
    (0x9 <= u && u <= 0xd) || u == 0x20 || u == 0x85 || u == 0xa0 || u == 0x1680 || (0x2000 <= u
        && u <= 0x200a) || u == 0x2028 || u == 0x2029 || u == 0x202f || u == 0x205f || u == 0x3000
}

pub fn is_forbidden_char(c: char) -> (r: bool)
    ensures
        r == is_forbidden(c),
{
    c == '/' || c == '(' || c == ')' || c == '"' || c == '<' || c == '>' || c == '\\' || c == '{'
        || c == '}'
}

/// Whether `s`, whose grapheme cluster count is `graphemes`, is an acceptable
/// subscriber name.
pub fn name_is_valid(s: &str, graphemes: usize) -> (r: bool)
    ensures
        r == name_ok(s@, graphemes as nat),
{
    let n = s.unicode_len();
    let mut blank = true;
    let mut forbidden = false;
    let mut i: usize = 0;
    while i < n
        invariant
            n == s@.len(),
            i <= n,
            blank == (forall|j: int| 0 <= j < i ==> is_white_space(#[trigger] s@[j])),
            forbidden == (exists|j: int| 0 <= j < i && is_forbidden(#[trigger] s@[j])),
        decreases n - i,
    {
        let c = s.get_char(i);
        if !is_white_space_char(c) {
            blank = false;
        }
        if is_forbidden_char(c) {
            forbidden = true;
        }
        i = i + 1;
        assert(forall|j: int| 0 <= j < i - 1 ==> #[trigger] s@[j] == s@[j]);
    }
    !blank && graphemes <= MAX_NAME_GRAPHEMES && !forbidden
}

/// A subscriber's name, checked once when it is made.
#[derive(Debug)]
pub struct SubscriberName(String);

impl View for SubscriberName {
    type V = Seq<char>;

    closed spec fn view(&self) -> Seq<char> {
        self.0@
    }
}

impl SubscriberName {
    #[verifier::type_invariant]
    spec fn inv(self) -> bool {
        valid_name(self.0@)
    }

    /// Read-only access to the name, which is always a valid one.
    pub fn inner_ref(&self) -> (r: &str)
        ensures
            r@ == self@,
            valid_name(r@),
    {
        proof {
            use_type_invariant(self);
        }
        self.0.as_str()
    }

    /// Makes a name of `s` where `s` is not blank, holds at most
    /// `MAX_NAME_GRAPHEMES` grapheme clusters and none of the forbidden
    /// characters; otherwise the error names `s`.
    pub fn parse(s: String) -> (r: Result<SubscriberName, String>)
        ensures
            r is Ok <==> valid_name(s@),
            r is Ok ==> r->Ok_0@ == s@,
            r is Err ==> r->Err_0@ == s@ + " is not a valid subscriber name."@,
    {
        let graphemes = count_graphemes(s.as_str());
        if name_is_valid(s.as_str(), graphemes) {
            Ok(SubscriberName(s))
        } else {
            Err(s.concat(" is not a valid subscriber name."))
        }
    }

}

/// `k` is the position of the one `@` in `s`.
pub open spec fn sole_at(s: Seq<char>, k: int) -> bool {
    0 <= k < s.len() && s[k] == '@' && forall|j: int|
        0 <= j < s.len() && j != k ==> #[trigger] s[j] != '@'
}

/// A domain: no dot at either end, and a dot between them.
pub open spec fn valid_domain(d: Seq<char>) -> bool {
    d.len() > 0 && d[0] != '.' && d[d.len() - 1] != '.' && exists|i: int|
        0 < i < d.len() - 1 && #[trigger] d[i] == '.'
}

/// An address: no white space, one `@`, a non-empty local part before it and a
/// domain after it.
pub open spec fn valid_email(s: Seq<char>) -> bool {
    &&& forall|i: int| 0 <= i < s.len() ==> !is_white_space(#[trigger] s[i])
    &&& exists|k: int|
        #![trigger sole_at(s, k)]
        sole_at(s, k) && k > 0 && valid_domain(s.subrange(k + 1, s.len() as int))
}

pub fn is_valid_domain(d: &str) -> (r: bool)
    ensures
        r == valid_domain(d@),
{
    let n = d.unicode_len();
    if n == 0 || d.get_char(0) == '.' || d.get_char(n - 1) == '.' {
        return false;
    }
    let mut i: usize = 1;
    while i < n - 1
        invariant
            n == d@.len(),
            n > 0,
            d@[0] != '.',
            d@[n - 1] != '.',
            1 <= i <= n,
            forall|j: int| 0 < j < i ==> #[trigger] d@[j] != '.',
        decreases n - i,
    {
        if d.get_char(i) == '.' {
            assert(d@[i as int] == '.');
            return true;
        }
        i = i + 1;
    }
    assert forall|j: int| 0 < j < d@.len() - 1 implies #[trigger] d@[j] != '.' by {}
    false
}

pub fn is_valid_email(s: &str) -> (r: bool)
    ensures
        r == valid_email(s@),
{
    let n = s.unicode_len();
    let ghost sv = s@;
    let mut found_at = false;
    let mut at: usize = 0;
    let mut i: usize = 0;
    while i < n
        invariant
            n == sv.len(),
            sv == s@,
            i <= n,
            forall|j: int| 0 <= j < i ==> !is_white_space(#[trigger] sv[j]),
            !found_at ==> forall|j: int| 0 <= j < i ==> #[trigger] sv[j] != '@',
            found_at ==> at < i && sv[at as int] == '@' && forall|j: int|
                0 <= j < i && j != at ==> #[trigger] sv[j] != '@',
        decreases n - i,
    {
        let c = s.get_char(i);
        if is_white_space_char(c) {
            assert(!valid_email(sv));
            return false;
        }
        if c == '@' {
            if found_at {
                assert forall|k: int| !#[trigger] sole_at(sv, k) by {
                    if k != at as int {
                        assert(sv[at as int] == '@');
                    } else {
                        assert(sv[i as int] == '@');
                    }
                }
                return false;
            }
            found_at = true;
            at = i;
        }
        i = i + 1;
    }
    if !found_at {
        assert forall|k: int| !#[trigger] sole_at(sv, k) by {
            if 0 <= k < sv.len() {
                assert(sv[k] != '@');
            }
        }
        return false;
    }
    assert(sole_at(sv, at as int));
    assert forall|k: int| #[trigger] sole_at(sv, k) implies k == at as int by {
        if k != at as int {
            assert(sv[at as int] != '@');
        }
    }
    if at == 0 {
        return false;
    }
    let domain = s.substring_char(at + 1, n);
    is_valid_domain(domain)
}

/// A subscriber's email address, checked once when it is made.
#[derive(Debug)]
pub struct SubscriberEmail(String);

impl View for SubscriberEmail {
    type V = Seq<char>;

    closed spec fn view(&self) -> Seq<char> {
        self.0@
    }
}

impl SubscriberEmail {
    #[verifier::type_invariant]
    spec fn inv(self) -> bool {
        valid_email(self.0@)
    }

    /// Read-only access to the address, which is always a valid one.
    pub fn as_str(&self) -> (r: &str)
        ensures
            r@ == self@,
            valid_email(r@),
    {
        proof {
            use_type_invariant(self);
        }
        self.0.as_str()
    }

    /// Makes an address of `s` where `s` is a valid address; otherwise the
    /// error names `s`.
    pub fn parse(s: String) -> (r: Result<SubscriberEmail, String>)
        ensures
            r is Ok <==> valid_email(s@),
            r is Ok ==> r->Ok_0@ == s@,
            r is Err ==> r->Err_0@ == s@ + " is not a valid subscriber email."@,
    {
        if is_valid_email(s.as_str()) {
            Ok(SubscriberEmail(s))
        } else {
            Err(s.concat(" is not a valid subscriber email."))
        }
    }
}

impl PartialEq for SubscriberName {
    fn eq(&self, other: &SubscriberName) -> (r: bool) {
        self.0 == other.0
    }
}

impl vstd::std_specs::cmp::PartialEqSpecImpl for SubscriberName {
    open spec fn obeys_eq_spec() -> bool {
        true
    }

    open spec fn eq_spec(&self, other: &SubscriberName) -> bool {
        self@ == other@
    }
}

impl PartialEq for SubscriberEmail {
    fn eq(&self, other: &SubscriberEmail) -> (r: bool) {
        self.0 == other.0
    }
}

impl vstd::std_specs::cmp::PartialEqSpecImpl for SubscriberEmail {
    open spec fn obeys_eq_spec() -> bool {
        true
    }

    open spec fn eq_spec(&self, other: &SubscriberEmail) -> bool {
        self@ == other@
    }
}

/// A blank name (one that trims to nothing) is never accepted.
pub proof fn lemma_blank_name_rejected(s: Seq<char>)
    requires
        is_blank(s),
    ensures
        !valid_name(s),
{
}

/// A name holding a forbidden character is never accepted, whatever else it
/// holds.
pub proof fn lemma_forbidden_char_rejected(s: Seq<char>, i: int)
    requires
        0 <= i < s.len(),
        is_forbidden(s[i]),
    ensures
        !valid_name(s),
{
}

/// An address needs an `@` and a dot after it; the empty string is no
/// address.
pub proof fn lemma_email_needs_at_and_dot(s: Seq<char>)
    ensures
        s.len() == 0 ==> !valid_email(s),
        (forall|i: int| 0 <= i < s.len() ==> #[trigger] s[i] != '@') ==> !valid_email(s),
        (forall|i: int| 0 <= i < s.len() ==> #[trigger] s[i] != '.') ==> !valid_email(s),
{
    if valid_email(s) {
        let k = choose|k: int| sole_at(s, k) && k > 0 && valid_domain(s.subrange(k + 1, s.len() as int));
        let d = s.subrange(k + 1, s.len() as int);
        let i = choose|i: int| 0 < i < d.len() - 1 && #[trigger] d[i] == '.';
        assert(s[k] == '@');
        assert(s[k + 1 + i] == '.');
    }
}

/// Parsing the same text twice gives equal names: each result holds the text
/// itself.
pub proof fn lemma_name_parse_idempotent(s: Seq<char>, a: SubscriberName, b: SubscriberName)
    requires
        a@ == s,
        b@ == s,
    ensures
        a.eq_spec(&b),
{
}

/// Parsing the same text twice gives equal addresses: each result holds the
/// text itself.
pub proof fn lemma_email_parse_idempotent(s: Seq<char>, a: SubscriberEmail, b: SubscriberEmail)
    requires
        a@ == s,
        b@ == s,
    ensures
        a.eq_spec(&b),
{
}

/// A sign-up whose name and address have both been checked.
pub struct NewSubscriber {
    pub email: SubscriberEmail,
    pub name: SubscriberName,
}

} // verus!
