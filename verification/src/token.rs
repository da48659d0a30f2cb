//! The session token codec: `<subject-id>.<expiry>.<signature>`.
//!
//! The codec takes a token text apart and puts one together. It checks the
//! shape only; expiry and signature are carried as they are.

use vstd::prelude::*;
use vstd::string::*;
use crate::decimal::{
    decimal_digits, decimal_value, is_decimal_u64, is_digit, lemma_decimal_round_trip,
    parse_decimal, push_decimal,
};
use crate::text::str_chars;
use crate::error::Error;

verus! {

/// A session token, taken apart.
#[derive(Debug, Clone)]
pub struct Token {
    subject_id: u64,
    expiry: String,
    signature: String,
}

/// What a token holds, as plain values.
pub struct TokenView {
    pub subject_id: u64,
    pub expiry: Seq<char>,
    pub signature: Seq<char>,
}

impl View for Token {
    type V = TokenView;

    closed spec fn view(&self) -> TokenView {
        TokenView {
            subject_id: self.subject_id,
            expiry: self.expiry@,
            signature: self.signature@,
        }
    }
}

/// True if `s` can stand between the dots of a token: it is not empty and
/// holds no dot itself.
pub open spec fn is_segment(s: Seq<char>) -> bool {
    s.len() > 0 && forall|i: int| 0 <= i < s.len() ==> #[trigger] s[i] != '.'
}

/// The index of the first dot of `s` at or after `from`; `s.len()` if there
/// is none.
pub open spec fn next_dot(s: Seq<char>, from: int) -> int
    decreases s.len() - from,
{
    if from < 0 || from >= s.len() {
        s.len() as int
    } else if s[from] == '.' {
        from
    } else {
        next_dot(s, from + 1)
    }
}

/// The token that the text `s` denotes, if it has the shape of one: exactly
/// two dots, nothing empty between or around them, and in front of the first
/// dot the decimal text of a number that fits in 64 bits.
pub open spec fn token_of_text(s: Seq<char>) -> Option<TokenView> {
    let d1 = next_dot(s, 0);
    let d2 = next_dot(s, d1 + 1);
    let d3 = next_dot(s, d2 + 1);
    if d2 < s.len() && d3 == s.len() && d1 + 1 < d2 && d2 + 1 < s.len() && is_decimal_u64(
        s.subrange(0, d1),
    ) {
        Some(
            TokenView {
                subject_id: decimal_value(s.subrange(0, d1)) as u64,
                expiry: s.subrange(d1 + 1, d2),
                signature: s.subrange(d2 + 1, s.len() as int),
            },
        )
    } else {
        None
    }
}

/// The text of a token: the three parts with a dot between them, the
/// subject id in its shortest decimal form.
pub open spec fn text_of_token(t: TokenView) -> Seq<char> {
    join_segments(decimal_digits(t.subject_id as nat), t.expiry, t.signature)
}

/// Three segments with a dot between them.
pub open spec fn join_segments(a: Seq<char>, b: Seq<char>, c: Seq<char>) -> Seq<char> {
    a + seq!['.'] + b + seq!['.'] + c
}

/// Where `next_dot` points: not before `from`, at a dot or at the end, with
/// no dot passed over on the way.
pub proof fn lemma_next_dot(s: Seq<char>, from: int)
    requires
        0 <= from <= s.len(),
    ensures
        from <= next_dot(s, from) <= s.len(),
        next_dot(s, from) < s.len() ==> s[next_dot(s, from)] == '.',
        forall|k: int| from <= k < next_dot(s, from) ==> #[trigger] s[k] != '.',
    decreases s.len() - from,
{
    if from < s.len() && s[from] != '.' {
        lemma_next_dot(s, from + 1);
    }
}

/// `next_dot` finds the position `at` if nothing between `from` and `at` is
/// a dot and `at` is a dot or the end.
pub proof fn lemma_next_dot_is(s: Seq<char>, from: int, at: int)
    requires
        0 <= from <= at <= s.len(),
        forall|k: int| from <= k < at ==> #[trigger] s[k] != '.',
        at < s.len() ==> s[at] == '.',
    ensures
        next_dot(s, from) == at,
    decreases at - from,
{
    if from < at {
        lemma_next_dot_is(s, from + 1, at);
    }
}

/// Three segments joined by dots are read back as those segments: as a
/// token if the first is the decimal text of a 64-bit number, and as
/// nothing otherwise.
pub proof fn lemma_token_of_joined(a: Seq<char>, b: Seq<char>, c: Seq<char>)
    requires
        is_segment(a),
        is_segment(b),
        is_segment(c),
    ensures
        is_decimal_u64(a) ==> token_of_text(join_segments(a, b, c)) == Some(
            TokenView { subject_id: decimal_value(a) as u64, expiry: b, signature: c },
        ),
        !is_decimal_u64(a) ==> token_of_text(join_segments(a, b, c)) is None,
{
    let s = join_segments(a, b, c);
    let d1 = a.len() as int;
    let d2 = d1 + 1 + b.len();
    assert(s.len() == d2 + 1 + c.len());
    assert forall|k: int| 0 <= k < d1 implies #[trigger] s[k] != '.' by {
        assert(s[k] == a[k]);
    }
    assert(s[d1] == '.');
    lemma_next_dot_is(s, 0, d1);
    assert forall|k: int| d1 + 1 <= k < d2 implies #[trigger] s[k] != '.' by {
        assert(s[k] == b[k - d1 - 1]);
    }
    assert(s[d2] == '.');
    lemma_next_dot_is(s, d1 + 1, d2);
    assert forall|k: int| d2 + 1 <= k < s.len() implies #[trigger] s[k] != '.' by {
        assert(s[k] == c[k - d2 - 1]);
    }
    lemma_next_dot_is(s, d2 + 1, s.len() as int);
    assert(s.subrange(0, d1) =~= a);
    assert(s.subrange(d1 + 1, d2) =~= b);
    assert(s.subrange(d2 + 1, s.len() as int) =~= c);
}

/// A text that denotes a token is three segments joined by dots, the first
/// of them a decimal number: no other shape is read as a token.
pub proof fn lemma_token_text_shape(s: Seq<char>)
    requires
        token_of_text(s) is Some,
    ensures
        ({
            let d1 = next_dot(s, 0);
            let t = token_of_text(s)->0;
            &&& s == join_segments(s.subrange(0, d1), t.expiry, t.signature)
            &&& is_segment(s.subrange(0, d1))
            &&& is_decimal_u64(s.subrange(0, d1))
            &&& is_segment(t.expiry)
            &&& is_segment(t.signature)
        }),
{
    let d1 = next_dot(s, 0);
    lemma_next_dot(s, 0);
    let d2 = next_dot(s, d1 + 1);
    lemma_next_dot(s, d1 + 1);
    lemma_next_dot(s, d2 + 1);
    let t = token_of_text(s)->0;
    let a = s.subrange(0, d1);
    assert(s =~= join_segments(a, t.expiry, t.signature));
    assert forall|i: int| 0 <= i < a.len() implies #[trigger] a[i] != '.' by {
        assert(a[i] == s[i]);
    }
    assert forall|i: int| 0 <= i < t.expiry.len() implies #[trigger] t.expiry[i] != '.' by {
        assert(t.expiry[i] == s[d1 + 1 + i]);
    }
    assert forall|i: int| 0 <= i < t.signature.len() implies #[trigger] t.signature[i]
        != '.' by {
        assert(t.signature[i] == s[d2 + 1 + i]);
    }
}

/// The decimal text of a number is a segment.
pub proof fn lemma_decimal_digits_is_segment(n: nat)
    ensures
        is_segment(decimal_digits(n)),
{
    lemma_decimal_round_trip(n);
    let s = decimal_digits(n);
    assert forall|i: int| 0 <= i < s.len() implies #[trigger] s[i] != '.' by {
        assert(is_digit(s[i]));
    }
}

/// Writing a token and reading the text gives the token back, whenever its
/// expiry and signature are segments.
pub proof fn lemma_token_round_trip(t: TokenView)
    requires
        is_segment(t.expiry),
        is_segment(t.signature),
    ensures
        token_of_text(text_of_token(t)) == Some(t),
{
    let a = decimal_digits(t.subject_id as nat);
    lemma_decimal_digits_is_segment(t.subject_id as nat);
    lemma_decimal_round_trip(t.subject_id as nat);
    lemma_token_of_joined(a, t.expiry, t.signature);
}

/// The index of the first dot at or after `from`, or the length.
fn find_dot(chars: &Vec<char>, from: usize) -> (at: usize)
    requires
        from <= chars.len(),
    ensures
        at == next_dot(chars@, from as int),
        from <= at <= chars.len(),
{
    let mut i: usize = from;
    while i < chars.len() && chars[i] != '.'
        invariant
            from <= i <= chars.len(),
            next_dot(chars@, i as int) == next_dot(chars@, from as int),
        decreases chars.len() - i,
    {
        i = i + 1;
    }
    i
}

/// True if `text` is not empty and holds no dot.
pub fn is_segment_text(text: &str) -> (ok: bool)
    ensures
        ok == is_segment(text@),
{
    let chars = str_chars(text);
    let at = find_dot(&chars, 0);
    proof {
        lemma_next_dot(chars@, 0);
    }
    chars.len() > 0 && at == chars.len()
}

impl Token {
    /// True if expiry and signature are segments, so that the token's text
    /// is read back as this token.
    pub open spec fn well_formed(&self) -> bool {
        is_segment(self@.expiry) && is_segment(self@.signature)
    }

    /// A token of the three parts. Fails with `AuthFailTokenWrongFormat`
    /// exactly if expiry or signature is empty or holds a dot.
    pub fn new(subject_id: u64, expiry: String, signature: String) -> (r: Result<Token, Error>)
        ensures
            r is Ok <==> is_segment(expiry@) && is_segment(signature@),
            r is Ok ==> r->Ok_0@ == (TokenView {
                subject_id,
                expiry: expiry@,
                signature: signature@,
            }) && r->Ok_0.well_formed(),
            r is Err ==> r->Err_0 == Error::AuthFailTokenWrongFormat,
    {
        if is_segment_text(expiry.as_str()) && is_segment_text(signature.as_str()) {
            Ok(Token { subject_id, expiry, signature })
        } else {
            Err(Error::AuthFailTokenWrongFormat)
        }
    }

    /// The id of the user that the token was made for.
    pub fn subject_id(&self) -> (id: u64)
        ensures
            id == self@.subject_id,
    {
        self.subject_id
    }

    /// The expiry, as it stood in the text.
    pub fn expiry(&self) -> (s: &str)
        ensures
            s@ == self@.expiry,
    {
        self.expiry.as_str()
    }

    /// The signature, as it stood in the text.
    pub fn signature(&self) -> (s: &str)
        ensures
            s@ == self@.signature,
    {
        self.signature.as_str()
    }
}

/// Takes a token text apart. Succeeds exactly on three non-empty segments
/// separated by dots of which the first is a decimal number that fits in 64
/// bits; every other text is an `AuthFailTokenWrongFormat`. Expiry and
/// signature are not looked into.
pub fn parse_token(raw: &str) -> (r: Result<Token, Error>)
    ensures
        match r {
            Ok(token) => token_of_text(raw@) == Some(token@) && token.well_formed(),
            Err(e) => token_of_text(raw@) is None && e == Error::AuthFailTokenWrongFormat,
        },
{
    let chars = str_chars(raw);
    let n: usize = chars.len();
    let d1 = find_dot(&chars, 0);
    if d1 >= n {
        return Err(Error::AuthFailTokenWrongFormat);
    }
    let d2 = find_dot(&chars, d1 + 1);
    if d2 >= n {
        return Err(Error::AuthFailTokenWrongFormat);
    }
    let d3 = find_dot(&chars, d2 + 1);
    if d3 < n || d1 + 1 == d2 || d2 + 1 == n {
        return Err(Error::AuthFailTokenWrongFormat);
    }
    match parse_decimal(raw.substring_char(0, d1)) {
        None => Err(Error::AuthFailTokenWrongFormat),
        Some(subject_id) => {
            let expiry = raw.substring_char(d1 + 1, d2).to_owned();
            let signature = raw.substring_char(d2 + 1, n).to_owned();
            proof {
                lemma_token_text_shape(raw@);
            }
            Ok(Token { subject_id, expiry, signature })
        },
    }
}

/// Puts a token's text together: subject id, expiry and signature with a dot
/// between them.
pub fn format_token(token: &Token) -> (text: String)
    ensures
        text@ == text_of_token(token@),
{
    let mut text = String::new();
    push_decimal(token.subject_id as u128, &mut text);
    proof {
        reveal_strlit(".");
    }
    text.append(".");
    text.append(token.expiry.as_str());
    text.append(".");
    text.append(token.signature.as_str());
    assert(text@ =~= text_of_token(token@));
    text
}

} // verus!
