//! Options shared by every request kind, and the metadata shared by every
//! response.
use vstd::prelude::*;
use crate::json::{
    decimal, decimal_text, digit_char, digit_text, has_key, json_quoted, lemma_has_key_concat,
    lemma_has_key_none, lemma_has_key_one, quote,
};

verus! {

/// A non-negative decimal with three digits after the point, held as a count
/// of thousandths (`700` stands for `0.700`).
#[derive(Debug, Clone, Copy, PartialEq, Eq, Structural)]
pub struct Thousandths {
    pub value: u32,
}

impl Thousandths {
    /// The number as a JSON number: whole part, point, three digits.
    pub open spec fn spec_text(self) -> Seq<char> {
        decimal((self.value / 1000) as nat) + seq![
            '.',
            digit_char(((self.value % 1000) / 100) as nat),
            digit_char(((self.value % 100) / 10) as nat),
            digit_char((self.value % 10) as nat),
        ]
    }

    pub fn text(&self) -> (r: String)
        ensures
            r@ == self.spec_text(),
    {
        let mut out = decimal_text((self.value / 1000) as usize);
        out.append(".");
        out.append(digit_text((self.value % 1000) / 100));
        out.append(digit_text((self.value % 100) / 10));
        out.append(digit_text(self.value % 10));
        proof {
            reveal_strlit(".");
            assert(out@ =~= self.spec_text());
        }
        out
    }
}

/// `true` or `false` as JSON text.
pub open spec fn bool_text(b: bool) -> Seq<char> {
    if b {
        "true"@
    } else {
        "false"@
    }
}

/// The member for an optional decimal option: none when it is unset.
pub open spec fn fraction_member(key: Seq<char>, o: Option<Thousandths>) -> Seq<(Seq<char>, Seq<char>)> {
    match o {
        Some(t) => seq![(key, t.spec_text())],
        None => Seq::empty(),
    }
}

/// The member for an optional count: none when it is unset.
pub open spec fn count_member(key: Seq<char>, o: Option<usize>) -> Seq<(Seq<char>, Seq<char>)> {
    match o {
        Some(n) => seq![(key, decimal(n as nat))],
        None => Seq::empty(),
    }
}

/// The member for an optional text: none when it is unset.
pub open spec fn text_member(key: Seq<char>, o: Option<String>) -> Seq<(Seq<char>, Seq<char>)> {
    match o {
        Some(s) => seq![(key, json_quoted(s@))],
        None => Seq::empty(),
    }
}

/// Appends one member with the given key and value text.
pub(crate) fn push_member(out: &mut Vec<(String, String)>, key: &str, value: String)
    ensures
        final(out).deep_view() =~= old(out).deep_view().push((key@, value@)),
{
    let ghost before = out@;
    out.push((String::from_str(key), value));
    proof {
        assert(out@ == before.push(out@.last()));
    }
}

pub(crate) fn push_fraction(out: &mut Vec<(String, String)>, key: &str, o: Option<Thousandths>)
    ensures
        final(out).deep_view() =~= old(out).deep_view() + fraction_member(key@, o),
{
    match o {
        Some(t) => push_member(out, key, t.text()),
        None => {},
    }
}

pub(crate) fn push_count(out: &mut Vec<(String, String)>, key: &str, o: Option<usize>)
    ensures
        final(out).deep_view() =~= old(out).deep_view() + count_member(key@, o),
{
    match o {
        Some(n) => push_member(out, key, decimal_text(n)),
        None => {},
    }
}

pub(crate) fn push_text(out: &mut Vec<(String, String)>, key: &str, o: &Option<String>)
    ensures
        final(out).deep_view() =~= old(out).deep_view() + text_member(key@, *o),
{
    match o {
        Some(s) => push_member(out, key, quote(s.as_str())),
        None => {},
    }
}

/// The sampling and output options that every request carries. Unset
/// options are left out of the payload; `stream` and `user` always appear.
#[derive(Debug, Clone)]
pub struct Base {
    /// The sampling temperature.
    pub temperature: Option<Thousandths>,
    /// Nucleus sampling: the model considers the tokens of this probability mass.
    pub top_p: Option<Thousandths>,
    /// Whether the server streams back partial progress.
    pub stream: bool,
    /// How many completions to generate for each prompt.
    pub n: Option<usize>,
    /// The end user the request is made for.
    pub user: String,
    /// The largest number of tokens to generate.
    pub max_tokens: Option<usize>,
}

impl Base {
    /// Every option unset, streaming off, empty user.
    pub open spec fn spec_is_default(&self) -> bool {
        &&& self.temperature is None
        &&& self.top_p is None
        &&& !self.stream
        &&& self.n is None
        &&& self.user@ == Seq::<char>::empty()
        &&& self.max_tokens is None
    }

    /// The members these options contribute to a payload, in order.
    pub open spec fn spec_members(&self) -> Seq<(Seq<char>, Seq<char>)> {
        fraction_member("temperature"@, self.temperature) + fraction_member("top_p"@, self.top_p)
            + seq![("stream"@, bool_text(self.stream))] + count_member("n"@, self.n) + seq![
            ("user"@, json_quoted(self.user@)),
        ] + count_member("max_tokens"@, self.max_tokens)
    }

    pub fn new() -> (r: Base)
        ensures
            r.spec_is_default(),
    {
        Base {
            temperature: None,
            top_p: None,
            stream: false,
            n: None,
            user: String::new(),
            max_tokens: None,
        }
    }

    pub fn with_max_tokens(self, max_tokens: usize) -> (r: Base)
        ensures
            r == (Base { max_tokens: Some(max_tokens), ..self }),
    {
        Base { max_tokens: Some(max_tokens), ..self }
    }

    pub fn with_temperature(self, temperature: Thousandths) -> (r: Base)
        ensures
            r == (Base { temperature: Some(temperature), ..self }),
    {
        Base { temperature: Some(temperature), ..self }
    }

    pub fn with_user(self, user: &str) -> (r: Base)
        ensures
            r.user@ == user@,
            r.temperature == self.temperature,
            r.top_p == self.top_p,
            r.stream == self.stream,
            r.n == self.n,
            r.max_tokens == self.max_tokens,
    {
        Base { user: user.to_owned(), ..self }
    }

    /// Appends this value's members to a payload.
    pub fn push_members(&self, out: &mut Vec<(String, String)>)
        ensures
            final(out).deep_view() =~= old(out).deep_view() + self.spec_members(),
    {
        let ghost start = out.deep_view();
        push_fraction(out, "temperature", self.temperature);
        push_fraction(out, "top_p", self.top_p);
        if self.stream {
            proof { reveal_strlit("true"); }
            push_member(out, "stream", String::from_str("true"));
        } else {
            proof { reveal_strlit("false"); }
            push_member(out, "stream", String::from_str("false"));
        }
        push_count(out, "n", self.n);
        push_member(out, "user", quote(self.user.as_str()));
        push_count(out, "max_tokens", self.max_tokens);
        proof {
            assert(out.deep_view() =~= start + self.spec_members());
        }
    }
}

impl Default for Base {
    fn default() -> (r: Base)
        ensures
            r.spec_is_default(),
    {
        Base::new()
    }
}

/// The keys of the request payloads differ where a proof needs them to.
pub proof fn lemma_keys_differ()
    ensures
        "max_tokens"@ != "messages"@,
        "max_tokens"@ != "model"@,
        "max_tokens"@ != "prompt"@,
        "max_tokens"@ != "stream"@,
        "max_tokens"@ != "suffix"@,
        "max_tokens"@ != "user"@,
        "n"@ != "max_tokens"@,
        "n"@ != "messages"@,
        "n"@ != "model"@,
        "n"@ != "prompt"@,
        "n"@ != "stream"@,
        "n"@ != "suffix"@,
        "n"@ != "user"@,
        "suffix"@ != "messages"@,
        "suffix"@ != "model"@,
        "suffix"@ != "prompt"@,
        "suffix"@ != "stream"@,
        "suffix"@ != "user"@,
        "temperature"@ != "max_tokens"@,
        "temperature"@ != "messages"@,
        "temperature"@ != "model"@,
        "temperature"@ != "n"@,
        "temperature"@ != "prompt"@,
        "temperature"@ != "stream"@,
        "temperature"@ != "suffix"@,
        "temperature"@ != "top_p"@,
        "temperature"@ != "user"@,
        "top_p"@ != "max_tokens"@,
        "top_p"@ != "messages"@,
        "top_p"@ != "model"@,
        "top_p"@ != "n"@,
        "top_p"@ != "prompt"@,
        "top_p"@ != "stream"@,
        "top_p"@ != "suffix"@,
        "top_p"@ != "user"@,
{
    reveal_strlit("model");
    reveal_strlit("temperature");
    reveal_strlit("top_p");
    reveal_strlit("stream");
    reveal_strlit("n");
    reveal_strlit("user");
    reveal_strlit("max_tokens");
    reveal_strlit("prompt");
    reveal_strlit("suffix");
    reveal_strlit("messages");
    assert("max_tokens"@.len() != "messages"@.len());
    assert("max_tokens"@.len() != "model"@.len());
    assert("max_tokens"@.len() != "prompt"@.len());
    assert("max_tokens"@.len() != "stream"@.len());
    assert("max_tokens"@.len() != "suffix"@.len());
    assert("max_tokens"@.len() != "user"@.len());
    assert("n"@.len() != "max_tokens"@.len());
    assert("n"@.len() != "messages"@.len());
    assert("n"@.len() != "model"@.len());
    assert("n"@.len() != "prompt"@.len());
    assert("n"@.len() != "stream"@.len());
    assert("n"@.len() != "suffix"@.len());
    assert("n"@.len() != "user"@.len());
    assert("suffix"@.len() != "messages"@.len());
    assert("suffix"@.len() != "model"@.len());
    assert("suffix"@[0] != "prompt"@[0]);
    assert("suffix"@[1] != "stream"@[1]);
    assert("suffix"@.len() != "user"@.len());
    assert("temperature"@.len() != "max_tokens"@.len());
    assert("temperature"@.len() != "messages"@.len());
    assert("temperature"@.len() != "model"@.len());
    assert("temperature"@.len() != "n"@.len());
    assert("temperature"@.len() != "prompt"@.len());
    assert("temperature"@.len() != "stream"@.len());
    assert("temperature"@.len() != "suffix"@.len());
    assert("temperature"@.len() != "top_p"@.len());
    assert("temperature"@.len() != "user"@.len());
    assert("top_p"@.len() != "max_tokens"@.len());
    assert("top_p"@.len() != "messages"@.len());
    assert("top_p"@[0] != "model"@[0]);
    assert("top_p"@.len() != "n"@.len());
    assert("top_p"@.len() != "prompt"@.len());
    assert("top_p"@.len() != "stream"@.len());
    assert("top_p"@.len() != "suffix"@.len());
    assert("top_p"@.len() != "user"@.len());
}

/// An optional member has its key only when its value is set.
pub proof fn lemma_optional_keys(key: Seq<char>, k: Seq<char>, t: Option<Thousandths>, n: Option<usize>, s: Option<String>)
    ensures
        has_key(fraction_member(key, t), k) ==> key == k && t is Some,
        has_key(count_member(key, n), k) ==> key == k && n is Some,
        has_key(text_member(key, s), k) ==> key == k && s is Some,
{
    lemma_has_key_none(k);
    if let Some(x) = t {
        lemma_has_key_one(key, x.spec_text(), k);
    }
    if let Some(x) = n {
        lemma_has_key_one(key, decimal(x as nat), k);
    }
    if let Some(x) = s {
        lemma_has_key_one(key, json_quoted(x@), k);
    }
}

/// Each optional member of the shared options is there only when the option
/// is set.
pub proof fn lemma_base_keys(b: Base)
    ensures
        has_key(b.spec_members(), "temperature"@) ==> b.temperature is Some,
        has_key(b.spec_members(), "top_p"@) ==> b.top_p is Some,
        has_key(b.spec_members(), "n"@) ==> b.n is Some,
        has_key(b.spec_members(), "max_tokens"@) ==> b.max_tokens is Some,
        !has_key(b.spec_members(), "suffix"@),
{
    lemma_keys_differ();
    let s1 = fraction_member("temperature"@, b.temperature);
    let s2 = fraction_member("top_p"@, b.top_p);
    let s3 = seq![("stream"@, bool_text(b.stream))];
    let s4 = count_member("n"@, b.n);
    let s5 = seq![("user"@, json_quoted(b.user@))];
    let s6 = count_member("max_tokens"@, b.max_tokens);
    let ks = seq!["temperature"@, "top_p"@, "n"@, "max_tokens"@, "suffix"@];
    assert forall|j: int| 0 <= j < ks.len() implies {
        let k = #[trigger] ks[j];
        &&& has_key(b.spec_members(), k) == (has_key(s1, k) || has_key(s2, k) || has_key(s3, k)
            || has_key(s4, k) || has_key(s5, k) || has_key(s6, k))
        &&& !has_key(s3, k)
        &&& !has_key(s5, k)
    } by {
        let k = ks[j];
        lemma_has_key_concat(s1, s2, k);
        lemma_has_key_concat(s1 + s2, s3, k);
        lemma_has_key_concat(s1 + s2 + s3, s4, k);
        lemma_has_key_concat(s1 + s2 + s3 + s4, s5, k);
        lemma_has_key_concat(s1 + s2 + s3 + s4 + s5, s6, k);
        lemma_has_key_one("stream"@, bool_text(b.stream), k);
        lemma_has_key_one("user"@, json_quoted(b.user@), k);
    }
    assert(ks[0] == "temperature"@);
    assert(ks[1] == "top_p"@);
    assert(ks[2] == "n"@);
    assert(ks[3] == "max_tokens"@);
    assert(ks[4] == "suffix"@);
    let none: Option<String> = None;
    lemma_optional_keys("temperature"@, "temperature"@, b.temperature, None, none);
    lemma_optional_keys("top_p"@, "top_p"@, b.top_p, None, none);
    lemma_optional_keys("n"@, "n"@, None, b.n, none);
    lemma_optional_keys("max_tokens"@, "max_tokens"@, None, b.max_tokens, none);
    assert forall|j: int| 0 <= j < ks.len() implies {
        let k = #[trigger] ks[j];
        &&& (has_key(s1, k) ==> k == "temperature"@ && b.temperature is Some)
        &&& (has_key(s2, k) ==> k == "top_p"@ && b.top_p is Some)
        &&& (has_key(s4, k) ==> k == "n"@ && b.n is Some)
        &&& (has_key(s6, k) ==> k == "max_tokens"@ && b.max_tokens is Some)
    } by {
        let k = ks[j];
        lemma_optional_keys("temperature"@, k, b.temperature, None, none);
        lemma_optional_keys("top_p"@, k, b.top_p, None, none);
        lemma_optional_keys("n"@, k, None, b.n, none);
        lemma_optional_keys("max_tokens"@, k, None, b.max_tokens, none);
    }
}

/// The option setters that every request kind offers: each sets one shared
/// option and leaves the rest of the request as it was.
pub trait BaseExt: Sized {
    /// The request's shared options.
    spec fn spec_base(&self) -> Base;

    /// `other` agrees with this request in everything but the shared options.
    spec fn spec_same_but_base(&self, other: &Self) -> bool;

    fn with_max_tokens(self, max_tokens: usize) -> (r: Self)
        ensures
            r.spec_base() == (Base { max_tokens: Some(max_tokens), ..self.spec_base() }),
            self.spec_same_but_base(&r),
    ;

    fn with_temperature(self, temperature: Thousandths) -> (r: Self)
        ensures
            r.spec_base() == (Base { temperature: Some(temperature), ..self.spec_base() }),
            self.spec_same_but_base(&r),
    ;

    fn with_user(self, user: &str) -> (r: Self)
        ensures
            r.spec_base().user@ == user@,
            r.spec_base().temperature == self.spec_base().temperature,
            r.spec_base().top_p == self.spec_base().top_p,
            r.spec_base().stream == self.spec_base().stream,
            r.spec_base().n == self.spec_base().n,
            r.spec_base().max_tokens == self.spec_base().max_tokens,
            self.spec_same_but_base(&r),
    ;
}

/// Token accounting of one call.
#[derive(Debug, Clone, Default)]
pub struct Usage {
    /// Tokens of the prompt.
    pub prompt_tokens: i64,
    /// Tokens generated.
    pub completion_tokens: i64,
    /// Tokens in all.
    pub total_tokens: i64,
}

/// What every response carries besides its model and choices.
#[derive(Debug, Clone, Default)]
pub struct Response {
    /// The response's identifier.
    pub id: String,
    /// The kind of object the service returned.
    pub object: String,
    /// When the response was made, in seconds since the epoch.
    pub created: i64,
    pub usage: Usage,
}

} // verus!
