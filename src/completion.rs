//! Completion requests: continue one or more text prompts.
use vstd::prelude::*;
use crate::base::{
    lemma_base_keys, lemma_keys_differ, lemma_optional_keys, push_member, push_text, text_member,
    Base, BaseExt, Response, Thousandths,
};
use crate::json::{
    array, array_text, has_key, json_quoted, lemma_has_key_concat, lemma_has_key_one, object,
    object_text, quote, quote_all, quoted_all,
};
use crate::model::{CompletionModel, OpenAICompletionModel};

verus! {

/// A request to generate text from the given prompts.
#[derive(Debug, Clone)]
pub struct Completion {
    /// The model to use.
    pub model: CompletionModel,
    /// The shared options, written beside the other members.
    pub base: Base,
    /// The prompts to generate completions for, in order.
    pub prompt: Vec<String>,
    /// Text that comes after the generated text.
    pub suffix: Option<String>,
}

impl Completion {
    /// The payload's members in order: the model, the shared options, the
    /// prompts, and the suffix where one is set.
    pub open spec fn spec_members(&self) -> Seq<(Seq<char>, Seq<char>)> {
        seq![("model"@, json_quoted(self.model.spec_wire()))] + self.base.spec_members() + seq![
            ("prompt"@, array_text(quoted_all(self.prompt.deep_view()))),
        ] + text_member("suffix"@, self.suffix)
    }

    /// The default model, default options, no prompt, no suffix.
    pub open spec fn spec_is_fresh(&self) -> bool {
        &&& self.model == CompletionModel::OpenAI(OpenAICompletionModel::Text_Davinci_003)
        &&& self.base.spec_is_default()
        &&& self.prompt@.len() == 0
        &&& self.suffix is None
    }

    pub fn new() -> (r: Completion)
        ensures
            r.spec_is_fresh(),
            r.spec_members() == seq![
                ("model"@, json_quoted("text-davinci-003"@)),
                ("stream"@, "false"@),
                ("user"@, json_quoted(Seq::empty())),
                ("prompt"@, "[]"@),
            ],
    {
        let r = Completion {
            model: CompletionModel::OpenAI(OpenAICompletionModel::Text_Davinci_003),
            base: Base::new(),
            prompt: Vec::new(),
            suffix: None,
        };
        proof {
            Self::law_fresh_payload(r);
        }
        r
    }

    /// A fresh request is sent as the default model, `stream` false, an
    /// empty `user` and no prompt, and with no other member.
    pub proof fn law_fresh_payload(c: Completion)
        requires
            c.spec_is_fresh(),
        ensures
            c.spec_members() == seq![
                ("model"@, json_quoted("text-davinci-003"@)),
                ("stream"@, "false"@),
                ("user"@, json_quoted(Seq::empty())),
                ("prompt"@, "[]"@),
            ],
    {
        reveal_strlit("[]");
        assert(c.prompt.deep_view() =~= Seq::empty());
        assert(quoted_all(c.prompt.deep_view()) =~= Seq::empty());
        assert(array_text(Seq::empty()) =~= "[]"@);
        assert(c.spec_members() =~= seq![
            ("model"@, json_quoted("text-davinci-003"@)),
            ("stream"@, "false"@),
            ("user"@, json_quoted(Seq::empty())),
            ("prompt"@, "[]"@),
        ]);
    }

    /// An option left unset has no member in the payload.
    pub proof fn law_unset_options_omitted(c: Completion)
        ensures
            c.base.temperature is None ==> !has_key(c.spec_members(), "temperature"@),
            c.base.top_p is None ==> !has_key(c.spec_members(), "top_p"@),
            c.base.n is None ==> !has_key(c.spec_members(), "n"@),
            c.base.max_tokens is None ==> !has_key(c.spec_members(), "max_tokens"@),
            c.suffix is None ==> !has_key(c.spec_members(), "suffix"@),
    {
        lemma_keys_differ();
        lemma_base_keys(c.base);
        let s1 = seq![("model"@, json_quoted(c.model.spec_wire()))];
        let s2 = c.base.spec_members();
        let s3 = seq![("prompt"@, array_text(quoted_all(c.prompt.deep_view())))];
        let s4 = text_member("suffix"@, c.suffix);
        let ks = seq!["temperature"@, "top_p"@, "n"@, "max_tokens"@, "suffix"@];
        assert forall|j: int| 0 <= j < ks.len() implies {
            let k = #[trigger] ks[j];
            has_key(c.spec_members(), k) ==> has_key(s2, k) || (k == "suffix"@ && c.suffix is Some)
        } by {
            let k = ks[j];
            lemma_has_key_concat(s1, s2, k);
            lemma_has_key_concat(s1 + s2, s3, k);
            lemma_has_key_concat(s1 + s2 + s3, s4, k);
            lemma_has_key_one("model"@, json_quoted(c.model.spec_wire()), k);
            lemma_has_key_one("prompt"@, array_text(quoted_all(c.prompt.deep_view())), k);
            lemma_optional_keys("suffix"@, k, None, None, c.suffix);
        }
        assert(ks[0] == "temperature"@);
        assert(ks[1] == "top_p"@);
        assert(ks[2] == "n"@);
        assert(ks[3] == "max_tokens"@);
        assert(ks[4] == "suffix"@);
    }

    /// A fresh request with one prompt.
    pub fn from_prompt(prompt: &str) -> (r: Completion)
        ensures
            r.model == CompletionModel::OpenAI(OpenAICompletionModel::Text_Davinci_003),
            r.base.spec_is_default(),
            r.prompt.deep_view() == seq![prompt@],
            r.suffix is None,
    {
        let r = Completion::new().with_prompt(prompt);
        proof {
            assert(r.prompt.deep_view() =~= seq![prompt@]);
        }
        r
    }

    pub fn with_base(self, base: Base) -> (r: Completion)
        ensures
            r == (Completion { base, ..self }),
    {
        Completion { base, ..self }
    }

    /// Appends one prompt after those already there.
    pub fn with_prompt(self, prompt: &str) -> (r: Completion)
        ensures
            r.prompt.deep_view() == self.prompt.deep_view().push(prompt@),
            r.model == self.model,
            r.base == self.base,
            r.suffix == self.suffix,
    {
        let mut c = self;
        c.prompt.push(prompt.to_owned());
        proof {
            assert(c.prompt.deep_view() =~= self.prompt.deep_view().push(prompt@));
        }
        c
    }

    /// Appends the prompts in the order given.
    pub fn with_prompts(self, prompts: Vec<String>) -> (r: Completion)
        ensures
            r.prompt.deep_view() == self.prompt.deep_view() + prompts.deep_view(),
            r.model == self.model,
            r.base == self.base,
            r.suffix == self.suffix,
    {
        let mut c = self;
        let mut more = prompts;
        c.prompt.append(&mut more);
        proof {
            assert(c.prompt.deep_view() =~= self.prompt.deep_view() + prompts.deep_view());
        }
        c
    }

    pub fn with_suffix(self, suffix: &str) -> (r: Completion)
        ensures
            r.suffix matches Some(s) && s@ == suffix@,
            r.model == self.model,
            r.base == self.base,
            r.prompt == self.prompt,
    {
        Completion { suffix: Some(suffix.to_owned()), ..self }
    }

    /// The payload's members, in order.
    pub fn members(&self) -> (r: Vec<(String, String)>)
        ensures
            r.deep_view() == self.spec_members(),
    {
        let mut out: Vec<(String, String)> = Vec::new();
        push_member(&mut out, "model", quote(self.model.as_str()));
        self.base.push_members(&mut out);
        let prompts = quote_all(&self.prompt);
        push_member(&mut out, "prompt", array(&prompts));
        push_text(&mut out, "suffix", &self.suffix);
        proof {
            assert(out.deep_view() =~= self.spec_members());
        }
        out
    }

    /// The request as the JSON object that is sent.
    pub fn to_json(&self) -> (r: String)
        ensures
            r@ == object_text(self.spec_members()),
    {
        object(&self.members())
    }
}

impl Default for Completion {
    fn default() -> (r: Completion)
        ensures
            r.spec_is_fresh(),
    {
        Completion::new()
    }
}

impl BaseExt for Completion {
    open spec fn spec_base(&self) -> Base {
        self.base
    }

    open spec fn spec_same_but_base(&self, other: &Self) -> bool {
        &&& other.model == self.model
        &&& other.prompt == self.prompt
        &&& other.suffix == self.suffix
    }

    fn with_max_tokens(self, max_tokens: usize) -> (r: Completion) {
        Completion { base: self.base.with_max_tokens(max_tokens), ..self }
    }

    fn with_temperature(self, temperature: Thousandths) -> (r: Completion) {
        Completion { base: self.base.with_temperature(temperature), ..self }
    }

    fn with_user(self, user: &str) -> (r: Completion) {
        Completion { base: self.base.with_user(user), ..self }
    }
}

/// The response to a completion request.
#[derive(Debug, Clone)]
pub struct CompletionResponse {
    /// Identifier, object kind, creation time and token accounting.
    pub meta: Response,
    /// The model that generated the response.
    pub model: CompletionModel,
    pub choices: Vec<CompletionChoice>,
}

/// One of the texts generated for a completion request.
#[derive(Debug, Clone)]
pub struct CompletionChoice {
    /// The generated text.
    pub text: String,
    /// Why generation stopped.
    pub finish_reason: String,
    /// The choice's zero-based position.
    pub index: i64,
}

} // verus!
