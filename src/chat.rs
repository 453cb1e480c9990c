//! Chat requests: continue a conversation of role-tagged messages.
use vstd::prelude::*;
use crate::base::{
    lemma_base_keys, lemma_keys_differ, push_member, push_text, text_member, Base, BaseExt,
    Response, Thousandths,
};
use crate::json::{
    array, array_text, has_key, json_quoted, lemma_has_key_concat, lemma_has_key_one, object,
    object_text, quote,
};
use crate::model::{ChatModel, OpenAIChatModel};

verus! {

/// Who wrote a message: `user` unless set otherwise.
#[derive(Debug, Clone)]
pub struct Role(pub String);

impl Role {
    pub fn as_str(&self) -> (r: &str)
        ensures
            r@ == self.0@,
    {
        self.0.as_str()
    }
}

impl Default for Role {
    fn default() -> (r: Role)
        ensures
            r.0@ == "user"@,
    {
        Role(String::from_str("user"))
    }
}

impl From<String> for Role {
    fn from(role: String) -> (r: Role) {
        Role(role)
    }
}

impl vstd::std_specs::convert::FromSpecImpl<String> for Role {
    open spec fn obeys_from_spec() -> bool {
        true
    }

    open spec fn from_spec(v: String) -> Role {
        Role(v)
    }
}

/// One message of a conversation.
#[derive(Debug, Clone)]
pub struct Message {
    /// Who wrote the message.
    pub role: Role,
    /// The message's text.
    pub content: String,
    /// The name of the message's author.
    pub name: Option<String>,
}

/// The members of a message's object: role, content, and the name where one
/// is set.
pub open spec fn message_members(m: Message) -> Seq<(Seq<char>, Seq<char>)> {
    seq![("role"@, json_quoted(m.role.0@)), ("content"@, json_quoted(m.content@))] + text_member(
        "name"@,
        m.name,
    )
}

/// A message as a JSON object.
pub open spec fn message_text(m: Message) -> Seq<char> {
    object_text(message_members(m))
}

/// The messages, each as a JSON object, in order.
pub open spec fn message_texts(ms: Seq<Message>) -> Seq<Seq<char>> {
    ms.map_values(|m: Message| message_text(m))
}

impl Message {
    pub fn new(role: &str, content: &str) -> (r: Message)
        ensures
            r.role.0@ == role@,
            r.content@ == content@,
            r.name is None,
    {
        Message { role: Role(role.to_owned()), content: content.to_owned(), name: None }
    }

    /// A message of the default role with the given text.
    pub fn from_content(content: &str) -> (r: Message)
        ensures
            r.role.0@ == "user"@,
            r.content@ == content@,
            r.name is None,
    {
        Message { role: Role::default(), content: content.to_owned(), name: None }
    }

    pub fn with_name(self, name: &str) -> (r: Message)
        ensures
            r.name matches Some(s) && s@ == name@,
            r.role == self.role,
            r.content == self.content,
    {
        Message { name: Some(name.to_owned()), ..self }
    }

    pub fn with_role(self, role: &str) -> (r: Message)
        ensures
            r.role.0@ == role@,
            r.content == self.content,
            r.name == self.name,
    {
        Message { role: Role(role.to_owned()), ..self }
    }

    /// The message as the JSON object that is sent.
    pub fn to_json(&self) -> (r: String)
        ensures
            r@ == message_text(*self),
    {
        let mut out: Vec<(String, String)> = Vec::new();
        push_member(&mut out, "role", quote(self.role.as_str()));
        push_member(&mut out, "content", quote(self.content.as_str()));
        push_text(&mut out, "name", &self.name);
        proof {
            assert(out.deep_view() =~= message_members(*self));
        }
        object(&out)
    }
}

impl Default for Message {
    fn default() -> (r: Message)
        ensures
            r.role.0@ == "user"@,
            r.content@ == Seq::<char>::empty(),
            r.name is None,
    {
        Message { role: Role::default(), content: String::new(), name: None }
    }
}

/// A request to continue a conversation.
#[derive(Debug, Clone)]
pub struct Chat {
    /// The model to use.
    pub model: ChatModel,
    /// The shared options, written beside the other members.
    pub base: Base,
    /// The conversation so far, oldest first.
    pub messages: Vec<Message>,
}

impl Chat {
    /// The payload's members in order: the model, the shared options, the
    /// messages.
    pub open spec fn spec_members(&self) -> Seq<(Seq<char>, Seq<char>)> {
        seq![("model"@, json_quoted(self.model.spec_wire()))] + self.base.spec_members() + seq![
            ("messages"@, array_text(message_texts(self.messages@))),
        ]
    }

    /// The default model, default options, no message.
    pub open spec fn spec_is_fresh(&self) -> bool {
        &&& self.model == ChatModel::OpenAI(OpenAIChatModel::Gpt_4)
        &&& self.base.spec_is_default()
        &&& self.messages@.len() == 0
    }

    pub fn new() -> (r: Chat)
        ensures
            r.spec_is_fresh(),
    {
        Chat { model: ChatModel::OpenAI(OpenAIChatModel::Gpt_4), base: Base::new(), messages: Vec::new() }
    }

    pub fn with_model(self, model: ChatModel) -> (r: Chat)
        ensures
            r == (Chat { model, ..self }),
    {
        Chat { model, ..self }
    }

    /// Appends one message after those already there.
    pub fn with_message(self, message: Message) -> (r: Chat)
        ensures
            r.messages@ == self.messages@.push(message),
            r.model == self.model,
            r.base == self.base,
    {
        let mut c = self;
        c.messages.push(message);
        c
    }

    /// Appends the messages in the order given.
    pub fn with_messages(self, messages: Vec<Message>) -> (r: Chat)
        ensures
            r.messages@ == self.messages@ + messages@,
            r.model == self.model,
            r.base == self.base,
    {
        let mut c = self;
        let mut more = messages;
        c.messages.append(&mut more);
        c
    }

    /// An option left unset has no member in the payload.
    pub proof fn law_unset_options_omitted(c: Chat)
        ensures
            c.base.temperature is None ==> !has_key(c.spec_members(), "temperature"@),
            c.base.top_p is None ==> !has_key(c.spec_members(), "top_p"@),
            c.base.n is None ==> !has_key(c.spec_members(), "n"@),
            c.base.max_tokens is None ==> !has_key(c.spec_members(), "max_tokens"@),
    {
        lemma_keys_differ();
        lemma_base_keys(c.base);
        let s1 = seq![("model"@, json_quoted(c.model.spec_wire()))];
        let s2 = c.base.spec_members();
        let s3 = seq![("messages"@, array_text(message_texts(c.messages@)))];
        let ks = seq!["temperature"@, "top_p"@, "n"@, "max_tokens"@];
        assert forall|j: int| 0 <= j < ks.len() implies {
            let k = #[trigger] ks[j];
            has_key(c.spec_members(), k) ==> has_key(s2, k)
        } by {
            let k = ks[j];
            lemma_has_key_concat(s1, s2, k);
            lemma_has_key_concat(s1 + s2, s3, k);
            lemma_has_key_one("model"@, json_quoted(c.model.spec_wire()), k);
            lemma_has_key_one("messages"@, array_text(message_texts(c.messages@)), k);
        }
        assert(ks[0] == "temperature"@);
        assert(ks[1] == "top_p"@);
        assert(ks[2] == "n"@);
        assert(ks[3] == "max_tokens"@);
    }

    /// Messages appended to a request are sent after those it had, in the
    /// order they were appended: the `messages` member, the payload's last,
    /// lists the old messages' objects, then the new ones'.
    pub proof fn law_appended_messages_keep_order(before: Chat, added: Seq<Message>, after: Chat)
        requires
            after.messages@ == before.messages@ + added,
        ensures
            after.spec_members().last() == ("messages"@, array_text(
                message_texts(before.messages@) + message_texts(added),
            )),
    {
        assert(message_texts(before.messages@ + added) =~= message_texts(before.messages@)
            + message_texts(added));
    }

    /// The payload's members, in order.
    pub fn members(&self) -> (r: Vec<(String, String)>)
        ensures
            r.deep_view() == self.spec_members(),
    {
        let mut out: Vec<(String, String)> = Vec::new();
        push_member(&mut out, "model", quote(self.model.as_str()));
        self.base.push_members(&mut out);
        let mut texts: Vec<String> = Vec::new();
        let mut i: usize = 0;
        while i < self.messages.len()
            invariant
                i <= self.messages.len(),
                texts@.len() == i,
                forall|k: int| 0 <= k < i ==> #[trigger] texts@[k]@ == message_text(self.messages@[k]),
            decreases self.messages.len() - i,
        {
            texts.push(self.messages[i].to_json());
            i += 1;
        }
        proof {
            assert(texts.deep_view() =~= message_texts(self.messages@));
        }
        push_member(&mut out, "messages", array(&texts));
        proof {
            assert(out.deep_view() =~= self.spec_members());
        }
        out
    }

    /// The request as the JSON object that is sent.
    pub fn to_json(&self) -> (r: String)
        ensures
            r@ == object_text(self.spec_members()),
    {
        object(&self.members())
    }
}

impl Default for Chat {
    fn default() -> (r: Chat)
        ensures
            r.spec_is_fresh(),
    {
        Chat::new()
    }
}

impl BaseExt for Chat {
    open spec fn spec_base(&self) -> Base {
        self.base
    }

    open spec fn spec_same_but_base(&self, other: &Self) -> bool {
        &&& other.model == self.model
        &&& other.messages == self.messages
    }

    fn with_max_tokens(self, max_tokens: usize) -> (r: Chat) {
        Chat { base: self.base.with_max_tokens(max_tokens), ..self }
    }

    fn with_temperature(self, temperature: Thousandths) -> (r: Chat) {
        Chat { base: self.base.with_temperature(temperature), ..self }
    }

    fn with_user(self, user: &str) -> (r: Chat) {
        Chat { base: self.base.with_user(user), ..self }
    }
}

/// The response to a chat request.
#[derive(Debug, Clone)]
pub struct ChatResponse {
    /// Identifier, object kind, creation time and token accounting.
    pub meta: Response,
    /// The model that generated the response.
    pub model: ChatModel,
    pub choices: Vec<ChatChoice>,
}

/// One of the messages generated for a chat request.
#[derive(Debug, Clone)]
pub struct ChatChoice {
    /// The generated message.
    pub message: Message,
    /// Why generation stopped.
    pub finish_reason: String,
    /// The choice's zero-based position.
    pub index: i64,
}

} // verus!
