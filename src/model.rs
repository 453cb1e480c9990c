//! Model identifiers: a model the service names, or any other name.
use vstd::prelude::*;
use crate::text::same_text;

verus! {

/// The chat models that the service names.
#[allow(non_camel_case_types)]
#[derive(Debug, Clone, Copy, PartialEq, Eq, Structural)]
pub enum OpenAIChatModel {
    Gpt_4,
    Gpt_4_32k,
    Gpt_3dot5_turbo,
}

impl OpenAIChatModel {
    /// The name under which the service knows the model.
    pub open spec fn spec_name(self) -> Seq<char> {
        match self {
            OpenAIChatModel::Gpt_4 => "gpt-4"@,
            OpenAIChatModel::Gpt_4_32k => "gpt-4-32k"@,
            OpenAIChatModel::Gpt_3dot5_turbo => "gpt-3.5-turbo"@,
        }
    }

    /// The model that a name stands for, if the service names it.
    pub open spec fn spec_from_name(s: Seq<char>) -> Option<OpenAIChatModel> {
        if s == "gpt-4"@ {
            Some(OpenAIChatModel::Gpt_4)
        } else if s == "gpt-4-32k"@ {
            Some(OpenAIChatModel::Gpt_4_32k)
        } else if s == "gpt-3.5-turbo"@ {
            Some(OpenAIChatModel::Gpt_3dot5_turbo)
        } else {
            None
        }
    }

    pub fn name(&self) -> (r: &'static str)
        ensures
            r@ == self.spec_name(),
    {
        match self {
            OpenAIChatModel::Gpt_4 => "gpt-4",
            OpenAIChatModel::Gpt_4_32k => "gpt-4-32k",
            OpenAIChatModel::Gpt_3dot5_turbo => "gpt-3.5-turbo",
        }
    }

    pub fn from_name(s: &str) -> (r: Option<OpenAIChatModel>)
        ensures
            r == Self::spec_from_name(s@),
    {
        if same_text(s, "gpt-4") {
            Some(OpenAIChatModel::Gpt_4)
        } else if same_text(s, "gpt-4-32k") {
            Some(OpenAIChatModel::Gpt_4_32k)
        } else if same_text(s, "gpt-3.5-turbo") {
            Some(OpenAIChatModel::Gpt_3dot5_turbo)
        } else {
            None
        }
    }

    /// Each model's name reads back as that model.
    pub proof fn lemma_name_reads_back(self)
        ensures
            Self::spec_from_name(self.spec_name()) == Some(self),
    {
        lemma_chat_names_differ();
    }
}

proof fn lemma_chat_names_differ()
    ensures
        "gpt-4"@ != "gpt-4-32k"@,
        "gpt-4"@ != "gpt-3.5-turbo"@,
        "gpt-4-32k"@ != "gpt-3.5-turbo"@,
{
    reveal_strlit("gpt-4");
    reveal_strlit("gpt-4-32k");
    reveal_strlit("gpt-3.5-turbo");
    assert("gpt-4"@.len() != "gpt-4-32k"@.len());
    assert("gpt-4"@.len() != "gpt-3.5-turbo"@.len());
    assert("gpt-4-32k"@.len() != "gpt-3.5-turbo"@.len());
}

/// The model a chat request is sent to.
#[derive(Debug, Clone)]
pub enum ChatModel {
    OpenAI(OpenAIChatModel),
    /// A model that the enumeration does not name.
    Custom(String),
}

impl ChatModel {
    /// The text that stands for the model on the wire.
    pub open spec fn spec_wire(&self) -> Seq<char> {
        match self {
            ChatModel::OpenAI(m) => m.spec_name(),
            ChatModel::Custom(s) => s@,
        }
    }

    /// `m` is what the wire text `s` reads as: the named model where the
    /// enumeration has one of that name, else a custom model of that text.
    pub open spec fn reads_as(s: Seq<char>, m: ChatModel) -> bool {
        match OpenAIChatModel::spec_from_name(s) {
            Some(k) => m == ChatModel::OpenAI(k),
            None => m is Custom && m.spec_wire() == s,
        }
    }

    pub fn as_str(&self) -> (r: &str)
        ensures
            r@ == self.spec_wire(),
    {
        match self {
            ChatModel::OpenAI(m) => m.name(),
            ChatModel::Custom(s) => s.as_str(),
        }
    }

    /// Reads a model from its wire text; no text is refused.
    pub fn from_wire(s: &str) -> (r: ChatModel)
        ensures
            Self::reads_as(s@, r),
    {
        match OpenAIChatModel::from_name(s) {
            Some(k) => ChatModel::OpenAI(k),
            None => ChatModel::Custom(s.to_owned()),
        }
    }

    /// Writing a model, reading the text back and writing it again gives the
    /// same text.
    pub proof fn law_wire_round_trip(m: ChatModel, back: ChatModel)
        requires
            Self::reads_as(m.spec_wire(), back),
        ensures
            back.spec_wire() == m.spec_wire(),
    {
        match m {
            ChatModel::OpenAI(k) => k.lemma_name_reads_back(),
            ChatModel::Custom(s) => {
                if let Some(k) = OpenAIChatModel::spec_from_name(s@) {
                    lemma_chat_names_differ();
                }
            },
        }
    }

    /// A named model's text reads back as that named model.
    pub proof fn law_known_reads_back(k: OpenAIChatModel, back: ChatModel)
        requires
            Self::reads_as(k.spec_name(), back),
        ensures
            back == ChatModel::OpenAI(k),
    {
        k.lemma_name_reads_back();
    }

    /// A text that names no model of the enumeration reads as a custom model
    /// holding exactly that text.
    pub proof fn law_unknown_reads_custom(s: Seq<char>, back: ChatModel)
        requires
            OpenAIChatModel::spec_from_name(s) is None,
            Self::reads_as(s, back),
        ensures
            back is Custom,
            back.spec_wire() == s,
    {
    }
}

impl Default for ChatModel {
    fn default() -> (r: ChatModel)
        ensures
            r == ChatModel::OpenAI(OpenAIChatModel::Gpt_4),
    {
        ChatModel::OpenAI(OpenAIChatModel::Gpt_4)
    }
}

impl From<OpenAIChatModel> for ChatModel {
    fn from(model: OpenAIChatModel) -> (r: ChatModel) {
        ChatModel::OpenAI(model)
    }
}

impl vstd::std_specs::convert::FromSpecImpl<OpenAIChatModel> for ChatModel {
    open spec fn obeys_from_spec() -> bool {
        true
    }

    open spec fn from_spec(v: OpenAIChatModel) -> ChatModel {
        ChatModel::OpenAI(v)
    }
}

impl From<String> for ChatModel {
    fn from(model: String) -> (r: ChatModel) {
        ChatModel::Custom(model)
    }
}

impl vstd::std_specs::convert::FromSpecImpl<String> for ChatModel {
    open spec fn obeys_from_spec() -> bool {
        true
    }

    open spec fn from_spec(v: String) -> ChatModel {
        ChatModel::Custom(v)
    }
}


/// The completion models that the service names.
#[allow(non_camel_case_types)]
#[derive(Debug, Clone, Copy, PartialEq, Eq, Structural)]
pub enum OpenAICompletionModel {
    Text_Davinci_003,
    Text_Davinci_002,
    Text_Davinci_001,
    Text_Curie_001,
    Text_Babbage_001,
    Text_Ada_001,
}

impl OpenAICompletionModel {
    /// The name under which the service knows the model.
    pub open spec fn spec_name(self) -> Seq<char> {
        match self {
            OpenAICompletionModel::Text_Davinci_003 => "text-davinci-003"@,
            OpenAICompletionModel::Text_Davinci_002 => "text-davinci-002"@,
            OpenAICompletionModel::Text_Davinci_001 => "text-davinci-001"@,
            OpenAICompletionModel::Text_Curie_001 => "text-curie-001"@,
            OpenAICompletionModel::Text_Babbage_001 => "text-babbage-001"@,
            OpenAICompletionModel::Text_Ada_001 => "text-ada-001"@,
        }
    }

    /// The model that a name stands for, if the service names it.
    pub open spec fn spec_from_name(s: Seq<char>) -> Option<OpenAICompletionModel> {
        if s == "text-davinci-003"@ {
            Some(OpenAICompletionModel::Text_Davinci_003)
        } else if s == "text-davinci-002"@ {
            Some(OpenAICompletionModel::Text_Davinci_002)
        } else if s == "text-davinci-001"@ {
            Some(OpenAICompletionModel::Text_Davinci_001)
        } else if s == "text-curie-001"@ {
            Some(OpenAICompletionModel::Text_Curie_001)
        } else if s == "text-babbage-001"@ {
            Some(OpenAICompletionModel::Text_Babbage_001)
        } else if s == "text-ada-001"@ {
            Some(OpenAICompletionModel::Text_Ada_001)
        } else {
            None
        }
    }

    pub fn name(&self) -> (r: &'static str)
        ensures
            r@ == self.spec_name(),
    {
        match self {
            OpenAICompletionModel::Text_Davinci_003 => "text-davinci-003",
            OpenAICompletionModel::Text_Davinci_002 => "text-davinci-002",
            OpenAICompletionModel::Text_Davinci_001 => "text-davinci-001",
            OpenAICompletionModel::Text_Curie_001 => "text-curie-001",
            OpenAICompletionModel::Text_Babbage_001 => "text-babbage-001",
            OpenAICompletionModel::Text_Ada_001 => "text-ada-001",
        }
    }

    pub fn from_name(s: &str) -> (r: Option<OpenAICompletionModel>)
        ensures
            r == Self::spec_from_name(s@),
    {
        if same_text(s, "text-davinci-003") {
            Some(OpenAICompletionModel::Text_Davinci_003)
        } else if same_text(s, "text-davinci-002") {
            Some(OpenAICompletionModel::Text_Davinci_002)
        } else if same_text(s, "text-davinci-001") {
            Some(OpenAICompletionModel::Text_Davinci_001)
        } else if same_text(s, "text-curie-001") {
            Some(OpenAICompletionModel::Text_Curie_001)
        } else if same_text(s, "text-babbage-001") {
            Some(OpenAICompletionModel::Text_Babbage_001)
        } else if same_text(s, "text-ada-001") {
            Some(OpenAICompletionModel::Text_Ada_001)
        } else {
            None
        }
    }

    /// Each model's name reads back as that model.
    pub proof fn lemma_name_reads_back(self)
        ensures
            Self::spec_from_name(self.spec_name()) == Some(self),
    {
        lemma_completion_names_read();
    }
}

proof fn lemma_completion_names_read()
    ensures
        OpenAICompletionModel::spec_from_name("text-davinci-003"@) == Some(OpenAICompletionModel::Text_Davinci_003),
        OpenAICompletionModel::spec_from_name("text-davinci-002"@) == Some(OpenAICompletionModel::Text_Davinci_002),
        OpenAICompletionModel::spec_from_name("text-davinci-001"@) == Some(OpenAICompletionModel::Text_Davinci_001),
        OpenAICompletionModel::spec_from_name("text-curie-001"@) == Some(OpenAICompletionModel::Text_Curie_001),
        OpenAICompletionModel::spec_from_name("text-babbage-001"@) == Some(OpenAICompletionModel::Text_Babbage_001),
        OpenAICompletionModel::spec_from_name("text-ada-001"@) == Some(OpenAICompletionModel::Text_Ada_001),
{
    reveal_strlit("text-davinci-003");
    reveal_strlit("text-davinci-002");
    reveal_strlit("text-davinci-001");
    reveal_strlit("text-curie-001");
    reveal_strlit("text-babbage-001");
    reveal_strlit("text-ada-001");
    assert("text-davinci-003"@.len() != "text-curie-001"@.len());
    assert("text-davinci-003"@.len() != "text-ada-001"@.len());
    assert("text-davinci-002"@.len() != "text-curie-001"@.len());
    assert("text-davinci-002"@.len() != "text-ada-001"@.len());
    assert("text-davinci-001"@.len() != "text-curie-001"@.len());
    assert("text-davinci-001"@.len() != "text-ada-001"@.len());
    assert("text-curie-001"@.len() != "text-babbage-001"@.len());
    assert("text-curie-001"@.len() != "text-ada-001"@.len());
    assert("text-babbage-001"@.len() != "text-ada-001"@.len());
    assert("text-davinci-002"@[15] != "text-davinci-003"@[15]);
    assert("text-davinci-001"@[15] != "text-davinci-003"@[15]);
    assert("text-davinci-001"@[15] != "text-davinci-002"@[15]);
    assert("text-babbage-001"@[5] != "text-davinci-003"@[5]);
    assert("text-babbage-001"@[5] != "text-davinci-002"@[5]);
    assert("text-babbage-001"@[5] != "text-davinci-001"@[5]);
}

/// The model a completion request is sent to.
#[derive(Debug, Clone)]
pub enum CompletionModel {
    OpenAI(OpenAICompletionModel),
    /// A model that the enumeration does not name.
    Custom(String),
}

impl CompletionModel {
    /// The text that stands for the model on the wire.
    pub open spec fn spec_wire(&self) -> Seq<char> {
        match self {
            CompletionModel::OpenAI(m) => m.spec_name(),
            CompletionModel::Custom(s) => s@,
        }
    }

    /// `m` is what the wire text `s` reads as: the named model where the
    /// enumeration has one of that name, else a custom model of that text.
    pub open spec fn reads_as(s: Seq<char>, m: CompletionModel) -> bool {
        match OpenAICompletionModel::spec_from_name(s) {
            Some(k) => m == CompletionModel::OpenAI(k),
            None => m is Custom && m.spec_wire() == s,
        }
    }

    pub fn as_str(&self) -> (r: &str)
        ensures
            r@ == self.spec_wire(),
    {
        match self {
            CompletionModel::OpenAI(m) => m.name(),
            CompletionModel::Custom(s) => s.as_str(),
        }
    }

    /// Reads a model from its wire text; no text is refused.
    pub fn from_wire(s: &str) -> (r: CompletionModel)
        ensures
            Self::reads_as(s@, r),
    {
        match OpenAICompletionModel::from_name(s) {
            Some(k) => CompletionModel::OpenAI(k),
            None => CompletionModel::Custom(s.to_owned()),
        }
    }

    /// Writing a model, reading the text back and writing it again gives the
    /// same text.
    pub proof fn law_wire_round_trip(m: CompletionModel, back: CompletionModel)
        requires
            Self::reads_as(m.spec_wire(), back),
        ensures
            back.spec_wire() == m.spec_wire(),
    {
        match m {
            CompletionModel::OpenAI(k) => k.lemma_name_reads_back(),
            CompletionModel::Custom(s) => {
                if let Some(k) = OpenAICompletionModel::spec_from_name(s@) {
                    lemma_completion_names_read();
                }
            },
        }
    }

    /// A named model's text reads back as that named model.
    pub proof fn law_known_reads_back(k: OpenAICompletionModel, back: CompletionModel)
        requires
            Self::reads_as(k.spec_name(), back),
        ensures
            back == CompletionModel::OpenAI(k),
    {
        k.lemma_name_reads_back();
    }

    /// A text that names no model of the enumeration reads as a custom model
    /// holding exactly that text.
    pub proof fn law_unknown_reads_custom(s: Seq<char>, back: CompletionModel)
        requires
            OpenAICompletionModel::spec_from_name(s) is None,
            Self::reads_as(s, back),
        ensures
            back is Custom,
            back.spec_wire() == s,
    {
    }
}

impl Default for CompletionModel {
    fn default() -> (r: CompletionModel)
        ensures
            r == CompletionModel::OpenAI(OpenAICompletionModel::Text_Davinci_003),
    {
        CompletionModel::OpenAI(OpenAICompletionModel::Text_Davinci_003)
    }
}

impl From<OpenAICompletionModel> for CompletionModel {
    fn from(model: OpenAICompletionModel) -> (r: CompletionModel) {
        CompletionModel::OpenAI(model)
    }
}

impl vstd::std_specs::convert::FromSpecImpl<OpenAICompletionModel> for CompletionModel {
    open spec fn obeys_from_spec() -> bool {
        true
    }

    open spec fn from_spec(v: OpenAICompletionModel) -> CompletionModel {
        CompletionModel::OpenAI(v)
    }
}

impl From<String> for CompletionModel {
    fn from(model: String) -> (r: CompletionModel) {
        CompletionModel::Custom(model)
    }
}

impl vstd::std_specs::convert::FromSpecImpl<String> for CompletionModel {
    open spec fn obeys_from_spec() -> bool {
        true
    }

    open spec fn from_spec(v: String) -> CompletionModel {
        CompletionModel::Custom(v)
    }
}


} // verus!
