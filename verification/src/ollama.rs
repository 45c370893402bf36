//! What the editor knows of the language-model server: where it is, and
//! whether it answered the last time it was asked.

use vstd::prelude::*;
use vstd::std_specs::cmp::PartialEqSpecImpl;
use vstd::string::*;
use crate::naming::{decimal, decimal_text};
use crate::timestamp::{rfc3339_text, Timestamp};

verus! {

/// Where the server is reached.
#[derive(Debug)]
pub struct OllamaConfig {
    pub domain: String,
    pub port: u16,
}

impl Clone for OllamaConfig {
    fn clone(&self) -> (copy: Self)
        ensures
            copy == *self,
    {
        OllamaConfig { domain: self.domain.clone(), port: self.port }
    }
}

impl PartialEq for OllamaConfig {
    fn eq(&self, other: &Self) -> (same: bool) {
        self.domain == other.domain && self.port == other.port
    }
}

impl PartialEqSpecImpl for OllamaConfig {
    open spec fn obeys_eq_spec() -> bool {
        true
    }

    open spec fn eq_spec(&self, other: &Self) -> bool {
        self.domain@ == other.domain@ && self.port == other.port
    }
}

impl OllamaConfig {
    /// The server on this machine, at its usual port.
    pub open spec fn is_local_default(self) -> bool {
        self.domain@ == "http://localhost"@ && self.port == 11434
    }
}

impl Default for OllamaConfig {
    fn default() -> (config: Self)
        ensures
            config.is_local_default(),
    {
        OllamaConfig { domain: "http://localhost".to_owned(), port: 11434 }
    }
}

/// A model that the server offers.
#[derive(Debug)]
pub struct OllamaModel {
    pub name: String,
    pub size: u64,
    pub modified_at: String,
}

impl Clone for OllamaModel {
    fn clone(&self) -> (copy: Self)
        ensures
            copy == *self,
    {
        OllamaModel {
            name: self.name.clone(),
            size: self.size,
            modified_at: self.modified_at.clone(),
        }
    }
}

/// What the last check of the server found. Kept in memory only.
#[derive(Debug)]
pub struct OllamaStatus {
    pub is_available: bool,
    pub models: Vec<OllamaModel>,
    /// When the server was last asked, as RFC 3339 text.
    pub last_checked: String,
    pub error_message: Option<String>,
}

/// The text of `now` on a status: its RFC 3339 form, or nothing where it
/// has none.
pub open spec fn checked_text(now: Timestamp) -> Seq<char> {
    match rfc3339_text(now.secs as int, now.nanos as int) {
        Some(text) => text,
        None => Seq::empty(),
    }
}

/// A copy of a list of models.
pub fn copy_models(models: &Vec<OllamaModel>) -> (out: Vec<OllamaModel>)
    ensures
        out@ == models@,
{
    let mut out: Vec<OllamaModel> = Vec::new();
    let mut i: usize = 0;
    while i < models.len()
        invariant
            i <= models.len(),
            out@ == models@.take(i as int),
        decreases models.len() - i,
    {
        out.push(models[i].clone());
        proof {
            assert(out@ =~= models@.take(i + 1));
        }
        i += 1;
    }
    proof {
        assert(models@.take(models.len() as int) =~= models@);
    }
    out
}

impl Clone for OllamaStatus {
    fn clone(&self) -> (copy: Self)
        ensures
            copy.is_available == self.is_available,
            copy.models@ == self.models@,
            copy.last_checked == self.last_checked,
            copy.error_message == self.error_message,
    {
        OllamaStatus {
            is_available: self.is_available,
            models: copy_models(&self.models),
            last_checked: self.last_checked.clone(),
            error_message: self.error_message.clone(),
        }
    }
}

impl OllamaStatus {
    /// The status before any check, dated `now`: not available, no model,
    /// no error.
    pub open spec fn is_unchecked(self, now: Timestamp) -> bool {
        &&& !self.is_available
        &&& self.models@.len() == 0
        &&& self.last_checked@ == checked_text(now)
        &&& self.error_message.is_none()
    }

    /// The status before any check, dated `now`.
    pub fn unchecked_at(now: Timestamp) -> (status: Self)
        ensures
            status.is_unchecked(now),
    {
        OllamaStatus {
            is_available: false,
            models: Vec::new(),
            last_checked: text_of(now),
            error_message: None,
        }
    }

    /// The status after a check at `now`: available with the models that
    /// the server listed, or not available with what went wrong.
    pub fn from_check(outcome: Result<Vec<OllamaModel>, String>, now: Timestamp) -> (status: Self)
        ensures
            status.last_checked@ == checked_text(now),
            match outcome {
                Ok(models) => {
                    &&& status.is_available
                    &&& status.models@ == models@
                    &&& status.error_message.is_none()
                },
                Err(message) => {
                    &&& !status.is_available
                    &&& status.models@.len() == 0
                    &&& status.error_message == Some(message)
                },
            },
    {
        match outcome {
            Ok(models) => OllamaStatus {
                is_available: true,
                models,
                last_checked: text_of(now),
                error_message: None,
            },
            Err(message) => OllamaStatus {
                is_available: false,
                models: Vec::new(),
                last_checked: text_of(now),
                error_message: Some(message),
            },
        }
    }
}

impl Default for OllamaStatus {
    /// The status before any check, dated by the system clock.
    fn default() -> (status: Self)
        ensures
            exists|now: Timestamp| #[trigger] status.is_unchecked(now),
    {
        let now = Timestamp::now();
        let status = OllamaStatus::unchecked_at(now);
        proof {
            assert(status.is_unchecked(now));
        }
        status
    }
}

/// The RFC 3339 text of `now`, or an empty text where it has none.
pub fn text_of(now: Timestamp) -> (text: String)
    ensures
        text@ == checked_text(now),
{
    match now.to_rfc3339() {
        Some(text) => text,
        None => String::new(),
    }
}

/// One turn of a conversation with a model.
#[derive(Debug)]
pub struct ChatMessage {
    pub role: String,
    pub content: String,
}

impl Clone for ChatMessage {
    fn clone(&self) -> (copy: Self)
        ensures
            copy == *self,
    {
        ChatMessage { role: self.role.clone(), content: self.content.clone() }
    }
}

/// Who speaks in a turn of a conversation.
#[derive(Clone, Copy, Debug, PartialEq, Eq, Structural)]
pub enum ChatRole {
    User,
    Assistant,
    System,
}

/// The speaker that a role text names; any unknown role counts as the user.
pub open spec fn role_of(role: Seq<char>) -> ChatRole {
    if role == "assistant"@ {
        ChatRole::Assistant
    } else if role == "system"@ {
        ChatRole::System
    } else {
        ChatRole::User
    }
}

impl ChatMessage {
    /// The speaker of this turn.
    pub fn chat_role(&self) -> (role: ChatRole)
        ensures
            role == role_of(self.role@),
    {
        if self.role == "assistant".to_owned() {
            ChatRole::Assistant
        } else if self.role == "system".to_owned() {
            ChatRole::System
        } else {
            ChatRole::User
        }
    }

    /// The turn in which the model answers with `content`.
    pub fn reply(content: String) -> (message: Self)
        ensures
            message.role@ == "assistant"@,
            message.content == content,
    {
        ChatMessage { role: "assistant".to_owned(), content }
    }
}

/// What a caller is told when the server was not available at the last check.
pub open spec fn unavailable_text() -> Seq<char> {
    "Ollama server is not available. Please check your connection settings."@
}

/// Whether a conversation may be sent: only to a server that was
/// available at the last check.
pub fn chat_gate(status: &OllamaStatus) -> (gate: Result<(), String>)
    ensures
        status.is_available ==> gate.is_ok(),
        !status.is_available ==> gate.is_err() && gate.unwrap_err()@ == unavailable_text(),
{
    if status.is_available {
        Ok(())
    } else {
        Err("Ollama server is not available. Please check your connection settings.".to_owned())
    }
}

/// The line of the tray menu that names the server.
pub open spec fn server_line(config: OllamaConfig) -> Seq<char> {
    "Server: "@ + config.domain@ + ":"@ + decimal_text(config.port as nat)
}

/// The line of the tray menu that tells whether the server answers.
pub open spec fn status_line(available: bool, models: nat) -> Seq<char> {
    if available {
        "Status: Available ("@ + decimal_text(models) + " models)"@
    } else {
        "Status: Unavailable"@
    }
}

/// The line of the tray menu that names the server: its address and port.
pub fn server_text(config: &OllamaConfig) -> (text: String)
    ensures
        text@ == server_line(*config),
{
    let mut text = "Server: ".to_owned();
    text.append(config.domain.as_str());
    text.append(":");
    let port = decimal(config.port as u64);
    text.append(port.as_str());
    text
}

/// The line of the tray menu that tells whether the server answers, and
/// with how many models.
pub fn status_text(status: &OllamaStatus) -> (text: String)
    ensures
        text@ == status_line(status.is_available, status.models@.len()),
{
    if status.is_available {
        let mut text = "Status: Available (".to_owned();
        let count = decimal(status.models.len() as u64);
        text.append(count.as_str());
        text.append(" models)");
        text
    } else {
        "Status: Unavailable".to_owned()
    }
}

/// Takes in a check of the server: whether its availability differs
/// from the one noted at the check before, and the availability to note
/// now. The first check always differs.
pub fn note_availability(last: Option<bool>, status: &OllamaStatus) -> (noted: (bool, Option<bool>))
    ensures
        noted.0 == (last != Some(status.is_available)),
        noted.1 == Some(status.is_available),
{
    let changed = match last {
        Some(before) => before != status.is_available,
        None => true,
    };
    (changed, Some(status.is_available))
}

} // verus!
