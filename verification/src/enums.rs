//! The enumerations of the protocol, each written on the wire as one word.

use vstd::prelude::*;
use crate::error::{SchemaError, SchemaFault};
use crate::json::{JsonTree, JsonValue};
use crate::wire::Wire;
use crate::words::lemma_wire_words;

verus! {

/// Who speaks in a conversation.
#[derive(Debug, Clone, Copy, PartialEq, Eq, Default)]
pub enum Role {
    #[default]
    Assistant,
    User,
}

impl DeepView for Role {
    type V = Role;

    open spec fn deep_view(&self) -> Role {
        *self
    }
}

impl Role {
    /// The word that stands for the value on the wire.
    pub open spec fn word(self) -> Seq<char> {
        match self {
            Role::Assistant => "assistant"@,
            Role::User => "user"@,
        }
    }

    /// The value that a word stands for.
    pub open spec fn from_word(word: Seq<char>) -> Option<Role> {
        if word == "assistant"@ {
            Some(Role::Assistant)
        } else if word == "user"@ {
            Some(Role::User)
        } else {
            None
        }
    }

    /// The word that stands for the value on the wire.
    pub fn as_str(&self) -> (out: &'static str)
        ensures
            out@ == self.word(),
    {
        match self {
            Role::Assistant => "assistant",
            Role::User => "user",
        }
    }
}

impl Wire for Role {
    open spec fn encode(m: Role) -> JsonTree {
        JsonTree::String(m.word())
    }

    open spec fn decode(t: JsonTree) -> Result<Role, SchemaFault> {
        match t {
            JsonTree::String(word) => match Role::from_word(word) {
                Some(m) => Ok(m),
                None => Err(SchemaFault::Malformed { of_type: "Role"@ }),
            },
            _ => Err(SchemaFault::Malformed { of_type: "Role"@ }),
        }
    }

    open spec fn valid(m: Role) -> bool {
        true
    }

    fn serialize(&self) -> (out: JsonValue) {
        JsonValue::String(String::from_str(self.as_str()))
    }

    fn deserialize(value: &JsonValue) -> (out: Result<Role, SchemaError>) {
        match value {
            JsonValue::String(word) => {
                if *word == String::from_str("assistant") {
                    Ok(Role::Assistant)
                } else if *word == String::from_str("user") {
                    Ok(Role::User)
                } else {
                    Err(SchemaError::Malformed { of_type: String::from_str("Role") })
                }
            },
            _ => Err(SchemaError::Malformed { of_type: String::from_str("Role") }),
        }
    }

    proof fn round_trip(m: Role) {
        lemma_wire_words();
    }

    proof fn decoded_valid(t: JsonTree) {
    }
}

/// How severe a log message is, from the least to the most severe.
#[derive(Debug, Clone, Copy, PartialEq, Eq, Default)]
pub enum LoggingLevel {
    #[default]
    Debug,
    Info,
    Notice,
    Warning,
    Error,
    Critical,
    Alert,
    Emergency,
}

impl DeepView for LoggingLevel {
    type V = LoggingLevel;

    open spec fn deep_view(&self) -> LoggingLevel {
        *self
    }
}

impl LoggingLevel {
    /// The word that stands for the value on the wire.
    pub open spec fn word(self) -> Seq<char> {
        match self {
            LoggingLevel::Debug => "debug"@,
            LoggingLevel::Info => "info"@,
            LoggingLevel::Notice => "notice"@,
            LoggingLevel::Warning => "warning"@,
            LoggingLevel::Error => "error"@,
            LoggingLevel::Critical => "critical"@,
            LoggingLevel::Alert => "alert"@,
            LoggingLevel::Emergency => "emergency"@,
        }
    }

    /// The value that a word stands for.
    pub open spec fn from_word(word: Seq<char>) -> Option<LoggingLevel> {
        if word == "debug"@ {
            Some(LoggingLevel::Debug)
        } else if word == "info"@ {
            Some(LoggingLevel::Info)
        } else if word == "notice"@ {
            Some(LoggingLevel::Notice)
        } else if word == "warning"@ {
            Some(LoggingLevel::Warning)
        } else if word == "error"@ {
            Some(LoggingLevel::Error)
        } else if word == "critical"@ {
            Some(LoggingLevel::Critical)
        } else if word == "alert"@ {
            Some(LoggingLevel::Alert)
        } else if word == "emergency"@ {
            Some(LoggingLevel::Emergency)
        } else {
            None
        }
    }

    /// The word that stands for the value on the wire.
    pub fn as_str(&self) -> (out: &'static str)
        ensures
            out@ == self.word(),
    {
        match self {
            LoggingLevel::Debug => "debug",
            LoggingLevel::Info => "info",
            LoggingLevel::Notice => "notice",
            LoggingLevel::Warning => "warning",
            LoggingLevel::Error => "error",
            LoggingLevel::Critical => "critical",
            LoggingLevel::Alert => "alert",
            LoggingLevel::Emergency => "emergency",
        }
    }
}

impl Wire for LoggingLevel {
    open spec fn encode(m: LoggingLevel) -> JsonTree {
        JsonTree::String(m.word())
    }

    open spec fn decode(t: JsonTree) -> Result<LoggingLevel, SchemaFault> {
        match t {
            JsonTree::String(word) => match LoggingLevel::from_word(word) {
                Some(m) => Ok(m),
                None => Err(SchemaFault::Malformed { of_type: "LoggingLevel"@ }),
            },
            _ => Err(SchemaFault::Malformed { of_type: "LoggingLevel"@ }),
        }
    }

    open spec fn valid(m: LoggingLevel) -> bool {
        true
    }

    fn serialize(&self) -> (out: JsonValue) {
        JsonValue::String(String::from_str(self.as_str()))
    }

    fn deserialize(value: &JsonValue) -> (out: Result<LoggingLevel, SchemaError>) {
        match value {
            JsonValue::String(word) => {
                if *word == String::from_str("debug") {
                    Ok(LoggingLevel::Debug)
                } else if *word == String::from_str("info") {
                    Ok(LoggingLevel::Info)
                } else if *word == String::from_str("notice") {
                    Ok(LoggingLevel::Notice)
                } else if *word == String::from_str("warning") {
                    Ok(LoggingLevel::Warning)
                } else if *word == String::from_str("error") {
                    Ok(LoggingLevel::Error)
                } else if *word == String::from_str("critical") {
                    Ok(LoggingLevel::Critical)
                } else if *word == String::from_str("alert") {
                    Ok(LoggingLevel::Alert)
                } else if *word == String::from_str("emergency") {
                    Ok(LoggingLevel::Emergency)
                } else {
                    Err(SchemaError::Malformed { of_type: String::from_str("LoggingLevel") })
                }
            },
            _ => Err(SchemaError::Malformed { of_type: String::from_str("LoggingLevel") }),
        }
    }

    proof fn round_trip(m: LoggingLevel) {
        lemma_wire_words();
    }

    proof fn decoded_valid(t: JsonTree) {
    }
}

/// What the user did with a request for input.
#[derive(Debug, Clone, Copy, PartialEq, Eq, Default)]
pub enum ElicitationResultAction {
    #[default]
    Accept,
    Decline,
    Cancel,
}

impl DeepView for ElicitationResultAction {
    type V = ElicitationResultAction;

    open spec fn deep_view(&self) -> ElicitationResultAction {
        *self
    }
}

impl ElicitationResultAction {
    /// The word that stands for the value on the wire.
    pub open spec fn word(self) -> Seq<char> {
        match self {
            ElicitationResultAction::Accept => "accept"@,
            ElicitationResultAction::Decline => "decline"@,
            ElicitationResultAction::Cancel => "cancel"@,
        }
    }

    /// The value that a word stands for.
    pub open spec fn from_word(word: Seq<char>) -> Option<ElicitationResultAction> {
        if word == "accept"@ {
            Some(ElicitationResultAction::Accept)
        } else if word == "decline"@ {
            Some(ElicitationResultAction::Decline)
        } else if word == "cancel"@ {
            Some(ElicitationResultAction::Cancel)
        } else {
            None
        }
    }

    /// The word that stands for the value on the wire.
    pub fn as_str(&self) -> (out: &'static str)
        ensures
            out@ == self.word(),
    {
        match self {
            ElicitationResultAction::Accept => "accept",
            ElicitationResultAction::Decline => "decline",
            ElicitationResultAction::Cancel => "cancel",
        }
    }
}

impl Wire for ElicitationResultAction {
    open spec fn encode(m: ElicitationResultAction) -> JsonTree {
        JsonTree::String(m.word())
    }

    open spec fn decode(t: JsonTree) -> Result<ElicitationResultAction, SchemaFault> {
        match t {
            JsonTree::String(word) => match ElicitationResultAction::from_word(word) {
                Some(m) => Ok(m),
                None => Err(SchemaFault::Malformed { of_type: "ElicitationResultAction"@ }),
            },
            _ => Err(SchemaFault::Malformed { of_type: "ElicitationResultAction"@ }),
        }
    }

    open spec fn valid(m: ElicitationResultAction) -> bool {
        true
    }

    fn serialize(&self) -> (out: JsonValue) {
        JsonValue::String(String::from_str(self.as_str()))
    }

    fn deserialize(value: &JsonValue) -> (out: Result<ElicitationResultAction, SchemaError>) {
        match value {
            JsonValue::String(word) => {
                if *word == String::from_str("accept") {
                    Ok(ElicitationResultAction::Accept)
                } else if *word == String::from_str("decline") {
                    Ok(ElicitationResultAction::Decline)
                } else if *word == String::from_str("cancel") {
                    Ok(ElicitationResultAction::Cancel)
                } else {
                    Err(SchemaError::Malformed { of_type: String::from_str("ElicitationResultAction") })
                }
            },
            _ => Err(SchemaError::Malformed { of_type: String::from_str("ElicitationResultAction") }),
        }
    }

    proof fn round_trip(m: ElicitationResultAction) {
        lemma_wire_words();
    }

    proof fn decoded_valid(t: JsonTree) {
    }
}

/// Whether the model may, must or must not call a tool.
#[derive(Debug, Clone, Copy, PartialEq, Eq, Default)]
pub enum ToolChoiceMode {
    #[default]
    Auto,
    Required,
    Never,
}

impl DeepView for ToolChoiceMode {
    type V = ToolChoiceMode;

    open spec fn deep_view(&self) -> ToolChoiceMode {
        *self
    }
}

impl ToolChoiceMode {
    /// The word that stands for the value on the wire.
    pub open spec fn word(self) -> Seq<char> {
        match self {
            ToolChoiceMode::Auto => "auto"@,
            ToolChoiceMode::Required => "required"@,
            ToolChoiceMode::Never => "none"@,
        }
    }

    /// The value that a word stands for.
    pub open spec fn from_word(word: Seq<char>) -> Option<ToolChoiceMode> {
        if word == "auto"@ {
            Some(ToolChoiceMode::Auto)
        } else if word == "required"@ {
            Some(ToolChoiceMode::Required)
        } else if word == "none"@ {
            Some(ToolChoiceMode::Never)
        } else {
            None
        }
    }

    /// The word that stands for the value on the wire.
    pub fn as_str(&self) -> (out: &'static str)
        ensures
            out@ == self.word(),
    {
        match self {
            ToolChoiceMode::Auto => "auto",
            ToolChoiceMode::Required => "required",
            ToolChoiceMode::Never => "none",
        }
    }
}

impl Wire for ToolChoiceMode {
    open spec fn encode(m: ToolChoiceMode) -> JsonTree {
        JsonTree::String(m.word())
    }

    open spec fn decode(t: JsonTree) -> Result<ToolChoiceMode, SchemaFault> {
        match t {
            JsonTree::String(word) => match ToolChoiceMode::from_word(word) {
                Some(m) => Ok(m),
                None => Err(SchemaFault::Malformed { of_type: "ToolChoiceMode"@ }),
            },
            _ => Err(SchemaFault::Malformed { of_type: "ToolChoiceMode"@ }),
        }
    }

    open spec fn valid(m: ToolChoiceMode) -> bool {
        true
    }

    fn serialize(&self) -> (out: JsonValue) {
        JsonValue::String(String::from_str(self.as_str()))
    }

    fn deserialize(value: &JsonValue) -> (out: Result<ToolChoiceMode, SchemaError>) {
        match value {
            JsonValue::String(word) => {
                if *word == String::from_str("auto") {
                    Ok(ToolChoiceMode::Auto)
                } else if *word == String::from_str("required") {
                    Ok(ToolChoiceMode::Required)
                } else if *word == String::from_str("none") {
                    Ok(ToolChoiceMode::Never)
                } else {
                    Err(SchemaError::Malformed { of_type: String::from_str("ToolChoiceMode") })
                }
            },
            _ => Err(SchemaError::Malformed { of_type: String::from_str("ToolChoiceMode") }),
        }
    }

    proof fn round_trip(m: ToolChoiceMode) {
        lemma_wire_words();
    }

    proof fn decoded_valid(t: JsonTree) {
    }
}

/// Which servers' context a sampling request includes.
#[derive(Debug, Clone, Copy, PartialEq, Eq, Default)]
pub enum CreateMessageRequestParamIncludeContext {
    #[default]
    NoServer,
    ThisServer,
    AllServers,
}

impl DeepView for CreateMessageRequestParamIncludeContext {
    type V = CreateMessageRequestParamIncludeContext;

    open spec fn deep_view(&self) -> CreateMessageRequestParamIncludeContext {
        *self
    }
}

impl CreateMessageRequestParamIncludeContext {
    /// The word that stands for the value on the wire.
    pub open spec fn word(self) -> Seq<char> {
        match self {
            CreateMessageRequestParamIncludeContext::NoServer => "none"@,
            CreateMessageRequestParamIncludeContext::ThisServer => "thisServer"@,
            CreateMessageRequestParamIncludeContext::AllServers => "allServers"@,
        }
    }

    /// The value that a word stands for.
    pub open spec fn from_word(word: Seq<char>) -> Option<CreateMessageRequestParamIncludeContext> {
        if word == "none"@ {
            Some(CreateMessageRequestParamIncludeContext::NoServer)
        } else if word == "thisServer"@ {
            Some(CreateMessageRequestParamIncludeContext::ThisServer)
        } else if word == "allServers"@ {
            Some(CreateMessageRequestParamIncludeContext::AllServers)
        } else {
            None
        }
    }

    /// The word that stands for the value on the wire.
    pub fn as_str(&self) -> (out: &'static str)
        ensures
            out@ == self.word(),
    {
        match self {
            CreateMessageRequestParamIncludeContext::NoServer => "none",
            CreateMessageRequestParamIncludeContext::ThisServer => "thisServer",
            CreateMessageRequestParamIncludeContext::AllServers => "allServers",
        }
    }
}

impl Wire for CreateMessageRequestParamIncludeContext {
    open spec fn encode(m: CreateMessageRequestParamIncludeContext) -> JsonTree {
        JsonTree::String(m.word())
    }

    open spec fn decode(t: JsonTree) -> Result<CreateMessageRequestParamIncludeContext, SchemaFault> {
        match t {
            JsonTree::String(word) => match CreateMessageRequestParamIncludeContext::from_word(word) {
                Some(m) => Ok(m),
                None => Err(SchemaFault::Malformed { of_type: "CreateMessageRequestParamIncludeContext"@ }),
            },
            _ => Err(SchemaFault::Malformed { of_type: "CreateMessageRequestParamIncludeContext"@ }),
        }
    }

    open spec fn valid(m: CreateMessageRequestParamIncludeContext) -> bool {
        true
    }

    fn serialize(&self) -> (out: JsonValue) {
        JsonValue::String(String::from_str(self.as_str()))
    }

    fn deserialize(value: &JsonValue) -> (out: Result<CreateMessageRequestParamIncludeContext, SchemaError>) {
        match value {
            JsonValue::String(word) => {
                if *word == String::from_str("none") {
                    Ok(CreateMessageRequestParamIncludeContext::NoServer)
                } else if *word == String::from_str("thisServer") {
                    Ok(CreateMessageRequestParamIncludeContext::ThisServer)
                } else if *word == String::from_str("allServers") {
                    Ok(CreateMessageRequestParamIncludeContext::AllServers)
                } else {
                    Err(SchemaError::Malformed { of_type: String::from_str("CreateMessageRequestParamIncludeContext") })
                }
            },
            _ => Err(SchemaError::Malformed { of_type: String::from_str("CreateMessageRequestParamIncludeContext") }),
        }
    }

    proof fn round_trip(m: CreateMessageRequestParamIncludeContext) {
        lemma_wire_words();
    }

    proof fn decoded_valid(t: JsonTree) {
    }
}

/// The format that a string input must have.
#[derive(Debug, Clone, Copy, PartialEq, Eq, Default)]
pub enum StringSchemaFormat {
    #[default]
    Email,
    Uri,
    Date,
    Datetime,
}

impl DeepView for StringSchemaFormat {
    type V = StringSchemaFormat;

    open spec fn deep_view(&self) -> StringSchemaFormat {
        *self
    }
}

impl StringSchemaFormat {
    /// The word that stands for the value on the wire.
    pub open spec fn word(self) -> Seq<char> {
        match self {
            StringSchemaFormat::Email => "email"@,
            StringSchemaFormat::Uri => "uri"@,
            StringSchemaFormat::Date => "date"@,
            StringSchemaFormat::Datetime => "date_time"@,
        }
    }

    /// The value that a word stands for.
    pub open spec fn from_word(word: Seq<char>) -> Option<StringSchemaFormat> {
        if word == "email"@ {
            Some(StringSchemaFormat::Email)
        } else if word == "uri"@ {
            Some(StringSchemaFormat::Uri)
        } else if word == "date"@ {
            Some(StringSchemaFormat::Date)
        } else if word == "date_time"@ {
            Some(StringSchemaFormat::Datetime)
        } else {
            None
        }
    }

    /// The word that stands for the value on the wire.
    pub fn as_str(&self) -> (out: &'static str)
        ensures
            out@ == self.word(),
    {
        match self {
            StringSchemaFormat::Email => "email",
            StringSchemaFormat::Uri => "uri",
            StringSchemaFormat::Date => "date",
            StringSchemaFormat::Datetime => "date_time",
        }
    }
}

impl Wire for StringSchemaFormat {
    open spec fn encode(m: StringSchemaFormat) -> JsonTree {
        JsonTree::String(m.word())
    }

    open spec fn decode(t: JsonTree) -> Result<StringSchemaFormat, SchemaFault> {
        match t {
            JsonTree::String(word) => match StringSchemaFormat::from_word(word) {
                Some(m) => Ok(m),
                None => Err(SchemaFault::Malformed { of_type: "StringSchemaFormat"@ }),
            },
            _ => Err(SchemaFault::Malformed { of_type: "StringSchemaFormat"@ }),
        }
    }

    open spec fn valid(m: StringSchemaFormat) -> bool {
        true
    }

    fn serialize(&self) -> (out: JsonValue) {
        JsonValue::String(String::from_str(self.as_str()))
    }

    fn deserialize(value: &JsonValue) -> (out: Result<StringSchemaFormat, SchemaError>) {
        match value {
            JsonValue::String(word) => {
                if *word == String::from_str("email") {
                    Ok(StringSchemaFormat::Email)
                } else if *word == String::from_str("uri") {
                    Ok(StringSchemaFormat::Uri)
                } else if *word == String::from_str("date") {
                    Ok(StringSchemaFormat::Date)
                } else if *word == String::from_str("date_time") {
                    Ok(StringSchemaFormat::Datetime)
                } else {
                    Err(SchemaError::Malformed { of_type: String::from_str("StringSchemaFormat") })
                }
            },
            _ => Err(SchemaError::Malformed { of_type: String::from_str("StringSchemaFormat") }),
        }
    }

    proof fn round_trip(m: StringSchemaFormat) {
        lemma_wire_words();
    }

    proof fn decoded_valid(t: JsonTree) {
    }
}

/// Whether a number input takes any number or integers only.
#[derive(Debug, Clone, Copy, PartialEq, Eq, Default)]
pub enum NumberType {
    #[default]
    Number,
    Integer,
}

impl DeepView for NumberType {
    type V = NumberType;

    open spec fn deep_view(&self) -> NumberType {
        *self
    }
}

impl NumberType {
    /// The word that stands for the value on the wire.
    pub open spec fn word(self) -> Seq<char> {
        match self {
            NumberType::Number => "number"@,
            NumberType::Integer => "integer"@,
        }
    }

    /// The value that a word stands for.
    pub open spec fn from_word(word: Seq<char>) -> Option<NumberType> {
        if word == "number"@ {
            Some(NumberType::Number)
        } else if word == "integer"@ {
            Some(NumberType::Integer)
        } else {
            None
        }
    }

    /// The word that stands for the value on the wire.
    pub fn as_str(&self) -> (out: &'static str)
        ensures
            out@ == self.word(),
    {
        match self {
            NumberType::Number => "number",
            NumberType::Integer => "integer",
        }
    }
}

impl Wire for NumberType {
    open spec fn encode(m: NumberType) -> JsonTree {
        JsonTree::String(m.word())
    }

    open spec fn decode(t: JsonTree) -> Result<NumberType, SchemaFault> {
        match t {
            JsonTree::String(word) => match NumberType::from_word(word) {
                Some(m) => Ok(m),
                None => Err(SchemaFault::Malformed { of_type: "NumberType"@ }),
            },
            _ => Err(SchemaFault::Malformed { of_type: "NumberType"@ }),
        }
    }

    open spec fn valid(m: NumberType) -> bool {
        true
    }

    fn serialize(&self) -> (out: JsonValue) {
        JsonValue::String(String::from_str(self.as_str()))
    }

    fn deserialize(value: &JsonValue) -> (out: Result<NumberType, SchemaError>) {
        match value {
            JsonValue::String(word) => {
                if *word == String::from_str("number") {
                    Ok(NumberType::Number)
                } else if *word == String::from_str("integer") {
                    Ok(NumberType::Integer)
                } else {
                    Err(SchemaError::Malformed { of_type: String::from_str("NumberType") })
                }
            },
            _ => Err(SchemaError::Malformed { of_type: String::from_str("NumberType") }),
        }
    }

    proof fn round_trip(m: NumberType) {
        lemma_wire_words();
    }

    proof fn decoded_valid(t: JsonTree) {
    }
}

} // verus!
