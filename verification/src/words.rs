//! The words of the wire format: the names of fields, the discriminators and
//! the words of the enumerations.

use vstd::prelude::*;

verus! {

/// Any two words of the wire format differ: in length, or in one of a few
/// characters. The facts stated here of each word tell it from every other.
pub proof fn lemma_wire_words()
    ensures
        "id"@.len() == 2,
        "ref"@.len() == 3 && "ref"@[2] == 'f',
        "uri"@.len() == 3 && "uri"@[2] == 'i',
        "url"@.len() == 3 && "url"@[2] == 'l',
        "auto"@.len() == 4 && "auto"@[2] == 't' && "auto"@[3] == 'o',
        "blob"@.len() == 4 && "blob"@[2] == 'o' && "blob"@[3] == 'b',
        "data"@.len() == 4 && "data"@[2] == 't' && "data"@[3] == 'a',
        "date"@.len() == 4 && "date"@[2] == 't' && "date"@[3] == 'e',
        "enum"@.len() == 4 && "enum"@[2] == 'u' && "enum"@[3] == 'm',
        "form"@.len() == 4 && "form"@[2] == 'r' && "form"@[3] == 'm',
        "info"@.len() == 4 && "info"@[2] == 'f' && "info"@[3] == 'o',
        "mode"@.len() == 4 && "mode"@[2] == 'd' && "mode"@[3] == 'e',
        "name"@.len() == 4 && "name"@[2] == 'm' && "name"@[3] == 'e',
        "none"@.len() == 4 && "none"@[2] == 'n' && "none"@[3] == 'e',
        "role"@.len() == 4 && "role"@[2] == 'l' && "role"@[3] == 'e',
        "size"@.len() == 4 && "size"@[2] == 'z' && "size"@[3] == 'e',
        "task"@.len() == 4 && "task"@[2] == 's' && "task"@[3] == 'k',
        "text"@.len() == 4 && "text"@[2] == 'x' && "text"@[3] == 't',
        "type"@.len() == 4 && "type"@[2] == 'p' && "type"@[3] == 'e',
        "user"@.len() == 4 && "user"@[2] == 'e' && "user"@[3] == 'r',
        "_meta"@.len() == 5 && "_meta"@[0] == '_' && "_meta"@[4] == 'a',
        "alert"@.len() == 5 && "alert"@[0] == 'a' && "alert"@[4] == 't',
        "audio"@.len() == 5 && "audio"@[0] == 'a' && "audio"@[4] == 'o',
        "debug"@.len() == 5 && "debug"@[0] == 'd' && "debug"@[4] == 'g',
        "email"@.len() == 5 && "email"@[0] == 'e' && "email"@[4] == 'l',
        "error"@.len() == 5 && "error"@[0] == 'e' && "error"@[4] == 'r',
        "hints"@.len() == 5 && "hints"@[0] == 'h' && "hints"@[4] == 's',
        "image"@.len() == 5 && "image"@[0] == 'i' && "image"@[4] == 'e',
        "level"@.len() == 5 && "level"@[0] == 'l' && "level"@[4] == 'l',
        "model"@.len() == 5 && "model"@[0] == 'm' && "model"@[4] == 'l',
        "roots"@.len() == 5 && "roots"@[0] == 'r' && "roots"@[4] == 's',
        "title"@.len() == 5 && "title"@[0] == 't' && "title"@[4] == 'e',
        "tools"@.len() == 5 && "tools"@[0] == 't' && "tools"@[4] == 's',
        "total"@.len() == 5 && "total"@[0] == 't' && "total"@[4] == 'l',
        "value"@.len() == 5 && "value"@[0] == 'v' && "value"@[4] == 'e',
        "accept"@.len() == 6 && "accept"@[0] == 'a' && "accept"@[2] == 'c',
        "action"@.len() == 6 && "action"@[0] == 'a' && "action"@[2] == 't',
        "cancel"@.len() == 6 && "cancel"@[0] == 'c' && "cancel"@[2] == 'n',
        "format"@.len() == 6 && "format"@[0] == 'f' && "format"@[2] == 'r',
        "logger"@.len() == 6 && "logger"@[0] == 'l' && "logger"@[2] == 'g',
        "notice"@.len() == 6 && "notice"@[0] == 'n' && "notice"@[2] == 't',
        "number"@.len() == 6 && "number"@[0] == 'n' && "number"@[2] == 'm',
        "object"@.len() == 6 && "object"@[0] == 'o' && "object"@[2] == 'j',
        "prompt"@.len() == 6 && "prompt"@[0] == 'p' && "prompt"@[2] == 'o',
        "string"@.len() == 6 && "string"@[0] == 's' && "string"@[2] == 'r',
        "values"@.len() == 6 && "values"@[0] == 'v' && "values"@[2] == 'l',
        "boolean"@.len() == 7 && "boolean"@[1] == 'o' && "boolean"@[3] == 'l' && "boolean"@[5] == 'a',
        "content"@.len() == 7 && "content"@[1] == 'o' && "content"@[3] == 't' && "content"@[5] == 'n',
        "context"@.len() == 7 && "context"@[1] == 'o' && "context"@[3] == 't' && "context"@[5] == 'x',
        "decline"@.len() == 7 && "decline"@[1] == 'e' && "decline"@[3] == 'l' && "decline"@[5] == 'n',
        "default"@.len() == 7 && "default"@[1] == 'e' && "default"@[3] == 'a' && "default"@[5] == 'l',
        "hasMore"@.len() == 7 && "hasMore"@[1] == 'a' && "hasMore"@[3] == 'M' && "hasMore"@[5] == 'r',
        "integer"@.len() == 7 && "integer"@[1] == 'n' && "integer"@[3] == 'e' && "integer"@[5] == 'e',
        "isError"@.len() == 7 && "isError"@[1] == 's' && "isError"@[3] == 'r' && "isError"@[5] == 'o',
        "maximum"@.len() == 7 && "maximum"@[1] == 'a' && "maximum"@[3] == 'i' && "maximum"@[5] == 'u',
        "message"@.len() == 7 && "message"@[1] == 'e' && "message"@[3] == 's' && "message"@[5] == 'g',
        "minimum"@.len() == 7 && "minimum"@[1] == 'i' && "minimum"@[3] == 'i' && "minimum"@[5] == 'u',
        "prompts"@.len() == 7 && "prompts"@[1] == 'r' && "prompts"@[3] == 'm' && "prompts"@[5] == 't',
        "request"@.len() == 7 && "request"@[1] == 'e' && "request"@[3] == 'u' && "request"@[5] == 's',
        "service"@.len() == 7 && "service"@[1] == 'e' && "service"@[3] == 'v' && "service"@[5] == 'c',
        "timeout"@.len() == 7 && "timeout"@[1] == 'i' && "timeout"@[3] == 'e' && "timeout"@[5] == 'u',
        "warning"@.len() == 7 && "warning"@[1] == 'a' && "warning"@[3] == 'n' && "warning"@[5] == 'n',
        "argument"@.len() == 8 && "argument"@[0] == 'a' && "argument"@[2] == 'g',
        "audience"@.len() == 8 && "audience"@[0] == 'a' && "audience"@[2] == 'd',
        "contents"@.len() == 8 && "contents"@[0] == 'c' && "contents"@[2] == 'n',
        "critical"@.len() == 8 && "critical"@[0] == 'c' && "critical"@[2] == 'i',
        "messages"@.len() == 8 && "messages"@[0] == 'm' && "messages"@[2] == 's',
        "metadata"@.len() == 8 && "metadata"@[0] == 'm' && "metadata"@[2] == 't',
        "mimeType"@.len() == 8 && "mimeType"@[0] == 'm' && "mimeType"@[2] == 'm',
        "priority"@.len() == 8 && "priority"@[0] == 'p' && "priority"@[2] == 'i',
        "progress"@.len() == 8 && "progress"@[0] == 'p' && "progress"@[2] == 'o',
        "required"@.len() == 8 && "required"@[0] == 'r' && "required"@[2] == 'q',
        "resource"@.len() == 8 && "resource"@[0] == 'r' && "resource"@[2] == 's',
        "arguments"@.len() == 9 && "arguments"@[1] == 'r' && "arguments"@[3] == 'u',
        "assistant"@.len() == 9 && "assistant"@[1] == 's' && "assistant"@[3] == 'i',
        "date_time"@.len() == 9 && "date_time"@[1] == 'a' && "date_time"@[3] == 'e',
        "emergency"@.len() == 9 && "emergency"@[1] == 'm' && "emergency"@[3] == 'r',
        "enumNames"@.len() == 9 && "enumNames"@[1] == 'n' && "enumNames"@[3] == 'm',
        "maxLength"@.len() == 9 && "maxLength"@[1] == 'a' && "maxLength"@[3] == 'L',
        "maxTokens"@.len() == 9 && "maxTokens"@[1] == 'a' && "maxTokens"@[3] == 'T',
        "minLength"@.len() == 9 && "minLength"@[1] == 'i' && "minLength"@[3] == 'L',
        "resources"@.len() == 9 && "resources"@[1] == 'e' && "resources"@[3] == 'o',
        "allServers"@.len() == 10 && "allServers"@[0] == 'a' && "allServers"@[1] == 'l',
        "completion"@.len() == 10 && "completion"@[0] == 'c' && "completion"@[1] == 'o',
        "properties"@.len() == 10 && "properties"@[0] == 'p' && "properties"@[1] == 'r',
        "stopReason"@.len() == 10 && "stopReason"@[0] == 's' && "stopReason"@[1] == 't',
        "thisServer"@.len() == 10 && "thisServer"@[0] == 't' && "thisServer"@[1] == 'h',
        "toolChoice"@.len() == 10 && "toolChoice"@[0] == 't' && "toolChoice"@[1] == 'o',
        "annotations"@.len() == 11 && "annotations"@[0] == 'a',
        "description"@.len() == 11 && "description"@[0] == 'd',
        "inputSchema"@.len() == 11 && "inputSchema"@[0] == 'i',
        "temperature"@.len() == 11 && "temperature"@[0] == 't',
        "uriTemplate"@.len() == 11 && "uriTemplate"@[0] == 'u',
        "lastModified"@.len() == 12 && "lastModified"@[0] == 'l',
        "outputSchema"@.len() == 12 && "outputSchema"@[0] == 'o',
        "readOnlyHint"@.len() == 12 && "readOnlyHint"@[0] == 'r',
        "systemPrompt"@.len() == 12 && "systemPrompt"@[0] == 's',
        "cost_priority"@.len() == 13 && "cost_priority"@[3] == 't',
        "elicitationId"@.len() == 13 && "elicitationId"@[3] == 'c',
        "openWorldHint"@.len() == 13 && "openWorldHint"@[3] == 'n',
        "progressToken"@.len() == 13 && "progressToken"@[3] == 'g',
        "resource_link"@.len() == 13 && "resource_link"@[3] == 'o',
        "speedPriority"@.len() == 13 && "speedPriority"@[3] == 'e',
        "stopSequences"@.len() == 13 && "stopSequences"@[3] == 'p',
        "idempotentHint"@.len() == 14 && "idempotentHint"@[1] == 'd',
        "includeContext"@.len() == 14 && "includeContext"@[1] == 'n',
        "destructiveHint"@.len() == 15 && "destructiveHint"@[0] == 'd',
        "requestedSchema"@.len() == 15 && "requestedSchema"@[0] == 'r',
        "modelPreferences"@.len() == 16,
        "resourceTemplates"@.len() == 17 && "resourceTemplates"@[0] == 'r',
        "structuredContent"@.len() == 17 && "structuredContent"@[0] == 's',
        "intelligencePriority"@.len() == 20,
{
    reveal_strlit("id");
    reveal_strlit("ref");
    reveal_strlit("uri");
    reveal_strlit("url");
    reveal_strlit("auto");
    reveal_strlit("blob");
    reveal_strlit("data");
    reveal_strlit("date");
    reveal_strlit("enum");
    reveal_strlit("form");
    reveal_strlit("info");
    reveal_strlit("mode");
    reveal_strlit("name");
    reveal_strlit("none");
    reveal_strlit("role");
    reveal_strlit("size");
    reveal_strlit("task");
    reveal_strlit("text");
    reveal_strlit("type");
    reveal_strlit("user");
    reveal_strlit("_meta");
    reveal_strlit("alert");
    reveal_strlit("audio");
    reveal_strlit("debug");
    reveal_strlit("email");
    reveal_strlit("error");
    reveal_strlit("hints");
    reveal_strlit("image");
    reveal_strlit("level");
    reveal_strlit("model");
    reveal_strlit("roots");
    reveal_strlit("title");
    reveal_strlit("tools");
    reveal_strlit("total");
    reveal_strlit("value");
    reveal_strlit("accept");
    reveal_strlit("action");
    reveal_strlit("cancel");
    reveal_strlit("format");
    reveal_strlit("logger");
    reveal_strlit("notice");
    reveal_strlit("number");
    reveal_strlit("object");
    reveal_strlit("prompt");
    reveal_strlit("string");
    reveal_strlit("values");
    reveal_strlit("boolean");
    reveal_strlit("content");
    reveal_strlit("context");
    reveal_strlit("decline");
    reveal_strlit("default");
    reveal_strlit("hasMore");
    reveal_strlit("integer");
    reveal_strlit("isError");
    reveal_strlit("maximum");
    reveal_strlit("message");
    reveal_strlit("minimum");
    reveal_strlit("prompts");
    reveal_strlit("request");
    reveal_strlit("service");
    reveal_strlit("timeout");
    reveal_strlit("warning");
    reveal_strlit("argument");
    reveal_strlit("audience");
    reveal_strlit("contents");
    reveal_strlit("critical");
    reveal_strlit("messages");
    reveal_strlit("metadata");
    reveal_strlit("mimeType");
    reveal_strlit("priority");
    reveal_strlit("progress");
    reveal_strlit("required");
    reveal_strlit("resource");
    reveal_strlit("arguments");
    reveal_strlit("assistant");
    reveal_strlit("date_time");
    reveal_strlit("emergency");
    reveal_strlit("enumNames");
    reveal_strlit("maxLength");
    reveal_strlit("maxTokens");
    reveal_strlit("minLength");
    reveal_strlit("resources");
    reveal_strlit("allServers");
    reveal_strlit("completion");
    reveal_strlit("properties");
    reveal_strlit("stopReason");
    reveal_strlit("thisServer");
    reveal_strlit("toolChoice");
    reveal_strlit("annotations");
    reveal_strlit("description");
    reveal_strlit("inputSchema");
    reveal_strlit("temperature");
    reveal_strlit("uriTemplate");
    reveal_strlit("lastModified");
    reveal_strlit("outputSchema");
    reveal_strlit("readOnlyHint");
    reveal_strlit("systemPrompt");
    reveal_strlit("cost_priority");
    reveal_strlit("elicitationId");
    reveal_strlit("openWorldHint");
    reveal_strlit("progressToken");
    reveal_strlit("resource_link");
    reveal_strlit("speedPriority");
    reveal_strlit("stopSequences");
    reveal_strlit("idempotentHint");
    reveal_strlit("includeContext");
    reveal_strlit("destructiveHint");
    reveal_strlit("requestedSchema");
    reveal_strlit("modelPreferences");
    reveal_strlit("resourceTemplates");
    reveal_strlit("structuredContent");
    reveal_strlit("intelligencePriority");
}

} // verus!
