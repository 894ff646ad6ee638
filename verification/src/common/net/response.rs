//! Responses: JSON objects with an `ok` flag and request-specific items.

use vstd::prelude::*;

use crate::common::json::{is_string_of, JsonObject, JsonValue};
use crate::text::push_str;

verus! {

/// The items of a success response: `{"ok": true}`.
pub open spec fn ok_items() -> Map<Seq<char>, JsonValue> {
    Map::<Seq<char>, JsonValue>::empty().insert("ok"@, JsonValue::Bool(true))
}

/// The items of a failure response with the given reason.
pub open spec fn is_err_items(m: Map<Seq<char>, JsonValue>, reason: Seq<char>) -> bool {
    &&& m.dom() == set!["ok"@, "reason"@]
    &&& m["ok"@] == JsonValue::Bool(false)
    &&& is_string_of(m["reason"@], reason)
}

/// A response sent back for a request.
#[derive(Debug)]
pub struct Response(JsonObject);

impl Response {
    /// The JSON object of the response.
    pub closed spec fn object(&self) -> JsonObject {
        self.0
    }

    /// The items of the response.
    pub open spec fn items(&self) -> Map<Seq<char>, JsonValue> {
        self.object().as_map()
    }

    /// An empty response.
    pub fn default() -> (r: Response)
        ensures
            r.items() == Map::<Seq<char>, JsonValue>::empty(),
    {
        Response(JsonObject::new())
    }

    /// The items, for in-place changes.
    pub fn inner_mut(&mut self) -> (r: &mut JsonObject)
        ensures
            *r == old(self).object(),
            final(self).object() == *final(r),
    {
        &mut self.0
    }

    /// The items, read-only.
    pub fn inner(&self) -> (r: &JsonObject)
        ensures
            r.as_map() == self.items(),
    {
        &self.0
    }

    /// A success: `{"ok": true}`.
    pub fn new_ok() -> (r: Response)
        ensures
            r.items() == ok_items(),
    {
        let mut o = JsonObject::new();
        o.insert(String::from_str("ok"), JsonValue::Bool(true));
        Response(o)
    }

    /// A failure with a reason: `{"ok": false, "reason": reason}`.
    pub fn new_err(reason: String) -> (r: Response)
        ensures
            r.items() == Map::<Seq<char>, JsonValue>::empty().insert("ok"@, JsonValue::Bool(false)).insert(
                "reason"@,
                JsonValue::String(reason),
            ),
            is_err_items(r.items(), reason@),
    {
        proof {
            reveal_strlit("ok");
            reveal_strlit("reason");
            assert("ok"@.len() == 2 && "reason"@.len() == 6);
        }
        let ghost m = Map::<Seq<char>, JsonValue>::empty().insert("ok"@, JsonValue::Bool(false)).insert(
            "reason"@,
            JsonValue::String(reason),
        );
        assert(m.dom() =~= set!["ok"@, "reason"@]);
        let mut o = JsonObject::new();
        o.insert(String::from_str("ok"), JsonValue::Bool(false));
        o.insert(String::from_str("reason"), JsonValue::String(reason));
        Response(o)
    }

    /// A success or a failure with the error's text.
    pub fn from_result<T>(result: Result<T, String>) -> (r: Response)
        ensures
            match result {
                Ok(_) => r.items() == ok_items(),
                Err(e) => is_err_items(r.items(), e@),
            },
    {
        match result {
            Ok(_) => Response::new_ok(),
            Err(e) => Response::new_err(e),
        }
    }

    /// The welcome message: `{"version": "foksal v<version>"}`.
    pub fn version(crate_version: &str) -> (r: Response)
        ensures
            r.items().dom() == set!["version"@],
            r.items()["version"@] matches JsonValue::String(s) && s@ == "foksal v"@ + crate_version@,
    {
        let mut text = String::from_str("foksal v");
        push_str(&mut text, crate_version);
        let mut o = JsonObject::new();
        o.insert(String::from_str("version"), JsonValue::String(text));
        proof {
            assert(o.as_map().dom() =~= set!["version"@]);
        }
        Response(o)
    }

    /// The response with one more item (replacing an item of the same key).
    pub fn with_item(self, key: String, value: JsonValue) -> (r: Response)
        ensures
            r.items() == self.items().insert(key@, value),
    {
        let mut o = self.0;
        o.insert(key, value);
        Response(o)
    }
}

} // verus!
