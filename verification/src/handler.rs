//! The inference request handler: the greeting echo, the fixed wire payload,
//! the endpoint URL, and the reshaping of the endpoint's reply into a
//! normalized result or a string error.

use vstd::prelude::*;
use vstd::string::StringExecFns;

use crate::json::{first_of, json_parse, lookup_from, member_of, obj_lookup, parse_json, text_of, Json};

verus! {

/// The greeting echo.
pub fn greet(name: &str) -> (r: String)
    ensures
        r@ == "Hello, "@ + name@ + "!"@,
{
    let s = String::from_str("Hello, ").concat(name);
    s.concat("!")
}

/// The endpoint URL for a model: the fixed host path with the model
/// identifier appended verbatim, without encoding.
pub fn endpoint_url(model: &str) -> (r: String)
    ensures
        r@ == "https://api-inference.huggingface.co/models/"@ + model@,
{
    String::from_str("https://api-inference.huggingface.co/models/").concat(model)
}

/// The fixed wire payload: exactly the template
/// `{"inputs": message, "parameters": {"return_full_text": false,
/// "max_new_tokens": 500}, "options": {"use_cache": false}}`.
pub open spec fn is_payload(j: Json, message: Seq<char>) -> bool {
    &&& j matches Json::Obj(pairs)
    &&& pairs@.len() == 3
    &&& pairs@[0].0@ == "inputs"@
    &&& pairs@[0].1 matches Json::Str(m) && m@ == message
    &&& pairs@[1].0@ == "parameters"@
    &&& pairs@[1].1 matches Json::Obj(params) && {
        &&& params@.len() == 2
        &&& params@[0].0@ == "return_full_text"@
        &&& params@[0].1 matches Json::Bool(full) && full == false
        &&& params@[1].0@ == "max_new_tokens"@
        &&& params@[1].1 matches Json::Num(n) && n@ == "500"@
    }
    &&& pairs@[2].0@ == "options"@
    &&& pairs@[2].1 matches Json::Obj(options) && {
        &&& options@.len() == 1
        &&& options@[0].0@ == "use_cache"@
        &&& options@[0].1 matches Json::Bool(cache) && cache == false
    }
}

/// The body sent upstream for `message`: the fixed template with `inputs`
/// substituted and the constants unchanged.
pub fn build_payload(message: &str) -> (r: Json)
    ensures
        is_payload(r, message@),
{
    let mut params: Vec<(String, Json)> = Vec::new();
    params.push((String::from_str("return_full_text"), Json::Bool(false)));
    params.push((String::from_str("max_new_tokens"), Json::Num(String::from_str("500"))));
    let mut options: Vec<(String, Json)> = Vec::new();
    options.push((String::from_str("use_cache"), Json::Bool(false)));
    let mut pairs: Vec<(String, Json)> = Vec::new();
    pairs.push((String::from_str("inputs"), Json::Str(message.to_owned())));
    pairs.push((String::from_str("parameters"), Json::Obj(params)));
    pairs.push((String::from_str("options"), Json::Obj(options)));
    Json::Obj(pairs)
}

/// The normalized result: exactly the object
/// `{"model": model, "generated_text": text}`, in that member order.
pub open spec fn is_result_obj(j: Json, model: Seq<char>, text: Seq<char>) -> bool {
    &&& j matches Json::Obj(pairs)
    &&& pairs@.len() == 2
    &&& pairs@[0].0@ == "model"@
    &&& pairs@[0].1 matches Json::Str(m) && m@ == model
    &&& pairs@[1].0@ == "generated_text"@
    &&& pairs@[1].1 matches Json::Str(t) && t@ == text
}

/// The normalized result for `model` and `text`.
pub fn make_result(model: &str, text: String) -> (r: Json)
    ensures
        is_result_obj(r, model@, text@),
{
    let mut pairs: Vec<(String, Json)> = Vec::new();
    pairs.push((String::from_str("model"), Json::Str(model.to_owned())));
    pairs.push((String::from_str("generated_text"), Json::Str(text)));
    Json::Obj(pairs)
}

/// The text the reply carries: the string under "generated_text" in the
/// reply's first element; none when the reply is not an array, is empty, its
/// first element is not an object, the key is absent, or the value under it
/// is not a string.
pub open spec fn generated_text_of(reply: Json) -> Option<Seq<char>> {
    match first_of(reply) {
        Some(elem) => match member_of(elem, "generated_text"@) {
            Some(v) => text_of(v),
            None => None,
        },
        None => None,
    }
}

/// The string under "generated_text" in the reply's first element, if the
/// reply has that shape.
pub fn extract_generated_text(reply: &Json) -> (r: Option<String>)
    ensures
        match generated_text_of(*reply) {
            Some(t) => r matches Some(s) && s@ == t,
            None => r is None,
        },
{
    match reply.first() {
        Some(elem) => match elem.get("generated_text") {
            Some(v) => match v.as_text() {
                Some(s) => Some(s.clone()),
                None => None,
            },
            None => None,
        },
        None => None,
    }
}

/// The normalized result for a parsed reply, or the fixed shape error when
/// the reply does not carry a generated text.
pub fn process_reply(reply: &Json, model: &str) -> (r: Result<Json, String>)
    ensures
        match generated_text_of(*reply) {
            Some(t) => r matches Ok(v) && is_result_obj(v, model@, t),
            None => r matches Err(e) && e@ == "Failed to extract generated text"@,
        },
{
    match extract_generated_text(reply) {
        Some(text) => Ok(make_result(model, text)),
        None => Err(String::from_str("Failed to extract generated text")),
    }
}

/// The caller's result for the outcome of the round trip: a transport error
/// is handed back verbatim and nothing is parsed; a body is parsed, a parse
/// error's description handed back verbatim, and a parsed reply reshaped
/// into the normalized result or the fixed shape error.
pub fn handle_outcome(outcome: Result<String, String>, model: &str) -> (r: Result<Json, String>)
    ensures
        outcome matches Err(e) ==> r matches Err(msg) && msg@ == e@,
        outcome matches Ok(body) ==> match json_parse(body@) {
            Ok(reply) => match generated_text_of(reply) {
                Some(t) => r matches Ok(v) && is_result_obj(v, model@, t),
                None => r matches Err(msg) && msg@ == "Failed to extract generated text"@,
            },
            Err(m) => r matches Err(msg) && msg@ == m,
        },
{
    match outcome {
        Err(e) => Err(e),
        Ok(body) => match parse_json(body.as_str()) {
            Ok(reply) => process_reply(&reply, model),
            Err(msg) => Err(msg),
        },
    }
}

/// Law: a reply that is an array whose first element is an object carrying a
/// string under "generated_text" yields exactly that string; nothing else in
/// the reply matters.
pub proof fn lemma_generated_text_of_array(items: Vec<Json>, pairs: Vec<(String, Json)>, text: String)
    requires
        items@.len() > 0,
        items@[0] == Json::Obj(pairs),
        obj_lookup(pairs@, "generated_text"@) == Some(Json::Str(text)),
    ensures
        generated_text_of(Json::Arr(items)) == Some(text@),
{
}

/// Law: the normalized result reports the caller's model identifier verbatim
/// and carries the extracted text verbatim, whatever both are.
pub proof fn lemma_result_echoes_model(v: Json, model: Seq<char>, text: Seq<char>)
    requires
        is_result_obj(v, model, text),
    ensures
        member_of(v, "model"@) matches Some(m) && text_of(m) == Some(model),
        member_of(v, "generated_text"@) matches Some(g) && text_of(g) == Some(text),
{
    reveal_strlit("model");
    reveal_strlit("generated_text");
    let pairs = v->Obj_0;
    assert("model"@.len() == 5);
    assert("generated_text"@.len() == 14);
    assert("model"@ != "generated_text"@);
    assert(lookup_from(pairs@, "generated_text"@, 0) == lookup_from(pairs@, "generated_text"@, 1));
    assert(lookup_from(pairs@, "generated_text"@, 1) == Some(pairs@[1].1));
}

} // verus!
