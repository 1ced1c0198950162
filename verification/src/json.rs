use vstd::prelude::*;
use vstd::string::StringExecFns;

use crate::numfmt::{dec_spec, u64_to_dec};

verus! {

/// How `serde_json` renders a piece of text as a JSON string: quoted and
/// escaped; the result depends on the characters alone.
pub uninterp spec fn json_str_of(s: Seq<char>) -> Seq<char>;

/// Relies on `serde_json::to_string` on a `String`: renders `s` as a quoted,
/// escaped JSON string. Serializing a plain string cannot fail, so the
/// unwrap never panics.
#[verifier::external_body]
fn json_quote(s: &String) -> (r: String)
    ensures
        r@ == json_str_of(s@),
{
    serde_json::to_string(s).unwrap()
}

/// The wire shape of every outbound notification: a JSON-RPC notification
/// whose params carry the response context (the slot the event was observed
/// at), the event payload and the subscription identifier.
pub open spec fn notification_json(
    method: Seq<char>,
    slot: u64,
    value: Seq<char>,
    subscription_id: u64,
) -> Seq<char> {
    "{\"jsonrpc\":\"2.0\",\"method\":\""@ + method + "\",\"params\":{\"result\":{\"context\":{\"slot\":"@
        + dec_spec(slot as nat) + "},\"value\":"@ + value + "},\"subscription\":"@ + dec_spec(
        subscription_id as nat,
    ) + "}}"@
}

/// Payload of a signature notification: the received marker on success, an
/// error object otherwise.
pub open spec fn signature_value_json(error: Option<Seq<char>>) -> Seq<char> {
    match error {
        None => "\"receivedSignature\""@,
        Some(e) => "{\"err\":"@ + json_str_of(e) + "}"@,
    }
}

/// The complete serialized notification for an observed signature.
pub open spec fn signature_notification_json(
    slot: u64,
    error: Option<Seq<char>>,
    subscription_id: u64,
) -> Seq<char> {
    notification_json("signatureSubscription"@, slot, signature_value_json(error), subscription_id)
}

/// Payload of a slot notification: the slot just reached.
pub open spec fn slot_value_json(slot: u64) -> Seq<char> {
    "{\"slot\":"@ + dec_spec(slot as nat) + "}"@
}

/// The complete serialized notification for a slot advance.
pub open spec fn slot_notification_json(slot: u64, subscription_id: u64) -> Seq<char> {
    notification_json("slotSubscription"@, slot, slot_value_json(slot), subscription_id)
}

/// Builds the serialized notification for an observed signature, exactly as
/// `signature_notification_json` describes it.
pub fn build_signature_json(slot: u64, error: &Option<String>, subscription_id: u64) -> (r: String)
    ensures
        r@ == signature_notification_json(slot, error.deep_view(), subscription_id),
{
    let mut s = "{\"jsonrpc\":\"2.0\",\"method\":\"".to_owned();
    s.append("signatureSubscription");
    s.append("\",\"params\":{\"result\":{\"context\":{\"slot\":");
    let slot_text = u64_to_dec(slot);
    s.append(slot_text.as_str());
    s.append("},\"value\":");
    match error {
        None => {
            s.append("\"receivedSignature\"");
        },
        Some(message) => {
            s.append("{\"err\":");
            let quoted = json_quote(message);
            s.append(quoted.as_str());
            s.append("}");
        },
    }
    s.append("},\"subscription\":");
    let id_text = u64_to_dec(subscription_id);
    s.append(id_text.as_str());
    s.append("}}");
    proof {
        assert(s@ =~= signature_notification_json(slot, error.deep_view(), subscription_id));
    }
    s
}

/// Builds the serialized notification for a slot advance, exactly as
/// `slot_notification_json` describes it.
pub fn build_slot_json(slot: u64, subscription_id: u64) -> (r: String)
    ensures
        r@ == slot_notification_json(slot, subscription_id),
{
    let mut s = "{\"jsonrpc\":\"2.0\",\"method\":\"".to_owned();
    s.append("slotSubscription");
    s.append("\",\"params\":{\"result\":{\"context\":{\"slot\":");
    let slot_text = u64_to_dec(slot);
    s.append(slot_text.as_str());
    s.append("},\"value\":");
    s.append("{\"slot\":");
    s.append(slot_text.as_str());
    s.append("}");
    s.append("},\"subscription\":");
    let id_text = u64_to_dec(subscription_id);
    s.append(id_text.as_str());
    s.append("}}");
    proof {
        assert(s@ =~= slot_notification_json(slot, subscription_id));
    }
    s
}

} // verus!
