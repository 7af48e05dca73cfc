//! The calls of the key service: where each goes, what its body carries, and
//! which credentials and headers go with it.

use vstd::prelude::*;
use vstd::string::StringExecFns;
use crate::client::{
    check_reset_target, missing_reset_target, missing_service_slug, NebulAuthClient,
};
use crate::error::NebulAuthError;
use crate::headers::{Header, HeaderText};
use crate::options::{AuthVerifyInput, RedeemKeyInput, ResetHwidInput, VerifyKeyInput};

verus! {

/// A named text as a pair: name, then value.
pub type FieldText = (Seq<char>, Seq<char>);

/// A named text: a member of a request body, or a parameter of a query.
#[derive(Debug, Clone)]
pub struct Field {
    pub name: String,
    pub value: String,
}

impl View for Field {
    type V = FieldText;

    open spec fn view(&self) -> FieldText {
        (self.name@, self.value@)
    }
}

/// The fields of a list as pairs of texts.
pub open spec fn field_texts(fields: Seq<Field>) -> Seq<FieldText> {
    fields.map_values(|f: Field| f@)
}

/// One field where the value is there, none where it is not.
pub open spec fn optional_field(name: Seq<char>, value: Option<String>) -> Seq<FieldText> {
    match value {
        Some(v) => seq![(name, v@)],
        None => Seq::empty(),
    }
}

/// The headers of a list as pairs of texts.
pub open spec fn header_texts(headers: Seq<Header>) -> Seq<HeaderText> {
    headers.map_values(|h: Header| h@)
}

/// One call of the key service, ready to be sent: the endpoint below the
/// base address, the members of the JSON body (all of them strings), the
/// headers besides those of authentication, and the proof-of-possession
/// credentials of the caller.
#[derive(Debug, Clone)]
pub struct KeyServiceCall {
    pub endpoint: String,
    pub payload: Vec<Field>,
    pub extra_headers: Vec<Header>,
    pub use_pop: bool,
    pub access_token: Option<String>,
    pub pop_key: Option<String>,
}

/// The body of a key verification: the key, and the request id if there is
/// one.
pub open spec fn verify_key_payload(input: VerifyKeyInput) -> Seq<FieldText> {
    seq![("key"@, input.key@)] + optional_field("requestId"@, input.request_id)
}

/// The body of a bootstrap verification: the key, then hardware id and
/// request id where they are there.
pub open spec fn auth_verify_payload(input: AuthVerifyInput) -> Seq<FieldText> {
    seq![("key"@, input.key@)] + optional_field("hwid"@, input.hwid) + optional_field(
        "requestId"@,
        input.request_id,
    )
}

/// The body of a redemption for a service: key, Discord id and service slug,
/// and the request id if there is one.
pub open spec fn redeem_key_payload(input: RedeemKeyInput, slug: Seq<char>) -> Seq<FieldText> {
    seq![("key"@, input.key@), ("discordId"@, input.discord_id@), ("serviceSlug"@, slug)]
        + optional_field("requestId"@, input.request_id)
}

/// The body of a hardware id reset: Discord id, key and request id, each
/// where it is there.
pub open spec fn reset_hwid_payload(input: ResetHwidInput) -> Seq<FieldText> {
    optional_field("discordId"@, input.discord_id) + optional_field("key"@, input.key)
        + optional_field("requestId"@, input.request_id)
}

/// Adds a field at the end of a list.
pub fn push_field(fields: &mut Vec<Field>, name: &str, value: String)
    ensures
        field_texts(final(fields)@) == field_texts(old(fields)@).push((name@, value@)),
{
    fields.push(Field { name: String::from_str(name), value });
}

/// Adds a field at the end of a list where its value is there.
pub fn push_optional_field(fields: &mut Vec<Field>, name: &str, value: Option<String>)
    ensures
        field_texts(final(fields)@) == field_texts(old(fields)@) + optional_field(name@, value),
{
    match value {
        Some(v) => {
            push_field(fields, name, v);
        },
        None => {
        },
    }
}

impl NebulAuthClient {
    /// The call that verifies a key. The hardware id travels as a header.
    pub fn verify_key_call(&self, input: VerifyKeyInput) -> (call: KeyServiceCall)
        ensures
            call.endpoint@ == "/keys/verify"@,
            field_texts(call.payload@) == verify_key_payload(input),
            header_texts(call.extra_headers@) == optional_field("X-HWID"@, input.hwid),
            call.use_pop == input.use_pop,
            call.access_token == input.access_token,
            call.pop_key == input.pop_key,
    {
        let mut payload: Vec<Field> = Vec::new();
        push_field(&mut payload, "key", input.key);
        push_optional_field(&mut payload, "requestId", input.request_id);
        let mut extra_headers: Vec<Header> = Vec::new();
        match input.hwid {
            Some(hwid) => {
                extra_headers.push(Header { name: String::from_str("X-HWID"), value: hwid });
            },
            None => {},
        }
        KeyServiceCall {
            endpoint: String::from_str("/keys/verify"),
            payload,
            extra_headers,
            use_pop: input.use_pop,
            access_token: input.access_token,
            pop_key: input.pop_key,
        }
    }

    /// The call that verifies a key at start-up. It never uses proof of
    /// possession and has no headers of its own.
    pub fn auth_verify_call(&self, input: AuthVerifyInput) -> (call: KeyServiceCall)
        ensures
            call.endpoint@ == "/auth/verify"@,
            field_texts(call.payload@) == auth_verify_payload(input),
            call.extra_headers@.len() == 0,
            !call.use_pop,
            call.access_token is None,
            call.pop_key is None,
    {
        let mut payload: Vec<Field> = Vec::new();
        push_field(&mut payload, "key", input.key);
        push_optional_field(&mut payload, "hwid", input.hwid);
        push_optional_field(&mut payload, "requestId", input.request_id);
        KeyServiceCall {
            endpoint: String::from_str("/auth/verify"),
            payload,
            extra_headers: Vec::new(),
            use_pop: false,
            access_token: None,
            pop_key: None,
        }
    }

    /// The call that redeems a key for a service: the service of the call,
    /// else the client's; without either the call is not made.
    pub fn redeem_key_call(
        &self,
        input: RedeemKeyInput,
    ) -> (out: Result<KeyServiceCall, NebulAuthError>)
        ensures
            match input.service_slug {
                Some(slug) => out is Ok && field_texts(out->Ok_0.payload@) == redeem_key_payload(
                    input,
                    slug@,
                ),
                None => match self.spec_options().service_slug {
                    Some(slug) => out is Ok && field_texts(out->Ok_0.payload@)
                        == redeem_key_payload(input, slug@),
                    None => out matches Err(e) && e.is_config(missing_service_slug()),
                },
            },
            out matches Ok(call) ==> call.endpoint@ == "/keys/redeem"@ && call.extra_headers@.len()
                == 0 && call.use_pop == input.use_pop && call.access_token == input.access_token
                && call.pop_key == input.pop_key,
    {
        let slug = match self.resolve_service_slug(input.service_slug) {
            Ok(slug) => slug,
            Err(e) => {
                return Err(e);
            },
        };
        let mut payload: Vec<Field> = Vec::new();
        push_field(&mut payload, "key", input.key);
        push_field(&mut payload, "discordId", input.discord_id);
        push_field(&mut payload, "serviceSlug", slug);
        push_optional_field(&mut payload, "requestId", input.request_id);
        Ok(
            KeyServiceCall {
                endpoint: String::from_str("/keys/redeem"),
                payload,
                extra_headers: Vec::new(),
                use_pop: input.use_pop,
                access_token: input.access_token,
                pop_key: input.pop_key,
            },
        )
    }

    /// The call that resets a hardware id. It needs a Discord id or a key;
    /// without both the call is not made.
    pub fn reset_hwid_call(
        &self,
        input: ResetHwidInput,
    ) -> (out: Result<KeyServiceCall, NebulAuthError>)
        ensures
            input.discord_id is None && input.key is None ==> (out matches Err(e) && e.is_config(
                missing_reset_target(),
            )),
            input.discord_id is Some || input.key is Some ==> (out matches Ok(call)
                && call.endpoint@ == "/keys/reset-hwid"@ && field_texts(call.payload@)
                == reset_hwid_payload(input) && call.extra_headers@.len() == 0 && call.use_pop
                == input.use_pop && call.access_token == input.access_token && call.pop_key
                == input.pop_key),
    {
        match check_reset_target(&input) {
            Ok(_) => {},
            Err(e) => {
                return Err(e);
            },
        }
        let mut payload: Vec<Field> = Vec::new();
        push_optional_field(&mut payload, "discordId", input.discord_id);
        push_optional_field(&mut payload, "key", input.key);
        push_optional_field(&mut payload, "requestId", input.request_id);
        Ok(
            KeyServiceCall {
                endpoint: String::from_str("/keys/reset-hwid"),
                payload,
                extra_headers: Vec::new(),
                use_pop: input.use_pop,
                access_token: input.access_token,
                pop_key: input.pop_key,
            },
        )
    }
}

} // verus!
