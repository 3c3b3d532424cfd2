//! Validation and decoding of the completion provider's reply: the reply
//! must carry at least one choice, the chosen message must carry a
//! function-call payload, and the payload's argument text must be a JSON
//! object whose fields name values of the fixed reaction vocabulary.

use vstd::prelude::*;

use crate::json::{
    json_array, json_field, json_of, json_parse, json_str, spec_field, spec_str_field, Json,
};
use crate::messages::{FunctionCall, FunctionCallView};
use crate::reaction::{Cry, Emotion, Motion, Reaction};

verus! {

/// Ways the provider's reply can fail validation.
#[derive(Clone, Copy, Debug, PartialEq, Eq, Structural)]
pub enum ValidationFault {
    /// The reply body is not JSON, or lacks the expected reply shape.
    MalformedReply,
    /// The reply carries no choices.
    NoChoices,
    /// The chosen message carries no function-call payload.
    NoFunctionCall,
    /// The function-call argument text is not a JSON object carrying the
    /// reaction's three string fields.
    MalformedArguments,
    /// The emotion string is outside the fixed vocabulary.
    UnknownEmotion,
    /// The motion string is outside the fixed vocabulary.
    UnknownMotion,
    /// The cry string is outside the fixed vocabulary.
    UnknownCry,
}

impl ValidationFault {
    /// The operator-facing description of this fault.
    pub open spec fn spec_message(self) -> Seq<char> {
        match self {
            ValidationFault::MalformedReply => "Malformed completion response"@,
            ValidationFault::NoChoices => "No choices in response"@,
            ValidationFault::NoFunctionCall => "No function calling in response"@,
            ValidationFault::MalformedArguments => "Failed to parse function calling arguments"@,
            ValidationFault::UnknownEmotion => "Failed to parse emotion"@,
            ValidationFault::UnknownMotion => "Failed to parse motion"@,
            ValidationFault::UnknownCry => "Failed to parse cry"@,
        }
    }

    /// Returns the operator-facing description of this fault.
    pub fn message(self) -> (r: &'static str)
        ensures
            r@ == self.spec_message(),
    {
        match self {
            ValidationFault::MalformedReply => "Malformed completion response",
            ValidationFault::NoChoices => "No choices in response",
            ValidationFault::NoFunctionCall => "No function calling in response",
            ValidationFault::MalformedArguments => "Failed to parse function calling arguments",
            ValidationFault::UnknownEmotion => "Failed to parse emotion",
            ValidationFault::UnknownMotion => "Failed to parse motion",
            ValidationFault::UnknownCry => "Failed to parse cry",
        }
    }
}

/// The function-call payload of the provider's chosen message, together with
/// the optional participant name the message carried.
#[derive(Debug)]
pub struct ProviderCall {
    pub name: Option<String>,
    pub call: FunctionCall,
}

/// Mathematical image of a `ProviderCall`.
pub ghost struct ProviderCallView {
    pub name: Option<Seq<char>>,
    pub call: FunctionCallView,
}

impl View for ProviderCall {
    type V = ProviderCallView;

    open spec fn view(&self) -> ProviderCallView {
        ProviderCallView {
            name: match self.name {
                Some(n) => Some(n@),
                None => None,
            },
            call: self.call@,
        }
    }
}

/// What extracting the function call from a reply body yields: the reply
/// must parse, carry a non-empty `choices` array whose first choice's
/// `message` object carries a `function_call` object with string `name` and
/// `arguments` members, and an optional string `name` on the message.
pub open spec fn spec_extract_call(body: Seq<char>) -> Result<ProviderCallView, ValidationFault> {
    match json_of(body) {
        Option::None => Err(ValidationFault::MalformedReply),
        Option::Some(j) => match spec_field(j, "choices"@) {
            Option::Some(Json::Arr(cs)) => if cs.len() == 0 {
                Err(ValidationFault::NoChoices)
            } else {
                match spec_field(cs[0], "message"@) {
                    Option::Some(m) => spec_extract_from_message(m),
                    Option::None => Err(ValidationFault::MalformedReply),
                }
            },
            _ => Err(ValidationFault::MalformedReply),
        },
    }
}

/// What extracting the function call from the chosen `message` object yields.
pub open spec fn spec_extract_from_message(m: Json) -> Result<ProviderCallView, ValidationFault> {
    if spec_field(m, "function_call"@) is None {
        Err(ValidationFault::NoFunctionCall)
    } else {
        let fc = spec_field(m, "function_call"@)->Some_0;
        match (spec_str_field(fc, "name"@), spec_str_field(fc, "arguments"@)) {
            (Option::Some(n), Option::Some(a)) => match spec_field(m, "name"@) {
                Option::None => Ok(
                    ProviderCallView {
                        name: None,
                        call: FunctionCallView { name: n, arguments: a },
                    },
                ),
                Option::Some(Json::Str(s)) => Ok(
                    ProviderCallView {
                        name: Some(s),
                        call: FunctionCallView { name: n, arguments: a },
                    },
                ),
                Option::Some(_) => Err(ValidationFault::MalformedReply),
            },
            _ => Err(ValidationFault::MalformedReply),
        }
    }
}

/// What decoding the function-call argument text yields: the text must be a
/// JSON object whose `emotion`, `motion` and `cry` members are strings of
/// the fixed vocabulary.
pub open spec fn spec_decode_arguments(args: Seq<char>) -> Result<Reaction, ValidationFault> {
    match json_of(args) {
        Option::None => Err(ValidationFault::MalformedArguments),
        Option::Some(j) => match (
            spec_str_field(j, "emotion"@),
            spec_str_field(j, "motion"@),
            spec_str_field(j, "cry"@),
        ) {
            (Option::Some(es), Option::Some(ms), Option::Some(cs)) => match (
                Emotion::spec_from_name(es),
                Motion::spec_from_name(ms),
                Cry::spec_from_name(cs),
            ) {
                (Option::None, _, _) => Err(ValidationFault::UnknownEmotion),
                (Option::Some(_), Option::None, _) => Err(ValidationFault::UnknownMotion),
                (Option::Some(_), Option::Some(_), Option::None) => Err(
                    ValidationFault::UnknownCry,
                ),
                (Option::Some(e), Option::Some(m), Option::Some(c)) => Ok(
                    Reaction { emotion: e, motion: m, cry: c },
                ),
            },
            _ => Err(ValidationFault::MalformedArguments),
        },
    }
}

/// What decoding a whole reply body yields: the extracted function call and
/// the reaction its arguments decode to.
pub open spec fn spec_decode_reply(body: Seq<char>) -> Result<
    (ProviderCallView, Reaction),
    ValidationFault,
> {
    match spec_extract_call(body) {
        Err(f) => Err(f),
        Ok(pc) => match spec_decode_arguments(pc.call.arguments) {
            Err(f) => Err(f),
            Ok(r) => Ok((pc, r)),
        },
    }
}

/// Extracts the forced function call from the provider's reply body.
pub fn extract_call(body: &str) -> (r: Result<ProviderCall, ValidationFault>)
    ensures
        (r matches Ok(pc) ==> spec_extract_call(body@) == Ok::<ProviderCallView, ValidationFault>(
            pc@,
        )),
        (r matches Err(f) ==> spec_extract_call(body@) == Err::<ProviderCallView, ValidationFault>(
            f,
        )),
{
    let parsed = match json_parse(body) {
        Some(v) => v,
        None => {
            return Err(ValidationFault::MalformedReply);
        },
    };
    let choices_val = match json_field(&parsed, "choices") {
        Some(v) => v,
        None => {
            return Err(ValidationFault::MalformedReply);
        },
    };
    let choices = match json_array(choices_val) {
        Some(a) => a,
        None => {
            return Err(ValidationFault::MalformedReply);
        },
    };
    if choices.len() == 0 {
        return Err(ValidationFault::NoChoices);
    }
    let message = match json_field(&choices[0], "message") {
        Some(v) => v,
        None => {
            return Err(ValidationFault::MalformedReply);
        },
    };
    let function_call = match json_field(message, "function_call") {
        Some(v) => v,
        None => {
            return Err(ValidationFault::NoFunctionCall);
        },
    };
    let call_name = match json_field(function_call, "name") {
        Some(v) => match json_str(v) {
            Some(s) => s,
            None => {
                return Err(ValidationFault::MalformedReply);
            },
        },
        None => {
            return Err(ValidationFault::MalformedReply);
        },
    };
    let call_arguments = match json_field(function_call, "arguments") {
        Some(v) => match json_str(v) {
            Some(s) => s,
            None => {
                return Err(ValidationFault::MalformedReply);
            },
        },
        None => {
            return Err(ValidationFault::MalformedReply);
        },
    };
    let speaker = match json_field(message, "name") {
        Some(v) => match json_str(v) {
            Some(s) => Some(s),
            None => {
                return Err(ValidationFault::MalformedReply);
            },
        },
        None => None,
    };
    Ok(ProviderCall {
        name: speaker,
        call: FunctionCall { name: call_name, arguments: call_arguments },
    })
}

/// Decodes the function-call argument text into a reaction of the fixed
/// vocabulary. A string outside the vocabulary is a validation fault: no
/// partial reaction is produced.
pub fn decode_arguments(args: &str) -> (r: Result<Reaction, ValidationFault>)
    ensures
        r == spec_decode_arguments(args@),
{
    let parsed = match json_parse(args) {
        Some(v) => v,
        None => {
            return Err(ValidationFault::MalformedArguments);
        },
    };
    let emotion_str = match json_field(&parsed, "emotion") {
        Some(v) => match json_str(v) {
            Some(s) => s,
            None => {
                return Err(ValidationFault::MalformedArguments);
            },
        },
        None => {
            return Err(ValidationFault::MalformedArguments);
        },
    };
    let motion_str = match json_field(&parsed, "motion") {
        Some(v) => match json_str(v) {
            Some(s) => s,
            None => {
                return Err(ValidationFault::MalformedArguments);
            },
        },
        None => {
            return Err(ValidationFault::MalformedArguments);
        },
    };
    let cry_str = match json_field(&parsed, "cry") {
        Some(v) => match json_str(v) {
            Some(s) => s,
            None => {
                return Err(ValidationFault::MalformedArguments);
            },
        },
        None => {
            return Err(ValidationFault::MalformedArguments);
        },
    };
    let emotion = match Emotion::from_str_name(emotion_str.as_str()) {
        Some(e) => e,
        None => {
            return Err(ValidationFault::UnknownEmotion);
        },
    };
    let motion = match Motion::from_str_name(motion_str.as_str()) {
        Some(m) => m,
        None => {
            return Err(ValidationFault::UnknownMotion);
        },
    };
    let cry = match Cry::from_str_name(cry_str.as_str()) {
        Some(c) => c,
        None => {
            return Err(ValidationFault::UnknownCry);
        },
    };
    Ok(Reaction { emotion, motion, cry })
}

/// Decodes a whole reply body: validates the reply shape, extracts the
/// forced function call, and decodes its arguments.
pub fn decode_reply(body: &str) -> (r: Result<(ProviderCall, Reaction), ValidationFault>)
    ensures
        (r matches Ok(p) ==> spec_decode_reply(body@) matches Ok(sp) && sp.0 == p.0@ && sp.1
            == p.1),
        (r matches Err(f) ==> spec_decode_reply(body@) == Err::<
            (ProviderCallView, Reaction),
            ValidationFault,
        >(f)),
{
    let pc = match extract_call(body) {
        Ok(pc) => pc,
        Err(f) => {
            return Err(f);
        },
    };
    let reaction = match decode_arguments(pc.call.arguments.as_str()) {
        Ok(r) => r,
        Err(f) => {
            return Err(f);
        },
    };
    Ok((pc, reaction))
}

} // verus!
