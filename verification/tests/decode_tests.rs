use creature_agent::decode::{decode_arguments, decode_reply, extract_call, ValidationFault};
use creature_agent::reaction::{Cry, Emotion, Motion};

fn reply_with_arguments(arguments: &str) -> String {
    let mut call = serde_json::Map::new();
    call.insert(
        "name".to_string(),
        serde_json::Value::String("reaction_generator".to_string()),
    );
    call.insert(
        "arguments".to_string(),
        serde_json::Value::String(arguments.to_string()),
    );
    let mut message = serde_json::Map::new();
    message.insert("function_call".to_string(), serde_json::Value::Object(call));
    let mut choice = serde_json::Map::new();
    choice.insert("message".to_string(), serde_json::Value::Object(message));
    let mut root = serde_json::Map::new();
    root.insert(
        "choices".to_string(),
        serde_json::Value::Array(vec![serde_json::Value::Object(choice)]),
    );
    serde_json::Value::Object(root).to_string()
}

const GOOD_ARGS: &str =
    "{\"emotion\":\"EMOTION_HAPPY\",\"motion\":\"MOTION_JUMP\",\"cry\":\"CRY_HAPPY\",\"friendliness\":0.5}";

#[test]
fn good_reply_decodes_to_the_exact_reaction() {
    let body = reply_with_arguments(GOOD_ARGS);
    let (call, reaction) = decode_reply(&body).unwrap();
    assert_eq!(call.call.name, "reaction_generator");
    assert_eq!(call.call.arguments, GOOD_ARGS);
    assert_eq!(call.name, None);
    assert_eq!(reaction.emotion, Emotion::Happy);
    assert_eq!(reaction.motion, Motion::Jump);
    assert_eq!(reaction.cry, Cry::Happy);
}

#[test]
fn reply_that_is_not_json_is_malformed() {
    assert_eq!(
        decode_reply("not json at all").unwrap_err(),
        ValidationFault::MalformedReply
    );
}

#[test]
fn reply_without_choices_member_is_malformed() {
    assert_eq!(
        decode_reply("{}").unwrap_err(),
        ValidationFault::MalformedReply
    );
}

#[test]
fn reply_with_zero_choices_fails_with_no_choices() {
    assert_eq!(
        decode_reply("{\"choices\":[]}").unwrap_err(),
        ValidationFault::NoChoices
    );
}

#[test]
fn reply_without_function_call_fails_with_no_function_call() {
    let body = "{\"choices\":[{\"message\":{\"content\":\"free text\"}}]}";
    assert_eq!(
        decode_reply(body).unwrap_err(),
        ValidationFault::NoFunctionCall
    );
}

#[test]
fn arguments_that_are_not_json_fail_as_malformed_arguments() {
    let body = reply_with_arguments("{oops");
    assert_eq!(
        decode_reply(&body).unwrap_err(),
        ValidationFault::MalformedArguments
    );
}

#[test]
fn arguments_missing_a_field_fail_as_malformed_arguments() {
    let body =
        reply_with_arguments("{\"emotion\":\"EMOTION_HAPPY\",\"motion\":\"MOTION_JUMP\"}");
    assert_eq!(
        decode_reply(&body).unwrap_err(),
        ValidationFault::MalformedArguments
    );
}

#[test]
fn arguments_with_non_string_field_fail_as_malformed_arguments() {
    let body = reply_with_arguments(
        "{\"emotion\":7,\"motion\":\"MOTION_JUMP\",\"cry\":\"CRY_HAPPY\"}",
    );
    assert_eq!(
        decode_reply(&body).unwrap_err(),
        ValidationFault::MalformedArguments
    );
}

#[test]
fn unknown_emotion_fails_with_unknown_emotion() {
    let r = decode_arguments(
        "{\"emotion\":\"EMOTION_BORED\",\"motion\":\"MOTION_JUMP\",\"cry\":\"CRY_HAPPY\"}",
    );
    assert_eq!(r.unwrap_err(), ValidationFault::UnknownEmotion);
}

#[test]
fn unknown_motion_fails_with_unknown_motion() {
    let r = decode_arguments(
        "{\"emotion\":\"EMOTION_HAPPY\",\"motion\":\"MOTION_SLEEP\",\"cry\":\"CRY_HAPPY\"}",
    );
    assert_eq!(r.unwrap_err(), ValidationFault::UnknownMotion);
}

#[test]
fn unknown_cry_fails_with_unknown_cry() {
    let r = decode_arguments(
        "{\"emotion\":\"EMOTION_HAPPY\",\"motion\":\"MOTION_JUMP\",\"cry\":\"CRY_LOUD\"}",
    );
    assert_eq!(r.unwrap_err(), ValidationFault::UnknownCry);
}

#[test]
fn decode_is_case_sensitive() {
    let r = decode_arguments(
        "{\"emotion\":\"emotion_happy\",\"motion\":\"MOTION_JUMP\",\"cry\":\"CRY_HAPPY\"}",
    );
    assert_eq!(r.unwrap_err(), ValidationFault::UnknownEmotion);
}

#[test]
fn message_name_is_carried_through() {
    let body = "{\"choices\":[{\"message\":{\"name\":\"creature\",\"function_call\":{\"name\":\"reaction_generator\",\"arguments\":\"{}\"}}}]}";
    let call = extract_call(body).unwrap();
    assert_eq!(call.name.as_deref(), Some("creature"));
}

#[test]
fn fault_messages_are_exact() {
    assert_eq!(ValidationFault::NoChoices.message(), "No choices in response");
    assert_eq!(
        ValidationFault::NoFunctionCall.message(),
        "No function calling in response"
    );
    assert_eq!(
        ValidationFault::MalformedArguments.message(),
        "Failed to parse function calling arguments"
    );
    assert_eq!(ValidationFault::UnknownEmotion.message(), "Failed to parse emotion");
    assert_eq!(ValidationFault::UnknownMotion.message(), "Failed to parse motion");
    assert_eq!(ValidationFault::UnknownCry.message(), "Failed to parse cry");
}
