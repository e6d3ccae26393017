use speech_relay::backend::Failure;
use speech_relay::json::{Json, Member};
use speech_relay::nim::{
    read_encoded_speech, read_speech, read_transcript, read_transcript_in, speech_from, AsrRoute,
    Reply,
};

fn object(members: Vec<(&str, Json)>) -> Json {
    Json::Object(
        members
            .into_iter()
            .map(|(name, value)| Member { name: name.to_string(), value })
            .collect(),
    )
}

fn string(text: &str) -> Json {
    Json::Text(text.to_string())
}

fn failure(message: &str) -> Failure {
    Failure { message: message.to_string() }
}

const TTS_URL: &str = "http://localhost:9000/v1/tts/synthesize";

#[test]
fn transcript_comes_from_the_text_member() {
    let body = object(vec![("text", string("hello world"))]);
    assert_eq!(read_transcript_in(AsrRoute::Hosted, &body), "hello world");
    assert_eq!(read_transcript_in(AsrRoute::Local, &body), "hello world");
}

#[test]
fn text_member_wins_over_transcriptions() {
    let body = object(vec![
        ("transcriptions", Json::Array(vec![object(vec![("text", string("second"))])])),
        ("text", string("first")),
    ]);
    assert_eq!(read_transcript_in(AsrRoute::Hosted, &body), "first");
}

#[test]
fn hosted_transcript_may_come_from_transcriptions() {
    let body = object(vec![(
        "transcriptions",
        Json::Array(vec![
            object(vec![("text", string("from the list"))]),
            object(vec![("text", string("ignored"))]),
        ]),
    )]);
    assert_eq!(read_transcript_in(AsrRoute::Hosted, &body), "from the list");
    assert_eq!(read_transcript_in(AsrRoute::Local, &body), "");
}

#[test]
fn hosted_transcript_falls_back_when_text_is_no_string() {
    let body = object(vec![
        ("text", Json::Null),
        ("transcriptions", Json::Array(vec![object(vec![("text", string("listed"))])])),
    ]);
    assert_eq!(read_transcript_in(AsrRoute::Hosted, &body), "listed");
}

#[test]
fn odd_transcriptions_give_the_empty_transcript() {
    let empty_list = object(vec![("transcriptions", Json::Array(vec![]))]);
    assert_eq!(read_transcript_in(AsrRoute::Hosted, &empty_list), "");
    let no_list = object(vec![("transcriptions", string("nope"))]);
    assert_eq!(read_transcript_in(AsrRoute::Hosted, &no_list), "");
    let textless = object(vec![("transcriptions", Json::Array(vec![object(vec![])]))]);
    assert_eq!(read_transcript_in(AsrRoute::Hosted, &textless), "");
    let numbered = object(vec![(
        "transcriptions",
        Json::Array(vec![object(vec![("text", Json::Number)])]),
    )]);
    assert_eq!(read_transcript_in(AsrRoute::Hosted, &numbered), "");
    let strings = object(vec![("transcriptions", Json::Array(vec![string("bare")]))]);
    assert_eq!(read_transcript_in(AsrRoute::Hosted, &strings), "");
}

#[test]
fn answer_without_transcript_is_the_empty_transcript() {
    assert_eq!(read_transcript_in(AsrRoute::Hosted, &object(vec![])), "");
    assert_eq!(read_transcript_in(AsrRoute::Local, &object(vec![])), "");
    assert_eq!(read_transcript_in(AsrRoute::Hosted, &Json::Array(vec![])), "");
    assert_eq!(read_transcript_in(AsrRoute::Local, &string("text")), "");
}

#[test]
fn answered_transcription_succeeds() {
    let reply = Reply::Answered(object(vec![("text", string("ok"))]));
    assert_eq!(read_transcript(AsrRoute::Local, reply), Ok("ok".to_string()));
    let empty = Reply::Answered(Json::Null);
    assert_eq!(read_transcript(AsrRoute::Hosted, empty), Ok(String::new()));
}

#[test]
fn rejected_transcription_names_its_route() {
    let rejected = || Reply::Rejected(Some("quota exceeded".to_string()));
    assert_eq!(
        read_transcript(AsrRoute::Hosted, rejected()),
        Err(failure("NIM ASR API Error (Hosted): quota exceeded"))
    );
    assert_eq!(
        read_transcript(AsrRoute::Local, rejected()),
        Err(failure("NIM ASR API Error (Local): quota exceeded"))
    );
}

#[test]
fn unreadable_rejection_is_an_unknown_error() {
    assert_eq!(
        read_transcript(AsrRoute::Hosted, Reply::Rejected(None)),
        Err(failure("NIM ASR API Error (Hosted): Unknown error"))
    );
    assert_eq!(
        read_speech(TTS_URL, Reply::Rejected(None)),
        Err(failure(
            "NIM TTS API Error: Unknown error. (If running locally, ensure 'nim-tts' container is running at http://localhost:9000/v1/tts/synthesize)"
        ))
    );
}

#[test]
fn failed_exchange_passes_its_words_on() {
    let failed = || Reply::Failed("connection refused".to_string());
    assert_eq!(read_transcript(AsrRoute::Local, failed()), Err(failure("connection refused")));
    assert_eq!(read_speech(TTS_URL, failed()), Err(failure("connection refused")));
    assert_eq!(read_encoded_speech(TTS_URL, failed()), Err(failure("connection refused")));
}

#[test]
fn rejected_synthesis_names_the_endpoint() {
    assert_eq!(
        read_speech("http://tts:1/s", Reply::Rejected(Some("bad voice".to_string()))),
        Err(failure(
            "NIM TTS API Error: bad voice. (If running locally, ensure 'nim-tts' container is running at http://tts:1/s)"
        ))
    );
}

#[test]
fn speech_is_decoded_from_audio_content() {
    let reply = Reply::Answered(object(vec![("audio_content", string("aGVsbG8="))]));
    assert_eq!(read_speech(TTS_URL, reply), Ok(b"hello".to_vec()));
    let silent = Reply::Answered(object(vec![("audio_content", string(""))]));
    assert_eq!(read_speech(TTS_URL, silent), Ok(vec![]));
    let bytes = Reply::Answered(object(vec![("audio_content", string("+//+"))]));
    assert_eq!(read_speech(TTS_URL, bytes), Ok(vec![0xfb, 0xff, 0xfe]));
}

#[test]
fn encoded_speech_is_found_as_it_stands() {
    let reply = Reply::Answered(object(vec![("audio_content", string("aGVsbG8="))]));
    assert_eq!(read_encoded_speech(TTS_URL, reply), Ok("aGVsbG8=".to_string()));
}

#[test]
fn answer_without_audio_content_fails() {
    let missing = failure("Could not find audio_content in response");
    assert_eq!(read_speech(TTS_URL, Reply::Answered(object(vec![]))), Err(missing));
    let missing = failure("Could not find audio_content in response");
    let wrong_type = Reply::Answered(object(vec![("audio_content", Json::Number)]));
    assert_eq!(read_speech(TTS_URL, wrong_type), Err(missing));
    let missing = failure("Could not find audio_content in response");
    assert_eq!(read_speech(TTS_URL, Reply::Answered(Json::Array(vec![]))), Err(missing));
}

#[test]
fn audio_content_that_is_no_base64_fails_with_the_decoder_words() {
    let reply = Reply::Answered(object(vec![("audio_content", string("!!!!"))]));
    assert_eq!(read_speech(TTS_URL, reply), Err(failure("Invalid symbol 33, offset 0.")));
    let unpadded = Reply::Answered(object(vec![("audio_content", string("Zg"))]));
    assert_eq!(read_speech(TTS_URL, unpadded), Err(failure("Invalid padding")));
}

#[test]
fn speech_from_turns_a_complaint_into_a_failure() {
    assert_eq!(speech_from(Ok(vec![65])), Ok(vec![65]));
    assert_eq!(speech_from(Ok(vec![])), Ok(vec![]));
    assert_eq!(speech_from(Err("Invalid padding".to_string())), Err(failure("Invalid padding")));
}
