use ai_voice::codec::{
    decode_master_control, decode_voice_preset, encode_master_control, encode_voice_preset,
};
use ai_voice::document::{Json, Member, Number};
use ai_voice::{
    Double, Error, MasterControl, MergedVoice, MergedVoiceContainer, Single, Style, VoicePreset,
};

fn single(value: f32) -> Single {
    Single::from_bits(value.to_bits())
}

fn double(value: f64) -> Double {
    Double::from_bits(value.to_bits())
}

fn float(value: Single) -> f32 {
    f32::from_bits(value.to_bits())
}

fn master(volume: f32, sentence_pause: u32) -> MasterControl {
    MasterControl {
        volume: single(volume),
        speed: single(1.5),
        pitch: single(0.75),
        pitch_range: single(2.0),
        middle_pause: 150,
        long_pause: 370,
        sentence_pause,
    }
}

fn preset(styles: Vec<Style>, merged_voices: Vec<MergedVoice>) -> VoicePreset {
    VoicePreset {
        preset_name: "my preset".to_string(),
        voice_name: "voice one".to_string(),
        volume: single(9.9),
        speed: single(-1.0),
        pitch: single(1.0),
        pitch_range: single(1.25),
        middle_pause: 60000,
        long_pause: 370,
        styles,
        merged_voice_container: MergedVoiceContainer {
            base_pitch_voice_name: "base".to_string(),
            merged_voices,
        },
    }
}

fn style(name: &str, value: f64) -> Style {
    Style { name: name.to_string(), value: double(value) }
}

fn merged(name: &str) -> MergedVoice {
    MergedVoice { voice_name: name.to_string() }
}

fn member(name: &str, value: Json) -> Member {
    Member { name: name.to_string(), value }
}

fn read_number(integer: Option<u64>, value: f64) -> Json {
    Json::Number(Number {
        integer,
        single: Some(single(value as f32)),
        double: Some(double(value)),
    })
}

fn received_master_control() -> Vec<Member> {
    vec![
        member("SentencePause", read_number(Some(800), 800.0)),
        member("LongPause", read_number(Some(370), 370.0)),
        member("MiddlePause", read_number(Some(150), 150.0)),
        member("PitchRange", read_number(None, 1.1)),
        member("Pitch", read_number(Some(1), 1.0)),
        member("Speed", read_number(None, 0.5)),
        member("Volume", read_number(None, 2.25)),
    ]
}

fn names(document: &Json) -> Vec<String> {
    match document {
        Json::Object(members) => members.iter().map(|member| member.name.clone()).collect(),
        other => panic!("not an object: {:?}", other),
    }
}

fn value<'a>(document: &'a Json, name: &str) -> &'a Json {
    document.member(name).unwrap()
}

fn same_preset(left: &VoicePreset, right: &VoicePreset) -> bool {
    left.preset_name == right.preset_name
        && left.voice_name == right.voice_name
        && left.volume == right.volume
        && left.speed == right.speed
        && left.pitch == right.pitch
        && left.pitch_range == right.pitch_range
        && left.middle_pause == right.middle_pause
        && left.long_pause == right.long_pause
        && left.styles.len() == right.styles.len()
        && left
            .styles
            .iter()
            .zip(right.styles.iter())
            .all(|(a, b)| a.name == b.name && a.value == b.value)
        && left.merged_voice_container.base_pitch_voice_name
            == right.merged_voice_container.base_pitch_voice_name
        && left.merged_voice_container.merged_voices.len()
            == right.merged_voice_container.merged_voices.len()
        && left
            .merged_voice_container
            .merged_voices
            .iter()
            .zip(right.merged_voice_container.merged_voices.iter())
            .all(|(a, b)| a.voice_name == b.voice_name)
}

fn assert_parse_error<T: std::fmt::Debug>(result: Result<T, Error>, payload: &str) {
    match result {
        Err(Error::Parse { payload: held }) => assert_eq!(held, payload),
        other => panic!("expected a parse error, got {:?}", other),
    }
}

#[test]
fn master_control_document_has_the_seven_members_in_order() {
    let document = encode_master_control(&master(1.0, 800));
    assert_eq!(
        names(&document),
        vec!["Volume", "Speed", "Pitch", "PitchRange", "MiddlePause", "LongPause", "SentencePause"]
    );
}

#[test]
fn master_control_document_holds_levels_in_single_precision_and_pauses_as_integers() {
    let document = encode_master_control(&master(1.0, 800));
    match value(&document, "Volume") {
        Json::Number(number) => assert_eq!(*number, Number::of_single(single(1.0))),
        other => panic!("{:?}", other),
    }
    match value(&document, "PitchRange") {
        Json::Number(number) => {
            assert_eq!(number.single, Some(single(2.0)));
            assert_eq!(number.integer, None);
            assert_eq!(number.double, None);
        }
        other => panic!("{:?}", other),
    }
    match value(&document, "SentencePause") {
        Json::Number(number) => assert_eq!(*number, Number::of_integer(800)),
        other => panic!("{:?}", other),
    }
}

#[test]
fn encoding_clamps_a_volume_above_the_range() {
    let document = encode_master_control(&master(9.9, 800));
    let decoded = decode_master_control("", Some(&document)).unwrap();
    assert_eq!(float(decoded.volume), 5.0);
}

#[test]
fn encoding_clamps_a_sentence_pause_above_the_range() {
    let document = encode_master_control(&master(1.0, 99999));
    let decoded = decode_master_control("", Some(&document)).unwrap();
    assert_eq!(decoded.sentence_pause, 10000);
}

#[test]
fn master_control_in_range_round_trips() {
    let inputs = [
        master(0.0, 0),
        master(5.0, 10000),
        master(2.5, 800),
        MasterControl {
            volume: single(-0.0),
            speed: single(4.0),
            pitch: single(2.0),
            pitch_range: single(0.0),
            middle_pause: 500,
            long_pause: 2000,
            sentence_pause: 10000,
        },
    ];
    for input in inputs {
        let document = encode_master_control(&input);
        assert_eq!(decode_master_control("", Some(&document)).unwrap(), input);
    }
}

#[test]
fn master_control_is_read_whatever_the_order_of_the_members() {
    let document = Json::Object(received_master_control());
    let decoded = decode_master_control("text", Some(&document)).unwrap();
    assert_eq!(float(decoded.volume), 2.25);
    assert_eq!(float(decoded.speed), 0.5);
    assert_eq!(float(decoded.pitch), 1.0);
    assert_eq!(float(decoded.pitch_range), 1.1);
    assert_eq!(decoded.middle_pause, 150);
    assert_eq!(decoded.long_pause, 370);
    assert_eq!(decoded.sentence_pause, 800);
}

#[test]
fn master_control_is_read_as_it_is_without_clamping() {
    let mut members = received_master_control();
    members[0] = member("SentencePause", read_number(Some(99999), 99999.0));
    members[6] = member("Volume", read_number(None, 9.9));
    let decoded = decode_master_control("text", Some(&Json::Object(members))).unwrap();
    assert_eq!(float(decoded.volume), 9.9);
    assert_eq!(decoded.sentence_pause, 99999);
}

#[test]
fn members_that_the_codec_does_not_know_are_passed_over() {
    let mut members = received_master_control();
    members.insert(0, member("Comment", Json::Text("new".to_string())));
    members.insert(3, member("Flag", Json::Bool(true)));
    members.push(member("Nothing", Json::Null));
    let decoded = decode_master_control("text", Some(&Json::Object(members))).unwrap();
    assert_eq!(float(decoded.volume), 2.25);
    assert_eq!(decoded.sentence_pause, 800);
}

#[test]
fn a_member_that_the_codec_knows_twice_is_a_parse_error() {
    for repeated in 0..7 {
        let mut members = received_master_control();
        let again = member(&members[repeated].name.clone(), read_number(Some(1), 1.0));
        members.push(again);
        assert_parse_error(decode_master_control("text", Some(&Json::Object(members))), "text");
    }
    let mut members = received_master_control();
    members.insert(0, member("Volume", read_number(None, 2.25)));
    assert_parse_error(decode_master_control("text", Some(&Json::Object(members))), "text");
}

#[test]
fn a_member_that_the_codec_does_not_know_may_come_twice() {
    let mut members = received_master_control();
    members.insert(0, member("Comment", Json::Null));
    members.push(member("Comment", Json::Bool(true)));
    let decoded = decode_master_control("text", Some(&Json::Object(members))).unwrap();
    assert_eq!(float(decoded.volume), 2.25);
}

#[test]
fn encoding_puts_a_level_that_is_no_number_on_the_lower_bound() {
    let document = encode_master_control(&master(f32::NAN, 800));
    match value(&document, "Volume") {
        Json::Number(number) => assert_eq!(*number, Number::of_single(single(0.0))),
        other => panic!("{:?}", other),
    }
    let decoded = decode_master_control("", Some(&document)).unwrap();
    assert_eq!(float(decoded.volume), 0.0);
}

#[test]
fn a_voice_preset_with_a_member_twice_is_a_parse_error() {
    for repeated in 0..10 {
        let input = preset(vec![style("J", 0.8)], vec![merged("one")]);
        let mut document = encode_voice_preset(&input);
        if let Json::Object(members) = &mut document {
            let name = members[repeated].name.clone();
            members.push(member(&name, Json::Null));
        }
        assert_parse_error(decode_voice_preset("payload", Some(&document)), "payload");
    }
}

#[test]
fn a_payload_without_a_document_is_a_parse_error() {
    assert_parse_error(decode_master_control("{\"Volume\":", None), "{\"Volume\":");
    assert_parse_error(decode_voice_preset("not json", None), "not json");
}

#[test]
fn a_missing_member_is_a_parse_error() {
    for missing in 0..7 {
        let mut members = received_master_control();
        members.remove(missing);
        assert_parse_error(decode_master_control("payload", Some(&Json::Object(members))), "payload");
    }
}

#[test]
fn a_member_of_the_wrong_kind_is_a_parse_error() {
    let wrong = [
        Json::Null,
        Json::Bool(true),
        Json::Text("1.0".to_string()),
        Json::Array(vec![]),
        Json::Object(vec![]),
    ];
    for value in wrong {
        let mut members = received_master_control();
        members[6].value = value;
        assert_parse_error(decode_master_control("payload", Some(&Json::Object(members))), "payload");
    }
}

#[test]
fn a_pause_that_is_no_integer_of_thirty_two_bits_is_a_parse_error() {
    let wrong = [
        read_number(None, 150.5),
        read_number(None, -1.0),
        read_number(Some(4294967296), 4294967296.0),
        read_number(Some(u64::MAX), 1.8446744073709552e19),
    ];
    for value in wrong {
        let mut members = received_master_control();
        members[2].value = value;
        assert_parse_error(decode_master_control("payload", Some(&Json::Object(members))), "payload");
    }
    let mut members = received_master_control();
    members[2].value = read_number(Some(4294967295), 4294967295.0);
    assert_eq!(
        decode_master_control("payload", Some(&Json::Object(members))).unwrap().middle_pause,
        4294967295
    );
}

#[test]
fn a_document_that_is_no_object_is_a_parse_error() {
    let wrong = [
        Json::Null,
        Json::Bool(false),
        read_number(Some(1), 1.0),
        Json::Text("{}".to_string()),
        Json::Array(received_master_control().into_iter().map(|member| member.value).collect()),
    ];
    for document in wrong {
        assert_parse_error(decode_master_control("payload", Some(&document)), "payload");
        assert_parse_error(decode_voice_preset("payload", Some(&document)), "payload");
    }
}

#[test]
fn voice_preset_document_has_the_ten_members_in_order() {
    let document = encode_voice_preset(&preset(vec![style("J", 0.8)], vec![merged("one")]));
    assert_eq!(
        names(&document),
        vec![
            "PresetName",
            "VoiceName",
            "Volume",
            "Speed",
            "Pitch",
            "PitchRange",
            "MiddlePause",
            "LongPause",
            "Styles",
            "MergedVoiceContainer",
        ]
    );
    match value(&document, "Styles") {
        Json::Array(items) => {
            assert_eq!(items.len(), 1);
            assert_eq!(names(&items[0]), vec!["Name", "Value"]);
        }
        other => panic!("{:?}", other),
    }
    let container = value(&document, "MergedVoiceContainer");
    assert_eq!(names(container), vec!["BasePitchVoiceName", "MergedVoices"]);
    match value(container, "MergedVoices") {
        Json::Array(items) => {
            assert_eq!(items.len(), 1);
            assert_eq!(names(&items[0]), vec!["VoiceName"]);
        }
        other => panic!("{:?}", other),
    }
}

#[test]
fn voice_preset_passes_unclamped() {
    let input = preset(vec![], vec![]);
    let document = encode_voice_preset(&input);
    let decoded = decode_voice_preset("", Some(&document)).unwrap();
    assert_eq!(float(decoded.volume), 9.9);
    assert_eq!(float(decoded.speed), -1.0);
    assert_eq!(decoded.middle_pause, 60000);
}

#[test]
fn voice_preset_with_two_styles_round_trips_in_order() {
    let input = preset(vec![style("J", 0.8), style("A", 0.1)], vec![]);
    let document = encode_voice_preset(&input);
    let decoded = decode_voice_preset("", Some(&document)).unwrap();
    assert_eq!(decoded.styles.len(), 2);
    assert_eq!(decoded.styles[0].name, "J");
    assert_eq!(f64::from_bits(decoded.styles[0].value.to_bits()), 0.8);
    assert_eq!(decoded.styles[1].name, "A");
    assert_eq!(f64::from_bits(decoded.styles[1].value.to_bits()), 0.1);
    assert!(same_preset(&decoded, &input));
}

#[test]
fn voice_preset_with_empty_sequences_round_trips() {
    let input = preset(vec![], vec![]);
    let decoded = decode_voice_preset("", Some(&encode_voice_preset(&input))).unwrap();
    assert!(decoded.styles.is_empty());
    assert!(decoded.merged_voice_container.merged_voices.is_empty());
    assert!(same_preset(&decoded, &input));
}

#[test]
fn voice_preset_with_many_entries_round_trips() {
    let input = preset(
        vec![style("J", 0.8), style("A", 0.1), style("S", 0.0), style("", -1.5)],
        vec![merged("first"), merged("second"), merged("")],
    );
    let decoded = decode_voice_preset("", Some(&encode_voice_preset(&input))).unwrap();
    assert_eq!(decoded.merged_voice_container.merged_voices[1].voice_name, "second");
    assert!(same_preset(&decoded, &input));
}

#[test]
fn a_voice_preset_with_a_broken_style_is_a_parse_error() {
    let input = preset(vec![style("J", 0.8), style("A", 0.1)], vec![merged("one")]);
    let mut document = encode_voice_preset(&input);
    if let Json::Object(members) = &mut document {
        if let Json::Array(items) = &mut members[8].value {
            items[1] = Json::Object(vec![member("Name", Json::Text("A".to_string()))]);
        }
    }
    assert_parse_error(decode_voice_preset("payload", Some(&document)), "payload");
}

#[test]
fn a_voice_preset_with_a_broken_merged_voice_is_a_parse_error() {
    let input = preset(vec![], vec![merged("one"), merged("two")]);
    let mut document = encode_voice_preset(&input);
    if let Json::Object(members) = &mut document {
        if let Json::Object(inner) = &mut members[9].value {
            if let Json::Array(items) = &mut inner[1].value {
                items[0] = Json::Text("one".to_string());
            }
        }
    }
    assert_parse_error(decode_voice_preset("payload", Some(&document)), "payload");
}

#[test]
fn a_voice_preset_without_a_member_is_a_parse_error() {
    for missing in 0..10 {
        let input = preset(vec![style("J", 0.8)], vec![merged("one")]);
        let mut document = encode_voice_preset(&input);
        if let Json::Object(members) = &mut document {
            members.remove(missing);
        }
        assert_parse_error(decode_voice_preset("payload", Some(&document)), "payload");
    }
}

#[test]
fn member_finds_the_only_member_of_a_name() {
    let document = Json::Object(vec![
        member("a", Json::Bool(true)),
        member("b", Json::Null),
        member("a", Json::Bool(false)),
        member("c", Json::Bool(false)),
    ]);
    assert!(document.member("a").is_none());
    assert!(matches!(document.member("b"), Some(Json::Null)));
    assert!(matches!(document.member("c"), Some(Json::Bool(false))));
    assert!(document.member("d").is_none());
    assert!(document.member("").is_none());
    assert!(document.member("B").is_none());
    assert!(Json::Array(vec![]).member("a").is_none());
    assert!(Json::Text("a".to_string()).member("a").is_none());
    let thrice = Json::Object(vec![
        member("a", Json::Null),
        member("a", Json::Null),
        member("a", Json::Null),
    ]);
    assert!(thrice.member("a").is_none());
}
