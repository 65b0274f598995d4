//! The settings codec: which document stands for which settings.
//!
//! The host takes and gives settings as a JSON object whose member names
//! are fixed in upper camel case. Encoding builds that object; decoding
//! reads it back and refuses a document that lacks a member or holds a
//! value of the wrong kind in one, or that holds one of them twice.
//! Members that the codec does not know are passed over.

use vstd::prelude::*;
use crate::document::{Json, Member, Number, lemma_lookup_finds};
use crate::error::Error;
use crate::number::{Double, Single};
use crate::settings::{
    clamp_master_control, MasterControl, MergedVoice, MergedVoiceContainer,
    MergedVoiceContainerView, MergedVoiceView, Style, StyleView, VoicePreset, VoicePresetView,
};

verus! {

/// The single-precision reading of the number in the named member.
pub open spec fn single_field(document: Json, name: Seq<char>) -> Option<Single> {
    match document.field(name) {
        Some(Json::Number(number)) => number.single,
        _ => None,
    }
}

/// The double-precision reading of the number in the named member.
pub open spec fn double_field(document: Json, name: Seq<char>) -> Option<Double> {
    match document.field(name) {
        Some(Json::Number(number)) => number.double,
        _ => None,
    }
}

/// The pause in the named member: a whole number of at most 32 bits.
pub open spec fn pause_field(document: Json, name: Seq<char>) -> Option<u32> {
    match document.field(name) {
        Some(Json::Number(number)) => match number.integer {
            Some(value) => if value <= u32::MAX {
                Some(value as u32)
            } else {
                None
            },
            None => None,
        },
        _ => None,
    }
}

/// The text in the named member.
pub open spec fn text_field(document: Json, name: Seq<char>) -> Option<Seq<char>> {
    match document.field(name) {
        Some(Json::Text(text)) => Some(text@),
        _ => None,
    }
}

/// The items of the array in the named member.
pub open spec fn array_field(document: Json, name: Seq<char>) -> Option<Seq<Json>> {
    match document.field(name) {
        Some(Json::Array(items)) => Some(items@),
        _ => None,
    }
}

/// Whether a member has the given name and holds the given number.
pub open spec fn is_number_member(member: Member, name: Seq<char>, number: Number) -> bool {
    member.name@ == name && member.value == Json::Number(number)
}

/// Whether a member has the given name and holds the given text.
pub open spec fn is_text_member(member: Member, name: Seq<char>, text: Seq<char>) -> bool {
    member.name@ == name && member.value.text() == Some(text)
}

/// Whether a document is the one that stands for the master control
/// settings: an object of seven members, in this order and under these
/// names, the levels in single precision and the pauses as whole numbers.
pub open spec fn is_master_control_document(document: Json, settings: MasterControl) -> bool {
    &&& document matches Json::Object(members)
    &&& members@.len() == 7
    &&& is_number_member(members@[0], "Volume"@, Number::single_reading(settings.volume))
    &&& is_number_member(members@[1], "Speed"@, Number::single_reading(settings.speed))
    &&& is_number_member(members@[2], "Pitch"@, Number::single_reading(settings.pitch))
    &&& is_number_member(
        members@[3],
        "PitchRange"@,
        Number::single_reading(settings.pitch_range),
    )
    &&& is_number_member(
        members@[4],
        "MiddlePause"@,
        Number::integer_reading(settings.middle_pause as u64),
    )
    &&& is_number_member(
        members@[5],
        "LongPause"@,
        Number::integer_reading(settings.long_pause as u64),
    )
    &&& is_number_member(
        members@[6],
        "SentencePause"@,
        Number::integer_reading(settings.sentence_pause as u64),
    )
}

/// The master control settings that a document stands for: each of the
/// seven members must be there once and hold a number, the pauses a whole
/// number of at most 32 bits.
pub open spec fn master_control_of(document: Json) -> Option<MasterControl> {
    if single_field(document, "Volume"@) is Some && single_field(document, "Speed"@) is Some
        && single_field(document, "Pitch"@) is Some && single_field(document, "PitchRange"@)
        is Some && pause_field(document, "MiddlePause"@) is Some && pause_field(
        document,
        "LongPause"@,
    ) is Some && pause_field(document, "SentencePause"@) is Some {
        Some(
            MasterControl {
                volume: single_field(document, "Volume"@)->0,
                speed: single_field(document, "Speed"@)->0,
                pitch: single_field(document, "Pitch"@)->0,
                pitch_range: single_field(document, "PitchRange"@)->0,
                middle_pause: pause_field(document, "MiddlePause"@)->0,
                long_pause: pause_field(document, "LongPause"@)->0,
                sentence_pause: pause_field(document, "SentencePause"@)->0,
            },
        )
    } else {
        None
    }
}

fn number_member(name: &str, number: Number) -> (member: Member)
    ensures
        is_number_member(member, name@, number),
{
    Member { name: name.to_owned(), value: Json::Number(number) }
}

fn text_member(name: &str, text: &String) -> (member: Member)
    ensures
        is_text_member(member, name@, text@),
{
    Member { name: name.to_owned(), value: Json::Text(text.clone()) }
}

fn read_single(document: &Json, name: &str) -> (value: Option<Single>)
    ensures
        value == single_field(*document, name@),
{
    match document.member(name) {
        Some(Json::Number(number)) => number.single,
        _ => None,
    }
}

fn read_double(document: &Json, name: &str) -> (value: Option<Double>)
    ensures
        value == double_field(*document, name@),
{
    match document.member(name) {
        Some(Json::Number(number)) => number.double,
        _ => None,
    }
}

fn read_pause(document: &Json, name: &str) -> (value: Option<u32>)
    ensures
        value == pause_field(*document, name@),
{
    match document.member(name) {
        Some(Json::Number(number)) => match number.integer {
            Some(value) => if value <= 0xffff_ffff {
                Some(value as u32)
            } else {
                None
            },
            None => None,
        },
        _ => None,
    }
}

fn read_text(document: &Json, name: &str) -> (value: Option<String>)
    ensures
        match value {
            Some(text) => text_field(*document, name@) == Some(text@),
            None => text_field(*document, name@) is None,
        },
{
    match document.member(name) {
        Some(Json::Text(text)) => Some(text.clone()),
        _ => None,
    }
}

fn read_array<'a>(document: &'a Json, name: &str) -> (value: Option<&'a Vec<Json>>)
    ensures
        match value {
            Some(items) => array_field(*document, name@) == Some(items@),
            None => array_field(*document, name@) is None,
        },
{
    match document.member(name) {
        Some(Json::Array(items)) => Some(items),
        _ => None,
    }
}

/// The document of the master control settings, clamped: every field
/// is saturated into its range before it enters the document, so the
/// document holds no level outside its range and none that is a NaN.
pub fn encode_master_control(settings: &MasterControl) -> (document: Json)
    ensures
        is_master_control_document(document, settings.clamped()),
        master_control_of(document) == Some(settings.clamped()),
        master_control_of(document)->0.in_range(),
        settings.in_range() ==> master_control_of(document) == Some(*settings),
{
    let clamped = clamp_master_control(settings);
    let mut members: Vec<Member> = Vec::new();
    members.push(number_member("Volume", Number::of_single(clamped.volume)));
    members.push(number_member("Speed", Number::of_single(clamped.speed)));
    members.push(number_member("Pitch", Number::of_single(clamped.pitch)));
    members.push(number_member("PitchRange", Number::of_single(clamped.pitch_range)));
    members.push(number_member("MiddlePause", Number::of_integer(clamped.middle_pause as u64)));
    members.push(number_member("LongPause", Number::of_integer(clamped.long_pause as u64)));
    members.push(
        number_member("SentencePause", Number::of_integer(clamped.sentence_pause as u64)),
    );
    let document = Json::Object(members);
    proof {
        lemma_master_control_round_trip(document, clamped);
    }
    document
}

/// Reads master control settings from a payload that the host gave.
/// `document` is the payload as a tree, or nothing where the payload is
/// not well-formed. The settings are those that the document stands
/// for; where it stands for none, or there is no document, the result
/// is the parse error that holds the payload.
pub fn decode_master_control(payload: &str, document: Option<&Json>) -> (result: Result<
    MasterControl,
    Error,
>)
    ensures
        match document {
            Some(tree) if master_control_of(*tree) is Some => result == Ok::<MasterControl, Error>(
                master_control_of(*tree)->0,
            ),
            _ => result matches Err(Error::Parse { payload: held }) && held@ == payload@,
        },
{
    let tree = match document {
        Some(tree) => tree,
        None => {
            return Err(Error::parse(payload));
        },
    };
    let volume = read_single(tree, "Volume");
    let speed = read_single(tree, "Speed");
    let pitch = read_single(tree, "Pitch");
    let pitch_range = read_single(tree, "PitchRange");
    let middle_pause = read_pause(tree, "MiddlePause");
    let long_pause = read_pause(tree, "LongPause");
    let sentence_pause = read_pause(tree, "SentencePause");
    match (volume, speed, pitch, pitch_range, middle_pause, long_pause, sentence_pause) {
        (
            Some(volume),
            Some(speed),
            Some(pitch),
            Some(pitch_range),
            Some(middle_pause),
            Some(long_pause),
            Some(sentence_pause),
        ) => Ok(
            MasterControl {
                volume,
                speed,
                pitch,
                pitch_range,
                middle_pause,
                long_pause,
                sentence_pause,
            },
        ),
        _ => Err(Error::parse(payload)),
    }
}

/// The names of the members of a master control document differ from
/// one another.
proof fn lemma_master_control_names()
    ensures
        "Volume"@ != "Speed"@,
        "Volume"@ != "Pitch"@,
        "Volume"@ != "PitchRange"@,
        "Volume"@ != "MiddlePause"@,
        "Volume"@ != "LongPause"@,
        "Volume"@ != "SentencePause"@,
        "Speed"@ != "Pitch"@,
        "Speed"@ != "PitchRange"@,
        "Speed"@ != "MiddlePause"@,
        "Speed"@ != "LongPause"@,
        "Speed"@ != "SentencePause"@,
        "Pitch"@ != "PitchRange"@,
        "Pitch"@ != "MiddlePause"@,
        "Pitch"@ != "LongPause"@,
        "Pitch"@ != "SentencePause"@,
        "PitchRange"@ != "MiddlePause"@,
        "PitchRange"@ != "LongPause"@,
        "PitchRange"@ != "SentencePause"@,
        "MiddlePause"@ != "LongPause"@,
        "MiddlePause"@ != "SentencePause"@,
        "LongPause"@ != "SentencePause"@,
{
    reveal_strlit("Volume");
    reveal_strlit("Speed");
    reveal_strlit("Pitch");
    reveal_strlit("PitchRange");
    reveal_strlit("MiddlePause");
    reveal_strlit("LongPause");
    reveal_strlit("SentencePause");
    assert("Volume"@.len() == 6);
    assert("Speed"@.len() == 5);
    assert("Pitch"@.len() == 5);
    assert("PitchRange"@.len() == 10);
    assert("MiddlePause"@.len() == 11);
    assert("LongPause"@.len() == 9);
    assert("SentencePause"@.len() == 13);
    assert("Speed"@[0] != "Pitch"@[0]);
}

/// Decoding undoes encoding: the document that stands for master
/// control settings is read back as exactly those settings.
pub proof fn lemma_master_control_round_trip(document: Json, settings: MasterControl)
    requires
        is_master_control_document(document, settings),
    ensures
        master_control_of(document) == Some(settings),
{
    lemma_master_control_names();
    let members = document->Object_0@;
    lemma_lookup_finds(members, 0);
    lemma_lookup_finds(members, 1);
    lemma_lookup_finds(members, 2);
    lemma_lookup_finds(members, 3);
    lemma_lookup_finds(members, 4);
    lemma_lookup_finds(members, 5);
    lemma_lookup_finds(members, 6);
}

/// Whether a document is the one that stands for a style: an object
/// with the style's name and its weight in double precision.
pub open spec fn is_style_document(document: Json, style: StyleView) -> bool {
    &&& document matches Json::Object(members)
    &&& members@.len() == 2
    &&& is_text_member(members@[0], "Name"@, style.name)
    &&& is_number_member(members@[1], "Value"@, Number::double_reading(style.value))
}

/// Whether a document is the array of the documents of the styles, in
/// their order.
pub open spec fn is_style_array(document: Json, styles: Seq<StyleView>) -> bool {
    &&& document matches Json::Array(items)
    &&& items@.len() == styles.len()
    &&& forall|i: int|
        0 <= i < styles.len() ==> is_style_document(#[trigger] items@[i], styles[i])
}

/// Whether a document is the one that stands for a merged voice: an
/// object with the name of the voice.
pub open spec fn is_merged_voice_document(document: Json, voice: MergedVoiceView) -> bool {
    &&& document matches Json::Object(members)
    &&& members@.len() == 1
    &&& is_text_member(members@[0], "VoiceName"@, voice.voice_name)
}

/// Whether a document is the array of the documents of the merged
/// voices, in their order.
pub open spec fn is_merged_voice_array(document: Json, voices: Seq<MergedVoiceView>) -> bool {
    &&& document matches Json::Array(items)
    &&& items@.len() == voices.len()
    &&& forall|i: int|
        0 <= i < voices.len() ==> is_merged_voice_document(#[trigger] items@[i], voices[i])
}

/// Whether a document is the one that stands for a merged voice
/// container: an object with the base pitch voice and the array of the
/// merged voices.
pub open spec fn is_container_document(
    document: Json,
    container: MergedVoiceContainerView,
) -> bool {
    &&& document matches Json::Object(members)
    &&& members@.len() == 2
    &&& is_text_member(members@[0], "BasePitchVoiceName"@, container.base_pitch_voice_name)
    &&& members@[1].name@ == "MergedVoices"@
    &&& is_merged_voice_array(members@[1].value, container.merged_voices)
}

/// Whether a document is the one that stands for a voice preset: an
/// object of ten members, in this order and under these names, with the
/// styles and the merged voice container as documents of their own
/// inside it.
pub open spec fn is_voice_preset_document(document: Json, preset: VoicePresetView) -> bool {
    &&& document matches Json::Object(members)
    &&& members@.len() == 10
    &&& is_text_member(members@[0], "PresetName"@, preset.preset_name)
    &&& is_text_member(members@[1], "VoiceName"@, preset.voice_name)
    &&& is_number_member(members@[2], "Volume"@, Number::single_reading(preset.volume))
    &&& is_number_member(members@[3], "Speed"@, Number::single_reading(preset.speed))
    &&& is_number_member(members@[4], "Pitch"@, Number::single_reading(preset.pitch))
    &&& is_number_member(members@[5], "PitchRange"@, Number::single_reading(preset.pitch_range))
    &&& is_number_member(
        members@[6],
        "MiddlePause"@,
        Number::integer_reading(preset.middle_pause as u64),
    )
    &&& is_number_member(
        members@[7],
        "LongPause"@,
        Number::integer_reading(preset.long_pause as u64),
    )
    &&& members@[8].name@ == "Styles"@
    &&& is_style_array(members@[8].value, preset.styles)
    &&& members@[9].name@ == "MergedVoiceContainer"@
    &&& is_container_document(members@[9].value, preset.merged_voice_container)
}

/// The style that a document stands for: it must have a text under
/// `Name` and a number under `Value`.
pub open spec fn style_of(document: Json) -> Option<StyleView> {
    if text_field(document, "Name"@) is Some && double_field(document, "Value"@) is Some {
        Some(
            StyleView {
                name: text_field(document, "Name"@)->0,
                value: double_field(document, "Value"@)->0,
            },
        )
    } else {
        None
    }
}

/// The styles that the items of an array stand for, where each item
/// stands for one.
pub open spec fn styles_of(items: Seq<Json>) -> Option<Seq<StyleView>> {
    if forall|i: int| 0 <= i < items.len() ==> (#[trigger] style_of(items[i])) is Some {
        Some(Seq::new(items.len(), |i: int| style_of(items[i])->0))
    } else {
        None
    }
}

/// The merged voice that a document stands for: it must have a text
/// under `VoiceName`.
pub open spec fn merged_voice_of(document: Json) -> Option<MergedVoiceView> {
    match text_field(document, "VoiceName"@) {
        Some(voice_name) => Some(MergedVoiceView { voice_name }),
        None => None,
    }
}

/// The merged voices that the items of an array stand for, where each
/// item stands for one.
pub open spec fn merged_voices_of(items: Seq<Json>) -> Option<Seq<MergedVoiceView>> {
    if forall|i: int| 0 <= i < items.len() ==> (#[trigger] merged_voice_of(items[i])) is Some {
        Some(Seq::new(items.len(), |i: int| merged_voice_of(items[i])->0))
    } else {
        None
    }
}

/// The merged voice container that a document stands for: it must have
/// a text under `BasePitchVoiceName` and, under `MergedVoices`, an array
/// of merged voices.
pub open spec fn container_of(document: Json) -> Option<MergedVoiceContainerView> {
    if text_field(document, "BasePitchVoiceName"@) is Some && array_field(
        document,
        "MergedVoices"@,
    ) is Some && merged_voices_of(array_field(document, "MergedVoices"@)->0) is Some {
        Some(
            MergedVoiceContainerView {
                base_pitch_voice_name: text_field(document, "BasePitchVoiceName"@)->0,
                merged_voices: merged_voices_of(array_field(document, "MergedVoices"@)->0)->0,
            },
        )
    } else {
        None
    }
}

/// The merged voice container in the member `MergedVoiceContainer`.
pub open spec fn container_field(document: Json) -> Option<MergedVoiceContainerView> {
    match document.field("MergedVoiceContainer"@) {
        Some(inner) => container_of(inner),
        None => None,
    }
}

/// The styles in the member `Styles`.
pub open spec fn styles_field(document: Json) -> Option<Seq<StyleView>> {
    match array_field(document, "Styles"@) {
        Some(items) => styles_of(items),
        None => None,
    }
}

/// The voice preset that a document stands for: each of the ten members
/// must be there once and hold what its field takes.
pub open spec fn voice_preset_of(document: Json) -> Option<VoicePresetView> {
    if text_field(document, "PresetName"@) is Some && text_field(document, "VoiceName"@) is Some
        && single_field(document, "Volume"@) is Some && single_field(document, "Speed"@) is Some
        && single_field(document, "Pitch"@) is Some && single_field(document, "PitchRange"@)
        is Some && pause_field(document, "MiddlePause"@) is Some && pause_field(
        document,
        "LongPause"@,
    ) is Some && styles_field(document) is Some && container_field(document) is Some {
        Some(
            VoicePresetView {
                preset_name: text_field(document, "PresetName"@)->0,
                voice_name: text_field(document, "VoiceName"@)->0,
                volume: single_field(document, "Volume"@)->0,
                speed: single_field(document, "Speed"@)->0,
                pitch: single_field(document, "Pitch"@)->0,
                pitch_range: single_field(document, "PitchRange"@)->0,
                middle_pause: pause_field(document, "MiddlePause"@)->0,
                long_pause: pause_field(document, "LongPause"@)->0,
                styles: styles_field(document)->0,
                merged_voice_container: container_field(document)->0,
            },
        )
    } else {
        None
    }
}

/// Settings that lie in range come back unchanged: the document that
/// stands for them after clamping is read back as the settings
/// themselves.
pub proof fn lemma_master_control_in_range_round_trip(document: Json, settings: MasterControl)
    requires
        settings.in_range(),
        is_master_control_document(document, settings.clamped()),
    ensures
        master_control_of(document) == Some(settings),
{
    lemma_master_control_round_trip(document, settings.clamped());
}

/// A style document is read back as its style.
pub proof fn lemma_style_round_trip(document: Json, style: StyleView)
    requires
        is_style_document(document, style),
    ensures
        style_of(document) == Some(style),
{
    reveal_strlit("Name");
    reveal_strlit("Value");
    assert("Name"@.len() == 4);
    assert("Value"@.len() == 5);
    let members = document->Object_0@;
    lemma_lookup_finds(members, 0);
    lemma_lookup_finds(members, 1);
}

/// An array of style documents is read back as the styles, in order.
pub proof fn lemma_styles_round_trip(document: Json, styles: Seq<StyleView>)
    requires
        is_style_array(document, styles),
    ensures
        document.items() is Some,
        styles_of(document.items()->0) == Some(styles),
{
    let items = document.items()->0;
    assert forall|i: int| 0 <= i < items.len() implies (#[trigger] style_of(items[i])) == Some(
        styles[i],
    ) by {
        lemma_style_round_trip(items[i], styles[i]);
    }
    assert(styles_of(items)->0 =~= styles);
}

/// A merged voice document is read back as its merged voice.
pub proof fn lemma_merged_voice_round_trip(document: Json, voice: MergedVoiceView)
    requires
        is_merged_voice_document(document, voice),
    ensures
        merged_voice_of(document) == Some(voice),
{
    let members = document->Object_0@;
    lemma_lookup_finds(members, 0);
}

/// A merged voice container document is read back as its container.
pub proof fn lemma_container_round_trip(document: Json, container: MergedVoiceContainerView)
    requires
        is_container_document(document, container),
    ensures
        container_of(document) == Some(container),
{
    reveal_strlit("BasePitchVoiceName");
    reveal_strlit("MergedVoices");
    assert("BasePitchVoiceName"@.len() == 18);
    assert("MergedVoices"@.len() == 12);
    let members = document->Object_0@;
    lemma_lookup_finds(members, 0);
    lemma_lookup_finds(members, 1);
    let items = members[1].value.items()->0;
    assert forall|i: int| 0 <= i < items.len() implies (#[trigger] merged_voice_of(items[i]))
        == Some(container.merged_voices[i]) by {
        lemma_merged_voice_round_trip(items[i], container.merged_voices[i]);
    }
    assert(merged_voices_of(items)->0 =~= container.merged_voices);
}

/// Decoding undoes encoding: the document that stands for a voice preset
/// is read back as exactly that preset, with every style and every
/// merged voice in its place.
pub proof fn lemma_voice_preset_round_trip(document: Json, preset: VoicePresetView)
    requires
        is_voice_preset_document(document, preset),
    ensures
        voice_preset_of(document) == Some(preset),
{
    reveal_strlit("PresetName");
    reveal_strlit("VoiceName");
    reveal_strlit("Volume");
    reveal_strlit("Speed");
    reveal_strlit("Pitch");
    reveal_strlit("PitchRange");
    reveal_strlit("MiddlePause");
    reveal_strlit("LongPause");
    reveal_strlit("Styles");
    reveal_strlit("MergedVoiceContainer");
    assert("PresetName"@.len() == 10);
    assert("VoiceName"@.len() == 9);
    assert("Volume"@.len() == 6);
    assert("Speed"@.len() == 5);
    assert("Pitch"@.len() == 5);
    assert("PitchRange"@.len() == 10);
    assert("MiddlePause"@.len() == 11);
    assert("LongPause"@.len() == 9);
    assert("Styles"@.len() == 6);
    assert("MergedVoiceContainer"@.len() == 20);
    assert("PresetName"@[1] != "PitchRange"@[1]);
    assert("VoiceName"@[0] != "LongPause"@[0]);
    assert("Volume"@[0] != "Styles"@[0]);
    assert("Speed"@[0] != "Pitch"@[0]);
    let members = document->Object_0@;
    lemma_lookup_finds(members, 0);
    lemma_lookup_finds(members, 1);
    lemma_lookup_finds(members, 2);
    lemma_lookup_finds(members, 3);
    lemma_lookup_finds(members, 4);
    lemma_lookup_finds(members, 5);
    lemma_lookup_finds(members, 6);
    lemma_lookup_finds(members, 7);
    lemma_lookup_finds(members, 8);
    lemma_lookup_finds(members, 9);
    lemma_styles_round_trip(members[8].value, preset.styles);
    lemma_container_round_trip(members[9].value, preset.merged_voice_container);
}

fn encode_style(style: &Style) -> (document: Json)
    ensures
        is_style_document(document, style@),
{
    let mut members: Vec<Member> = Vec::new();
    members.push(text_member("Name", &style.name));
    members.push(number_member("Value", Number::of_double(style.value)));
    Json::Object(members)
}

fn encode_styles(styles: &Vec<Style>) -> (document: Json)
    ensures
        is_style_array(document, styles@.map_values(|style: Style| style@)),
{
    let mut items: Vec<Json> = Vec::new();
    let mut next: usize = 0;
    while next < styles.len()
        invariant
            next <= styles.len(),
            items@.len() == next,
            forall|i: int| 0 <= i < next ==> is_style_document(#[trigger] items@[i], styles@[i]@),
        decreases styles.len() - next,
    {
        items.push(encode_style(&styles[next]));
        next = next + 1;
    }
    Json::Array(items)
}

fn encode_merged_voice(voice: &MergedVoice) -> (document: Json)
    ensures
        is_merged_voice_document(document, voice@),
{
    let mut members: Vec<Member> = Vec::new();
    members.push(text_member("VoiceName", &voice.voice_name));
    Json::Object(members)
}

fn encode_merged_voices(voices: &Vec<MergedVoice>) -> (document: Json)
    ensures
        is_merged_voice_array(document, voices@.map_values(|voice: MergedVoice| voice@)),
{
    let mut items: Vec<Json> = Vec::new();
    let mut next: usize = 0;
    while next < voices.len()
        invariant
            next <= voices.len(),
            items@.len() == next,
            forall|i: int|
                0 <= i < next ==> is_merged_voice_document(#[trigger] items@[i], voices@[i]@),
        decreases voices.len() - next,
    {
        items.push(encode_merged_voice(&voices[next]));
        next = next + 1;
    }
    Json::Array(items)
}

fn encode_container(container: &MergedVoiceContainer) -> (document: Json)
    ensures
        is_container_document(document, container@),
{
    let mut members: Vec<Member> = Vec::new();
    members.push(text_member("BasePitchVoiceName", &container.base_pitch_voice_name));
    members.push(
        Member {
            name: "MergedVoices".to_owned(),
            value: encode_merged_voices(&container.merged_voices),
        },
    );
    Json::Object(members)
}

/// The document of a voice preset. The values pass as they are: a
/// preset is the caller's own, and the host judges it.
pub fn encode_voice_preset(preset: &VoicePreset) -> (document: Json)
    ensures
        is_voice_preset_document(document, preset@),
        voice_preset_of(document) == Some(preset@),
{
    let mut members: Vec<Member> = Vec::new();
    members.push(text_member("PresetName", &preset.preset_name));
    members.push(text_member("VoiceName", &preset.voice_name));
    members.push(number_member("Volume", Number::of_single(preset.volume)));
    members.push(number_member("Speed", Number::of_single(preset.speed)));
    members.push(number_member("Pitch", Number::of_single(preset.pitch)));
    members.push(number_member("PitchRange", Number::of_single(preset.pitch_range)));
    members.push(number_member("MiddlePause", Number::of_integer(preset.middle_pause as u64)));
    members.push(number_member("LongPause", Number::of_integer(preset.long_pause as u64)));
    members.push(Member { name: "Styles".to_owned(), value: encode_styles(&preset.styles) });
    members.push(
        Member {
            name: "MergedVoiceContainer".to_owned(),
            value: encode_container(&preset.merged_voice_container),
        },
    );
    let document = Json::Object(members);
    proof {
        lemma_voice_preset_round_trip(document, preset@);
    }
    document
}

fn decode_style(document: &Json) -> (result: Option<Style>)
    ensures
        match result {
            Some(style) => style_of(*document) == Some(style@),
            None => style_of(*document) is None,
        },
{
    let name = read_text(document, "Name");
    let value = read_double(document, "Value");
    match (name, value) {
        (Some(name), Some(value)) => Some(Style { name, value }),
        _ => None,
    }
}

fn decode_styles(items: &Vec<Json>) -> (result: Option<Vec<Style>>)
    ensures
        match result {
            Some(styles) => styles_of(items@) == Some(styles@.map_values(|style: Style| style@)),
            None => styles_of(items@) is None,
        },
{
    let mut styles: Vec<Style> = Vec::new();
    let mut next: usize = 0;
    while next < items.len()
        invariant
            next <= items.len(),
            styles@.len() == next,
            forall|i: int| 0 <= i < next ==> (#[trigger] style_of(items@[i])) == Some(styles@[i]@),
        decreases items.len() - next,
    {
        match decode_style(&items[next]) {
            Some(style) => {
                styles.push(style);
            },
            None => {
                assert(style_of(items@[next as int]) is None);
                return None;
            },
        }
        next = next + 1;
    }
    assert(styles_of(items@)->0 =~= styles@.map_values(|style: Style| style@));
    Some(styles)
}

fn decode_merged_voice(document: &Json) -> (result: Option<MergedVoice>)
    ensures
        match result {
            Some(voice) => merged_voice_of(*document) == Some(voice@),
            None => merged_voice_of(*document) is None,
        },
{
    match read_text(document, "VoiceName") {
        Some(voice_name) => Some(MergedVoice { voice_name }),
        None => None,
    }
}

fn decode_merged_voices(items: &Vec<Json>) -> (result: Option<Vec<MergedVoice>>)
    ensures
        match result {
            Some(voices) => merged_voices_of(items@) == Some(
                voices@.map_values(|voice: MergedVoice| voice@),
            ),
            None => merged_voices_of(items@) is None,
        },
{
    let mut voices: Vec<MergedVoice> = Vec::new();
    let mut next: usize = 0;
    while next < items.len()
        invariant
            next <= items.len(),
            voices@.len() == next,
            forall|i: int|
                0 <= i < next ==> (#[trigger] merged_voice_of(items@[i])) == Some(voices@[i]@),
        decreases items.len() - next,
    {
        match decode_merged_voice(&items[next]) {
            Some(voice) => {
                voices.push(voice);
            },
            None => {
                assert(merged_voice_of(items@[next as int]) is None);
                return None;
            },
        }
        next = next + 1;
    }
    assert(merged_voices_of(items@)->0 =~= voices@.map_values(|voice: MergedVoice| voice@));
    Some(voices)
}

fn decode_container(document: &Json) -> (result: Option<MergedVoiceContainer>)
    ensures
        match result {
            Some(container) => container_of(*document) == Some(container@),
            None => container_of(*document) is None,
        },
{
    let base_pitch_voice_name = match read_text(document, "BasePitchVoiceName") {
        Some(text) => text,
        None => {
            return None;
        },
    };
    let items = match read_array(document, "MergedVoices") {
        Some(items) => items,
        None => {
            return None;
        },
    };
    match decode_merged_voices(items) {
        Some(merged_voices) => Some(MergedVoiceContainer { base_pitch_voice_name, merged_voices }),
        None => None,
    }
}

fn decode_preset(document: &Json) -> (result: Option<VoicePreset>)
    ensures
        match result {
            Some(preset) => voice_preset_of(*document) == Some(preset@),
            None => voice_preset_of(*document) is None,
        },
{
    let preset_name = read_text(document, "PresetName");
    let voice_name = read_text(document, "VoiceName");
    let volume = read_single(document, "Volume");
    let speed = read_single(document, "Speed");
    let pitch = read_single(document, "Pitch");
    let pitch_range = read_single(document, "PitchRange");
    let middle_pause = read_pause(document, "MiddlePause");
    let long_pause = read_pause(document, "LongPause");
    let styles = match read_array(document, "Styles") {
        Some(items) => decode_styles(items),
        None => None,
    };
    let merged_voice_container = match document.member("MergedVoiceContainer") {
        Some(inner) => decode_container(inner),
        None => None,
    };
    match (
        preset_name,
        voice_name,
        volume,
        speed,
        pitch,
        pitch_range,
        middle_pause,
        long_pause,
        styles,
        merged_voice_container,
    ) {
        (
            Some(preset_name),
            Some(voice_name),
            Some(volume),
            Some(speed),
            Some(pitch),
            Some(pitch_range),
            Some(middle_pause),
            Some(long_pause),
            Some(styles),
            Some(merged_voice_container),
        ) => Some(
            VoicePreset {
                preset_name,
                voice_name,
                volume,
                speed,
                pitch,
                pitch_range,
                middle_pause,
                long_pause,
                styles,
                merged_voice_container,
            },
        ),
        _ => None,
    }
}

/// Reads a voice preset from a payload that the host gave. `document`
/// is the payload as a tree, or nothing where the payload is not
/// well-formed. The preset is the one that the document stands for;
/// where it stands for none, or there is no document, the result is the
/// parse error that holds the payload.
pub fn decode_voice_preset(payload: &str, document: Option<&Json>) -> (result: Result<
    VoicePreset,
    Error,
>)
    ensures
        match document {
            Some(tree) if voice_preset_of(*tree) is Some => result matches Ok(preset) && preset@
                == voice_preset_of(*tree)->0,
            _ => result matches Err(Error::Parse { payload: held }) && held@ == payload@,
        },
{
    let decoded = match document {
        Some(tree) => decode_preset(tree),
        None => None,
    };
    match decoded {
        Some(preset) => Ok(preset),
        None => Err(Error::parse(payload)),
    }
}

} // verus!
