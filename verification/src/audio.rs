//! What the audio server says of its objects, and the volume text.

use vstd::prelude::*;
use vstd::string::StrSliceExecFns;
use vstd::string::StringExecFns;
use crate::display::decimal;
use crate::display::decimal_text;
use crate::value::characters;
use crate::value::same_text;

verus! {

/// Whether `word` stands somewhere in `text`.
pub open spec fn contains_word(text: Seq<char>, word: Seq<char>) -> bool {
    exists|at: int| word_at(text, word, at)
}

/// Whether `word` stands in `text` at `at`.
pub open spec fn word_at(text: Seq<char>, word: Seq<char>, at: int) -> bool {
    0 <= at && at + word.len() <= text.len() && text.subrange(at, at + word.len()) == word
}

/// Whether a media class is that of an audio node: it names `Audio` and one
/// of `Sink` and `Source`.
pub open spec fn audio_node_class(class: Seq<char>) -> bool {
    contains_word(class, "Audio"@) && (contains_word(class, "Sink"@) || contains_word(
        class,
        "Source"@,
    ))
}

/// Whether a device interface is one of an audio device.
pub open spec fn audio_device_api(api: Seq<char>) -> bool {
    api == "alsa"@ || api == "bluez5"@
}

/// Whether a character is white space.
pub open spec fn is_white_space(c: char) -> bool {
    let code = c as u32;
    ||| 0x09 <= code <= 0x0d
    ||| code == 0x20
    ||| code == 0x85
    ||| code == 0xa0
    ||| code == 0x1680
    ||| 0x2000 <= code <= 0x200a
    ||| code == 0x2028
    ||| code == 0x2029
    ||| code == 0x202f
    ||| code == 0x205f
    ||| code == 0x3000
}

/// A text without the white space it begins with.
pub open spec fn without_leading_space(text: Seq<char>) -> Seq<char>
    decreases text.len(),
{
    if text.len() > 0 && is_white_space(text[0]) {
        without_leading_space(text.drop_first())
    } else {
        text
    }
}

/// The characters a text begins with, up to its first white space.
pub open spec fn leading_word(text: Seq<char>) -> Seq<char>
    decreases text.len(),
{
    if text.len() == 0 || is_white_space(text[0]) {
        Seq::empty()
    } else {
        seq![text[0]] + leading_word(text.drop_first())
    }
}

/// The first word of a text: what stands between the white space it begins
/// with and the next. It is empty where the text is white space only.
pub open spec fn first_word(text: Seq<char>) -> Seq<char> {
    leading_word(without_leading_space(text))
}

/// The name an audio object is shown under: its first word, or `Audio`
/// where it has none.
pub open spec fn short_name(name: Seq<char>) -> Seq<char> {
    if first_word(name).len() == 0 {
        "Audio"@
    } else {
        first_word(name)
    }
}

/// What an audio object reports of its volume.
#[derive(Debug, Clone, PartialEq, Eq)]
pub struct VolumeUpdate {
    pub id: u32,
    pub name: String,
    /// The main volume in percent.
    pub volume_percent: Option<u8>,
    /// The volume of the first channel in percent.
    pub channel_percent: Option<u8>,
    pub is_muted: Option<bool>,
}

/// The volume that is shown: that of the first channel, or the main volume
/// where the channel reports none.
pub open spec fn shown_volume(channel: Option<u8>, volume: Option<u8>) -> Option<u8> {
    match channel {
        Some(level) => Some(level),
        None => volume,
    }
}

/// The volume text for an update: the short name and the shown volume
/// behind the speaker sign, with the mute sign where the object is muted.
/// An update without a volume gives no text.
pub open spec fn volume_summary(
    name: Seq<char>,
    channel: Option<u8>,
    volume: Option<u8>,
    muted: Option<bool>,
) -> Option<Seq<char>> {
    match shown_volume(channel, volume) {
        Some(level) => Some(
            "🔊 "@ + short_name(name) + ": "@ + decimal(level as nat) + "%"@ + if muted == Some(true) {
                " 🔇"@
            } else {
                Seq::<char>::empty()
            },
        ),
        None => None,
    }
}

/// Whether a character is white space.
pub fn white_space(c: char) -> (space: bool)
    ensures
        space == is_white_space(c),
{
    let code: u32 = c as u32;
    (0x09 <= code && code <= 0x0d) || code == 0x20 || code == 0x85 || code == 0xa0 || code == 0x1680
        || (0x2000 <= code && code <= 0x200a) || code == 0x2028 || code == 0x2029 || code == 0x202f
        || code == 0x205f || code == 0x3000
}

/// Whether `word` stands in `text` at `at`.
fn stands_at(text: &Vec<char>, word: &Vec<char>, at: usize) -> (found: bool)
    requires
        at + word@.len() <= text@.len(),
    ensures
        found == word_at(text@, word@, at as int),
{
    let length = word.len();
    let whole = text.len();
    let mut j: usize = 0;
    while j < length
        invariant
            length == word@.len(),
            whole == text@.len(),
            at + length <= whole,
            j <= length,
            forall|k: int| 0 <= k < j ==> text@[at + k] == word@[k],
        decreases length - j,
    {
        if text[at + j] != word[j] {
            assert(text@.subrange(at as int, at + word@.len())[j as int] != word@[j as int]);
            return false;
        }
        j += 1;
    }
    assert(text@.subrange(at as int, at + word@.len()) =~= word@);
    true
}

/// Whether `word` stands somewhere in `text`.
pub fn contains(text: &str, word: &str) -> (found: bool)
    ensures
        found == contains_word(text@, word@),
{
    let whole = characters(text);
    let sought = characters(word);
    if sought.len() > whole.len() {
        return false;
    }
    let last = whole.len() - sought.len();
    let mut at: usize = 0;
    loop
        invariant
            whole@ == text@,
            sought@ == word@,
            last == whole@.len() - sought@.len(),
            at <= last,
            forall|k: int| 0 <= k < at ==> !word_at(text@, word@, k),
        decreases last - at,
    {
        if stands_at(&whole, &sought, at) {
            assert(word_at(text@, word@, at as int));
            return true;
        }
        if at == last {
            return false;
        }
        at += 1;
    }
}

/// Whether an object with this media class is an audio node. An object
/// that reports no class is none.
pub fn is_audio_node(media_class: Option<&str>) -> (audio: bool)
    ensures
        audio == (media_class matches Some(class) && audio_node_class(class@)),
{
    match media_class {
        Some(class) => contains(class, "Audio") && (contains(class, "Sink") || contains(
            class,
            "Source",
        )),
        None => false,
    }
}

/// Whether an object with this device interface is an audio device. An
/// object that reports no interface is none.
pub fn is_audio_device(device_api: Option<&str>) -> (audio: bool)
    ensures
        audio == (device_api matches Some(api) && audio_device_api(api@)),
{
    match device_api {
        Some(api) => same_text(api, "alsa") || same_text(api, "bluez5"),
        None => false,
    }
}

/// The name of an audio object: its description, or its name where it has
/// no description, or `fallback` where it has neither.
pub fn object_name<'a>(description: Option<&'a str>, name: Option<&'a str>, fallback: &'a str) -> (
    chosen: &'a str
)
    ensures
        chosen@ == (match (description, name) {
            (Some(text), _) => text@,
            (None, Some(text)) => text@,
            (None, None) => fallback@,
        }),
{
    match description {
        Some(text) => text,
        None => match name {
            Some(text) => text,
            None => fallback,
        },
    }
}

/// What was read of a volume, if anything was: the main volume, the volume
/// of the first channel, and whether the object is muted.
pub fn volume_reading(volume: Option<u8>, channel: Option<u8>, mute: Option<bool>) -> (reading:
    Option<(Option<u8>, Option<u8>, Option<bool>)>)
    ensures
        reading == if volume is None && channel is None && mute is None {
            None
        } else {
            Some((volume, channel, mute))
        },
{
    if volume.is_none() && channel.is_none() && mute.is_none() {
        None
    } else {
        Some((volume, channel, mute))
    }
}

/// White space at the head of what is left is skipped.
proof fn lemma_space_skipped(text: Seq<char>, at: int)
    requires
        0 <= at < text.len(),
        is_white_space(text[at]),
    ensures
        without_leading_space(text.skip(at)) == without_leading_space(text.skip(at + 1)),
{
    assert(text.skip(at)[0] == text[at]);
    assert(text.skip(at).drop_first() =~= text.skip(at + 1));
}

/// What begins with no white space has none to skip.
proof fn lemma_space_ended(text: Seq<char>, at: int)
    requires
        0 <= at <= text.len(),
        at < text.len() ==> !is_white_space(text[at]),
    ensures
        without_leading_space(text.skip(at)) == text.skip(at),
{
    if at < text.len() {
        assert(text.skip(at)[0] == text[at]);
    }
}

/// A character that is no white space belongs to the word it stands in.
proof fn lemma_word_goes_on(text: Seq<char>, from: int, at: int)
    requires
        0 <= from <= at < text.len(),
        !is_white_space(text[at]),
    ensures
        text.subrange(from, at) + leading_word(text.skip(at)) == text.subrange(from, at + 1)
            + leading_word(text.skip(at + 1)),
{
    assert(text.skip(at)[0] == text[at]);
    assert(text.skip(at).drop_first() =~= text.skip(at + 1));
    assert(text.subrange(from, at) + (seq![text[at]] + leading_word(text.skip(at + 1)))
        =~= text.subrange(from, at + 1) + leading_word(text.skip(at + 1)));
}

/// White space, or the end of the text, ends the word.
proof fn lemma_word_ended(text: Seq<char>, from: int, at: int)
    requires
        0 <= from <= at <= text.len(),
        at < text.len() ==> is_white_space(text[at]),
    ensures
        text.subrange(from, at) + leading_word(text.skip(at)) == text.subrange(from, at),
{
    if at < text.len() {
        assert(text.skip(at)[0] == text[at]);
    }
    assert(leading_word(text.skip(at)) =~= Seq::<char>::empty());
    assert(text.subrange(from, at) + Seq::<char>::empty() =~= text.subrange(from, at));
}

/// Where the first character stands that is no white space.
fn word_start(text: &str, length: usize) -> (start: usize)
    requires
        length == text@.len(),
    ensures
        start <= length,
        without_leading_space(text@) == text@.skip(start as int),
{
    let mut start: usize = 0;
    assert(text@.skip(0) =~= text@);
    while start < length
        invariant
            length == text@.len(),
            start <= length,
            without_leading_space(text@) == without_leading_space(text@.skip(start as int)),
        decreases length - start,
    {
        if !white_space(text.get_char(start)) {
            proof {
                lemma_space_ended(text@, start as int);
            }
            return start;
        }
        proof {
            lemma_space_skipped(text@, start as int);
        }
        start += 1;
    }
    proof {
        lemma_space_ended(text@, start as int);
    }
    start
}

/// Where the word that begins at `start` ends.
fn word_end(text: &str, length: usize, start: usize) -> (end: usize)
    requires
        length == text@.len(),
        start <= length,
    ensures
        start <= end <= length,
        leading_word(text@.skip(start as int)) == text@.subrange(start as int, end as int),
{
    let mut end: usize = start;
    proof {
        assert(text@.subrange(start as int, start as int) + leading_word(text@.skip(start as int))
            =~= leading_word(text@.skip(start as int)));
    }
    while end < length
        invariant
            length == text@.len(),
            start <= end <= length,
            leading_word(text@.skip(start as int)) == text@.subrange(start as int, end as int)
                + leading_word(text@.skip(end as int)),
        decreases length - end,
    {
        if white_space(text.get_char(end)) {
            proof {
                lemma_word_ended(text@, start as int, end as int);
            }
            return end;
        }
        proof {
            lemma_word_goes_on(text@, start as int, end as int);
        }
        end += 1;
    }
    proof {
        lemma_word_ended(text@, start as int, end as int);
    }
    end
}

/// The first word of a text.
pub fn first_word_of(text: &str) -> (word: &str)
    ensures
        word@ == first_word(text@),
{
    let length = text.unicode_len();
    let start = word_start(text, length);
    let end = word_end(text, length, start);
    text.substring_char(start, end)
}

/// Derives the volume text from an update.
pub fn volume_text(update: &VolumeUpdate) -> (text: Option<String>)
    ensures
        crate::registry::text_view(text) == volume_summary(
            update.name@,
            update.channel_percent,
            update.volume_percent,
            update.is_muted,
        ),
{
    let level = match update.channel_percent {
        Some(level) => level,
        None => match update.volume_percent {
            Some(level) => level,
            None => {
                return None;
            },
        },
    };
    let word = first_word_of(update.name.as_str());
    let mut text = String::from_str("🔊 ");
    if word.is_empty() {
        text.append("Audio");
    } else {
        text.append(word);
    }
    text.append(": ");
    let digits = decimal_text(level as u64);
    text.append(digits.as_str());
    text.append("%");
    let muted = match update.is_muted {
        Some(muted) => muted,
        None => false,
    };
    if muted {
        text.append(" 🔇");
    }
    proof {
        assert(text@ =~= volume_summary(
            update.name@,
            update.channel_percent,
            update.volume_percent,
            update.is_muted,
        )->Some_0);
    }
    Some(text)
}

} // verus!
