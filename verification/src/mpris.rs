//! What the MPRIS players on the session bus report, read into the
//! library's media state: player names, playback status and the track's
//! metadata, from values already taken off the bus.
use vstd::prelude::*;
use crate::model::media::{MediaState, PlaybackStatus, TrackMetadata};
use crate::text::{
    chars_of, chars_equal_str, chars_start_with, push_signed_decimal, push_str,
    signed_decimal_text, starts_with, sub_chars, string_of, text_less, text_lt, trim, trim_chars,
    lemma_text_lt_irreflexive, lemma_text_lt_transitive,
};
use crate::timestamp::{format_timestamp_microseconds, timestamp_text};

verus! {

/// The bus-name prefix of every MPRIS player.
pub open spec fn mpris_prefix() -> Seq<char> {
    "org.mpris.MediaPlayer2."@
}

/// A player's short name: its bus name without the MPRIS prefix.
pub open spec fn player_name_of(bus_name: Seq<char>) -> Seq<char> {
    if starts_with(bus_name, mpris_prefix()) {
        bus_name.skip(mpris_prefix().len() as int)
    } else {
        bus_name
    }
}

/// The bus name of a player given by its short or its full name.
pub open spec fn bus_name_of(player_name: Seq<char>) -> Seq<char> {
    if starts_with(player_name, mpris_prefix()) {
        player_name
    } else {
        mpris_prefix() + player_name
    }
}

/// Strips the MPRIS prefix from a bus name.
pub fn normalize_player_name(bus_name: &str) -> (r: String)
    ensures
        r@ == player_name_of(bus_name@),
{
    let v = chars_of(bus_name);
    if chars_start_with(v.as_slice(), "org.mpris.MediaPlayer2.") {
        let prefix = chars_of("org.mpris.MediaPlayer2.");
        let rest = sub_chars(v.as_slice(), prefix.len(), v.len());
        assert(rest@ =~= v@.skip(prefix@.len() as int));
        string_of(rest.as_slice())
    } else {
        string_of(v.as_slice())
    }
}

/// The bus name to ask for a player's position.
pub fn bus_name_for_player(player_name: &str) -> (r: String)
    ensures
        r@ == bus_name_of(player_name@),
{
    let v = chars_of(player_name);
    if chars_start_with(v.as_slice(), "org.mpris.MediaPlayer2.") {
        string_of(v.as_slice())
    } else {
        let mut s = "org.mpris.MediaPlayer2.".to_owned();
        push_str(&mut s, player_name);
        s
    }
}

/// The status a trimmed `PlaybackStatus` text names; anything unknown is
/// not playing.
pub open spec fn status_named(s: Seq<char>) -> PlaybackStatus {
    if s == "Playing"@ {
        PlaybackStatus::Playing
    } else if s == "Paused"@ {
        PlaybackStatus::Paused
    } else {
        PlaybackStatus::NotPlaying
    }
}

/// Reads the `PlaybackStatus` property.
pub fn parse_playback_status(value: &str) -> (r: PlaybackStatus)
    ensures
        r == status_named(trim(value@)),
{
    let key = trim_chars(chars_of(value).as_slice());
    if chars_equal_str(key.as_slice(), "Playing") {
        PlaybackStatus::Playing
    } else if chars_equal_str(key.as_slice(), "Paused") {
        PlaybackStatus::Paused
    } else {
        PlaybackStatus::NotPlaying
    }
}

/// A metadata or property value as it came over the bus, by its D-Bus type.
pub enum PropertyValue {
    /// A string.
    Text(String),
    /// An array of strings.
    TextList(Vec<String>),
    Int64(i64),
    Int32(i32),
    UInt64(u64),
    UInt32(u32),
    /// Any other type.
    Other,
}

/// The properties of one player that the media state is made from.
pub struct PlayerProperties {
    pub status: String,
    pub art_url: Option<PropertyValue>,
    pub artist: Option<PropertyValue>,
    pub title: Option<PropertyValue>,
    pub album: Option<PropertyValue>,
    pub track_number: Option<PropertyValue>,
    pub length: Option<PropertyValue>,
    pub position: Option<PropertyValue>,
}

/// A value read as text: a string that is not empty.
pub open spec fn value_text(v: PropertyValue) -> Option<Seq<char>> {
    match v {
        PropertyValue::Text(s) => if s@.len() > 0 {
            Some(s@)
        } else {
            None
        },
        _ => None,
    }
}

/// A value read as a signed 64-bit integer.
pub open spec fn value_i64(v: PropertyValue) -> Option<int> {
    match v {
        PropertyValue::Int64(n) => Some(n as int),
        PropertyValue::Int32(n) => Some(n as int),
        PropertyValue::UInt64(n) => if n <= i64::MAX {
            Some(n as int)
        } else {
            None
        },
        PropertyValue::UInt32(n) => Some(n as int),
        _ => None,
    }
}

/// A value read as an unsigned 64-bit integer.
pub open spec fn value_u64(v: PropertyValue) -> Option<int> {
    match v {
        PropertyValue::UInt64(n) => Some(n as int),
        PropertyValue::Int64(n) => if n >= 0 {
            Some(n as int)
        } else {
            None
        },
        PropertyValue::UInt32(n) => Some(n as int),
        PropertyValue::Int32(n) => if n >= 0 {
            Some(n as int)
        } else {
            None
        },
        _ => None,
    }
}

/// The first name of a list that is not blank, or nothing.
pub open spec fn first_filled(names: Seq<String>) -> Seq<char>
    decreases names.len(),
{
    if names.len() == 0 {
        Seq::empty()
    } else if trim(names[0]@).len() > 0 {
        names[0]@
    } else {
        first_filled(names.drop_first())
    }
}

/// Text of a metadata entry, empty when it is missing or not text.
pub open spec fn entry_text(v: Option<PropertyValue>) -> Seq<char> {
    match v {
        Some(x) => match value_text(x) {
            Some(t) => t,
            None => Seq::empty(),
        },
        None => Seq::empty(),
    }
}

/// `xesam:artist`: the first filled name of a list, or the text.
pub open spec fn artist_text(v: Option<PropertyValue>) -> Seq<char> {
    match v {
        Some(PropertyValue::TextList(names)) => first_filled(names@),
        _ => entry_text(v),
    }
}

/// `xesam:trackNumber`: the text, or the decimal text of the number.
pub open spec fn track_number_text(v: Option<PropertyValue>) -> Seq<char> {
    match v {
        Some(x) => match value_text(x) {
            Some(t) => t,
            None => match value_i64(x) {
                Some(n) => signed_decimal_text(n),
                None => Seq::empty(),
            },
        },
        None => Seq::empty(),
    }
}

/// `mpris:length` in microseconds: a signed value that is not negative,
/// else an unsigned one.
pub open spec fn length_value(v: Option<PropertyValue>) -> Option<u64> {
    match v {
        Some(x) => match value_i64(x) {
            Some(n) if n >= 0 => Some(n as u64),
            _ => match value_u64(x) {
                Some(n) => Some(n as u64),
                None => None,
            },
        },
        None => None,
    }
}

/// The `Position` property in microseconds: a signed 64-bit value that is
/// not negative, or an unsigned 64-bit one.
pub open spec fn position_value(v: Option<PropertyValue>) -> Option<u64> {
    match v {
        Some(PropertyValue::Int64(n)) => if n >= 0 {
            Some(n as u64)
        } else {
            None
        },
        Some(PropertyValue::UInt64(n)) => Some(n),
        _ => None,
    }
}

pub open spec fn optional_text(o: Option<String>) -> Option<Seq<char>> {
    match o {
        Some(s) => Some(s@),
        None => None,
    }
}

/// The artwork URL: a filled text entry.
pub open spec fn art_url_value(v: Option<PropertyValue>) -> Option<Seq<char>> {
    match v {
        Some(x) => value_text(x),
        None => None,
    }
}

/// The text of a time, empty when it is not known.
pub open spec fn time_text(t: Option<u64>) -> Seq<char> {
    match t {
        Some(us) => timestamp_text(us as nat),
        None => Seq::empty(),
    }
}

/// What the media state says, read from a player's properties.
pub open spec fn state_from(s: MediaState, p: PlayerProperties) -> bool {
    &&& s.status == status_named(trim(p.status@))
    &&& optional_text(s.art_url) == art_url_value(p.art_url)
    &&& s.metadata.artist@ == artist_text(p.artist)
    &&& s.metadata.title@ == entry_text(p.title)
    &&& s.metadata.album@ == entry_text(p.album)
    &&& s.metadata.track_number@ == track_number_text(p.track_number)
    &&& s.metadata.length_microseconds == length_value(p.length)
    &&& s.metadata.length@ == time_text(length_value(p.length))
    &&& s.metadata.position_microseconds == position_value(p.position)
    &&& s.metadata.position@ == time_text(position_value(p.position))
}

/// A value as text, when it is a string that is not empty.
pub fn value_to_string(value: &PropertyValue) -> (r: Option<String>)
    ensures
        optional_text(r) == value_text(*value),
{
    match value {
        PropertyValue::Text(s) => {
            if chars_of(s.as_str()).len() > 0 {
                Some(s.clone())
            } else {
                None
            }
        },
        _ => None,
    }
}

/// A value as a signed 64-bit integer, when it is an integer that fits.
pub fn value_to_i64(value: &PropertyValue) -> (r: Option<i64>)
    ensures
        match r {
            Some(n) => value_i64(*value) == Some(n as int),
            None => value_i64(*value) is None,
        },
{
    match value {
        PropertyValue::Int64(n) => Some(*n),
        PropertyValue::Int32(n) => Some(*n as i64),
        PropertyValue::UInt64(n) => {
            if *n <= 9223372036854775807u64 {
                Some(*n as i64)
            } else {
                None
            }
        },
        PropertyValue::UInt32(n) => Some(*n as i64),
        _ => None,
    }
}

/// A value as an unsigned 64-bit integer, when it is an integer that fits.
pub fn value_to_u64(value: &PropertyValue) -> (r: Option<u64>)
    ensures
        match r {
            Some(n) => value_u64(*value) == Some(n as int),
            None => value_u64(*value) is None,
        },
{
    match value {
        PropertyValue::UInt64(n) => Some(*n),
        PropertyValue::Int64(n) => {
            if *n >= 0 {
                Some(*n as u64)
            } else {
                None
            }
        },
        PropertyValue::UInt32(n) => Some(*n as u64),
        PropertyValue::Int32(n) => {
            if *n >= 0 {
                Some(*n as u64)
            } else {
                None
            }
        },
        _ => None,
    }
}

/// The text of a metadata entry, or an empty text.
fn entry_string(value: &Option<PropertyValue>) -> (r: String)
    ensures
        r@ == entry_text(*value),
{
    match value {
        Some(v) => match value_to_string(v) {
            Some(s) => s,
            None => String::new(),
        },
        None => String::new(),
    }
}

/// The first name in `names` that is not blank, or an empty text.
fn first_filled_name(names: &Vec<String>) -> (r: String)
    ensures
        r@ == first_filled(names@),
{
    let mut i: usize = 0;
    assert(names@.skip(0) =~= names@);
    while i < names.len()
        invariant
            i <= names@.len(),
            first_filled(names@) == first_filled(names@.skip(i as int)),
        decreases names@.len() - i,
    {
        let t = trim_chars(chars_of(names[i].as_str()).as_slice());
        assert(names@.skip(i as int)[0] == names@[i as int]);
        if t.len() > 0 {
            return names[i].clone();
        }
        assert(names@.skip(i as int).drop_first() =~= names@.skip(i + 1));
        i = i + 1;
    }
    assert(names@.skip(i as int).len() == 0);
    String::new()
}

/// `xesam:artist`.
pub fn metadata_artist(value: &Option<PropertyValue>) -> (r: String)
    ensures
        r@ == artist_text(*value),
{
    match value {
        Some(PropertyValue::TextList(names)) => first_filled_name(names),
        _ => entry_string(value),
    }
}

/// `xesam:trackNumber`.
pub fn metadata_track_number(value: &Option<PropertyValue>) -> (r: String)
    ensures
        r@ == track_number_text(*value),
{
    match value {
        Some(v) => match value_to_string(v) {
            Some(s) => s,
            None => match value_to_i64(v) {
                Some(n) => {
                    let mut s = String::new();
                    push_signed_decimal(&mut s, n);
                    assert(s@ =~= signed_decimal_text(n as int));
                    s
                },
                None => String::new(),
            },
        },
        None => String::new(),
    }
}

/// `mpris:length`, in microseconds.
pub fn metadata_length_microseconds(value: &Option<PropertyValue>) -> (r: Option<u64>)
    ensures
        r == length_value(*value),
{
    match value {
        Some(v) => {
            match value_to_i64(v) {
                Some(n) => {
                    if n >= 0 {
                        return Some(n as u64);
                    }
                },
                None => {},
            }
            value_to_u64(v)
        },
        None => None,
    }
}

/// The `Position` property, in microseconds.
pub fn metadata_position_microseconds(value: &Option<PropertyValue>) -> (r: Option<u64>)
    ensures
        r == position_value(*value),
{
    match value {
        Some(PropertyValue::Int64(n)) => {
            if *n >= 0 {
                Some(*n as u64)
            } else {
                None
            }
        },
        Some(PropertyValue::UInt64(n)) => Some(*n),
        _ => None,
    }
}

/// The text of a time that may not be known.
fn time_string(t: Option<u64>) -> (r: String)
    ensures
        r@ == time_text(t),
{
    match t {
        Some(us) => format_timestamp_microseconds(us),
        None => String::new(),
    }
}

/// The media state of a player, from the properties it reported.
pub fn media_state_from_properties(properties: &PlayerProperties) -> (r: MediaState)
    ensures
        state_from(r, *properties),
{
    let status = parse_playback_status(properties.status.as_str());
    let art_url = match &properties.art_url {
        Some(v) => value_to_string(v),
        None => None,
    };
    let length_microseconds = metadata_length_microseconds(&properties.length);
    let position_microseconds = metadata_position_microseconds(&properties.position);
    MediaState {
        status,
        art_url,
        metadata: TrackMetadata {
            artist: metadata_artist(&properties.artist),
            title: entry_string(&properties.title),
            album: entry_string(&properties.album),
            track_number: metadata_track_number(&properties.track_number),
            length: time_string(length_microseconds),
            length_microseconds,
            position: time_string(position_microseconds),
            position_microseconds,
        },
    }
}

/// One player of a snapshot of the session bus: its short name and state.
pub struct PlayerEntry {
    pub name: String,
    pub state: MediaState,
}

/// A snapshot in the order of the map it is read from: names strictly
/// increasing, so that no name occurs twice.
pub open spec fn in_name_order(players: Seq<PlayerEntry>) -> bool {
    forall|i: int, j: int|
        0 <= i < j < players.len() ==> text_lt(#[trigger] players[i].name@, #[trigger] players[j].name@)
}

/// Whether a snapshot is in name order.
pub fn players_in_name_order(players: &Vec<PlayerEntry>) -> (r: bool)
    ensures
        r == in_name_order(players@),
{
    let mut i: usize = 1;
    if players.len() == 0 {
        return true;
    }
    while i < players.len()
        invariant
            1 <= i <= players@.len(),
            in_name_order(players@.take(i as int)),
        decreases players@.len() - i,
    {
        if !text_less(players[i - 1].name.as_str(), players[i].name.as_str()) {
            assert(players@[i - 1] == players@.take(i + 1)[i - 1]);
            return false;
        }
        let ghost prefix = players@.take(i as int);
        let ghost next = players@.take(i + 1);
        assert forall|a: int, b: int| 0 <= a < b < next.len() implies text_lt(
            #[trigger] next[a].name@,
            #[trigger] next[b].name@,
        ) by {
            if b < i {
                assert(next[a] == prefix[a] && next[b] == prefix[b]);
            } else if a < i - 1 {
                assert(next[a] == prefix[a] && prefix[i - 1] == players@[i - 1]);
                lemma_text_lt_transitive(next[a].name@, players@[i - 1].name@, next[b].name@);
            }
        }
        i = i + 1;
    }
    assert(players@.take(i as int) =~= players@);
    true
}

/// In a snapshot in name order no two players have the same name.
pub proof fn law_name_order_has_no_duplicates(players: Seq<PlayerEntry>, i: int, j: int)
    requires
        in_name_order(players),
        0 <= i < players.len(),
        0 <= j < players.len(),
        i != j,
    ensures
        players[i].name@ != players[j].name@,
{
    if i < j {
        assert(text_lt(players[i].name@, players[j].name@));
        lemma_text_lt_irreflexive(players[i].name@);
    } else {
        assert(text_lt(players[j].name@, players[i].name@));
        lemma_text_lt_irreflexive(players[j].name@);
    }
}

/// The names of the players in a snapshot, in its order.
pub fn player_names(players: &Vec<PlayerEntry>) -> (r: Vec<String>)
    ensures
        r@.len() == players@.len(),
        forall|i: int| 0 <= i < r@.len() ==> #[trigger] r@[i] == players@[i].name,
{
    let mut names: Vec<String> = Vec::new();
    let mut i: usize = 0;
    while i < players.len()
        invariant
            i <= players@.len(),
            names@.len() == i,
            forall|j: int| 0 <= j < i ==> #[trigger] names@[j] == players@[j].name,
        decreases players@.len() - i,
    {
        names.push(players[i].name.clone());
        i = i + 1;
    }
    names
}

} // verus!
