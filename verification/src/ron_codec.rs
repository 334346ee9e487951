//! A concrete codec: RON text over a flat settings record.
//!
//! The record is serialized as a `(volume, name, enabled)` tuple, so the
//! on-disk form is plain RON like `(3,"abc",true)`.

use vstd::prelude::*;

use crate::codec::Codec;
use crate::errors::StoreError;

verus! {

/// A flat application-settings record: the sample value type this crate
/// ships a codec for.
#[derive(Clone, Debug)]
pub struct Settings {
    pub volume: u64,
    pub name: String,
    pub enabled: bool,
}

/// The abstract content of a [`Settings`] value.
#[verifier::ext_equal]
pub struct SettingsView {
    pub volume: u64,
    pub name: Seq<char>,
    pub enabled: bool,
}

impl View for Settings {
    type V = SettingsView;

    open spec fn view(&self) -> SettingsView {
        SettingsView { volume: self.volume, name: self.name@, enabled: self.enabled }
    }
}

impl Settings {
    /// Builds a record from its three fields.
    pub fn new(volume: u64, name: String, enabled: bool) -> (s: Settings)
        ensures
            s@ == (SettingsView { volume, name: name@, enabled }),
    {
        Settings { volume, name, enabled }
    }
}

impl Default for Settings {
    /// The default record: volume zero, empty name, disabled.
    fn default() -> (s: Settings)
        ensures
            s@ == (SettingsView { volume: 0u64, name: Seq::<char>::empty(), enabled: false }),
    {
        Settings { volume: 0, name: String::new(), enabled: false }
    }
}

/// The RON text, as bytes, that serialization produces for a
/// `(volume, name, enabled)` tuple.
pub uninterp spec fn ron_settings_bytes(volume: u64, name: Seq<char>, enabled: bool) -> Seq<u8>;

/// The `(volume, name, enabled)` tuple that RON parsing reads out of a
/// byte sequence, or `None` where the bytes are not a valid encoding of
/// one.
pub uninterp spec fn ron_settings_parse(b: Seq<u8>) -> Option<(u64, Seq<char>, bool)>;

/// Relies on `ron::ser::to_string`: the text written for a value depends
/// on the value alone, is never empty for a tuple (it is at least "()"),
/// and `ron::de::from_bytes` parses it back to the same tuple. For a flat
/// tuple of an integer, a string and a bool the call cannot fail: it only
/// writes into a `String`, whose writer never errors, and the nesting
/// stays far below the serializer's recursion limit.
#[verifier::external_body]
fn ron_encode_fields(volume: u64, name: &String, enabled: bool) -> (r: Option<Vec<u8>>)
    ensures
        r is Some,
        r matches Some(b) ==> b@ == ron_settings_bytes(volume, name@, enabled),
        r matches Some(b) ==> b@.len() > 0,
        r matches Some(b) ==> ron_settings_parse(b@) == Some((volume, name@, enabled)),
{
    ron::ser::to_string(&(volume, name, enabled)).ok().map(String::into_bytes)
}

/// Relies on `ron::de::from_bytes`: what it reads depends on the input
/// bytes alone, and it fails exactly where the bytes do not parse as a
/// `(volume, name, enabled)` tuple.
#[verifier::external_body]
fn ron_decode_fields(b: &[u8]) -> (r: Option<(u64, String, bool)>)
    ensures
        match r {
            Some(t) => ron_settings_parse(b@) == Some((t.0, t.1@, t.2)),
            None => ron_settings_parse(b@) is None,
        },
{
    ron::de::from_bytes::<(u64, String, bool)>(b).ok()
}

/// The RON codec for [`Settings`].
pub struct RonCodec;

impl Codec<Settings> for RonCodec {
    open spec fn enc(v: SettingsView) -> Seq<u8> {
        ron_settings_bytes(v.volume, v.name, v.enabled)
    }

    open spec fn dec(b: Seq<u8>) -> Option<SettingsView> {
        match ron_settings_parse(b) {
            Some(t) => Some(SettingsView { volume: t.0, name: t.1, enabled: t.2 }),
            None => None,
        }
    }

    /// This codec accepts every record: RON can write any of the fields.
    open spec fn enc_ok(v: SettingsView) -> bool {
        true
    }

    fn encode(&self, v: &Settings) -> (r: Result<Vec<u8>, StoreError>) {
        match ron_encode_fields(v.volume, &v.name, v.enabled) {
            Some(b) => Ok(b),
            None => {
                proof {
                    assert(false);
                }
                Err(StoreError::Encode)
            },
        }
    }

    fn decode(&self, b: &[u8]) -> (r: Result<Settings, StoreError>) {
        match ron_decode_fields(b) {
            Some(t) => Ok(Settings { volume: t.0, name: t.1, enabled: t.2 }),
            None => Err(StoreError::Decode),
        }
    }
}

} // verus!
