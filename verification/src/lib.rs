//! Persistence of application settings as a single JSON document on disk.
//!
//! A [`JsonSettings`] names one settings file and offers key-scoped access to
//! the JSON object stored there: `read_by_key` looks a key up, `write_by_key`
//! merges one key into the document and hands back the full new file text.
//! The library itself never touches the filesystem or the process
//! environment: callers read the file, the environment variables and the
//! executable path themselves and pass them in as plain values, and write the
//! returned text back out.

mod codec;
mod paths;

pub use codec::{Document, json_obj_of, pretty_of, is_json, is_json_object, obj_of};
pub use paths::{
    Platform, Env, is_sep, join_spec, last_sep, parent_dir_spec, file_name_spec,
    config_root_spec, exe_dir_path_spec, config_dir_spec, config_dir_path_spec, join_path,
    exe_dir_filepath, config_root_dir, config_dir, config_dir_filepath,
};

use vstd::prelude::*;

verus! {

/// The ways an operation of this library can fail.
#[derive(Debug)]
pub enum SettingsError {
    /// A required environment variable or executable-path fact is unavailable.
    Environment,
    /// The user-config directory could not be created.
    DirectoryCreation,
    /// The settings file exists but could not be parsed as JSON; the payload
    /// is a human-readable cause.
    Load(String),
    /// The settings file could not be created or written.
    WriteIo(String),
    /// The in-memory document could not be encoded as JSON text that reads
    /// back: the encoder cannot fail on an object, but `write_by_key`
    /// re-parses the encoded text before returning it, and a document nested
    /// too deep for the parser is refused here rather than persisted
    /// unreadable.
    Serialize(String),
    /// The settings file could not be deleted.
    Removal,
}

/// The outcome of a `read_by_key`: whether the file was present, whether the
/// key was present in its top-level object, and the value bound to the key.
pub struct KeyValue {
    /// The key that was looked up; `None` when the file was absent.
    pub key: Option<String>,
    /// The value bound to the key, present if and only if `key_exists`.
    pub value: Option<serde_json::Value>,
    /// Whether the settings file was present at call time.
    pub file_exists: bool,
    /// Whether the requested key was present in the top-level object.
    pub key_exists: bool,
}

/// The file contents as the store's functions see them: `None` when the file
/// is absent, `Some` of its text when it is present.
pub open spec fn file_view(contents: Option<String>) -> Option<Seq<char>> {
    match contents {
        None => None,
        Some(s) => Some(s@),
    }
}

/// A read fails exactly when the file is present but its text is not valid
/// JSON.
pub open spec fn read_fails(c: Option<Seq<char>>) -> bool {
    c matches Some(s) && !is_json(s)
}

/// A read finds the key exactly when the file is present, holds a top-level
/// object, and that object holds the key.
pub open spec fn read_key_exists(c: Option<Seq<char>>, key: Seq<char>) -> bool {
    c matches Some(s) && is_json_object(s) && obj_of(s).contains_key(key)
}

/// The value a read returns: the one the top-level object binds to the key,
/// when the key is found.
pub open spec fn read_value(c: Option<Seq<char>>, key: Seq<char>) -> Option<serde_json::Value> {
    if read_key_exists(c, key) {
        Some(obj_of(c->Some_0)[key])
    } else {
        None
    }
}

/// The document a write starts from: the file's top-level object when the
/// file is present and holds one; otherwise the empty object. A present file
/// that is corrupt, or whose top-level value is not an object, is deliberately
/// discarded rather than failing the write: the write is lenient where the
/// read is strict.
pub open spec fn loaded_for_write(c: Option<Seq<char>>) -> Map<Seq<char>, serde_json::Value> {
    match c {
        Some(s) => if is_json_object(s) {
            obj_of(s)
        } else {
            Map::empty()
        },
        None => Map::empty(),
    }
}

/// Identifies one settings file by its absolute path. Immutable after
/// construction; no file handle is held between operations.
pub struct JsonSettings {
    filepath: String,
}

impl View for JsonSettings {
    type V = Seq<char>;

    /// A handle is its path.
    closed spec fn view(&self) -> Seq<char> {
        self.filepath@
    }
}

impl JsonSettings {
    /// Create a handle for the settings file at `filepath`.
    pub fn new(filepath: &String) -> (r: JsonSettings)
        ensures
            r@ == filepath@,
    {
        JsonSettings { filepath: filepath.clone() }
    }

    /// The path this handle was constructed with.
    pub fn filepath(&self) -> (r: &String)
        ensures
            r@ == self@,
    {
        &self.filepath
    }

    /// A handle for the default settings file in the directory holding the
    /// executable at `exe_path`. The caller passes the platform and the
    /// executable's own path; `SettingsError::Environment` when that path
    /// names no directory.
    pub fn exe_dir(platform: &Platform, exe_path: &str) -> (r: Result<
        JsonSettings,
        SettingsError,
    >)
        ensures
            match r {
                Ok(js) => exe_dir_path_spec(*platform, exe_path@, "settings.json"@) == Some(js@),
                Err(e) => exe_dir_path_spec(*platform, exe_path@, "settings.json"@) is None
                    && e is Environment,
            },
    {
        let filename = default_filename();
        Self::exe_dir_with_filename(platform, exe_path, filename.as_str())
    }

    /// A handle for the settings file `filename` in the directory holding the
    /// executable at `exe_path`.
    pub fn exe_dir_with_filename(platform: &Platform, exe_path: &str, filename: &str) -> (r:
        Result<JsonSettings, SettingsError>)
        ensures
            match r {
                Ok(js) => exe_dir_path_spec(*platform, exe_path@, filename@) == Some(js@),
                Err(e) => exe_dir_path_spec(*platform, exe_path@, filename@) is None
                    && e is Environment,
            },
    {
        let filepath = paths::exe_dir_filepath(platform, exe_path, filename)?;
        Ok(JsonSettings::new(&filepath))
    }

    /// A handle for the default settings file in the app-scoped user-config
    /// directory. The caller passes the platform, the environment variables
    /// the platform rule reads, and the executable's own path, and creates
    /// the resolved directory if it is missing.
    pub fn config_dir(platform: &Platform, env: &Env, exe_path: &str) -> (r: Result<
        JsonSettings,
        SettingsError,
    >)
        ensures
            match r {
                Ok(js) => config_dir_path_spec(*platform, *env, exe_path@, "settings.json"@)
                    == Some(js@),
                Err(e) => config_dir_path_spec(*platform, *env, exe_path@, "settings.json"@)
                    is None && e is Environment,
            },
    {
        let filename = default_filename();
        Self::config_dir_with_filename(platform, env, exe_path, filename.as_str())
    }

    /// A handle for the settings file `filename` in the app-scoped
    /// user-config directory.
    pub fn config_dir_with_filename(
        platform: &Platform,
        env: &Env,
        exe_path: &str,
        filename: &str,
    ) -> (r: Result<JsonSettings, SettingsError>)
        ensures
            match r {
                Ok(js) => config_dir_path_spec(*platform, *env, exe_path@, filename@) == Some(
                    js@,
                ),
                Err(e) => config_dir_path_spec(*platform, *env, exe_path@, filename@) is None
                    && e is Environment,
            },
    {
        let filepath = paths::config_dir_filepath(platform, env, exe_path, filename)?;
        Ok(JsonSettings::new(&filepath))
    }

    /// Look `key` up in the settings file whose text the caller read:
    /// `contents` is `None` when the file is absent (a normal outcome, not an
    /// error), `Some` of its full text when it is present. Fails with
    /// `SettingsError::Load` exactly when the file is present but its text is
    /// not valid JSON; a present file whose top-level value is not an object
    /// reads as "key not found".
    pub fn read_by_key(&self, contents: &Option<String>, key: &str) -> (r: Result<
        KeyValue,
        SettingsError,
    >)
        ensures
            r is Err <==> read_fails(file_view(*contents)),
            r matches Err(e) ==> e is Load,
            r matches Ok(kv) ==> {
                &&& kv.file_exists == (contents is Some)
                &&& kv.key_exists == read_key_exists(file_view(*contents), key@)
                &&& kv.value == read_value(file_view(*contents), key@)
                &&& (kv.key matches Some(s) ==> s@ == key@)
                &&& (kv.key is Some <==> contents is Some)
                &&& (kv.value is Some <==> kv.key_exists)
                &&& (kv.key_exists ==> kv.file_exists)
            },
    {
        match contents {
            None => Ok(
                KeyValue { key: None, value: None, file_exists: false, key_exists: false },
            ),
            Some(text) => match codec::parse_object(text.as_str()) {
                codec::ParseOutcome::NotJson(msg) => Err(SettingsError::Load(msg)),
                codec::ParseOutcome::NotAnObject => Ok(
                    KeyValue {
                        key: Some(key.to_owned()),
                        value: None,
                        file_exists: true,
                        key_exists: false,
                    },
                ),
                codec::ParseOutcome::Object(doc) => match doc.get(key) {
                    Some(v) => Ok(
                        KeyValue {
                            key: Some(key.to_owned()),
                            value: Some(codec::clone_value(v)),
                            file_exists: true,
                            key_exists: true,
                        },
                    ),
                    None => Ok(
                        KeyValue {
                            key: Some(key.to_owned()),
                            value: None,
                            file_exists: true,
                            key_exists: false,
                        },
                    ),
                },
            },
        }
    }

    /// Bind `key` to `value` in the settings document and return the full new
    /// file text for the caller to persist at the handle's path: the write is
    /// a whole-document load, merge and re-encode, never an append. `contents`
    /// is the present file's text, `None` when the file is absent; a corrupt
    /// or non-object document is discarded and the write starts from the
    /// empty object. The returned text is exactly the encoder's
    /// pretty-printed serialization of the merged document, re-parsed before
    /// it is returned: encoding a JSON object cannot fail, but a document
    /// nested too deep for the parser would come back unreadable, and such a
    /// write fails with `SettingsError::Serialize` instead — exactly when the
    /// merged document's encoded text does not parse back as an object.
    pub fn write_by_key(&self, contents: &Option<String>, key: &str, value: &serde_json::Value)
        -> (r: Result<String, SettingsError>)
        ensures
            r is Ok <==> is_json_object(
                pretty_of(loaded_for_write(file_view(*contents)).insert(key@, *value)),
            ),
            r matches Ok(text) ==> {
                let merged = loaded_for_write(file_view(*contents)).insert(key@, *value);
                &&& text@ == pretty_of(merged)
                &&& json_obj_of(text@) == Some(Some(merged))
            },
            r matches Err(e) ==> e is Serialize,
    {
        let mut doc = match contents {
            None => Document::empty(),
            Some(text) => match codec::parse_object(text.as_str()) {
                codec::ParseOutcome::Object(d) => d,
                codec::ParseOutcome::NotJson(_) => Document::empty(),
                codec::ParseOutcome::NotAnObject => Document::empty(),
            },
        };
        doc.insert(key, codec::clone_value(value));
        let text = codec::to_pretty_text(&doc);
        match codec::parse_object(text.as_str()) {
            codec::ParseOutcome::Object(_) => Ok(text),
            _ => Err(
                SettingsError::Serialize(
                    String::from_str("Failed to serialize settings: the encoded document does not parse back"),
                ),
            ),
        }
    }
}

/// Round trip: the text a successful `write_by_key` returns reads back, for
/// the written key, without error and with the file found, the key found, and
/// exactly the written value — whatever the file held before, for any key and
/// any JSON value.
pub proof fn lemma_write_then_read(
    prev: Option<Seq<char>>,
    key: Seq<char>,
    value: serde_json::Value,
    text: Seq<char>,
)
    requires
        json_obj_of(text) == Some(Some(loaded_for_write(prev).insert(key, value))),
    ensures
        !read_fails(Some(text)),
        read_key_exists(Some(text), key),
        read_value(Some(text), key) == Some(value),
{
}

/// Idempotence: writing the same key and value onto the text a first
/// successful write produced merges into the same document again, so the
/// second write is owed success too and returns the very same text — one
/// write and two writes in succession leave a file with the same (parsed and
/// printed) content.
pub proof fn lemma_write_idempotent(
    prev: Option<Seq<char>>,
    key: Seq<char>,
    value: serde_json::Value,
    text: Seq<char>,
)
    requires
        text == pretty_of(loaded_for_write(prev).insert(key, value)),
        json_obj_of(text) == Some(Some(loaded_for_write(prev).insert(key, value))),
    ensures
        loaded_for_write(Some(text)).insert(key, value) == loaded_for_write(prev).insert(
            key,
            value,
        ),
        pretty_of(loaded_for_write(Some(text)).insert(key, value)) == text,
        is_json_object(pretty_of(loaded_for_write(Some(text)).insert(key, value))),
{
    let m = loaded_for_write(prev);
    assert(m.insert(key, value).insert(key, value) =~= m.insert(key, value));
}

/// Non-interference: writes to distinct keys do not disturb each other. After
/// writing `k1` and then `k2` (`k1 != k2`), a read of either key returns the
/// value written to it; writing `k1` once more, with any value, leaves what a
/// read of `k2` returns unchanged.
pub proof fn lemma_write_non_interference(
    prev: Option<Seq<char>>,
    k1: Seq<char>,
    v1: serde_json::Value,
    k2: Seq<char>,
    v2: serde_json::Value,
    v1p: serde_json::Value,
    text1: Seq<char>,
    text2: Seq<char>,
    text3: Seq<char>,
)
    requires
        k1 != k2,
        json_obj_of(text1) == Some(Some(loaded_for_write(prev).insert(k1, v1))),
        json_obj_of(text2) == Some(Some(loaded_for_write(Some(text1)).insert(k2, v2))),
        json_obj_of(text3) == Some(Some(loaded_for_write(Some(text2)).insert(k1, v1p))),
    ensures
        read_value(Some(text2), k1) == Some(v1),
        read_value(Some(text2), k2) == Some(v2),
        read_value(Some(text3), k2) == read_value(Some(text2), k2),
{
}

/// The file name used when the caller supplies none.
pub fn default_filename() -> (r: String)
    ensures
        r@ == "settings.json"@,
{
    String::from_str("settings.json")
}

} // verus!
