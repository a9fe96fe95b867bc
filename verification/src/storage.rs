//! Files, folders and settings of the application.

use serde_json::Value;
use std::path::{Component, Path};
use vstd::prelude::*;
use crate::json::{
    json_get,
    json_holds_object,
    json_insert,
    json_is_object,
    json_member,
    json_object,
    json_parse,
    json_parsed,
    json_pretty,
    json_text,
    json_text_of,
    json_text_value,
    json_written,
    text_view,
};
use crate::text::{has_substring, lowercase_of, to_lowercase};

verus! {

/// The folders of the application.
#[derive(Debug, Clone)]
pub struct AppPaths {
    pub config: String,
    pub data: String,
    pub cache: String,
    pub logs: String,
    pub models: String,
}

/// One entry of a folder.
#[derive(Debug, Clone)]
pub struct FileEntry {
    pub name: String,
    pub path: String,
    pub is_directory: bool,
    pub size: u64,
    /// Seconds since the epoch at which the entry was last changed.
    pub modified_at: Option<u64>,
}

/// The machine that the application runs on.
#[derive(Debug, Clone)]
pub struct SystemInfo {
    pub os: String,
    pub arch: String,
    pub total_memory: u64,
    pub available_memory: u64,
    pub cpu_count: usize,
}

/// Why a file is not touched.
#[derive(Debug, Clone, Copy, PartialEq, Eq, Structural)]
pub enum StorageError {
    /// The path climbs out of its folder.
    PathTraversal,
}

/// Why the settings cannot be read or written.
#[derive(Debug, Clone, PartialEq, Eq)]
pub enum SettingsError {
    /// The file of the settings does not hold JSON.
    Unreadable(String),
    /// The settings cannot be written down.
    Unwritable(String),
}

/// One part of a path.
#[derive(Debug, Clone, PartialEq, Eq)]
pub enum PathPart {
    /// A drive or a share, on systems that have them.
    Prefix,
    /// The root of the file system.
    Root,
    /// The folder itself, written `.`.
    Current,
    /// The folder above, written `..`.
    Parent,
    /// A name.
    Normal(String),
}

/// Calls `Path::components` of std and copies the parts out. What the parts
/// of a path are depends on the system; on every system a part that leads to
/// the folder above stands as `..` in the path.
#[verifier::external_body]
fn components(path: &str) -> (parts: Vec<PathPart>)
    ensures
        climbs(parts@) ==> has_substring(path@, ".."@),
{
    Path::new(path).components().map(
        |c|
            match c {
                Component::Prefix(_) => PathPart::Prefix,
                Component::RootDir => PathPart::Root,
                Component::CurDir => PathPart::Current,
                Component::ParentDir => PathPart::Parent,
                Component::Normal(name) => PathPart::Normal(name.to_string_lossy().into_owned()),
            },
    ).collect()
}

/// One of the parts leads to the folder above.
pub open spec fn climbs(parts: Seq<PathPart>) -> bool {
    exists|i: int| 0 <= i < parts.len() && #[trigger] parts[i] is Parent
}

/// A path may be read and written only if none of its parts leads to the
/// folder above.
pub fn check_parts(parts: &Vec<PathPart>) -> (r: Result<(), StorageError>)
    ensures
        r == (if climbs(parts@) {
            Err::<(), StorageError>(StorageError::PathTraversal)
        } else {
            Ok::<(), StorageError>(())
        }),
{
    let mut i: usize = 0;
    while i < parts.len()
        invariant
            i <= parts.len(),
            forall|j: int| 0 <= j < i ==> !(#[trigger] parts[j] is Parent),
        decreases parts.len() - i,
    {
        match &parts[i] {
            PathPart::Parent => {
                return Err(StorageError::PathTraversal);
            },
            _ => {},
        }
        i = i + 1;
    }
    Ok(())
}

/// Refuses a path that climbs out of its folder: one of whose parts, as the
/// system tells them apart, leads to the folder above. A path that holds no
/// `..` has no such part and is accepted.
pub fn check_path(path: &str) -> (r: Result<(), StorageError>)
    ensures
        !has_substring(path@, ".."@) ==> r is Ok,
        r is Err ==> r == Err::<(), StorageError>(StorageError::PathTraversal) && has_substring(
            path@,
            ".."@,
        ),
{
    let parts = components(path);
    check_parts(&parts)
}

/// What is removed for a request to delete a path.
#[derive(Debug, Clone, Copy, PartialEq, Eq, Structural)]
pub enum Deletion {
    /// Nothing: the path does not exist.
    Nothing,
    /// A folder with all that lies in it.
    Tree,
    /// A folder, if it is empty.
    EmptyFolder,
    /// A file.
    File,
}

/// What a request to delete a path removes.
pub fn deletion_for(exists: bool, is_directory: bool, recursive: bool) -> (r: Deletion)
    ensures
        r == (if !exists {
            Deletion::Nothing
        } else if !is_directory {
            Deletion::File
        } else if recursive {
            Deletion::Tree
        } else {
            Deletion::EmptyFolder
        }),
{
    if !exists {
        Deletion::Nothing
    } else if !is_directory {
        Deletion::File
    } else if recursive {
        Deletion::Tree
    } else {
        Deletion::EmptyFolder
    }
}

/// `a` comes no later than `b` in the order of the dictionary, character by
/// character.
pub open spec fn text_le(a: Seq<char>, b: Seq<char>) -> bool
    decreases a.len(),
{
    if a.len() == 0 {
        true
    } else if b.len() == 0 {
        false
    } else if a[0] != b[0] {
        (a[0] as u32) < (b[0] as u32)
    } else {
        text_le(a.drop_first(), b.drop_first())
    }
}

/// `a` is listed no later than `b`: folders before files, and within each
/// by name without regard to letter case.
pub open spec fn listed_before(a: FileEntry, b: FileEntry) -> bool {
    if a.is_directory != b.is_directory {
        a.is_directory
    } else {
        text_le(lowercase_of(a.name@), lowercase_of(b.name@))
    }
}

/// The key by which the entries of a folder are ordered: files after
/// folders, then the name in lowercase.
pub fn listing_key(entry: &FileEntry) -> (key: (bool, String))
    ensures
        key.0 == !entry.is_directory,
        key.1@ == lowercase_of(entry.name@),
{
    (!entry.is_directory, to_lowercase(entry.name.as_str()))
}

/// Calls `sort_by_key` of std on the entries, with `listing_key` as the key.
/// The list keeps its entries; afterwards every entry is listed no later
/// than those that follow it. Keys are compared as std compares pairs: by
/// the flag first, `false` before `true`, and then by the strings, byte by
/// byte, which for strings is character by character.
#[verifier::external_body]
fn sort_by_listing_key(entries: &mut Vec<FileEntry>)
    ensures
        final(entries)@.to_multiset() == old(entries)@.to_multiset(),
        forall|i: int, j: int|
            0 <= i < j < final(entries)@.len() ==> listed_before(
                final(entries)@[i],
                final(entries)@[j],
            ),
{
    entries.sort_by_key(|e| listing_key(e));
}

/// Puts the entries of a folder in the order of the listing: folders first,
/// then by name without regard to letter case.
pub fn sort_entries(entries: &mut Vec<FileEntry>)
    ensures
        final(entries)@.to_multiset() == old(entries)@.to_multiset(),
        final(entries)@.len() == old(entries)@.len(),
        forall|i: int, j: int|
            0 <= i < j < final(entries)@.len() ==> listed_before(
                final(entries)@[i],
                final(entries)@[j],
            ),
{
    proof {
        old(entries)@.to_multiset_ensures();
    }
    sort_by_listing_key(entries);
    proof {
        entries@.to_multiset_ensures();
    }
}

/// The setting of a name: the text that the settings hold under it, or the
/// default where they hold nothing there, or something that is no text.
pub open spec fn setting_of(
    settings: Value,
    key: Seq<char>,
    default_value: Option<Seq<char>>,
) -> Option<Seq<char>> {
    match json_member(settings, key) {
        Some(entry) => match json_text_of(entry) {
            Some(text) => Some(text),
            None => default_value,
        },
        None => default_value,
    }
}

/// `after` is `before` with the text `value` put under the name `key`: that
/// name now holds the text, and every other name what it held.
pub open spec fn is_put(before: Value, after: Value, key: Seq<char>, value: Seq<char>) -> bool {
    &&& json_member(after, key) matches Some(entry) && json_text_of(entry) == Some(value)
    &&& forall|other: Seq<char>|
        other != key ==> #[trigger] json_member(after, other) == json_member(before, other)
}

/// Puts a setting into the settings. Settings that are no object are left
/// as they are.
pub fn put_setting(settings: &mut Value, key: &str, value: &str)
    ensures
        json_is_object(*old(settings)) ==> json_is_object(*final(settings)) && is_put(
            *old(settings),
            *final(settings),
            key@,
            value@,
        ),
        !json_is_object(*old(settings)) ==> *final(settings) == *old(settings),
{
    if json_holds_object(settings) {
        let entry = json_text_value(value);
        json_insert(settings, key, entry);
    }
}

/// Reads a setting from the settings.
pub fn read_setting(settings: &Value, key: &str, default_value: Option<String>) -> (r: Option<
    String,
>)
    ensures
        text_view(r) == setting_of(*settings, key@, text_view(default_value)),
{
    match json_get(settings, key) {
        Some(entry) => match json_text(&entry) {
            Some(text) => Some(text),
            None => default_value,
        },
        None => default_value,
    }
}

/// A setting that was put is read back, whatever the default, and the
/// other settings are read as before.
pub proof fn lemma_setting_is_read_back(
    before: Value,
    after: Value,
    key: Seq<char>,
    value: Seq<char>,
    other: Seq<char>,
    default_value: Option<Seq<char>>,
)
    requires
        is_put(before, after, key, value),
    ensures
        setting_of(after, key, default_value) == Some(value),
        other != key ==> setting_of(after, other, default_value) == setting_of(
            before,
            other,
            default_value,
        ),
{
}

/// Empty settings hold no setting: every name gives the default.
pub proof fn lemma_nothing_set(settings: Value, key: Seq<char>, default_value: Option<Seq<char>>)
    requires
        forall|k: Seq<char>| (#[trigger] json_member(settings, k)) is None,
    ensures
        setting_of(settings, key, default_value) == default_value,
{
}

/// The settings are an object without entries.
pub open spec fn is_empty_object(settings: Value) -> bool {
    json_is_object(settings) && forall|key: Seq<char>|
        (#[trigger] json_member(settings, key)) is None
}

/// `settings` are the settings that a file holds, where `content` is what
/// the file holds, if there is one: what the content is read as, and empty
/// settings without a file or with a file that does not hold JSON.
pub open spec fn holds_settings(content: Option<&str>, settings: Value) -> bool {
    match content {
        Some(text) => match json_parsed(text@) {
            Some(read) => settings == read,
            None => is_empty_object(settings),
        },
        None => is_empty_object(settings),
    }
}

/// `after` is what saving the text `value` under the name `key` makes of the
/// settings `before`: the text is put in where the settings are an object,
/// and settings that are none stay as they are.
pub open spec fn is_saved(before: Value, after: Value, key: Seq<char>, value: Seq<char>) -> bool {
    if json_is_object(before) {
        json_is_object(after) && is_put(before, after, key, value)
    } else {
        after == before
    }
}

/// The settings that a file holds: `content` is what the file holds, if
/// there is one. Without a file, and with a file that does not hold JSON,
/// the settings are empty.
pub fn settings_or_empty(content: Option<&str>) -> (settings: Value)
    ensures
        holds_settings(content, settings),
        content is None ==> json_is_object(settings) && forall|key: Seq<char>|
            (#[trigger] json_member(settings, key)) is None,
{
    match content {
        None => json_object(),
        Some(text) => match json_parse(text) {
            Ok(settings) => settings,
            Err(_) => {
                let empty = json_object();
                empty
            },
        },
    }
}

/// What the file of the settings holds after a setting was saved: the
/// settings of the file, with the new one put in, written down.
pub fn save_setting(content: Option<&str>, key: &str, value: &str) -> (r: Result<
    String,
    SettingsError,
>)
    ensures
        exists|before: Value, after: Value|
            #![trigger holds_settings(content, before), json_written(after)]
            holds_settings(content, before) && is_saved(before, after, key@, value@) && (match r {
                Ok(text) => json_written(after) == Some(text@),
                Err(_) => json_written(after) is None,
            }),
        r matches Err(e) ==> e is Unwritable,
{
    let mut settings = settings_or_empty(content);
    let ghost before = settings;
    put_setting(&mut settings, key, value);
    let written = json_pretty(&settings);
    assert(holds_settings(content, before) && is_saved(before, settings, key@, value@));
    match written {
        Ok(text) => {
            assert(json_written(settings) == Some(text@));
            Ok(text)
        },
        Err(reason) => Err(SettingsError::Unwritable(reason)),
    }
}

/// The setting of a name in the file of the settings: the default without a
/// file, a failure for a file that does not hold JSON, and else what the
/// settings of the file say.
pub fn get_setting(content: Option<&str>, key: &str, default_value: Option<String>) -> (r: Result<
    Option<String>,
    SettingsError,
>)
    ensures
        content is None ==> r == Ok::<Option<String>, SettingsError>(default_value),
        content matches Some(text) ==> match json_parsed(text@) {
            Some(settings) => r matches Ok(found) && text_view(found) == setting_of(
                settings,
                key@,
                text_view(default_value),
            ),
            None => r is Err,
        },
        r matches Err(e) ==> e is Unreadable,
{
    match content {
        None => Ok(default_value),
        Some(text) => match json_parse(text) {
            Ok(settings) => Ok(read_setting(&settings, key, default_value)),
            Err(reason) => Err(SettingsError::Unreadable(reason)),
        },
    }
}

/// All settings of the file: empty without a file, and a failure for a file
/// that does not hold JSON.
pub fn get_all_settings(content: Option<&str>) -> (r: Result<Value, SettingsError>)
    ensures
        content is None ==> r is Ok && json_is_object(r.unwrap()) && forall|key: Seq<char>|
            (#[trigger] json_member(r.unwrap(), key)) is None,
        r matches Err(e) ==> e is Unreadable,
{
    match content {
        None => Ok(json_object()),
        Some(text) => match json_parse(text) {
            Ok(settings) => Ok(settings),
            Err(reason) => Err(SettingsError::Unreadable(reason)),
        },
    }
}

} // verus!
