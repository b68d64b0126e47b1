//! Offering copied files on systems without a clipboard for files.
use crate::clipboard::messages::{
    ClipboardFile, FILECONTENTS_FORMAT_ID, FILECONTENTS_FORMAT_NAME, FILEDESCRIPTORW_FORMAT_NAME,
    FILEDESCRIPTOR_FORMAT_ID,
};
use vstd::prelude::*;

verus! {

/// The file attributes are valid.
pub const FLAGS_FD_ATTRIBUTES: u32 = 0x04;

/// The file size is valid.
pub const FLAGS_FD_SIZE: u32 = 0x40;

/// The time of the last write is valid.
pub const FLAGS_FD_LAST_WRITE: u32 = 0x20;

/// Progress is shown.
pub const FLAGS_FD_PROGRESSUI: u32 = 0x4000;

/// The file comes from a Unix system and has its mode.
pub const FLAGS_FD_UNIX_MODE: u32 = 0x08;

/// The size in which files are requested.
pub const BLOCK_SIZE: u32 = 4_194_304;

/// A map of the `dashmap` crate.
#[verifier::external_type_specification]
#[verifier::external_body]
#[verifier::reject_recursive_types(K)]
#[verifier::reject_recursive_types(V)]
#[verifier::reject_recursive_types(S)]
pub struct ExDashMap<K, V, S>(dashmap::DashMap<K, V, S>);

/// The entries of a map of format names.
pub uninterp spec fn format_entries(map: dashmap::DashMap<i32, String>) -> Map<i32, Seq<char>>;

/// `dashmap::DashMap::new` makes a map without entries.
#[verifier::external_body]
fn new_format_map() -> (r: dashmap::DashMap<i32, String>)
    ensures
        (format_entries(r) == Map::<i32, Seq<char>>::empty()),
{
    dashmap::DashMap::new()
}

/// `dashmap::DashMap::insert` gives a key a value, in place of the one it had.
#[verifier::external_body]
fn insert_format(map: &mut dashmap::DashMap<i32, String>, id: i32, name: String)
    ensures
        format_entries(*final(map)) == format_entries(*old(map)).insert(id, name@),
{
    map.insert(id, name);
}

/// `dashmap::DashMap::get` finds the value of a key.
#[verifier::external_body]
fn find_format(map: &dashmap::DashMap<i32, String>, id: i32) -> (r: Option<String>)
    ensures
        match r {
            Some(name) => format_entries(*map).contains_key(id) && name@ == format_entries(*map)[id],
            None => !format_entries(*map).contains_key(id),
        },
{
    match map.get(&id) {
        Some(entry) => Some(entry.value().clone()),
        None => None,
    }
}

/// The names of remote formats, by id.
pub struct FormatMap {
    map: dashmap::DashMap<i32, String>,
}

impl View for FormatMap {
    type V = Map<i32, Seq<char>>;

    closed spec fn view(&self) -> Map<i32, Seq<char>> {
        format_entries(self.map)
    }
}

impl Default for FormatMap {
    fn default() -> (r: Self)
        ensures
            r@ == crate::clipboard::messages::file_formats(),
    {
        let mut map = new_format_map();
        insert_format(&mut map, FILEDESCRIPTOR_FORMAT_ID, FILEDESCRIPTORW_FORMAT_NAME.to_owned());
        insert_format(&mut map, FILECONTENTS_FORMAT_ID, FILECONTENTS_FORMAT_NAME.to_owned());
        FormatMap { map }
    }
}

/// The name of a remote format.
pub fn get_local_format(formats: &FormatMap, remote_id: i32) -> (r: Option<String>)
    ensures
        match r {
            Some(name) => formats@.contains_key(remote_id) && name@ == formats@[remote_id],
            None => !formats@.contains_key(remote_id),
        },
{
    find_format(&formats.map, remote_id)
}

/// A clipboard message for a connection.
#[derive(Debug)]
pub struct Outgoing {
    pub conn_id: i32,
    pub message: ClipboardFile,
}

/// The answer to a request for file contents that cannot be met.
pub fn send_failed_resp_file_contents(conn_id: i32, stream_id: i32) -> (r: Outgoing)
    ensures
        r.conn_id == conn_id,
        r.message matches ClipboardFile::FileContentsResponse {
            msg_flags,
            stream_id: stream,
            requested_data,
        } && msg_flags == 0x2 && stream == stream_id && requested_data@.len() == 0,
{
    Outgoing {
        conn_id,
        message: ClipboardFile::FileContentsResponse {
            msg_flags: 0x2,
            stream_id,
            requested_data: Vec::new(),
        },
    }
}

/// The message that offers copied files to a connection.
pub fn send_format_list(formats: &FormatMap, conn_id: i32) -> (r: Outgoing)
    ensures
        r.conn_id == conn_id,
        r.message matches ClipboardFile::FormatList { format_list }
            && crate::clipboard::messages::lists_file_formats(format_list@, formats@),
{
    let fd_format_name = match get_local_format(formats, FILEDESCRIPTOR_FORMAT_ID) {
        Some(name) => name,
        None => FILEDESCRIPTORW_FORMAT_NAME.to_owned(),
    };
    let fc_format_name = match get_local_format(formats, FILECONTENTS_FORMAT_ID) {
        Some(name) => name,
        None => FILECONTENTS_FORMAT_NAME.to_owned(),
    };
    let mut format_list: Vec<(i32, String)> = Vec::new();
    format_list.push((FILEDESCRIPTOR_FORMAT_ID, fd_format_name));
    format_list.push((FILECONTENTS_FORMAT_ID, fc_format_name));
    Outgoing { conn_id, message: ClipboardFile::FormatList { format_list } }
}

} // verus!
