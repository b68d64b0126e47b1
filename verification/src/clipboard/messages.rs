//! Clipboard messages and the form in which they travel.
use std::collections::HashMap;
use vstd::prelude::*;

verus! {

broadcast use vstd::std_specs::hash::group_hash_axioms;

/// The id for the list of copied files. It is a placeholder, not an id of a
/// system.
pub const FILEDESCRIPTOR_FORMAT_ID: i32 = 49334;

pub const FILEDESCRIPTORW_FORMAT_NAME: &'static str = "FileGroupDescriptorW";

/// The id for the contents of copied files. It is a placeholder, not an id of a
/// system.
pub const FILECONTENTS_FORMAT_ID: i32 = 49267;

pub const FILECONTENTS_FORMAT_NAME: &'static str = "FileContents";

/// A clipboard message.
#[derive(Debug)]
pub enum ClipboardFile {
    NotifyCallback { msgtype: String, title: String, text: String },
    MonitorReady,
    FormatList { format_list: Vec<(i32, String)> },
    FormatListResponse { msg_flags: i32 },
    FormatDataRequest { requested_format_id: i32 },
    FormatDataResponse { msg_flags: i32, format_data: Vec<u8> },
    FileContentsRequest {
        stream_id: i32,
        list_index: i32,
        dw_flags: i32,
        n_position_low: i32,
        n_position_high: i32,
        cb_requested: i32,
        have_clip_data_id: bool,
        clip_data_id: i32,
    },
    FileContentsResponse { msg_flags: i32, stream_id: i32, requested_data: Vec<u8> },
}

/// A note for the user.
#[derive(Debug)]
pub struct MessageBox {
    pub msgtype: String,
    pub title: String,
    pub text: String,
    pub link: String,
}

/// A clipboard format.
#[derive(Debug)]
pub struct CliprdrFormat {
    pub id: i32,
    pub format: String,
}

/// A request for a part of a file.
#[derive(Clone, Copy, Debug, PartialEq, Eq, Structural)]
pub struct CliprdrFileContentsRequest {
    pub stream_id: i32,
    pub list_index: i32,
    pub dw_flags: i32,
    pub n_position_low: i32,
    pub n_position_high: i32,
    pub cb_requested: i32,
    pub have_clip_data_id: bool,
    pub clip_data_id: i32,
}

/// What a clipboard message on the wire can be.
#[derive(Debug)]
pub enum CliprdrUnion {
    Ready,
    FormatList { formats: Vec<CliprdrFormat> },
    FormatListResponse { msg_flags: i32 },
    FormatDataRequest { requested_format_id: i32 },
    FormatDataResponse { msg_flags: i32, format_data: Vec<u8> },
    FileContentsRequest(CliprdrFileContentsRequest),
    FileContentsResponse { msg_flags: i32, stream_id: i32, requested_data: Vec<u8> },
    /// A part that a newer peer may send.
    Unknown,
}

/// A clipboard message on the wire.
#[derive(Debug)]
pub struct Cliprdr {
    pub union: Option<CliprdrUnion>,
}

/// The parts of a message that are of interest here.
#[derive(Debug)]
pub enum MessageUnion {
    MessageBox(MessageBox),
    Cliprdr(Cliprdr),
}

/// A message on the wire.
#[derive(Debug)]
pub struct Message {
    pub union: Option<MessageUnion>,
}

/// Two lists name the same formats in the same order.
pub open spec fn same_formats(wire: Seq<CliprdrFormat>, list: Seq<(i32, String)>) -> bool {
    &&& wire.len() == list.len()
    &&& forall|i: int|
        0 <= i < list.len() ==> (#[trigger] wire[i]).id == list[i].0 && wire[i].format@
            == list[i].1@
}

/// A part on the wire says what a clipboard message says.
pub open spec fn part_carries(part: CliprdrUnion, clip: ClipboardFile) -> bool {
    match clip {
        ClipboardFile::NotifyCallback { msgtype, title, text } => false,
        ClipboardFile::MonitorReady => part is Ready,
        ClipboardFile::FormatList { format_list } => part matches CliprdrUnion::FormatList {
            formats,
        } && same_formats(formats@, format_list@),
        ClipboardFile::FormatListResponse { msg_flags } => part
            == (CliprdrUnion::FormatListResponse { msg_flags }),
        ClipboardFile::FormatDataRequest { requested_format_id } => part
            == (CliprdrUnion::FormatDataRequest { requested_format_id }),
        ClipboardFile::FormatDataResponse { msg_flags, format_data } => part
            == (CliprdrUnion::FormatDataResponse { msg_flags, format_data }),
        ClipboardFile::FileContentsRequest {
            stream_id,
            list_index,
            dw_flags,
            n_position_low,
            n_position_high,
            cb_requested,
            have_clip_data_id,
            clip_data_id,
        } => part == CliprdrUnion::FileContentsRequest(
            CliprdrFileContentsRequest {
                stream_id,
                list_index,
                dw_flags,
                n_position_low,
                n_position_high,
                cb_requested,
                have_clip_data_id,
                clip_data_id,
            },
        ),
        ClipboardFile::FileContentsResponse { msg_flags, stream_id, requested_data } => part
            == (CliprdrUnion::FileContentsResponse { msg_flags, stream_id, requested_data }),
    }
}

/// A message on the wire says what a clipboard message says.
pub open spec fn carries(message: Message, clip: ClipboardFile) -> bool {
    match clip {
        ClipboardFile::NotifyCallback { msgtype, title, text } => message.union matches Some(
            MessageUnion::MessageBox(note),
        ) && note.msgtype == msgtype && note.title == title && note.text == text && note.link@
            == ""@,
        _ => message.union matches Some(MessageUnion::Cliprdr(cliprdr)) && (cliprdr.union matches
            Some(part) && part_carries(part, clip)),
    }
}

fn wire_formats(list: &Vec<(i32, String)>) -> (r: Vec<CliprdrFormat>)
    ensures
        same_formats(r@, list@),
{
    let mut formats: Vec<CliprdrFormat> = Vec::new();
    let mut i: usize = 0;
    while i < list.len()
        invariant
            i <= list.len(),
            same_formats(formats@, list@.take(i as int)),
        decreases list.len() - i,
    {
        formats.push(CliprdrFormat { id: list[i].0, format: list[i].1.clone() });
        i = i + 1;
    }
    assert(list@.take(i as int) =~= list@);
    formats
}

fn cliprdr_message(part: CliprdrUnion) -> (r: Message)
    ensures
        r.union == Some(MessageUnion::Cliprdr(Cliprdr { union: Some(part) })),
{
    Message { union: Some(MessageUnion::Cliprdr(Cliprdr { union: Some(part) })) }
}

/// Puts a clipboard message into the form in which it travels.
pub fn clip_2_msg(clip: ClipboardFile) -> (r: Message)
    ensures
        carries(r, clip),
{
    match clip {
        ClipboardFile::NotifyCallback { msgtype, title, text } => Message {
            union: Some(
                MessageUnion::MessageBox(
                    MessageBox { msgtype, title, text, link: "".to_owned() },
                ),
            ),
        },
        ClipboardFile::MonitorReady => cliprdr_message(CliprdrUnion::Ready),
        ClipboardFile::FormatList { format_list } => {
            let formats = wire_formats(&format_list);
            cliprdr_message(CliprdrUnion::FormatList { formats })
        },
        ClipboardFile::FormatListResponse { msg_flags } => cliprdr_message(
            CliprdrUnion::FormatListResponse { msg_flags },
        ),
        ClipboardFile::FormatDataRequest { requested_format_id } => cliprdr_message(
            CliprdrUnion::FormatDataRequest { requested_format_id },
        ),
        ClipboardFile::FormatDataResponse { msg_flags, format_data } => cliprdr_message(
            CliprdrUnion::FormatDataResponse { msg_flags, format_data },
        ),
        ClipboardFile::FileContentsRequest {
            stream_id,
            list_index,
            dw_flags,
            n_position_low,
            n_position_high,
            cb_requested,
            have_clip_data_id,
            clip_data_id,
        } => cliprdr_message(
            CliprdrUnion::FileContentsRequest(
                CliprdrFileContentsRequest {
                    stream_id,
                    list_index,
                    dw_flags,
                    n_position_low,
                    n_position_high,
                    cb_requested,
                    have_clip_data_id,
                    clip_data_id,
                },
            ),
        ),
        ClipboardFile::FileContentsResponse { msg_flags, stream_id, requested_data } =>
            cliprdr_message(
            CliprdrUnion::FileContentsResponse { msg_flags, stream_id, requested_data },
        ),
    }
}

/// Reads a clipboard message from the form in which it travels. A part that is
/// missing or unknown gives nothing.
pub fn msg_2_clip(msg: Cliprdr) -> (r: Option<ClipboardFile>)
    ensures
        match msg.union {
            Some(CliprdrUnion::Unknown) => r is None,
            Some(part) => r matches Some(clip) && part_carries(part, clip),
            None => r is None,
        },
{
    match msg.union {
        Some(CliprdrUnion::Ready) => Some(ClipboardFile::MonitorReady),
        Some(CliprdrUnion::FormatList { formats }) => {
            let mut format_list: Vec<(i32, String)> = Vec::new();
            let mut i: usize = 0;
            while i < formats.len()
                invariant
                    i <= formats.len(),
                    same_formats(formats@.take(i as int), format_list@),
                decreases formats.len() - i,
            {
                format_list.push((formats[i].id, formats[i].format.clone()));
                i = i + 1;
            }
            assert(formats@.take(i as int) =~= formats@);
            Some(ClipboardFile::FormatList { format_list })
        },
        Some(CliprdrUnion::FormatListResponse { msg_flags }) => Some(
            ClipboardFile::FormatListResponse { msg_flags },
        ),
        Some(CliprdrUnion::FormatDataRequest { requested_format_id }) => Some(
            ClipboardFile::FormatDataRequest { requested_format_id },
        ),
        Some(CliprdrUnion::FormatDataResponse { msg_flags, format_data }) => Some(
            ClipboardFile::FormatDataResponse { msg_flags, format_data },
        ),
        Some(CliprdrUnion::FileContentsRequest(request)) => Some(
            ClipboardFile::FileContentsRequest {
                stream_id: request.stream_id,
                list_index: request.list_index,
                dw_flags: request.dw_flags,
                n_position_low: request.n_position_low,
                n_position_high: request.n_position_high,
                cb_requested: request.cb_requested,
                have_clip_data_id: request.have_clip_data_id,
                clip_data_id: request.clip_data_id,
            },
        ),
        Some(CliprdrUnion::FileContentsResponse { msg_flags, stream_id, requested_data }) => Some(
            ClipboardFile::FileContentsResponse { msg_flags, stream_id, requested_data },
        ),
        Some(CliprdrUnion::Unknown) => None,
        None => None,
    }
}

/// The names of remote formats, by id.
pub struct RemoteFormats {
    map: HashMap<i32, String>,
}

impl View for RemoteFormats {
    type V = Map<i32, Seq<char>>;

    closed spec fn view(&self) -> Map<i32, Seq<char>> {
        self.map@.map_values(|s: String| s@)
    }
}

/// The formats that are known from the start.
pub open spec fn file_formats() -> Map<i32, Seq<char>> {
    Map::empty().insert(FILEDESCRIPTOR_FORMAT_ID, FILEDESCRIPTORW_FORMAT_NAME@).insert(
        FILECONTENTS_FORMAT_ID,
        FILECONTENTS_FORMAT_NAME@,
    )
}

impl Default for RemoteFormats {
    fn default() -> (r: Self)
        ensures
            r@ == file_formats(),
    {
        let mut formats = RemoteFormats { map: HashMap::new() };
        assert(formats@ =~= Map::<i32, Seq<char>>::empty());
        formats.add_remote_format(FILEDESCRIPTORW_FORMAT_NAME, FILEDESCRIPTOR_FORMAT_ID);
        formats.add_remote_format(FILECONTENTS_FORMAT_NAME, FILECONTENTS_FORMAT_ID);
        formats
    }
}

impl RemoteFormats {
    /// The name of a remote format.
    pub fn get_local_format(&self, remote_id: i32) -> (r: Option<String>)
        ensures
            match r {
                Some(name) => self@.contains_key(remote_id) && name@ == self@[remote_id],
                None => !self@.contains_key(remote_id),
            },
    {
        match self.map.get(&remote_id) {
            Some(name) => Some(name.clone()),
            None => None,
        }
    }

    /// Names a remote format.
    pub fn add_remote_format(&mut self, local_name: &str, remote_id: i32)
        ensures
            final(self)@ == old(self)@.insert(remote_id, local_name@),
    {
        let name = local_name.to_owned();
        self.map.insert(remote_id, name);
        assert(self@ =~= old(self)@.insert(remote_id, local_name@));
    }
}

/// The name of a format, or the usual one where it has none.
pub open spec fn name_or(formats: Map<i32, Seq<char>>, id: i32, usual: Seq<char>) -> Seq<char> {
    if formats.contains_key(id) {
        formats[id]
    } else {
        usual
    }
}

/// A list with the two formats of copied files.
pub open spec fn lists_file_formats(
    list: Seq<(i32, String)>,
    formats: Map<i32, Seq<char>>,
) -> bool {
    &&& list.len() == 2
    &&& list[0].0 == FILEDESCRIPTOR_FORMAT_ID
    &&& list[0].1@ == name_or(formats, FILEDESCRIPTOR_FORMAT_ID, FILEDESCRIPTORW_FORMAT_NAME@)
    &&& list[1].0 == FILECONTENTS_FORMAT_ID
    &&& list[1].1@ == name_or(formats, FILECONTENTS_FORMAT_ID, FILECONTENTS_FORMAT_NAME@)
}

/// The message that offers copied files.
pub fn get_file_format_msg(formats: &RemoteFormats) -> (r: Message)
    ensures
        exists|list: Vec<(i32, String)>|
            lists_file_formats(list@, formats@) && #[trigger] carries(
                r,
                ClipboardFile::FormatList { format_list: list },
            ),
{
    let fd_format_name = match formats.get_local_format(FILEDESCRIPTOR_FORMAT_ID) {
        Some(name) => name,
        None => FILEDESCRIPTORW_FORMAT_NAME.to_owned(),
    };
    let fc_format_name = match formats.get_local_format(FILECONTENTS_FORMAT_ID) {
        Some(name) => name,
        None => FILECONTENTS_FORMAT_NAME.to_owned(),
    };
    let mut format_list: Vec<(i32, String)> = Vec::new();
    format_list.push((FILEDESCRIPTOR_FORMAT_ID, fd_format_name));
    format_list.push((FILECONTENTS_FORMAT_ID, fc_format_name));
    clip_2_msg(ClipboardFile::FormatList { format_list })
}

/// Two clipboard messages say the same.
pub open spec fn same_clip(a: ClipboardFile, b: ClipboardFile) -> bool {
    match (a, b) {
        (
            ClipboardFile::FormatList { format_list: x },
            ClipboardFile::FormatList { format_list: y },
        ) => x@.len() == y@.len() && forall|i: int|
            0 <= i < x@.len() ==> (#[trigger] x@[i]).0 == y@[i].0 && x@[i].1@ == y@[i].1@,
        _ => a == b,
    }
}

/// A clipboard message, other than a note for the user, comes out of its
/// travelling form as it went in.
pub proof fn law_clip_round_trip(clip: ClipboardFile, part: CliprdrUnion, back: ClipboardFile)
    requires
        part_carries(part, clip),
        part_carries(part, back),
    ensures
        same_clip(clip, back),
{
    if let ClipboardFile::FormatList { format_list: x } = clip {
        if let ClipboardFile::FormatList { format_list: y } = back {
            if let CliprdrUnion::FormatList { formats } = part {
                assert forall|i: int| 0 <= i < x@.len() implies (#[trigger] x@[i]).0 == y@[i].0
                    && x@[i].1@ == y@[i].1@ by {
                    assert(formats@[i].id == x@[i].0);
                }
            }
        }
    }
}

/// Every clipboard message that is no note for the user has a travelling form
/// that is read back.
pub proof fn law_carried_part_is_read(clip: ClipboardFile, message: Message)
    requires
        carries(message, clip),
        !(clip is NotifyCallback),
    ensures
        message.union matches Some(MessageUnion::Cliprdr(cliprdr)) && (cliprdr.union matches Some(
            part,
        ) && part_carries(part, clip) && !(part is Unknown)),
{
}

/// Each field of a request for a part of a file travels in the field of its name.
pub proof fn law_request_fields_keep_their_names(clip: ClipboardFile, part: CliprdrUnion)
    requires
        part_carries(part, clip),
        clip is FileContentsRequest,
    ensures
        part is FileContentsRequest,
        part->FileContentsRequest_0.stream_id == clip->FileContentsRequest_stream_id,
        part->FileContentsRequest_0.list_index == clip->list_index,
        part->FileContentsRequest_0.dw_flags == clip->dw_flags,
        part->FileContentsRequest_0.n_position_low == clip->n_position_low,
        part->FileContentsRequest_0.n_position_high == clip->n_position_high,
        part->FileContentsRequest_0.cb_requested == clip->cb_requested,
        part->FileContentsRequest_0.have_clip_data_id == clip->have_clip_data_id,
        part->FileContentsRequest_0.clip_data_id == clip->clip_data_id,
{
}

/// What a response holds, its flags, its stream and its bytes, travels unchanged, and
/// so do the ids and names of a list of formats, in their order.
pub proof fn law_responses_travel_unchanged(clip: ClipboardFile, part: CliprdrUnion)
    requires
        part_carries(part, clip),
    ensures
        clip matches ClipboardFile::FileContentsResponse { msg_flags, stream_id, requested_data }
            ==> part == (CliprdrUnion::FileContentsResponse {
            msg_flags,
            stream_id,
            requested_data,
        }),
        clip matches ClipboardFile::FormatDataResponse { msg_flags, format_data } ==> part == (
        CliprdrUnion::FormatDataResponse { msg_flags, format_data }),
        clip matches ClipboardFile::FormatDataRequest { requested_format_id } ==> part == (
        CliprdrUnion::FormatDataRequest { requested_format_id }),
        clip matches ClipboardFile::FormatListResponse { msg_flags } ==> part == (
        CliprdrUnion::FormatListResponse { msg_flags }),
        clip is MonitorReady <==> part is Ready,
        clip matches ClipboardFile::FormatList { format_list } ==> (part matches
            CliprdrUnion::FormatList { formats } && formats@.len() == format_list@.len() && forall|
            i: int,
        |
            0 <= i < format_list@.len() ==> (#[trigger] formats@[i]).id == format_list@[i].0
                && formats@[i].format@ == format_list@[i].1@),
{
}

/// A note for the user travels as a note without a link, and never as a part of the
/// clipboard's own.
pub proof fn law_notes_travel_as_notes(
    message: Message,
    msgtype: String,
    title: String,
    text: String,
)
    requires
        carries(message, ClipboardFile::NotifyCallback { msgtype, title, text }),
    ensures
        message.union matches Some(MessageUnion::MessageBox(note)) && note.msgtype == msgtype
            && note.title == title && note.text == text && note.link@.len() == 0,
{
    reveal_strlit("");
}

/// From the start the two formats of copied files are known, and no others; a format
/// that got a name is offered under that name.
pub proof fn law_file_formats_are_known(
    formats: Map<i32, Seq<char>>,
    list: Seq<(i32, String)>,
    id: i32,
)
    requires
        lists_file_formats(list, formats),
    ensures
        file_formats().contains_key(id) <==> id == 49334 || id == 49267,
        file_formats()[49334] == "FileGroupDescriptorW"@,
        file_formats()[49267] == "FileContents"@,
        list.len() == 2 && list[0].0 == 49334 && list[1].0 == 49267,
        forall|i: int|
            0 <= i < 2 && formats.contains_key((#[trigger] list[i]).0) ==> list[i].1@
                == formats[list[i].0],
        formats == file_formats() || formats.dom().is_empty() ==> list[0].1@
            == "FileGroupDescriptorW"@ && list[1].1@ == "FileContents"@,
{
}

} // verus!
