//! The messages that the processes exchange.
use vstd::prelude::*;

verus! {

/// File operations that the connection manager carries out.
#[derive(Debug)]
pub enum FS {
    ReadEmptyDirs { dir: String, include_hidden: bool },
    ReadDir { dir: String, include_hidden: bool },
    RemoveDir { path: String, id: i32, recursive: bool },
    RemoveFile { path: String, id: i32, file_num: i32 },
    CreateDir { path: String, id: i32 },
    NewWrite {
        path: String,
        id: i32,
        file_num: i32,
        files: Vec<(String, u64)>,
        overwrite_detection: bool,
        total_size: u64,
        conn_id: i32,
    },
    CancelWrite { id: i32 },
    WriteBlock { id: i32, file_num: i32, data: Vec<u8>, compressed: bool },
    WriteDone { id: i32, file_num: i32 },
    WriteError { id: i32, file_num: i32, err: String },
    WriteOffset { id: i32, file_num: i32, offset_blk: u32 },
    CheckDigest {
        id: i32,
        file_num: i32,
        file_size: u64,
        last_modified: u64,
        is_upload: bool,
        is_resume: bool,
    },
    SendConfirm(Vec<u8>),
    Rename { id: i32, path: String, new_name: String },
    ReadFile {
        path: String,
        id: i32,
        file_num: i32,
        include_hidden: bool,
        conn_id: i32,
        overwrite_detection: bool,
    },
    CancelRead { id: i32, conn_id: i32 },
    SendConfirmForRead { id: i32, file_num: i32, skip: bool, offset_blk: u32, conn_id: i32 },
    ReadAllFiles { path: String, id: i32, include_hidden: bool, conn_id: i32 },
}

/// A clipboard content that is no file.
#[derive(Debug)]
pub struct ClipboardNonFile {
    pub compress: bool,
    pub content: Vec<u8>,
    pub content_len: usize,
    pub next_raw: bool,
    pub width: i32,
    pub height: i32,
    pub format: i32,
    pub special_name: String,
}

/// The answer to a question about the keyboard.
#[derive(Clone, Copy, Debug, PartialEq, Eq, Structural)]
pub enum DataKeyboardResponse {
    GetKeyState(bool),
}

/// A setting of the controlling device.
#[derive(Clone, Copy, Debug, PartialEq, Eq, Structural)]
pub enum DataControl {
    Resolution { minx: i32, maxx: i32, miny: i32, maxy: i32 },
}

/// Talk with the portable service.
#[derive(Debug)]
pub enum DataPortableService {
    Ping,
    Pong,
    ConnCount(Option<usize>),
    Mouse((Vec<u8>, i32, String, u32, bool, bool)),
    Pointer((Vec<u8>, i32)),
    Key(Vec<u8>),
    RequestStart,
    WillClose,
    CmShowElevation(bool),
}

/// A proxy.
#[derive(Debug)]
pub struct Socks5Server {
    pub proxy: String,
    pub username: String,
    pub password: String,
}

/// A message. A configuration is held in its written form.
#[derive(Debug)]
pub enum Data {
    Login {
        id: i32,
        is_file_transfer: bool,
        is_view_camera: bool,
        is_terminal: bool,
        peer_id: String,
        name: String,
        avatar: String,
        authorized: bool,
        port_forward: String,
        keyboard: bool,
        clipboard: bool,
        audio: bool,
        file: bool,
        file_transfer_enabled: bool,
        restart: bool,
        recording: bool,
        block_input: bool,
        from_switch: bool,
    },
    ChatMessage { text: String },
    SwitchPermission { name: String, enabled: bool },
    SystemInfo(Option<String>),
    ClickTime(i64),
    MouseMoveTime(i64),
    Authorize,
    Close,
    UserSid(Option<u32>),
    OnlineStatus(Option<(i64, bool)>),
    Config((String, Option<String>)),
    Options(Option<Vec<(String, String)>>),
    NatType(Option<i32>),
    ConfirmedKey(Option<(Vec<u8>, Vec<u8>)>),
    RawMessage(Vec<u8>),
    Socks(Option<Socks5Server>),
    FS(FS),
    Test,
    SyncConfig(Option<(Vec<u8>, Vec<u8>)>),
    ClipboardFileEnabled(bool),
    ClipboardNonFile(Option<(String, Vec<ClipboardNonFile>)>),
    TestRendezvousServer,
    KeyboardResponse(DataKeyboardResponse),
    Control(DataControl),
    Theme(String),
    Language(String),
    Empty,
    Disconnected,
    DataPortableService(DataPortableService),
    SwitchSidesRequest(String),
    SwitchSidesBack,
    UrlLink(String),
    VoiceCallIncoming,
    StartVoiceCall,
    VoiceCallResponse(bool),
    CloseVoiceCall(String),
    FileTransferLog((String, String)),
    ControlledSessionCount(usize),
    CmErr(String),
    ReadJobInitResult {
        id: i32,
        file_num: i32,
        include_hidden: bool,
        conn_id: i32,
        result: Result<Vec<u8>, String>,
    },
    FileBlockFromCM { id: i32, file_num: i32, data: Vec<u8>, compressed: bool, conn_id: i32 },
    FileReadDone { id: i32, file_num: i32, conn_id: i32 },
    FileReadError { id: i32, file_num: i32, err: String, conn_id: i32 },
    FileDigestFromCM {
        id: i32,
        file_num: i32,
        last_modified: u64,
        file_size: u64,
        is_resume: bool,
        conn_id: i32,
    },
    AllFilesResult { id: i32, conn_id: i32, path: String, result: Result<Vec<u8>, String> },
    CheckHwcodec,
    VideoConnCount(Option<usize>),
    WaylandScreencastRestoreToken((String, String)),
    HwCodecConfig(Option<String>),
    RemoveTrustedDevices(Vec<Vec<u8>>),
    ClearTrustedDevices,
    PrinterData(Vec<u8>),
    InstallOption(Option<(String, String)>),
    ControllingSessionCount(usize),
    TerminalSessionCount(usize),
    PortForwardSessionCount(Option<usize>),
    SocksWs(Option<(Option<Socks5Server>, String)>),
    ControlPermissionsRemoteModify(Option<bool>),
    FileTransferEnabledState(Option<bool>),
}

/// Copies a proxy.
pub fn clone_socks(socks: &Option<Socks5Server>) -> (r: Option<Socks5Server>)
    ensures
        r == *socks,
{
    match socks {
        Some(s) => Some(
            Socks5Server {
                proxy: s.proxy.clone(),
                username: s.username.clone(),
                password: s.password.clone(),
            },
        ),
        None => None,
    }
}

} // verus!
