use rustdesk::clipboard::messages::{
    clip_2_msg, get_file_format_msg, msg_2_clip, ClipboardFile, Cliprdr, CliprdrUnion, Message,
    MessageUnion, RemoteFormats, FILECONTENTS_FORMAT_ID, FILECONTENTS_FORMAT_NAME,
    FILEDESCRIPTORW_FORMAT_NAME, FILEDESCRIPTOR_FORMAT_ID,
};
use rustdesk::clipboard::pasteboard::{
    handle_format_list, observer_step, paste_directory, server_clip_file_, temp_files_count,
    KeeperAction, KeeperEvent, ObserverStep, PasteObserverInfo, PasteRequest, PasteboardMessage,
    PasteboardStep, PendingPaste, PlaceholderKeeper, TempEntry, TEMP_FILE_PREFIX,
};
use rustdesk::clipboard::unix::{
    get_local_format, send_failed_resp_file_contents, send_format_list, FormatMap,
};

const TEST_CONN_ID: i32 = -11;
const CONTENTS_FORMAT: i32 = 1;
const DESCRIPTOR_FORMAT: i32 = 2;

fn carried(clip: ClipboardFile) -> ClipboardFile {
    let Message { union: Some(MessageUnion::Cliprdr(message)) } = clip_2_msg(clip) else {
        panic!("expected a clipboard message");
    };
    msg_2_clip(message).unwrap()
}

#[test]
fn clipboard_messages_come_back_as_sent() {
    assert!(matches!(carried(ClipboardFile::MonitorReady), ClipboardFile::MonitorReady));
    assert!(matches!(
        carried(ClipboardFile::FormatList { format_list: vec![(1, "a".to_owned()), (2, "b".to_owned())] }),
        ClipboardFile::FormatList { format_list }
            if format_list == vec![(1, "a".to_owned()), (2, "b".to_owned())]
    ));
    assert!(matches!(
        carried(ClipboardFile::FormatListResponse { msg_flags: 3 }),
        ClipboardFile::FormatListResponse { msg_flags: 3 }
    ));
    assert!(matches!(
        carried(ClipboardFile::FormatDataRequest { requested_format_id: 4 }),
        ClipboardFile::FormatDataRequest { requested_format_id: 4 }
    ));
    assert!(matches!(
        carried(ClipboardFile::FormatDataResponse { msg_flags: 1, format_data: vec![9] }),
        ClipboardFile::FormatDataResponse { msg_flags: 1, format_data } if format_data == vec![9]
    ));
    assert!(matches!(
        carried(ClipboardFile::FileContentsRequest {
            stream_id: 1,
            list_index: 2,
            dw_flags: 3,
            n_position_low: 4,
            n_position_high: 5,
            cb_requested: 6,
            have_clip_data_id: true,
            clip_data_id: 7,
        }),
        ClipboardFile::FileContentsRequest {
            stream_id: 1,
            list_index: 2,
            dw_flags: 3,
            n_position_low: 4,
            n_position_high: 5,
            cb_requested: 6,
            have_clip_data_id: true,
            clip_data_id: 7,
        }
    ));
    assert!(matches!(
        carried(ClipboardFile::FileContentsResponse {
            msg_flags: 1,
            stream_id: 2,
            requested_data: vec![1, 2]
        }),
        ClipboardFile::FileContentsResponse { msg_flags: 1, stream_id: 2, requested_data }
            if requested_data == vec![1, 2]
    ));
}

#[test]
fn notes_travel_as_message_boxes() {
    let note = clip_2_msg(ClipboardFile::NotifyCallback {
        msgtype: "t".to_owned(),
        title: "h".to_owned(),
        text: "x".to_owned(),
    });
    let Some(MessageUnion::MessageBox(found)) = note.union else {
        panic!("expected a message box");
    };
    assert_eq!((found.msgtype.as_str(), found.title.as_str()), ("t", "h"));
    assert_eq!((found.text.as_str(), found.link.as_str()), ("x", ""));
    assert!(msg_2_clip(Cliprdr { union: None }).is_none());
    assert!(msg_2_clip(Cliprdr { union: Some(CliprdrUnion::Unknown) }).is_none());
}

#[test]
fn file_formats_have_names() {
    let mut formats = RemoteFormats::default();
    assert_eq!(
        formats.get_local_format(FILEDESCRIPTOR_FORMAT_ID),
        Some(FILEDESCRIPTORW_FORMAT_NAME.to_owned())
    );
    assert_eq!(formats.get_local_format(5), None);
    formats.add_remote_format("other", FILECONTENTS_FORMAT_ID);
    let Some(MessageUnion::Cliprdr(message)) = get_file_format_msg(&formats).union else {
        panic!("expected a clipboard message");
    };
    let Some(ClipboardFile::FormatList { format_list }) = msg_2_clip(message) else {
        panic!("expected formats");
    };
    assert_eq!(
        format_list,
        vec![
            (FILEDESCRIPTOR_FORMAT_ID, FILEDESCRIPTORW_FORMAT_NAME.to_owned()),
            (FILECONTENTS_FORMAT_ID, "other".to_owned())
        ]
    );

    let known = FormatMap::default();
    assert_eq!(
        get_local_format(&known, FILECONTENTS_FORMAT_ID),
        Some(FILECONTENTS_FORMAT_NAME.to_owned())
    );
    assert_eq!(get_local_format(&known, 5), None);
    let offer = send_format_list(&known, 3);
    assert_eq!(offer.conn_id, 3);
    assert!(matches!(
        offer.message,
        ClipboardFile::FormatList { format_list } if format_list.len() == 2
            && format_list[0] == (FILEDESCRIPTOR_FORMAT_ID, FILEDESCRIPTORW_FORMAT_NAME.to_owned())
    ));
    let failed = send_failed_resp_file_contents(3, 8);
    assert!(matches!(
        failed.message,
        ClipboardFile::FileContentsResponse { msg_flags: 2, stream_id: 8, requested_data }
            if requested_data.is_empty()
    ));
}

fn files(source: &str, change_count: i64) -> PasteObserverInfo {
    let mut info = PasteObserverInfo::offered(TEST_CONN_ID, DESCRIPTOR_FORMAT, change_count);
    info.source_path = source.to_owned();
    info
}

fn removed(actions: &[KeeperAction]) -> Vec<String> {
    actions
        .iter()
        .filter_map(|a| match a {
            KeeperAction::RemovePlaceholder(path) => Some(path.clone()),
            _ => None,
        })
        .collect()
}

#[test]
fn placeholder_survives_delay_until_clipboard_replacement() {
    let mut keeper = PlaceholderKeeper::new();
    assert!(!keeper.looks_at_pasteboard());
    let offered = keeper.remove_file(KeeperEvent::Offer(files("", 5)), 5);
    assert!(matches!(offered.as_slice(), [KeeperAction::StartObserver]));
    assert!(keeper.looks_at_pasteboard());
    let placed = keeper.remove_file(KeeperEvent::Offer(files("/tmp/.rustdesk_a", 5)), 5);
    assert!(matches!(placed.as_slice(), [KeeperAction::StartObserver]));
    for _ in 0..104 {
        assert!(keeper.remove_file(KeeperEvent::Timeout, 5).is_empty());
    }
    let replaced = keeper.remove_file(KeeperEvent::Timeout, 6);
    assert!(matches!(
        replaced.as_slice(),
        [
            KeeperAction::ClearPasteboard(5),
            KeeperAction::StopObserver,
            KeeperAction::RemovePlaceholder(path),
        ] if path == "/tmp/.rustdesk_a"
    ));
    assert!(!keeper.looks_at_pasteboard());
}

#[test]
fn placeholder_survives_paste_and_is_removed_on_invalidation() {
    let source = "/tmp/.rustdesk_a";
    let mut keeper = PlaceholderKeeper::new();
    keeper.remove_file(KeeperEvent::Offer(files(source, 5)), 5);
    let mut pending = PendingPaste::new();
    for _ in 0..2 {
        let mut task = files(source, 5);
        task.target_path = "/home/x/a".to_owned();
        assert!(matches!(
            pending.handle_paste_result(&task, true),
            PasteRequest::RemoveTargetAndAsk {
                conn_id: TEST_CONN_ID,
                requested_format_id: DESCRIPTOR_FORMAT
            }
        ));
        assert!(matches!(
            pending.handle_paste_result(&task, true),
            PasteRequest::RemoveTarget
        ));
        assert_eq!(pending.take_target(TEST_CONN_ID), Some("/home/x/a".to_owned()));
        assert_eq!(pending.take_target(TEST_CONN_ID), None);
        assert_eq!(
            keeper.current.as_ref().map(|i| i.source_path.as_str()),
            Some(source)
        );
    }
    assert!(keeper.remove_file(KeeperEvent::Clear(TEST_CONN_ID + 1), 5).is_empty());
    let cleared = keeper.remove_file(KeeperEvent::Clear(TEST_CONN_ID), 5);
    assert_eq!(removed(&cleared), vec![source.to_owned()]);
    assert!(matches!(cleared[0], KeeperAction::ClearPasteboard(5)));

    keeper.remove_file(KeeperEvent::Offer(files("", 6)), 6);
    assert_eq!(keeper.remove_file(KeeperEvent::Clear(0), 6).len(), 2);
    keeper.remove_file(KeeperEvent::Offer(files("/tmp/.rustdesk_b", 7)), 7);
    let gone = keeper.remove_file(KeeperEvent::Disconnected, 7);
    assert_eq!(removed(&gone), vec!["/tmp/.rustdesk_b".to_owned()]);
}

#[test]
fn placeholders_are_exchanged_and_late_ones_removed() {
    let mut keeper = PlaceholderKeeper::new();
    keeper.remove_file(KeeperEvent::Offer(files("/a", 5)), 5);
    // A report of the same files without a placeholder is late news.
    assert!(keeper.remove_file(KeeperEvent::Offer(files("", 5)), 5).is_empty());
    let next = keeper.remove_file(KeeperEvent::Offer(files("/b", 6)), 6);
    assert_eq!(removed(&next), vec!["/a".to_owned()]);
    let late = keeper.remove_file(KeeperEvent::Offer(files("/c", 5)), 6);
    assert_eq!(removed(&late), vec!["/c".to_owned()]);
    assert_eq!(keeper.current.as_ref().map(|i| i.source_path.as_str()), Some("/b"));
}

#[test]
fn pending_pastes_are_forgotten() {
    let mut pending = PendingPaste::new();
    assert!(matches!(
        pending.handle_paste_result(&files("/a", 1), false),
        PasteRequest::Nothing
    ));
    pending.handle_paste_result(&files("/a", 1), true);
    assert!(pending.empty_clipboard_(TEST_CONN_ID + 1));
    assert!(pending.info.is_some());
    assert!(pending.empty_clipboard_(TEST_CONN_ID));
    assert!(pending.info.is_none());
    pending.handle_paste_result(&files("/a", 1), true);
    pending.request_failed();
    assert!(pending.info.is_none());
}

#[test]
fn test_temp_files_count() {
    let entry = |is_file: bool, name: &str| TempEntry { is_file, name: Some(name.to_owned()) };
    let mut entries = vec![
        entry(true, "other"),
        entry(false, ".rustdesk_directory"),
        TempEntry { is_file: true, name: None },
    ];
    let mut c = temp_files_count(&entries);
    assert_eq!(c, 0);
    for i in 0..10 {
        entries.push(entry(true, &format!("{}{}", TEMP_FILE_PREFIX, i)));
        c += 1;
    }
    assert_eq!(c, temp_files_count(&entries));
}

#[test]
fn files_are_offered_when_the_last_paste_is_done() {
    let list = |contents: &str, descriptor: &str| {
        vec![
            (CONTENTS_FORMAT, contents.to_owned()),
            (DESCRIPTOR_FORMAT, descriptor.to_owned()),
        ]
    };
    let good = || list(FILECONTENTS_FORMAT_NAME, FILEDESCRIPTORW_FORMAT_NAME);
    assert_eq!(handle_format_list(true, &good()), Ok(DESCRIPTOR_FORMAT));
    assert_eq!(
        handle_format_list(false, &good()),
        Err("pasteboard context is not inited".to_owned())
    );
    assert_eq!(
        handle_format_list(true, &list("x", FILEDESCRIPTORW_FORMAT_NAME)),
        Err("no file contents format found".to_owned())
    );
    assert_eq!(
        handle_format_list(true, &list(FILECONTENTS_FORMAT_NAME, "x")),
        Err("no file descriptor format found".to_owned())
    );
    let offer = |temp_files: usize, finished: bool| {
        server_clip_file_(
            PasteboardMessage::Clip(ClipboardFile::FormatList { format_list: good() }),
            temp_files,
            finished,
            true,
        )
    };
    assert!(matches!(
        offer(2, true),
        Ok(PasteboardStep::OfferFiles { file_descriptor_id: DESCRIPTOR_FORMAT })
    ));
    assert_eq!(
        offer(3, true).err().unwrap(),
        "too many temp files, current: 3, limit: 3"
    );
    assert_eq!(
        offer(0, false).err().unwrap(),
        "previous file paste task is not finished"
    );
    assert!(matches!(
        server_clip_file_(PasteboardMessage::TryEmpty, 9, false, false),
        Ok(PasteboardStep::Empty)
    ));
    assert!(matches!(
        server_clip_file_(
            PasteboardMessage::Clip(ClipboardFile::FormatDataResponse {
                msg_flags: 1,
                format_data: vec![7]
            }),
            0,
            true,
            true
        ),
        Ok(PasteboardStep::ReceiveList { msg_flags: 1, format_data }) if format_data == vec![7]
    ));
    assert!(matches!(
        server_clip_file_(PasteboardMessage::Clip(ClipboardFile::MonitorReady), 0, true, true),
        Ok(PasteboardStep::Nothing)
    ));
    assert_eq!(
        paste_directory(Some(("/d".to_owned(), true))),
        Ok("/d".to_owned())
    );
    assert_eq!(
        paste_directory(Some(("/d".to_owned(), false))),
        Err("target path does not exist".to_owned())
    );
    assert_eq!(paste_directory(None), Err("failed to get parent path".to_owned()));
}

#[test]
fn observers_end_with_their_last_message() {
    assert!(matches!(
        observer_step(Some(Ok(PasteObserverInfo::exit_msg()))),
        ObserverStep::Exit
    ));
    assert!(matches!(
        observer_step(Some(Ok(files("/a", 1)))),
        ObserverStep::Forward(info) if info.source_path == "/a"
    ));
    assert!(matches!(
        observer_step(Some(Err("x".to_owned()))),
        ObserverStep::Ignore
    ));
    assert!(matches!(observer_step(None), ObserverStep::Exit));
}
