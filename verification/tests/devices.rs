use rustdesk::cursor::dxgi::{
    flagged_id, frame_shape, shape, shape_from_buffer, snapshot, Captures, FrameShape, Shape,
    ShapeInfo, Snapshot, COLOR, CURSOR_ID_FLAG, INVALID_SHAPE, MASKED_COLOR, MONOCHROME,
};
use rustdesk::cursor::linux::{
    SettingsAnswer, SettingsAtoms, SettingsNext, SettingsRead, SettingsRequest,
};
use rustdesk::portable::{
    cleanup_create_failure, embedded_path, ensure_own_directory, ensure_regular_file,
    is_reserved_device_name, is_safe_component, path_error, program_data_length,
    update_directory_name, CreateAttempts, CreateNext, CreateResult, ExtractStep,
    SecureUpdateDir, CREATE_ATTEMPTS, FILE_ATTRIBUTE_REPARSE_POINT,
};
use rustdesk::quartz::{
    Capturer, Display, FrameAction, FrameStatus, PixelFormat, StopState, StreamHandles,
};
use rustdesk::remote_printer::{
    install_update_printer, uninstall_printer, PrinterNext, PrinterOutcome, PrinterStep,
};
use std::collections::hash_map::DefaultHasher;
use std::hash::{Hash, Hasher};

#[test]
fn cursor_state_follows_capture_lifetime_and_gdi_switches() {
    const MONITOR: usize = usize::MAX;
    let mut captures = Captures::new();
    let first = captures.begin(MONITOR, 1);
    let second = captures.begin(MONITOR, 2);
    captures.deactivate(first);
    assert!(matches!(snapshot(&captures, MONITOR), Snapshot::Pending));
    captures.end(second);
    assert!(matches!(snapshot(&captures, MONITOR), Snapshot::Unavailable));
    captures.activate(first);
    captures.activate(first);
    assert!(matches!(snapshot(&captures, MONITOR), Snapshot::Pending));
    captures.end(first);
    assert!(matches!(snapshot(&captures, MONITOR), Snapshot::Unavailable));
}

fn info() -> ShapeInfo {
    ShapeInfo {
        kind: MONOCHROME,
        width: 64,
        height: 128,
        pitch: 8,
        hot_x: 31,
        hot_y: 29,
    }
}

#[test]
fn cursor_keeps_physical_hotspot_and_both_monochrome_planes() {
    let info = info();
    let pixels = vec![0xa5; 1024];
    let shape = Shape::new(info, pixels.clone())
        .unwrap()
        .with_scale(1.0f64.to_bits());
    assert_eq!(
        (shape.width, shape.height, shape.hotspot),
        (64, 64, (31, 29))
    );
    assert_eq!(shape.pixels, pixels);
    let scaled = shape.duplicate().with_scale(2.0f64.to_bits());
    assert_eq!(scaled.scale_bits, 2.0f64.to_bits());
    assert_ne!(shape.id, scaled.id);
    assert_eq!(shape.id, scaled.with_scale(1.0f64.to_bits()).id);
    assert!(Shape::new(info, vec![0; 512]).is_err());
    let changed = ShapeInfo { hot_y: info.hot_y + 1, ..info };
    assert_ne!(
        shape.id,
        Shape::new(changed, pixels)
            .unwrap()
            .with_scale(1.0f64.to_bits())
            .id
    );
}

#[test]
fn shape_ids_come_from_the_standard_hash() {
    let info = ShapeInfo { kind: COLOR, width: 2, height: 2, pitch: 8, hot_x: 1, hot_y: 0 };
    let pixels: Vec<u8> = (0..16).collect();
    let shape = Shape::new(info, pixels.clone()).unwrap().with_scale(9);
    let mut hasher = DefaultHasher::new();
    (COLOR, 2u32, 2u32, 8u32, (1i32, 0i32), &pixels, 9u64).hash(&mut hasher);
    assert_eq!(shape.id, hasher.finish() | CURSOR_ID_FLAG);
}

#[test]
fn shapes_are_checked() {
    let color = ShapeInfo { kind: COLOR, width: 2, height: 2, pitch: 8, hot_x: 1, hot_y: 1 };
    assert_eq!(Shape::new(color, vec![0; 16]).unwrap().height, 2);
    let masked = ShapeInfo { kind: MASKED_COLOR, ..color };
    assert!(Shape::new(masked, vec![0; 16]).is_ok());
    for bad in [
        ShapeInfo { kind: 3, ..color },
        ShapeInfo { kind: MONOCHROME, height: 3, ..color },
        ShapeInfo { width: 0, ..color },
        ShapeInfo { width: 3, ..color },
        ShapeInfo { height: 0, ..color },
        ShapeInfo { hot_x: 2, ..color },
        ShapeInfo { hot_y: -1, ..color },
        ShapeInfo { width: u32::MAX, ..color },
    ] {
        let bytes = (bad.pitch * bad.height) as usize;
        assert_eq!(Shape::new(bad, vec![0; bytes]).err(), Some(INVALID_SHAPE));
    }
    let cut = shape_from_buffer(color, vec![7; 20], 16).unwrap();
    assert_eq!(cut.pixels, vec![7; 16]);
    assert!(shape_from_buffer(color, vec![7; 15], 16).is_err());
    assert_eq!(flagged_id(5), CURSOR_ID_FLAG | 5);
}

#[test]
fn newest_snapshot_counts() {
    let mut captures = Captures::new();
    let first = captures.begin(1, 10);
    let second = captures.begin(1, 10);
    let found = Shape::new(info(), vec![0; 1024]).unwrap().with_scale(0);
    let id = found.id;
    captures.update(first, Ok(Some(found)), 20);
    assert!(matches!(snapshot(&captures, 1), Snapshot::Ready(s) if s.id == id));
    assert!(shape(&captures, id).is_some());
    assert!(shape(&captures, id ^ 1).is_none());
    captures.update(second, Err("lost".to_owned()), 30);
    assert!(matches!(snapshot(&captures, 1), Snapshot::Failed(e) if e == "lost"));
    captures.update(second, Ok(None), 40);
    assert!(matches!(snapshot(&captures, 1), Snapshot::Failed(_)));
    captures.deactivate(second);
    assert!(matches!(snapshot(&captures, 1), Snapshot::Ready(_)));
    captures.deactivate(first);
    assert!(shape(&captures, id).is_none());
    assert!(matches!(snapshot(&captures, 2), Snapshot::Unavailable));
    assert_eq!(frame_shape(0, 1, None, 5), Err("Invalid monitor scale"));
    assert_eq!(frame_shape(96, 1, None, 5), Ok(FrameShape::Read));
    assert_eq!(frame_shape(96, 0, Some(4), 5), Ok(FrameShape::Rescale));
    assert_eq!(frame_shape(96, 0, Some(5), 5), Ok(FrameShape::Unchanged));
    assert_eq!(frame_shape(96, 0, None, 5), Ok(FrameShape::Unchanged));
}

#[test]
fn settings_are_read_step_by_step() {
    let unknown = SettingsAtoms { selection: 0, property: 0 };
    let (mut read, request) = SettingsRead::begin(unknown);
    assert_eq!(request, SettingsRequest::SelectionAtom);
    assert_eq!(read.read_settings(request, SettingsAnswer::Atom(0)), SettingsNext::Unknown);
    let next = read.read_settings(request, SettingsAnswer::Atom(5));
    let owner = SettingsRequest::Owner { selection: 5 };
    assert_eq!(next, SettingsNext::Request(owner));
    assert_eq!(read.read_settings(owner, SettingsAnswer::Owner(0)), SettingsNext::Unknown);
    assert_eq!(
        read.read_settings(owner, SettingsAnswer::Owner(9)),
        SettingsNext::Request(SettingsRequest::PropertyAtom)
    );
    let property = SettingsRequest::Property { owner: 9, property: 6 };
    assert_eq!(
        read.read_settings(SettingsRequest::PropertyAtom, SettingsAnswer::Atom(6)),
        SettingsNext::Request(property)
    );
    assert_eq!(
        read.read_settings(property, SettingsAnswer::Property { format: 8, bytes_after: 0 }),
        SettingsNext::Complete
    );
    assert_eq!(
        read.read_settings(property, SettingsAnswer::Property { format: 8, bytes_after: 1 }),
        SettingsNext::Incomplete
    );
    // What is known is not asked for again.
    let (mut again, request) = SettingsRead::begin(read.atoms);
    assert_eq!(request, owner);
    assert_eq!(
        again.read_settings(owner, SettingsAnswer::Owner(9)),
        SettingsNext::Request(property)
    );
}

#[test]
fn embedded_paths_stay_below_the_directory() {
    assert_eq!(
        embedded_path("./lib\\\\sub/a.dll"),
        Ok(vec!["lib".to_owned(), "sub".to_owned(), "a.dll".to_owned()])
    );
    for bad in [
        "",
        ".",
        "/a",
        "\\a",
        "a/../b",
        "..",
        "C:\\a",
        "C:a",
        "a:stream",
        "nul.txt",
        "dir/COM1.log",
        "lpt\u{b9}",
        "conin$ .x",
        "trailing.",
        "trailing ",
        "tab\tname",
        "a|b",
    ] {
        assert_eq!(
            embedded_path(bad),
            Err(format!("Invalid embedded update path: {}", bad))
        );
    }
    assert!(is_safe_component("com10"));
    assert!(is_safe_component("console"));
    assert!(!is_safe_component("Aux"));
    assert!(is_reserved_device_name("LPT9"));
    assert!(!is_reserved_device_name("LPT0"));
    assert!(!is_reserved_device_name("lpt9"));
}

#[test]
fn directories_are_made_once() {
    let names = |list: &[&str]| list.iter().map(|n| n.to_string()).collect::<Vec<String>>();
    let mut made = SecureUpdateDir::new();
    assert_eq!(
        made.create_parent_directories(&names(&["a", "b", "x.dll"])),
        vec!["a", "a\\b"]
    );
    assert_eq!(
        made.create_parent_directories(&names(&["a", "c", "y.dll"])),
        vec!["a\\c"]
    );
    assert!(made.create_parent_directories(&names(&["a", "b", "z.dll"])).is_empty());
    assert!(made.create_parent_directories(&names(&["z.dll"])).is_empty());
}

#[test]
fn updates_are_unpacked_up_to_a_refused_path() {
    let files = |list: &[&str]| list.iter().map(|n| n.to_string()).collect::<Vec<String>>();
    let shown = |steps: Vec<ExtractStep>| {
        steps
            .into_iter()
            .map(|step| match step {
                ExtractStep::CreateDirectory(path) => format!("mkdir {path}"),
                ExtractStep::WriteFile { index, path } => format!("write {index} {path}"),
            })
            .collect::<Vec<String>>()
    };
    let good = files(&["app.exe", "lib/a/x.dll", "lib\\a\\y.dll"]);
    let (steps, program) = SecureUpdateDir::new().extract(&good, "./app.exe");
    assert_eq!(program, Ok("app.exe".to_owned()));
    assert_eq!(
        shown(steps),
        vec![
            "write 0 app.exe",
            "mkdir lib",
            "mkdir lib\\a",
            "write 1 lib\\a\\x.dll",
            "write 2 lib\\a\\y.dll"
        ]
    );
    let bad = files(&["lib/a.dll", "../b.dll", "c.dll"]);
    let (steps, program) = SecureUpdateDir::new().extract(&bad, "c.dll");
    assert_eq!(
        program,
        Err("Invalid embedded update path: ../b.dll".to_owned())
    );
    assert_eq!(shown(steps), vec!["mkdir lib", "write 0 lib\\a.dll"]);
    let (steps, program) = SecureUpdateDir::new().extract(&files(&["a"]), "");
    assert_eq!(program, Err("Invalid embedded update path: ".to_owned()));
    assert_eq!(shown(steps), vec!["write 0 a"]);
}

#[test]
fn update_directories_are_unique_and_their_own() {
    let mut bytes = [0u8; 16];
    bytes[0] = 0xa5;
    bytes[15] = 0x0f;
    assert_eq!(
        update_directory_name(&bytes),
        "RustDeskUpdate-a500000000000000000000000000000f"
    );
    let mut attempts = CreateAttempts::new();
    for _ in 1..CREATE_ATTEMPTS {
        assert!(matches!(
            attempts.create(CreateResult::AlreadyExists),
            CreateNext::TryAgain
        ));
    }
    assert!(matches!(
        attempts.create(CreateResult::AlreadyExists),
        CreateNext::Failed(e) if e == "Failed to create a unique protected update directory"
    ));
    assert!(matches!(
        CreateAttempts::new().create(CreateResult::Created),
        CreateNext::Done
    ));
    assert!(matches!(
        CreateAttempts::new().create(CreateResult::Failed("denied".to_owned())),
        CreateNext::Failed(e) if e == "denied"
    ));
    assert!(ensure_regular_file("p", true, 0x20).is_ok());
    assert_eq!(
        ensure_regular_file("p", true, FILE_ATTRIBUTE_REPARSE_POINT | 0x20),
        Err("Embedded executable is not a regular file: p".to_owned())
    );
    assert!(ensure_regular_file("p", false, 0).is_err());
    assert!(ensure_own_directory("p", true, 0x10).is_ok());
    assert_eq!(
        ensure_own_directory("p", true, 0x410),
        Err("Protected update path is not a directory: p".to_owned())
    );
    assert_eq!(program_data_length(&[67, 58, 0, 9]), Ok(2));
    assert_eq!(program_data_length(&[67, 58]), Err("ProgramData path is invalid"));
    assert_eq!(
        path_error("Failed to write update file", "p", "full"),
        "Failed to write update file p: full"
    );
    assert_eq!(cleanup_create_failure("a".to_owned(), "p", None), "a");
    assert_eq!(
        cleanup_create_failure("a".to_owned(), "p", Some("b".to_owned())),
        "a; cleanup failed for p: b"
    );
}

fn set_up(driver: bool, printer: bool) -> Vec<PrinterStep> {
    let mut steps = vec![PrinterStep::FindDriverFile];
    loop {
        let step = steps[steps.len() - 1];
        let outcome = match step {
            PrinterStep::AskDriver => PrinterOutcome::Found(driver),
            PrinterStep::AskPrinter => PrinterOutcome::Found(printer),
            _ => PrinterOutcome::Done,
        };
        match install_update_printer(step, outcome) {
            PrinterNext::Step(next) => steps.push(next),
            PrinterNext::Done => return steps,
            PrinterNext::Failed(error) => panic!("{error}"),
        }
    }
}

#[test]
fn printers_get_a_fresh_driver() {
    assert_eq!(
        set_up(true, false),
        vec![
            PrinterStep::FindDriverFile,
            PrinterStep::AddPort,
            PrinterStep::AskDriver,
            PrinterStep::DeletePrinter,
            PrinterStep::UninstallDriver,
            PrinterStep::InstallDriver,
            PrinterStep::AskPrinter,
            PrinterStep::AddPrinter,
        ]
    );
    assert_eq!(
        set_up(false, true),
        vec![
            PrinterStep::FindDriverFile,
            PrinterStep::AddPort,
            PrinterStep::AskDriver,
            PrinterStep::InstallDriver,
            PrinterStep::AskPrinter,
        ]
    );
    assert!(matches!(
        install_update_printer(PrinterStep::AddPort, PrinterOutcome::Error("no port".to_owned())),
        PrinterNext::Failed(e) if e == "no port"
    ));
    assert_eq!(
        uninstall_printer(),
        vec![
            PrinterStep::DeletePrinter,
            PrinterStep::UninstallDriver,
            PrinterStep::DeletePort
        ]
    );
}

#[test]
fn streams_are_let_go_exactly_once() {
    let handles = StreamHandles { stream: 1, queue: 2 };
    let mut early = StopState::new();
    assert_eq!(early.frame_arrived(FrameStatus::FrameComplete), FrameAction::Deliver);
    assert_eq!(early.frame_arrived(FrameStatus::FrameIdle), FrameAction::Nothing);
    assert_eq!(early.frame_arrived(FrameStatus::Stopped), FrameAction::Nothing);
    assert_eq!(early.retire(handles), Some(handles));
    assert_eq!(early.frame_arrived(FrameStatus::Stopped), FrameAction::Nothing);

    let mut late = StopState::new();
    assert_eq!(late.retire(handles), None);
    assert_eq!(late.release_if_stopped(), None);
    assert_eq!(
        late.frame_arrived(FrameStatus::Stopped),
        FrameAction::Release(handles)
    );
    assert_eq!(late.frame_arrived(FrameStatus::Stopped), FrameAction::Nothing);
}

#[test]
fn captures_know_their_display() {
    let handles = StreamHandles { stream: 1, queue: 2 };
    let format = PixelFormat { code: 0x42475241 };
    let display = Display { number: 7 };
    let capturer = Capturer::new(display, 1920, 1080, format, handles, 0).unwrap();
    assert_eq!(capturer.width(), 1920);
    assert_eq!(capturer.height(), 1080);
    assert_eq!(capturer.format(), format);
    assert_eq!(capturer.display(), display);
    assert_eq!(capturer.handles(), handles);
    assert_eq!(
        Capturer::new(display, 1, 1, format, handles, 1001).err(),
        Some(1001)
    );
}
