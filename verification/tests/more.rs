use ion_kernel::c_lib::libc::error::{format_error, render_i32, ErrCode};
use ion_kernel::c_lib::libc::mem::{calloc, free, malloc, realloc, valid_request};
use ion_kernel::interrupts::keyboard::keys::{keycode_to_set1, KeyCode};
use ion_kernel::interrupts::keyboard::ps2::Set1Code;
use ion_kernel::io::buf_read::{delimiter_position, until_step};
use ion_kernel::io::error::{Error, ErrorKind};
use ion_kernel::io::read::{IoSliceMut, Read};
use ion_kernel::io::tools::{Empty, Repeat};
use ion_kernel::io::write::{write_step, WriteStep};
use ion_kernel::lib_alloc::heap::Heap;
use ion_kernel::panic::{header, help, note};

#[test]
fn numbers_render_in_decimal() {
    assert_eq!(render_i32(0), "0");
    assert_eq!(render_i32(7), "7");
    assert_eq!(render_i32(10), "10");
    assert_eq!(render_i32(1000), "1000");
    assert_eq!(render_i32(-1), "-1");
    assert_eq!(render_i32(-90210), "-90210");
    assert_eq!(render_i32(i32::MAX), "2147483647");
    assert_eq!(render_i32(i32::MIN), "-2147483648");
    for x in [-123456, -99, -10, 9, 11, 19, 100, 101, 65535, 1_000_000_007] {
        assert_eq!(render_i32(x), x.to_string());
    }
    assert_eq!(format_error("ctx", ErrCode(2)), "ctx: Memory Corruption (os error 2)");
    assert_eq!(format_error("ctx", ErrCode(i32::MIN)), "ctx: (os error -2147483648)");
}

#[test]
fn raw_requests_have_a_greatest_size() {
    assert!(valid_request(0));
    assert!(valid_request(isize::MAX as usize - 15));
    assert!(!valid_request(isize::MAX as usize - 14));
    assert!(!valid_request(usize::MAX));
}

#[test]
fn test_large_alloc() {
    let mut h = Heap::new(0x10_0000, 100 * 1024).unwrap();
    let n: u64 = 1000;
    let mut p = malloc(&mut h, 8);
    let mut len = 1usize;
    assert!(h.write(p, &0u64.to_le_bytes()));
    for i in 1..n {
        if i as usize >= len {
            len *= 2;
            p = realloc(&mut h, p, len * 8);
            assert_ne!(p, 0);
        }
        assert!(h.write(p + i as usize * 8, &i.to_le_bytes()));
    }
    let bytes = h.read(p, n as usize * 8).unwrap();
    let sum: u64 = bytes.chunks(8).map(|c| u64::from_le_bytes(c.try_into().unwrap())).sum();
    assert_eq!(sum, (n - 1) * n / 2);
    free(&mut h, p);
    assert_eq!(h.errno(), 0);
}

#[test]
fn test_freed_mem_used() {
    let mut h = Heap::new(0x10_0000, 1024).unwrap();
    for i in 0..(100 * 1024u64) {
        let x = malloc(&mut h, 8);
        assert_eq!(x, 0x10_0008);
        assert!(h.write(x, &i.to_le_bytes()));
        assert_eq!(h.read_word(x), i);
        free(&mut h, x);
    }
    assert_eq!(h.errno(), 0);
}

#[test]
fn test_alloc_tools() {
    let mut h = Heap::new(0x10_0000, 4096).unwrap();
    let boxed = malloc(&mut h, 8);
    assert!(h.write(boxed, &3u64.to_le_bytes()));
    assert_eq!(h.read_word(boxed), 3);
    let vec = calloc(&mut h, 4, 8);
    for i in 0..4u64 {
        assert!(h.write(vec + i as usize * 8, &i.to_le_bytes()));
    }
    for i in 0..4u64 {
        assert_eq!(h.read_word(vec + i as usize * 8), i);
    }
    let text = malloc(&mut h, 13);
    assert!(h.write(text, b"Hello, World!"));
    assert_eq!(h.read(text, 13).unwrap(), b"Hello, World!");
    assert_eq!(h.read_word(boxed), 3);
    free(&mut h, boxed);
    free(&mut h, vec);
    free(&mut h, text);
    assert_eq!(malloc(&mut h, 4088), 0x10_0008);
}

#[test]
fn keys_have_their_set_1_codes() {
    assert_eq!(keycode_to_set1(KeyCode::Escape), Some(Set1Code::Single(0x01)));
    assert_eq!(keycode_to_set1(KeyCode::Key1), Some(Set1Code::Single(0x02)));
    assert_eq!(keycode_to_set1(KeyCode::Q), Some(Set1Code::Single(0x10)));
    assert_eq!(keycode_to_set1(KeyCode::Return), Some(Set1Code::Single(0x1C)));
    assert_eq!(keycode_to_set1(KeyCode::CapsLock), Some(Set1Code::Single(0x1D)));
    assert_eq!(keycode_to_set1(KeyCode::Spacebar), Some(Set1Code::Single(0x39)));
    assert_eq!(keycode_to_set1(KeyCode::F10), Some(Set1Code::Single(0x44)));
    assert_eq!(keycode_to_set1(KeyCode::F11), Some(Set1Code::Single(0x57)));
    assert_eq!(keycode_to_set1(KeyCode::F12), Some(Set1Code::Single(0x58)));
    assert_eq!(keycode_to_set1(KeyCode::Numpad0), Some(Set1Code::Single(0x52)));
    assert_eq!(keycode_to_set1(KeyCode::Insert), Some(Set1Code::Extended(0x52)));
    assert_eq!(keycode_to_set1(KeyCode::ArrowUp), Some(Set1Code::Extended(0x48)));
    assert_eq!(keycode_to_set1(KeyCode::Numpad8), Some(Set1Code::Single(0x48)));
    assert_eq!(keycode_to_set1(KeyCode::RControl), Some(Set1Code::Extended(0x1D)));
    assert_eq!(keycode_to_set1(KeyCode::NumpadEnter), Some(Set1Code::Extended(0x1C)));
    assert_eq!(keycode_to_set1(KeyCode::RWin), Some(Set1Code::Extended(0x5C)));
    assert_eq!(keycode_to_set1(KeyCode::Apps), Some(Set1Code::Extended(0x5B)));
    assert_eq!(keycode_to_set1(KeyCode::PauseBreak), None);
    assert_eq!(keycode_to_set1(KeyCode::PrintScreen), None);
    assert_eq!(keycode_to_set1(KeyCode::LControl), None);
    assert_eq!(keycode_to_set1(KeyCode::LWin), None);
}

#[test]
fn delimiters_and_steps() {
    assert_eq!(delimiter_position(b"ab\ncd\n", b'\n'), Some(2));
    assert_eq!(delimiter_position(b"\n", b'\n'), Some(0));
    assert_eq!(delimiter_position(b"abc", b'\n'), None);
    assert_eq!(delimiter_position(b"", b'\n'), None);
    let mut buf = vec![b'>'];
    assert_eq!(until_step(b"ab\ncd\n", b'\n', &mut buf), (3, true));
    assert_eq!(buf, b">ab\n");
    assert_eq!(until_step(b"cd", b'\n', &mut buf), (2, false));
    assert_eq!(buf, b">ab\ncd");
    assert_eq!(until_step(b"", b'\n', &mut buf), (0, false));
    assert_eq!(buf, b">ab\ncd");
    assert_eq!(until_step(b"\nx", b'\n', &mut buf), (1, true));
    assert_eq!(buf, b">ab\ncd\n");
}

#[test]
fn vectored_read_fills_the_first_buffer_with_room() {
    let mut a: [u8; 0] = [];
    let mut b = [0u8; 3];
    let mut c = [0u8; 2];
    {
        let mut bufs = [IoSliceMut::new(&mut a), IoSliceMut::new(&mut b), IoSliceMut::new(&mut c)];
        assert!(bufs[0].is_empty());
        assert_eq!(bufs[1].len(), 3);
        assert_eq!(Repeat::new(9).read_vectored(&mut bufs).unwrap(), 3);
        bufs[2].get_mut()[1] = 4;
        assert_eq!(Empty.read_vectored(&mut bufs).unwrap(), 0);
    }
    assert_eq!(b, [9, 9, 9]);
    assert_eq!(c, [0, 4]);
    let mut none: [IoSliceMut; 0] = [];
    assert_eq!(Repeat::new(9).read_vectored(&mut none).unwrap(), 0);
}

#[test]
fn panic_report_lines() {
    assert_eq!(header(Some("src/lib.rs:3:1"), true), "Unwinding panic caused at src/lib.rs:3:1: ");
    assert_eq!(header(Some("src/lib.rs:3:1"), false), "abort: panic caused at src/lib.rs:3:1: ");
    assert_eq!(header(None, true), "Unwinding panic caused at unknown location: ");
    assert_eq!(header(None, false), "abort: panic caused at unknown location: ");
    assert_eq!(note(true), "=> note: debug assertions are ON.");
    assert_eq!(note(false), "=> note: Debug assertions are OFF.");
    assert_eq!(help(true), None);
    assert_eq!(help(false), Some("=> help: It is recommended to use debug assertions when developing."));
}

#[test]
fn every_error_kind_has_its_text() {
    let table = [
        (ErrorKind::AlreadyExists, "already exists"),
        (ErrorKind::Deadlock, "avoided deadlock"),
        (ErrorKind::InProgress, "in progress"),
        (ErrorKind::Interrupted, "interrupted"),
        (ErrorKind::InvalidData, "invalid data"),
        (ErrorKind::InvalidInput, "invalid input"),
        (ErrorKind::MemoryError, "memory error"),
        (ErrorKind::NotFound, "resource not found"),
        (ErrorKind::NotSeekable, "seek on unseekable reader"),
        (ErrorKind::PermissionDenied, "permission denied"),
        (ErrorKind::QuotaExceeded, "quota exceeded"),
        (ErrorKind::ResourceBusy, "resource busy"),
        (ErrorKind::StorageFull, "storage full"),
        (ErrorKind::TimedOut, "timed out"),
        (ErrorKind::TooManyArguments, "too many arguments"),
        (ErrorKind::UnexpectedEof, "unexpected end of file"),
        (ErrorKind::Unsupported, "unsupported operation"),
        (ErrorKind::WouldBlock, "non blocking operation must block"),
        (ErrorKind::WriteZero, "write to zeroed reader"),
        (ErrorKind::Other, "unknown error"),
    ];
    for (kind, text) in table {
        assert_eq!(kind.as_str(), text);
        assert_eq!(Error::from_kind(kind).message(), text);
    }
    let mut e = Error::new(ErrorKind::NotFound, "a");
    e.get_mut().unwrap().push('b');
    assert_eq!(e.message(), "resource not found: ab");
    assert_eq!(e.kind(), Some(ErrorKind::NotFound));
    assert!(Error::from_kind(ErrorKind::Other).get_mut().is_none());
}

#[test]
fn write_step_judges_a_write() {
    assert!(matches!(write_step(Ok(4), 4), WriteStep::Done));
    assert!(matches!(write_step(Ok(1), 4), WriteStep::Advance(1)));
    assert!(matches!(write_step(Ok(3), 4), WriteStep::Advance(3)));
    match write_step(Ok(0), 4) {
        WriteStep::Fail(e) => assert_eq!(e.message(), "unexpected end of file: early EOF"),
        _ => panic!("a write that takes nothing must fail"),
    }
    match write_step(Err(Error::from_kind(ErrorKind::StorageFull)), 1) {
        WriteStep::Fail(e) => assert_eq!(e.kind(), Some(ErrorKind::StorageFull)),
        _ => panic!("an error of the write must fail"),
    }
    match write_step(Err(Error::from_kind(ErrorKind::Interrupted)), 1) {
        WriteStep::Fail(e) => assert_eq!(e.kind(), Some(ErrorKind::Interrupted)),
        _ => panic!("an interrupted write is not made again"),
    }
}
