use ion_kernel::c_lib::bit::{read_bit, set_bit, IntoBit};
use ion_kernel::c_lib::bit_flags::{BitFlags, RegionBound, SetRegionError, Uint};
use ion_kernel::c_lib::cpuid::{assert_cpuid_features, optional_missing, required_missing, Feature};
use ion_kernel::c_lib::libc::math::{abs, div, labs, ldiv, rand, rng, srand, DivT, LDivT};
use ion_kernel::c_lib::{BootInfoC, BootInfoInput, SmallPtr};
use ion_kernel::interrupts::keyboard::ps2::{
    ack_step, get_scancode_set, map_scancode_id, parse_resp, scancode_reply, send_with_ack,
    set_scancode_set, sub_command, AckStep, Ps2Error, Ps2Io, Ps2Resp, ScancodeSet, Set1Code,
};
use ion_kernel::io::error::{decode_os_code, Error, ErrorData, ErrorKind};
use ion_kernel::io::buf_read::BufRead;
use ion_kernel::io::read::{exact_step, is_eof, Chain, ExactStep, Read, Take, DEFAULT_BUF_SIZE};
use ion_kernel::io::seek::{Seek, SeekFrom};
use ion_kernel::io::tools::{Empty, Repeat, Sink};
use ion_kernel::io::write::{IoSlice, Write};
use ion_kernel::lib_alloc::heap::Heap;
use ion_kernel::log::{is_shown, level_color, Level};
use ion_kernel::test::{tally, Tally, TestInfo, TestResult, Testable};
use ion_kernel::text::{
    query_print_color, reset_print_color, set_print_color, shown, Color, ColorCode, ScreenChar,
    Writer,
};

#[test]
fn bits_read_and_set() {
    assert!(read_bit(0b100, 2));
    assert!(!read_bit(0b100, 1));
    assert!(read_bit(1 << 31, 31));
    let mut v = 0usize;
    set_bit(&mut v, 3, true);
    assert_eq!(v, 8);
    set_bit(&mut v, 0, 1u8);
    assert_eq!(v, 9);
    set_bit(&mut v, 3, 0i64);
    assert_eq!(v, 1);
    set_bit(&mut v, 5, false);
    assert_eq!(v, 1);
}

#[test]
fn into_bit_takes_zero_and_one_only() {
    assert_eq!(true.into_bit(), Some(true));
    assert_eq!(false.into_bit(), Some(false));
    assert_eq!(0u8.into_bit(), Some(false));
    assert_eq!(1u16.into_bit(), Some(true));
    assert_eq!(2u32.into_bit(), None);
    assert_eq!(1u64.into_bit(), Some(true));
    assert_eq!(7usize.into_bit(), None);
    assert_eq!((-1i8).into_bit(), None);
    assert_eq!(0i16.into_bit(), Some(false));
    assert_eq!(1i32.into_bit(), Some(true));
    assert_eq!(i64::MIN.into_bit(), None);
    assert_eq!(1isize.into_bit(), Some(true));
}

#[test]
fn bit_flags_read_and_set() {
    let mut f = BitFlags::new(0b1010u32);
    assert!(f.read_flag(1));
    assert!(!f.read_flag(0));
    assert!(!f.read_flag(32));
    assert!(!f.read_flag(63));
    f.set_flag(0, true);
    assert_eq!(f.bits(), 0b1011);
    f.set_flag(3, false);
    assert_eq!(f.bits(), 0b0011);
    f.set_flag(40, true);
    assert_eq!(f.bits(), 0b0011);
    f.set_flag(31, true);
    assert_eq!(f.bits(), 0x8000_0003);
    f.set_all();
    assert_eq!(f.bits(), u32::MAX);
    f.unset_all();
    assert_eq!(f, BitFlags::new_unset());
    assert_eq!(BitFlags::<u32>::flag_count(), 32);
    assert_eq!(BitFlags::<u8>::flag_count(), 8);
    assert_eq!(BitFlags::<u16>::flag_count(), 16);
    assert_eq!(BitFlags::<u64>::flag_count(), 64);
    assert_eq!(BitFlags::<usize>::flag_count(), usize::BITS as usize);
}

#[test]
fn bit_flags_of_other_widths() {
    let mut b = BitFlags::new(0u8);
    b.set_flag(7, true);
    assert_eq!(b.bits(), 0x80);
    b.set_flag(8, true);
    assert_eq!(b.bits(), 0x80);
    assert!(b.read_flag(7));
    assert!(!b.read_flag(8));
    b.set_all();
    assert_eq!(b.bits(), u8::MAX);
    let mut w = BitFlags::new(0u64);
    w.set_flag(63, true);
    assert_eq!(w.bits(), 1 << 63);
    assert!(w.read_flag(63));
    w.set_flag(63, false);
    assert_eq!(w.bits(), 0);
    let mut h = BitFlags::new(0u16);
    assert_eq!(h.set_region(RegionBound::Unbounded, RegionBound::Unbounded, &[true; 16]), Ok(()));
    assert_eq!(h.bits(), u16::MAX);
    let mut s = BitFlags::new(5usize);
    s.set_flag(1, true);
    assert_eq!(s.bits(), 7);
    assert_eq!(u8::from_u64(0x1ff), 0xff);
    assert_eq!(0xabcdu16.into_u64(), 0xabcd);
    assert_eq!(u32::bit_count(), 32);
}

#[test]
fn bit_flags_set_region() {
    let mut f = BitFlags::new(0u32);
    let r = f.set_region(RegionBound::Included(0), RegionBound::Included(3), &[true, false, true]);
    assert_eq!(r, Ok(()));
    assert_eq!(f.bits(), 0b101);
    let mut g = BitFlags::new(0xFFu32);
    let r = g.set_region(
        RegionBound::Excluded(0),
        RegionBound::Excluded(6),
        &[true, false, true, false],
    );
    assert_eq!(r, Ok(()));
    assert_eq!(g.bits(), 0xFF & !0b1010 | 0b0100);
    let mut e = BitFlags::new(7u32);
    let r = e.set_region(RegionBound::Included(2), RegionBound::Included(4), &[true]);
    assert_eq!(r, Err(SetRegionError { upper_bound: 4, lower_bound: 2, slice_len: 1 }));
    assert_eq!(e.bits(), 7);
    let mut u = BitFlags::new(0u32);
    let vals = [true; 32];
    assert_eq!(u.set_region(RegionBound::Unbounded, RegionBound::Unbounded, &vals), Ok(()));
    assert_eq!(u.bits(), u32::MAX);
}

#[test]
fn bit_flags_texts() {
    assert_eq!(BitFlags::new(0b1010u32).binary(), "0b1010");
    assert_eq!(BitFlags::new(0u8).binary(), "0b0");
    assert_eq!(BitFlags::new(1u64).binary(), "0b1");
    assert_eq!(BitFlags::new(u32::MAX).binary(), format!("{:#b}", u32::MAX));
    assert_eq!(BitFlags::new(0x8000_0001u32).binary(), format!("{:#b}", 0x8000_0001u32));
    assert_eq!(BitFlags::new(u64::MAX).binary(), format!("{:#b}", u64::MAX));
    let e = SetRegionError { upper_bound: 14, lower_bound: 2, slice_len: 100 };
    assert_eq!(e.message(), "Expected a slice for the range 2->14 (12), but instead got a slice of len 100");
    let e = SetRegionError { upper_bound: 0, lower_bound: 0, slice_len: 0 };
    assert_eq!(e.message(), "Expected a slice for the range 0->0 (0), but instead got a slice of len 0");
}

#[test]
fn bit_flags_read_region() {
    let f = BitFlags::new(0b0110_0101u32);
    let mut buf = vec![true; 8];
    let region = f.read_region_into(RegionBound::Included(1), RegionBound::Excluded(7), &mut buf);
    assert_eq!(region, vec![false, true, false, false, true, true]);
    assert_eq!(buf, vec![true, false, true, false, false, true, true, true]);
    let mut wide = vec![false; 40];
    let all = f.read_region_into(RegionBound::Unbounded, RegionBound::Unbounded, &mut wide);
    assert_eq!(all.len(), 33);
    assert!(all[0] && !all[1] && all[2] && all[5] && all[6] && !all[7] && !all[32]);
    let mut one = vec![true; 4];
    let none = f.read_region_into(RegionBound::Excluded(2), RegionBound::Included(2), &mut one);
    assert_eq!(none, Vec::<bool>::new());
    assert_eq!(one, vec![true; 4]);
}

#[test]
fn math_helpers() {
    assert_eq!(abs(-5), 5);
    assert_eq!(abs(5), 5);
    assert_eq!(abs(0), 0);
    assert_eq!(labs(-5_000_000_000), 5_000_000_000);
    assert_eq!(div(7, 2), DivT { quot: 3, rem: 1 });
    assert_eq!(div(-7, 2), DivT { quot: -3, rem: -1 });
    assert_eq!(div(7, -2), DivT { quot: -3, rem: 1 });
    assert_eq!(ldiv(10, 5), LDivT { quot: 2, rem: 0 });
    assert_eq!(ldiv(-9, -4), LDivT { quot: 2, rem: -1 });
}

#[test]
fn rand_is_the_documented_generator() {
    let mut state = rng();
    assert_eq!(state.next, 1);
    assert_eq!(rand(&mut state), 16838);
    assert_eq!(state.next, 1103527590);
    assert_eq!(rand(&mut state), 5758);
    srand(&mut state, 42);
    assert_eq!(state.next, 42);
    let r = rand(&mut state);
    assert_eq!(state.next, 42u32.wrapping_mul(1103515245).wrapping_add(12345));
    assert_eq!(r as u32, (state.next / 65536) % 32768);
}

#[test]
fn cpuid_required_and_optional_features() {
    let all = BitFlags::new(u32::MAX);
    let none = BitFlags::new(0u32);
    assert_eq!(required_missing(all, all), None);
    assert_eq!(required_missing(none, all), Some(Feature::Fpu));
    assert_eq!(required_missing(BitFlags::new(u32::MAX & !(1 << 15)), none), Some(Feature::Cmov));
    assert_eq!(required_missing(all, none), Some(Feature::Cx16));
    assert_eq!(optional_missing(all, all, true), vec![]);
    assert_eq!(
        optional_missing(none, none, false),
        vec![
            Feature::Pse,
            Feature::Tsc,
            Feature::SseGeneral,
            Feature::Popcnt,
            Feature::Osxsave,
            Feature::Pcid,
            Feature::X2Apic,
            Feature::Xsave,
            Feature::Avx,
            Feature::SseAdditional,
        ]
    );
    assert_eq!(optional_missing(all, BitFlags::new(u32::MAX & !(1 << 5)), true), vec![Feature::Vmx]);
    assert_eq!(optional_missing(all, BitFlags::new(u32::MAX & !(1 << 5)), false), vec![]);
    assert_eq!(
        optional_missing(BitFlags::new(u32::MAX & !(1 << 26)), BitFlags::new(u32::MAX & !(1 << 9)), true),
        vec![Feature::SseGeneral, Feature::SseAdditional]
    );
    assert_eq!(Feature::X2Apic.name(), "x2APIC");
    assert_eq!(Feature::SseAdditional.name(), "SSE_ADDITIONAL");
    let mut h = Heap::new(8, 8).unwrap();
    assert_eq!(assert_cpuid_features(&mut h, all, all, true), Ok(vec![]));
    assert_eq!(h.errno(), 0);
    assert_eq!(assert_cpuid_features(&mut h, all, none, true), Err(Feature::Cx16));
    assert_eq!(h.errno(), 7);
}

#[test]
fn boot_info_conversion() {
    let input = BootInfoInput {
        multiboot_magic: 0x36d76289,
        multiboot_info: 0x9000,
        cpuid_edx: 0b11,
        cpuid_ecx: 1 << 13,
        page_table_base: 0x1000,
        stack_top: 0x8000,
        framebuffer_addr: 77,
        memory_map_addr: 88,
        kernel_entry: 0x10_0000,
    };
    let info = input.into_rust();
    assert_eq!(info.multiboot_magic, 0x36d76289);
    assert_eq!(info.multiboot_info, SmallPtr::new_unchecked(0x9000));
    assert_eq!(info.multiboot_info.into_inner(), 0x9000);
    assert!(info.cpuid_edx.read_flag(1));
    assert!(info.cpuid_ecx.read_flag(13));
    assert_eq!(info.page_table_base, 0x1000);
    assert_eq!(info.stack_top, 0x8000);
    assert_eq!(info.frame_buffer, 0);
    assert_eq!(info.mem_map_addr, 0);
    assert_eq!(info.kernel_entry, 0x10_0000);
    assert_eq!(BootInfoC { input: Some(input), valid: true }.into_inner(), Ok(input));
    assert_eq!(BootInfoC { input: Some(input), valid: false }.into_inner(), Err(input));
}

struct Script {
    replies: Vec<Result<u8, Ps2Error>>,
    sent: Vec<u8>,
    delays: usize,
    write_error: Option<Ps2Error>,
}

impl Script {
    fn new(replies: Vec<Result<u8, Ps2Error>>) -> Script {
        Script { replies, sent: Vec::new(), delays: 0, write_error: None }
    }
}

impl Ps2Io for Script {
    fn write_data(&mut self, byte: u8) -> Result<(), Ps2Error> {
        if let Some(e) = self.write_error {
            return Err(e);
        }
        self.sent.push(byte);
        Ok(())
    }

    fn read_data(&mut self) -> Result<u8, Ps2Error> {
        if self.replies.is_empty() {
            Err(Ps2Error::Timeout)
        } else {
            self.replies.remove(0)
        }
    }

    fn tiny_delay(&mut self) {
        self.delays += 1;
    }
}

#[test]
fn ps2_replies_and_identifiers() {
    assert_eq!(parse_resp(0xFA), Some(Ps2Resp::Ack));
    assert_eq!(parse_resp(0xFE), Some(Ps2Resp::Resend));
    assert_eq!(parse_resp(0x00), None);
    assert_eq!(map_scancode_id(1), Some(ScancodeSet::Set1));
    assert_eq!(map_scancode_id(2), Some(ScancodeSet::Set2));
    assert_eq!(map_scancode_id(3), Some(ScancodeSet::Set3));
    assert_eq!(map_scancode_id(0x43), Some(ScancodeSet::Set1));
    assert_eq!(map_scancode_id(0x41), Some(ScancodeSet::Set2));
    assert_eq!(map_scancode_id(0x3F), Some(ScancodeSet::Set3));
    assert_eq!(map_scancode_id(0), None);
    assert_eq!(ack_step(0xFA, 5, 5), AckStep::Done);
    assert_eq!(ack_step(0xFE, 4, 5), AckStep::Retry);
    assert_eq!(ack_step(0xFE, 5, 5), AckStep::Fail(Ps2Error::ResendLimit));
    assert_eq!(ack_step(0x12, 0, 5), AckStep::Fail(Ps2Error::UnexpectedByte(0x12)));
    assert_eq!(sub_command(ScancodeSet::Unset), 1);
    assert_eq!(sub_command(ScancodeSet::Set1), 1);
    assert_eq!(sub_command(ScancodeSet::Set2), 2);
    assert_eq!(sub_command(ScancodeSet::Set3), 3);
    assert_eq!(scancode_reply(0x41), Ok(ScancodeSet::Set2));
    assert_eq!(scancode_reply(0x44), Err(Ps2Error::InvalidScancodeId(0x44)));
    assert_ne!(Set1Code::Single(0x1C), Set1Code::Extended(0x1C));
}

#[test]
fn ps2_send_with_ack_resends_up_to_the_limit() {
    let mut io = Script::new(vec![Ok(0xFE), Ok(0xFE), Ok(0xFA)]);
    assert_eq!(send_with_ack(&mut io, 0xF0, 5), Ok(()));
    assert_eq!(io.sent, vec![0xF0, 0xF0, 0xF0]);
    assert_eq!(io.delays, 2);
    let mut io = Script::new(vec![Ok(0xFE), Ok(0xFE), Ok(0xFE)]);
    assert_eq!(send_with_ack(&mut io, 0x01, 2), Err(Ps2Error::ResendLimit));
    assert_eq!(io.sent.len(), 3);
    let mut io = Script::new(vec![Ok(0xFE)]);
    assert_eq!(send_with_ack(&mut io, 0x01, 0), Err(Ps2Error::ResendLimit));
    let mut io = Script::new(vec![Ok(0x55)]);
    assert_eq!(send_with_ack(&mut io, 0x01, 2), Err(Ps2Error::UnexpectedByte(0x55)));
    let mut io = Script::new(vec![]);
    assert_eq!(send_with_ack(&mut io, 0x01, 2), Err(Ps2Error::Timeout));
    let mut io = Script::new(vec![Ok(0xFA)]);
    io.write_error = Some(Ps2Error::NoAck);
    assert_eq!(send_with_ack(&mut io, 0x01, 2), Err(Ps2Error::NoAck));
}

#[test]
fn ps2_set_and_get_scancode_set() {
    let mut io = Script::new(vec![Ok(0xFA), Ok(0xFA)]);
    assert_eq!(set_scancode_set(&mut io, ScancodeSet::Set2), Ok(()));
    assert_eq!(io.sent, vec![0xF0, 0x02]);
    let mut io = Script::new(vec![Ok(0xFA), Ok(0xFE), Ok(0xFA)]);
    assert_eq!(set_scancode_set(&mut io, ScancodeSet::Unset), Ok(()));
    assert_eq!(io.sent, vec![0xF0, 0x01, 0x01]);
    let mut io = Script::new(vec![Ok(0x00)]);
    assert_eq!(set_scancode_set(&mut io, ScancodeSet::Set3), Err(Ps2Error::UnexpectedByte(0)));
    let mut io = Script::new(vec![Ok(0xFA), Ok(0xFA), Ok(0x41)]);
    assert_eq!(get_scancode_set(&mut io), Ok(ScancodeSet::Set2));
    assert_eq!(io.sent, vec![0xF0, 0x00]);
    let mut io = Script::new(vec![Ok(0xFA), Ok(0xFA), Ok(0x07)]);
    assert_eq!(get_scancode_set(&mut io), Err(Ps2Error::InvalidScancodeId(7)));
    let mut io = Script::new(vec![Ok(0xFA), Ok(0xFA)]);
    assert_eq!(get_scancode_set(&mut io), Err(Ps2Error::Timeout));
}

#[test]
fn io_error_kinds_and_texts() {
    assert_eq!(ErrorKind::NotFound.as_str(), "resource not found");
    assert_eq!(ErrorKind::WouldBlock.as_str(), "non blocking operation must block");
    assert_eq!(ErrorKind::WriteZero.as_str(), "write to zeroed reader");
    assert_eq!(ErrorKind::Other.as_str(), "unknown error");
    assert_eq!(ErrorKind::default(), ErrorKind::Other);
    assert_eq!(decode_os_code(0), None);
    assert_eq!(decode_os_code(1), Some(ErrorKind::Other));
    assert_eq!(decode_os_code(2), Some(ErrorKind::InvalidData));
    assert_eq!(decode_os_code(3), Some(ErrorKind::Interrupted));
    assert_eq!(decode_os_code(4), Some(ErrorKind::Other));
    assert_eq!(decode_os_code(5), Some(ErrorKind::MemoryError));
    assert_eq!(decode_os_code(6), Some(ErrorKind::InvalidInput));
    assert_eq!(decode_os_code(7), Some(ErrorKind::Unsupported));
    assert_eq!(decode_os_code(-9), Some(ErrorKind::Other));
}

#[test]
fn io_error_constructors_and_accessors() {
    let e = Error::new(ErrorKind::NotFound, "could not find the file.");
    assert_eq!(e.kind(), Some(ErrorKind::NotFound));
    assert_eq!(e.os_code(), None);
    assert_eq!(e.get_ref().map(|s| s.as_str()), Some("could not find the file."));
    assert_eq!(e.message(), "resource not found: could not find the file.");
    assert_eq!(e.into_inner(), Some(String::from("could not find the file.")));
    let e = Error::other("It failed!");
    assert_eq!(e.kind(), Some(ErrorKind::Other));
    assert_eq!(e.message(), "unknown error: It failed!");
    let e = Error::from_static_msg(ErrorKind::TimedOut, "could not finish operation in time");
    assert_eq!(e.kind(), None);
    assert!(e.get_ref().is_none());
    assert_eq!(e.message(), "timed out: could not finish operation in time");
    assert_eq!(e.into_inner(), None);
    let e = Error::from_kind(ErrorKind::MemoryError);
    assert_eq!(e.kind(), Some(ErrorKind::MemoryError));
    assert_eq!(e.message(), "memory error");
    let mut h = Heap::new(8, 8).unwrap();
    h.set_errno(5);
    let e = Error::last_os_err(&h);
    assert_eq!(e.os_code(), Some(5));
    assert_eq!(e.kind(), Some(ErrorKind::MemoryError));
    assert_eq!(e.message(), "memory error (os error 5)");
    h.set_errno(0);
    let e = Error::last_os_err(&h);
    assert_eq!(e.kind(), None);
    assert_eq!(e.message(), "unknown error (os error 0)");
    h.set_errno(-12);
    assert_eq!(Error::last_os_err(&h).message(), "unknown error (os error -12)");
    assert_eq!(Error::early_eof().message(), "unexpected end of file: early EOF");
    assert_eq!(
        Error::unseekable_infinite().message(),
        "seek on unseekable reader: cannot `SeekFrom::End` because the reader/writer is endless."
    );
    assert_eq!(
        Error::unreadable_infinite().message(),
        "non blocking operation must block: cannot read the reader because it would block infinitely."
    );
    assert_eq!(
        Error::write_to_empty().message(),
        "write to zeroed reader: needed a non-empty reader, but `read` returned EOF"
    );
    assert!(matches!(Error::early_eof().into_inner(), None));
    let _ = ErrorData::Os(1);
}

#[test]
fn readers_and_writers() {
    assert!(is_eof(&Ok(0)));
    assert!(!is_eof(&Ok(1)));
    assert!(!is_eof(&Err(Error::early_eof())));
    assert_eq!(DEFAULT_BUF_SIZE, 1024);
    let mut r = Repeat::new(0xAB);
    let mut buf = [0u8; 5];
    assert_eq!(r.read(&mut buf).unwrap(), 5);
    assert_eq!(buf, [0xAB; 5]);
    assert_eq!(r.seek(SeekFrom::End(-3)).unwrap(), 0);
    assert!(r.rewind().is_ok());
    assert_eq!(r.len().unwrap(), 0);
    assert_eq!(r.current_position().unwrap(), 0);
    assert!(r.seek_relative(4).is_ok());
    assert!(!r.is_endless());
    assert!(!r.is_read_vectored());
    assert_eq!(r.size_hint(), None);
    assert_eq!(Repeat::zeros(), Repeat::new(0));
    let mut e = Empty;
    assert_eq!(e.read(&mut buf).unwrap(), 0);
    assert_eq!(buf, [0xAB; 5]);
    assert_eq!(e.write(&[1, 2]).unwrap(), 0);
    assert_eq!(e.write_all(&[1, 2]).unwrap_err().kind(), None);
    assert_eq!(
        e.write_all(&[]).unwrap_err().message(),
        "write to zeroed reader: needed a non-empty reader, but `read` returned EOF"
    );
    assert!(e.write_all_vectored(&[IoSlice::new(&[1])]).is_ok());
    assert_eq!(e.write_vectored(&[IoSlice::new(&[1])]).unwrap(), 0);
    assert_eq!(e.seek(SeekFrom::Start(9)).unwrap(), 0);
    assert_eq!(e.size_hint(), Some(0));
    assert_eq!(e.fill_buf().unwrap(), &[] as &[u8]);
    e.consume(3);
    assert_eq!(e.has_data_left().unwrap(), false);
    assert_eq!(BufRead::read_exact(&mut e, &mut buf).unwrap_err().message(), "unexpected end of file: early EOF");
    assert!(BufRead::read_exact(&mut e, &mut []).is_ok());
    assert!(e.flush().is_ok());
    let mut s = Sink;
    assert_eq!(s.write(&[1, 2, 3]).unwrap(), 3);
    assert!(s.write_all(&[1, 2, 3]).is_ok());
    assert!(!s.is_write_vectored());
    assert_eq!(s.write_vectored(&[IoSlice::new(&[1, 2]), IoSlice::new(&[]), IoSlice::new(&[3])]).unwrap(), 3);
    assert_eq!(s.seek(SeekFrom::Current(1)).unwrap(), 0);
    let bytes = [1u8, 2, 3];
    assert_eq!(IoSlice::new(&bytes).as_slice(), &[1, 2, 3]);
}

struct Slow {
    taken: Vec<u8>,
    step: usize,
    room: usize,
}

impl Write for Slow {
    fn write(&mut self, buf: &[u8]) -> Result<usize, Error> {
        let n = buf.len().min(self.step).min(self.room);
        self.taken.extend_from_slice(&buf[..n]);
        self.room -= n;
        Ok(n)
    }
}

#[test]
fn write_all_writes_in_as_many_writes_as_it_takes() {
    let mut w = Slow { taken: Vec::new(), step: 2, room: 100 };
    assert!(w.write_all(&[1, 2, 3, 4, 5]).is_ok());
    assert_eq!(w.taken, vec![1, 2, 3, 4, 5]);
    let mut w = Slow { taken: Vec::new(), step: 2, room: 3 };
    let e = w.write_all(&[1, 2, 3, 4, 5]).unwrap_err();
    assert_eq!(e.message(), "unexpected end of file: early EOF");
    assert_eq!(w.taken, vec![1, 2, 3]);
    let mut w = Slow { taken: Vec::new(), step: 4, room: 100 };
    let bufs = [IoSlice::new(&[1, 2, 3]), IoSlice::new(&[]), IoSlice::new(&[4, 5, 6, 7, 8]), IoSlice::new(&[9])];
    assert_eq!(w.write_vectored(&bufs).unwrap(), 7);
    assert_eq!(w.taken, vec![1, 2, 3, 4, 5, 6, 7]);
    let mut w = Slow { taken: Vec::new(), step: 4, room: 100 };
    assert!(w.write_all_vectored(&bufs).is_ok());
    assert_eq!(w.taken, vec![1, 2, 3, 4, 5, 6, 7, 8, 9]);
}

#[test]
fn take_limits_and_chain_joins() {
    let mut t = Take::new(Repeat::new(7), 10);
    assert_eq!(t.limit(), 10);
    assert_eq!(t.clamp(4), 4);
    assert_eq!(t.clamp(40), 10);
    assert!(t.is_read_vectored());
    let mut buf = [0u8; 4];
    assert_eq!(t.read(&mut buf).unwrap(), 4);
    assert_eq!(buf, [7; 4]);
    assert_eq!(t.limit(), 6);
    let mut big = [1u8; 9];
    assert_eq!(t.read(&mut big).unwrap(), 6);
    assert_eq!(big, [7, 7, 7, 7, 7, 7, 1, 1, 1]);
    assert_eq!(t.limit(), 0);
    let mut after = [2u8; 3];
    assert_eq!(t.read(&mut after).unwrap(), 0);
    assert_eq!(after, [2; 3]);
    t.set_limit(2);
    assert_eq!(t.limit(), 2);
    assert_eq!(*t.get_ref(), Repeat::new(7));
    assert_eq!(t.into_inner(), Repeat::new(7));
    let mut c = Chain::new(Take::new(Repeat::new(1), 3), Take::new(Repeat::new(2), 2));
    let mut buf = [0u8; 4];
    assert_eq!(c.read(&mut buf).unwrap(), 3);
    assert_eq!(buf, [1, 1, 1, 0]);
    assert_eq!(c.read(&mut buf).unwrap(), 2);
    assert_eq!(buf, [2, 2, 1, 0]);
    assert_eq!(c.read(&mut buf).unwrap(), 0);
}

#[test]
fn exact_step_judges_a_read() {
    assert!(matches!(exact_step(Ok(4), 4), ExactStep::Full));
    assert!(matches!(exact_step(Ok(0), 0), ExactStep::Full));
    assert!(matches!(exact_step(Ok(3), 4), ExactStep::Advance(3)));
    match exact_step(Ok(0), 4) {
        ExactStep::Fail(e) => assert_eq!(e.message(), "unexpected end of file: early EOF"),
        _ => panic!("an early end must fail"),
    }
    assert!(matches!(exact_step(Err(Error::from_kind(ErrorKind::Interrupted)), 4), ExactStep::Retry));
    assert!(matches!(exact_step(Err(Error::new(ErrorKind::Interrupted, "again")), 4), ExactStep::Retry));
    let mut h = Heap::new(8, 8).unwrap();
    h.set_errno(3);
    assert!(matches!(exact_step(Err(Error::last_os_err(&h)), 4), ExactStep::Retry));
    match exact_step(Err(Error::from_static_msg(ErrorKind::Interrupted, "no kind")), 4) {
        ExactStep::Fail(e) => assert_eq!(e.message(), "interrupted: no kind"),
        _ => panic!("a message error has no kind"),
    }
    match exact_step(Err(Error::from_kind(ErrorKind::TimedOut)), 4) {
        ExactStep::Fail(e) => assert_eq!(e.kind(), Some(ErrorKind::TimedOut)),
        _ => panic!("any other error must fail"),
    }
}

#[test]
fn colors_and_color_codes() {
    assert_eq!(ColorCode::new(Color::White, Color::Black), ColorCode(15));
    assert_eq!(ColorCode::new(Color::Yellow, Color::Blue), ColorCode(0x1E));
    assert_eq!(ColorCode::new(Color::Black, Color::White), ColorCode(0xF0));
    assert_eq!(ColorCode(0x1E).tupled(), (Color::Yellow, Color::Blue));
    assert_eq!(ColorCode(0xC4).tupled(), (Color::Red, Color::LightRed));
    assert_eq!(Color::Pink.code(), 13);
    assert_eq!(Color::from_code(6), Color::Brown);
    for c in 0..16u8 {
        assert_eq!(Color::from_code(c).code(), c);
    }
    assert_eq!(shown('a'), b'a');
    assert_eq!(shown('~'), b'~');
    assert_eq!(shown(' '), b' ');
    assert_eq!(shown('\n'), b'\n');
    assert_eq!(shown('\t'), 0xfe);
    assert_eq!(shown('\u{7f}'), 0xfe);
    assert_eq!(shown('é'), 0xfe);
}

#[test]
fn writer_writes_scrolls_and_wraps() {
    let mut w = Writer::new();
    let blank = ScreenChar { ascii_character: b' ', color_code: ColorCode(15) };
    assert_eq!(w.char_at(24, 0), blank);
    assert_eq!(query_print_color(&w), ColorCode(15));
    w.write_string("hi\u{e9}");
    assert_eq!(w.column(), 3);
    assert_eq!(w.char_at(24, 0).ascii_character, b'h');
    assert_eq!(w.char_at(24, 1).ascii_character, b'i');
    assert_eq!(w.char_at(24, 2).ascii_character, 0xfe);
    set_print_color(&mut w, Color::Green, Color::Blue);
    assert_eq!(query_print_color(&w), ColorCode(0x12));
    w.write_string("\nx");
    assert_eq!(w.column(), 1);
    assert_eq!(w.char_at(23, 0).ascii_character, b'h');
    assert_eq!(w.char_at(23, 0).color_code, ColorCode(15));
    assert_eq!(w.char_at(24, 0), ScreenChar { ascii_character: b'x', color_code: ColorCode(0x12) });
    assert_eq!(w.char_at(24, 1), ScreenChar { ascii_character: b' ', color_code: ColorCode(0x12) });
    reset_print_color(&mut w);
    assert_eq!(query_print_color(&w), ColorCode(15));
    for _ in 0..79 {
        w.write_byte(b'-');
    }
    assert_eq!(w.column(), 80);
    w.write_byte(b'+');
    assert_eq!(w.column(), 1);
    assert_eq!(w.char_at(24, 0).ascii_character, b'+');
    assert_eq!(w.char_at(23, 79).ascii_character, b'-');
    assert_eq!(w.char_at(23, 0).ascii_character, b'x');
    assert_eq!(w.char_at(22, 0).ascii_character, b'h');
    w.clear_row(23);
    assert_eq!(w.char_at(23, 40), blank);
    assert_eq!(w.char_at(22, 1).ascii_character, b'i');
    w.new_line();
    assert_eq!(w.column(), 0);
    assert_eq!(w.char_at(23, 0).ascii_character, b'+');
    assert_eq!(w.char_at(21, 0).ascii_character, b'h');
}

#[test]
fn test_println_output() {
    let s = "Some test string that fits on a single line";
    let mut w = Writer::new();
    w.write_string("\n");
    w.write_string(s);
    w.write_string("\n");
    for (i, c) in s.chars().enumerate() {
        let screen_char = w.char_at(25 - 2, i);
        assert_eq!(char::from(screen_char.ascii_character), c);
    }
    w.write_char('!');
    assert_eq!(w.char_at(24, 0).ascii_character, b'!');
    w.write_char('\u{e9}');
    assert_eq!(w.char_at(24, 1).ascii_character, 0xe9);
}

struct Always;

impl Testable for Always {
    fn run(&self, info: TestInfo) -> TestResult {
        TestResult::assertion(info.ord == 1, "not the second test")
    }
}

#[test]
fn testable_objects_run() {
    assert!(matches!(Always.run(TestInfo { ord: 1 }), TestResult::Passed));
    assert!(matches!(Always.run(TestInfo { ord: 0 }), TestResult::Failure("not the second test")));
}

#[test]
fn test_results_and_tally() {
    assert!(matches!(TestResult::fail("why"), TestResult::Failure("why")));
    assert!(matches!(TestResult::assertion(true, "no"), TestResult::Passed));
    assert!(matches!(TestResult::assertion(false, "no"), TestResult::Failure("no")));
    let results = [
        TestResult::Passed,
        TestResult::Failure("a"),
        TestResult::Ignored,
        TestResult::Passed,
        TestResult::Passed,
    ];
    assert_eq!(tally(&results), Tally { passed: 3, failed: 1, ignored: 1 });
    assert_eq!(tally(&[]), Tally { passed: 0, failed: 0, ignored: 0 });
    assert_eq!(TestInfo { ord: 3 }.ord, 3);
}

#[test]
fn log_levels() {
    assert_eq!(level_color(Level::Debug), Color::Green);
    assert_eq!(level_color(Level::Error), Color::LightRed);
    assert_eq!(level_color(Level::Trace), Color::Magenta);
    assert_eq!(level_color(Level::Info), Color::LightCyan);
    assert_eq!(level_color(Level::Warn), Color::Yellow);
    assert!(!is_shown(Level::Debug, false));
    assert!(is_shown(Level::Debug, true));
    assert!(is_shown(Level::Info, false));
}
