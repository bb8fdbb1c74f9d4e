use meetix::dbg_print::dbg_select_uart;
use meetix::infos::info::BootInfosStore;
use meetix::error::class::OsErrorClass;
use meetix::task::exit_status::{report_unit, report_value, TaskExitStatus};
use meetix::dbg_print::{
    ascii_lower, dbg_print_set_max_level, dbg_print_set_max_level_from_str, eq_ignore_ascii_case,
    DbgLevel,
};
use meetix::helps::str::{copy_str_to_u8_buf, str_len};
use meetix::infos::info::{
    cmdline_or_default, BootInfos, BootInfosInner, BootMemArea, CmdLineArgs, VMLayout,
};
use meetix::addr::phys_addr::PhysAddr;
use meetix::loader::cache::{KernelPreLoadCache, ProgramHeader, ProgramType};
use meetix::logger::{LoggerBuffer, LoggerInner, LoggerWriter};
use meetix::symbols::list::{hex_digit, CodeSymbol, CodeSymbolsList};

#[test]
fn copy_str_uses_the_min_of_the_two_lengths() {
    let mut buffer = [0xAAu8; 8];
    copy_str_to_u8_buf(&mut buffer, "abc");
    assert_eq!(buffer, [b'a', b'b', b'c', 0xAA, 0xAA, 0xAA, 0xAA, 0xAA]);
    let mut short = [0u8; 2];
    copy_str_to_u8_buf(&mut short, "hello");
    assert_eq!(short, [b'h', b'e']);
    let mut empty: [u8; 0] = [];
    copy_str_to_u8_buf(&mut empty, "x");
    let mut untouched = [7u8; 3];
    copy_str_to_u8_buf(&mut untouched, "");
    assert_eq!(untouched, [7, 7, 7]);
}

#[test]
fn str_len_is_the_index_of_the_first_zero() {
    assert_eq!(str_len(b"abc\0def\0"), 3);
    assert_eq!(str_len(b"\0abc"), 0);
    assert_eq!(str_len(b"abc"), 0);
    assert_eq!(str_len(b""), 0);
    assert_eq!(str_len(&[1, 2, 3, 4, 0]), 4);
}

#[test]
fn dbg_level_colors() {
    assert_eq!(DbgLevel::Error.as_vt100_color(), 31);
    assert_eq!(DbgLevel::Warn.as_vt100_color(), 33);
    assert_eq!(DbgLevel::Info.as_vt100_color(), 32);
    assert_eq!(DbgLevel::Debug.as_vt100_color(), 35);
    assert_eq!(DbgLevel::Trace.as_vt100_color(), 37);
}

#[test]
fn dbg_level_from_name_ignores_the_case() {
    assert_eq!(DbgLevel::from_name("Error"), Some(DbgLevel::Error));
    assert_eq!(DbgLevel::from_name("error"), Some(DbgLevel::Error));
    assert_eq!(DbgLevel::from_name("WARNING"), Some(DbgLevel::Warn));
    assert_eq!(DbgLevel::from_name("iNfO"), Some(DbgLevel::Info));
    assert_eq!(DbgLevel::from_name("Debug"), Some(DbgLevel::Debug));
    assert_eq!(DbgLevel::from_name("trace"), Some(DbgLevel::Trace));
    assert_eq!(DbgLevel::from_name("Err"), None);
    assert_eq!(DbgLevel::from_name("Warn"), None);
    assert_eq!(DbgLevel::from_name("Errors"), None);
    assert_eq!(DbgLevel::from_name(""), None);
    assert_eq!(DbgLevel::from_name("Tr\u{e4}ce"), None);
    assert_eq!(DbgLevel::from_name("Tr\u{41}ce"), Some(DbgLevel::Trace));
    assert_eq!(DbgLevel::from_name("Debug "), None);
}

#[test]
fn dbg_level_order() {
    assert!(DbgLevel::Error < DbgLevel::Warn);
    assert!(DbgLevel::Debug < DbgLevel::Trace);
    assert!(DbgLevel::Error.is_printed(DbgLevel::Info));
    assert!(DbgLevel::Info.is_printed(DbgLevel::Info));
    assert!(!DbgLevel::Debug.is_printed(DbgLevel::Info));
    assert_eq!(DbgLevel::Trace.rank(), 4);
}

#[test]
fn dbg_print_max_level_is_set_from_a_string() {
    let mut max_level = DbgLevel::Info;
    assert_eq!(dbg_print_set_max_level_from_str(&mut max_level, "trace"), Some(DbgLevel::Info));
    assert_eq!(max_level, DbgLevel::Trace);
    assert_eq!(dbg_print_set_max_level_from_str(&mut max_level, "verbose"), None);
    assert_eq!(max_level, DbgLevel::Trace);
    assert_eq!(dbg_print_set_max_level(&mut max_level, DbgLevel::Warn), DbgLevel::Trace);
    assert_eq!(max_level, DbgLevel::Warn);
}

#[test]
fn ascii_case_helpers() {
    assert_eq!(ascii_lower(b'A'), b'a');
    assert_eq!(ascii_lower(b'Z'), b'z');
    assert_eq!(ascii_lower(b'a'), b'a');
    assert_eq!(ascii_lower(b'@'), b'@');
    assert_eq!(ascii_lower(b'['), b'[');
    assert!(eq_ignore_ascii_case(b"AbC", b"aBc"));
    assert!(!eq_ignore_ascii_case(b"AbC", b"aBcd"));
    assert!(!eq_ignore_ascii_case(b"@", b"`"));
    assert!(eq_ignore_ascii_case(b"", b""));
}

#[test]
fn code_symbols_are_loaded_from_lines() {
    let mut list = CodeSymbolsList::new_uninitialized();
    assert_eq!(list.len(), 0);
    assert!(list.symbol_at(0x1000).is_none());
    let raw = "1000 kern_start\nffff800000002000 heap_init\n\nnot a symbol\n3000 \n 4000 x\n5000g y\nABcd last symbol";
    assert!(list.load_from_raw(raw));
    assert_eq!(list.len(), 3);
    let first = list.symbol_at(0x1000).unwrap();
    assert_eq!(first.virt_addr(), 0x1000);
    assert_eq!(first.name(), b"kern_start");
    assert_eq!(list.symbol_at(0xABCD).unwrap().name(), b"last symbol");
    assert_eq!(list.symbol_at(0xABCC).unwrap().name(), b"kern_start");
    assert_eq!(list.symbol_at(usize::MAX).unwrap().name(), b"last symbol");
    assert!(list.symbol_at(0xFFF).is_none());
    assert!(!list.load_from_raw("nothing here"));
    assert_eq!(list.len(), 0);
    assert!(!list.load_from_raw(""));
}

#[test]
fn code_symbol_lines() {
    let symbol = CodeSymbol::from_raw_line(b"0 zero").unwrap();
    assert_eq!((symbol.virt_addr(), symbol.name()), (0, &b"zero"[..]));
    let max = CodeSymbol::from_raw_line(b"ffffffffffffffff top").unwrap();
    assert_eq!(max.virt_addr(), usize::MAX);
    assert!(CodeSymbol::from_raw_line(b"10000000000000000 over").is_none());
    assert!(CodeSymbol::from_raw_line(b"").is_none());
    assert!(CodeSymbol::from_raw_line(b"1000").is_none());
    assert!(CodeSymbol::from_raw_line(b"1000 ").is_none());
    assert!(CodeSymbol::from_raw_line(b" name").is_none());
    assert!(CodeSymbol::from_raw_line(b"0x10 name").is_none());
    assert_eq!(CodeSymbol::from_raw_line(b"00ff a b").unwrap().name(), b"a b");
    assert_eq!(hex_digit(b'0'), Some(0));
    assert_eq!(hex_digit(b'9'), Some(9));
    assert_eq!(hex_digit(b'a'), Some(10));
    assert_eq!(hex_digit(b'F'), Some(15));
    assert_eq!(hex_digit(b'g'), None);
    assert_eq!(hex_digit(b' '), None);
}

#[test]
fn symbol_at_takes_the_last_symbol_which_is_not_above() {
    let mut list = CodeSymbolsList::new_uninitialized();
    assert!(list.load_from_raw("10 a\n30 c\n20 b\n"));
    assert_eq!(list.symbol_at(0x25).unwrap().name(), b"b");
    assert_eq!(list.symbol_at(0x35).unwrap().name(), b"b");
    assert_eq!(list.symbol_at(0x15).unwrap().name(), b"a");
    assert!(list.symbol_at(0xF).is_none());
}

#[test]
fn logger_buffer_flushes_complete_lines() {
    let mut buffer = LoggerBuffer::new();
    assert_eq!(buffer.len(), 0);
    assert!(buffer.write_str_chunk(b"hello ").is_empty());
    assert_eq!(buffer.len(), 6);
    let lines = buffer.write_str_chunk(b"world\nsecond\n\nrest");
    assert_eq!(lines, vec![b"hello world\n".to_vec(), b"second\n".to_vec(), b"\n".to_vec()]);
    assert_eq!(buffer.len(), 4);
    assert_eq!(buffer.write_str_chunk(b"\n"), vec![b"rest\n".to_vec()]);
    assert_eq!(buffer.len(), 0);
    assert!(buffer.write_str_chunk(b"").is_empty());
}

struct RecordingWriter {
    written: Vec<Vec<u8>>,
    fail_on: Option<usize>,
}

impl LoggerWriter for RecordingWriter {
    fn new() -> Self {
        RecordingWriter { written: Vec::new(), fail_on: None }
    }

    fn write_str(&mut self, s: &[u8]) -> bool {
        if self.fail_on == Some(self.written.len()) {
            return false;
        }
        self.written.push(s.to_vec());
        true
    }
}

#[test]
fn logger_inner_buffers_only_when_enabled() {
    let mut inner: LoggerInner<RecordingWriter> = LoggerInner::new();
    assert!(!inner.is_buffered());
    assert!(inner.write_str(b"direct"));
    assert!(!inner.write_in_buffer(b"no buffer\n"));
    inner.enable_buffering();
    assert!(inner.is_buffered());
    assert!(inner.write_str(b"part"));
    assert!(inner.write_str(b"ial\nnext"));
    inner.disable_buffering(true);
    assert!(!inner.is_buffered());
    assert!(inner.write_str(b"direct again"));
    inner.enable_buffering();
    assert!(inner.write_str(b" line\n"));
    inner.disable_buffering(false);
    assert!(!inner.write_in_buffer(b"dropped\n"));
    inner.enable_buffering();
    assert!(inner.write_in_buffer(b"fresh\n"));
}

#[test]
fn kernel_pre_load_cache() {
    let headers = vec![
        ProgramHeader { hdr_type: ProgramType::Other, mem_size: 0x999, virtual_addr: 0x1 },
        ProgramHeader { hdr_type: ProgramType::Load, mem_size: 0x1000, virtual_addr: 0xFFFF_8000_0010_0000 },
        ProgramHeader { hdr_type: ProgramType::Load, mem_size: 0x2345, virtual_addr: 0xFFFF_8000_0020_0000 },
        ProgramHeader { hdr_type: ProgramType::Other, mem_size: 0x10, virtual_addr: 0x2 },
    ];
    let cache = KernelPreLoadCache::new(headers.clone()).unwrap();
    assert_eq!(cache.load_size(), 0x3345);
    assert_eq!(cache.load_address().raw(), 0xFFFF_8000_0010_0000);
    assert_eq!(cache.elf_file(), &headers);
    let low = vec![ProgramHeader { hdr_type: ProgramType::Load, mem_size: 1, virtual_addr: 0x0000_8000_0000_0000 }];
    assert_eq!(KernelPreLoadCache::new(low).unwrap().load_address().raw(), 0xFFFF_8000_0000_0000);
    assert!(KernelPreLoadCache::new(vec![]).is_none());
    assert!(KernelPreLoadCache::new(vec![headers[0]]).is_none());
    let huge = vec![
        ProgramHeader { hdr_type: ProgramType::Load, mem_size: u64::MAX, virtual_addr: 0 },
        ProgramHeader { hdr_type: ProgramType::Load, mem_size: 1, virtual_addr: 0 },
    ];
    assert!(KernelPreLoadCache::new(huge).is_none());
}

#[test]
fn boot_infos() {
    let areas = vec![
        BootMemArea { start: PhysAddr::new(0x10_0000), size: 0x7000_0000 },
        BootMemArea { start: PhysAddr::new(0x1_0000_0000), size: 0x8000_0000 },
    ];
    let inner = BootInfosInner::new("-log-level=Trace -x", areas.clone(), "GRUB");
    let infos = BootInfos::from_inner(inner);
    assert_eq!(infos.cmdline_args().as_bytes(), b"-log-level=Trace -x");
    assert_eq!(infos.mem_areas(), &areas);
    assert_eq!(*infos.vm_layout(), VMLayout::new_zero());
    assert_eq!(infos.vm_layout().kern_size, 0);
    assert_eq!(CmdLineArgs::new("abc").as_bytes(), b"abc");
    assert_eq!(cmdline_or_default(Some("-a")), "-a");
    assert_eq!(cmdline_or_default(None), "-log-level=Debug");
}

#[test]
fn dbg_uart_selection() {
    assert_eq!(dbg_select_uart(0, None), None);
    assert_eq!(dbg_select_uart(0, Some(0)), None);
    assert_eq!(dbg_select_uart(1, None), Some(0));
    assert_eq!(dbg_select_uart(1, Some(3)), Some(0));
    assert_eq!(dbg_select_uart(3, None), Some(0));
    assert_eq!(dbg_select_uart(3, Some(2)), Some(2));
    assert_eq!(dbg_select_uart(3, Some(3)), None);
}

#[test]
fn dbg_level_names() {
    assert_eq!(DbgLevel::Error.name(), "Error");
    assert_eq!(DbgLevel::Warn.name(), "Warning");
    assert_eq!(DbgLevel::Trace.name(), "Trace");
    assert_eq!(DbgLevel::from_name(DbgLevel::Debug.name()), Some(DbgLevel::Debug));
}

#[test]
fn boot_infos_are_stored_once() {
    let mut store = BootInfosStore::new();
    assert!(store.obtain().is_none());
    assert!(store.init(BootInfosInner::new("-a", vec![], "first")));
    assert_eq!(store.obtain().unwrap().cmdline_args().as_bytes(), b"-a");
    assert!(!store.init(BootInfosInner::new("-b", vec![], "second")));
    assert_eq!(store.obtain().unwrap().cmdline_args().as_bytes(), b"-a");
}

#[test]
fn task_exit_status() {
    assert_eq!(report_unit(Ok(())), TaskExitStatus::Success);
    assert_eq!(report_unit(Err(OsErrorClass::NotFound)), TaskExitStatus::WithError(OsErrorClass::NotFound));
    assert_eq!(report_value(Ok(3)), TaskExitStatus::WithValue(3));
    assert_eq!(
        report_value(Err(OsErrorClass::NoPermission)),
        TaskExitStatus::WithError(OsErrorClass::NoPermission)
    );
}
