//! Tests for the console subsystem: the null console, the board backend,
//! the registry, and their interplay.

use kernel_console::console::{ConsoleSlot, Read, Registry, Statistics, Write};
use kernel_console::null_console::{NullConsole, NULL_READ_BYTE};
use kernel_console::qemu_console::{self, QEMUOutput};

#[test]
fn null_console_absorbs_everything() {
    let mut n = NullConsole;
    n.write_byte(b'x');
    n.write_str("hello, world\n");
    let r = n.write_fmt("formatted 42\n");
    assert!(matches!(r, Ok(())));
    n.flush();
    assert_eq!(n.bytes_written(), 0);
    assert_eq!(n.bytes_read(), 0);
}

#[test]
fn null_console_read_returns_placeholder() {
    let mut n = NullConsole;
    n.clear_rx();
    assert_eq!(n.read_byte(), NULL_READ_BYTE);
    assert_eq!(n.read_byte(), b' ');
    assert_eq!(n.bytes_read(), 0);
}

#[test]
fn backend_starts_empty() {
    let q = qemu_console::console();
    assert_eq!(q.bytes_written(), 0);
    assert_eq!(q.bytes_read(), 0);
    assert!(q.emitted_bytes().is_empty());
}

#[test]
fn backend_write_str_translates_line_feeds() {
    let mut q = QEMUOutput::new();
    q.write_str("hi\n");
    assert_eq!(q.emitted_bytes().as_slice(), b"hi\r\n");
    assert_eq!(q.bytes_written(), 4);
}

#[test]
fn backend_counts_length_plus_line_feeds() {
    let mut q = QEMUOutput::new();
    q.write_str("a\nb\nc");
    // 5 logical bytes + 2 line feeds = 7 physical bytes.
    assert_eq!(q.bytes_written(), 7);
    assert_eq!(q.emitted_bytes().as_slice(), b"a\r\nb\r\nc");
}

#[test]
fn backend_write_byte_is_raw_except_line_feed() {
    let mut q = QEMUOutput::new();
    q.write_byte(b'A');
    assert_eq!(q.emitted_bytes().as_slice(), b"A");
    assert_eq!(q.bytes_written(), 1);
    q.write_byte(b'\n');
    assert_eq!(q.emitted_bytes().as_slice(), b"A\r\n");
    assert_eq!(q.bytes_written(), 3);
}

#[test]
fn backend_empty_write_is_free() {
    let mut q = QEMUOutput::new();
    q.write_str("x");
    q.write_str("");
    let r = q.write_fmt("");
    assert!(matches!(r, Ok(())));
    assert_eq!(q.bytes_written(), 1);
    assert_eq!(q.emitted_bytes().as_slice(), b"x");
}

#[test]
fn backend_write_fmt_reports_success() {
    let mut q = QEMUOutput::new();
    let r = q.write_fmt("value: 7\n");
    assert!(matches!(r, Ok(())));
    assert_eq!(q.bytes_written(), 10);
    assert_eq!(q.emitted_bytes().as_slice(), b"value: 7\r\n");
}

#[test]
fn backend_is_write_only_on_the_read_side() {
    let mut q = QEMUOutput::new();
    q.write_str("out\n");
    q.clear_rx();
    assert_eq!(q.read_byte(), NULL_READ_BYTE);
    assert_eq!(q.bytes_read(), 0);
    q.flush();
    assert_eq!(q.bytes_written(), 5);
}

#[test]
fn interleaved_writers_lose_no_update() {
    // Two simulated concurrent contexts take turns; each completed write is
    // serialized through the backend's lock. 50 writes from each context:
    // the final counter must be exactly 100, and every byte must appear in
    // the order its write completed.
    let mut q = QEMUOutput::new();
    let mut expected: Vec<u8> = Vec::new();
    for _ in 0..50 {
        q.write_byte(b'a'); // context A
        expected.push(b'a');
        q.write_byte(b'b'); // context B
        expected.push(b'b');
    }
    assert_eq!(q.bytes_written(), 100);
    assert_eq!(q.emitted_bytes().as_slice(), expected.as_slice());
}

#[test]
fn registry_starts_with_the_null_console() {
    let reg: Registry<QEMUOutput> = Registry::new();
    let con = reg.console();
    assert!(matches!(con, ConsoleSlot::Null(_)));
    assert_eq!(con.bytes_written(), 0);
    assert_eq!(con.bytes_read(), 0);
}

#[test]
fn registry_writes_before_registration_are_absorbed() {
    let mut reg: Registry<QEMUOutput> = Registry::new();
    let con = reg.console_mut();
    con.write_str("into the void\n");
    assert_eq!(reg.console().bytes_written(), 0);
}

#[test]
fn registry_hands_out_the_registered_console() {
    let mut reg: Registry<QEMUOutput> = Registry::new();
    let mut q = QEMUOutput::new();
    q.write_str("tag");
    reg.register_console(q);
    let con = reg.console();
    match con {
        ConsoleSlot::Active(c) => assert_eq!(c.emitted_bytes().as_slice(), b"tag"),
        ConsoleSlot::Null(_) => panic!("expected the registered backend"),
    }
}

#[test]
fn registry_repeated_queries_return_the_same_reference() {
    let mut reg: Registry<QEMUOutput> = Registry::new();
    reg.register_console(QEMUOutput::new());
    let a = reg.console();
    let b = reg.console();
    assert!(std::ptr::eq(a, b));
}

#[test]
fn registry_full_scenario() {
    // Initial state: the null console is active and nothing is counted.
    let mut reg: Registry<QEMUOutput> = Registry::new();
    assert!(matches!(reg.console(), ConsoleSlot::Null(_)));
    assert_eq!(reg.console().bytes_written(), 0);

    // Register a backend, then print through the registry.
    reg.register_console(qemu_console::console());
    reg.console_mut().write_str("hi\n");

    // The backend observed the raw sequence h, i, CR, LF, in that order.
    match reg.console() {
        ConsoleSlot::Active(c) => {
            assert_eq!(c.emitted_bytes().as_slice(), &[b'h', b'i', b'\r', b'\n']);
        }
        ConsoleSlot::Null(_) => panic!("expected the registered backend"),
    }
    assert_eq!(reg.console().bytes_written(), 4);
}
