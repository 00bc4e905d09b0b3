use ruspiro_console::text::{push_decimal, render_line, render_prefixed};
use ruspiro_console::{error, info, warn, Console, Transport, WriteError, _print, _println};
use std::sync::{Arc, Mutex};

/// A transport that keeps what it is handed, and counts its releases.
#[derive(Clone, Default)]
struct Memory {
    taken: Arc<Mutex<String>>,
    releases: Arc<Mutex<u32>>,
}

impl Memory {
    fn taken(&self) -> String {
        self.taken.lock().unwrap().clone()
    }

    fn releases(&self) -> u32 {
        *self.releases.lock().unwrap()
    }
}

impl Transport for Memory {
    fn write_str(&mut self, text: &str) -> Result<(), WriteError> {
        self.taken.lock().unwrap().push_str(text);
        Ok(())
    }

    fn release(&mut self) {
        *self.releases.lock().unwrap() += 1;
    }
}

/// A transport that takes nothing.
struct Broken;

impl Transport for Broken {
    fn write_str(&mut self, _text: &str) -> Result<(), WriteError> {
        Err(WriteError)
    }

    fn release(&mut self) {}
}

fn decimal(n: u32) -> String {
    let mut out = String::new();
    push_decimal(&mut out, n);
    out
}

#[test]
fn println_then_replace_then_info() {
    let a = Memory::default();
    let b = Memory::default();
    let mut console = Console::new();
    console.replace(a.clone());
    assert_eq!(_println(&mut console, &format!("x={}", 42)), Ok(()));
    assert_eq!(a.taken(), "x=42\r\n");
    assert_eq!(a.releases(), 0);
    console.replace(b.clone());
    assert_eq!(a.releases(), 1);
    assert_eq!(info(&mut console, "kernel::boot", "ready"), Ok(()));
    assert_eq!(b.taken(), "I: kernel::boot - ready\r\n");
    assert_eq!(a.taken(), "x=42\r\n");
    assert_eq!(a.releases(), 1);
    assert_eq!(b.releases(), 0);
}

#[test]
fn print_adds_nothing() {
    let a = Memory::default();
    let mut console = Console::new();
    console.replace(a.clone());
    assert_eq!(_print(&mut console, "no line end"), Ok(()));
    assert_eq!(_print(&mut console, ""), Ok(()));
    assert_eq!(_print(&mut console, ", still none"), Ok(()));
    assert_eq!(a.taken(), "no line end, still none");
}

#[test]
fn println_of_nothing_is_the_line_end() {
    let a = Memory::default();
    let mut console = Console::new();
    console.replace(a.clone());
    assert_eq!(_println(&mut console, ""), Ok(()));
    assert_eq!(a.taken(), "\r\n");
}

#[test]
fn println_ends_every_line_with_cr_lf() {
    let a = Memory::default();
    let mut console = Console::new();
    console.replace(a.clone());
    _println(&mut console, "first").unwrap();
    _println(&mut console, "second\n").unwrap();
    assert_eq!(a.taken(), "first\r\nsecond\n\r\n");
    assert_eq!(render_line("first"), "first\r\n");
    assert_eq!(render_line(""), "\r\n");
    assert_eq!(render_line("grüße"), "grüße\r\n");
}

#[test]
fn level_prefixed_lines() {
    let a = Memory::default();
    let mut console = Console::new();
    console.replace(a.clone());
    assert_eq!(error(&mut console, "kernel::mmu", "no table"), Ok(()));
    assert_eq!(warn(&mut console, "kernel::uart", "baud rate 0"), Ok(()));
    assert_eq!(info(&mut console, "kernel", ""), Ok(()));
    assert_eq!(
        a.taken(),
        "E: kernel::mmu - no table\r\nW: kernel::uart - baud rate 0\r\nI: kernel - \r\n"
    );
}

#[test]
fn render_prefixed_joins_its_parts() {
    assert_eq!(render_prefixed("E: ", "a::b", "c d"), "E: a::b - c d\r\n");
    assert_eq!(render_prefixed("W: ", "", ""), "W:  - \r\n");
    assert_eq!(render_prefixed("I: ", "m", " - "), "I: m -  - \r\n");
}

#[test]
fn entry_points_before_install_succeed() {
    let mut console: Console<Memory> = Console::new();
    assert_eq!(_print(&mut console, "a"), Ok(()));
    assert_eq!(_println(&mut console, "b"), Ok(()));
    assert_eq!(error(&mut console, "m", "c"), Ok(()));
    assert_eq!(warn(&mut console, "m", "d"), Ok(()));
    assert_eq!(info(&mut console, "m", "e"), Ok(()));
    let a = Memory::default();
    console.replace(a.clone());
    assert_eq!(a.taken(), "");
}

#[test]
fn entry_points_report_a_failed_write() {
    let mut console = Console::new();
    console.replace(Broken);
    assert_eq!(_print(&mut console, "a"), Err(WriteError));
    assert_eq!(_println(&mut console, "b"), Err(WriteError));
    assert_eq!(error(&mut console, "m", "c"), Err(WriteError));
    assert_eq!(warn(&mut console, "m", "d"), Err(WriteError));
    assert_eq!(info(&mut console, "m", "e"), Err(WriteError));
}

#[test]
fn decimal_notation() {
    assert_eq!(decimal(0), "0");
    assert_eq!(decimal(7), "7");
    assert_eq!(decimal(9), "9");
    assert_eq!(decimal(10), "10");
    assert_eq!(decimal(42), "42");
    assert_eq!(decimal(100), "100");
    assert_eq!(decimal(1234567890), "1234567890");
    assert_eq!(decimal(u32::MAX), "4294967295");
}

#[test]
fn decimal_is_appended() {
    let mut out = String::from("line ");
    push_decimal(&mut out, 120);
    push_decimal(&mut out, 3);
    assert_eq!(out, "line 1203");
}
