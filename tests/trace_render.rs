use txrx::trace::{render, LINE_WIDTH};

fn line_for(offset: &str, hex: &str, ascii: &str, n: usize) -> String {
    let pad = " ".repeat(2 + 3 * (16 - n));
    format!("{}:{}{}{}\n", offset, hex, pad, ascii)
}

#[test]
fn render_empty_is_empty() {
    assert_eq!(render(&[]), "");
}

#[test]
fn render_abc_single_line() {
    let out = render(&[0x41, 0x42, 0x43]);
    assert_eq!(out, line_for("00000000", " 41 42 43", "ABC", 3));
    assert_eq!(out.lines().count(), 1);
    assert!(out.starts_with("00000000: 41 42 43 "));
    assert!(out.ends_with("  ABC\n"));
}

#[test]
fn render_twenty_bytes_two_lines() {
    let v: Vec<u8> = (0..0x14).collect();
    assert_eq!(
        render(&v),
        "00000000: 00 01 02 03 04 05 06 07 08 09 0a 0b 0c 0d 0e 0f  ................\n\
         00000010: 10 11 12 13                                      ....\n"
    );
}

#[test]
fn render_is_deterministic() {
    let v: Vec<u8> = (0..=255u8).rev().collect();
    assert_eq!(render(&v), render(&v));
}

#[test]
fn render_line_count_is_ceiling() {
    for n in [0usize, 1, 15, 16, 17, 31, 32, 33, 100, 256] {
        let v: Vec<u8> = (0..n).map(|i| i as u8).collect();
        let out = render(&v);
        let expected = (n + LINE_WIDTH - 1) / LINE_WIDTH;
        assert_eq!(out.matches('\n').count(), expected, "n = {}", n);
        assert_eq!(out.lines().count(), expected, "n = {}", n);
    }
}

#[test]
fn render_every_byte_columns() {
    for x in 0..=255u8 {
        let out = render(&[x]);
        let line: Vec<char> = out.chars().collect();
        assert_eq!(line.len(), 61);
        let hex = format!("{:02x}", x);
        let shown: String = line[10..12].iter().collect();
        assert_eq!(shown, hex);
        assert_eq!(line[9], ' ');
        assert_eq!(line[12], ' ');
        let expected = if (0x20..=0x7e).contains(&x) { x as char } else { '.' };
        assert_eq!(line[59], expected, "byte {:#x}", x);
        assert_eq!(line[60], '\n');
    }
}

#[test]
fn render_space_is_shown() {
    let out = render(b" a");
    assert_eq!(out, line_for("00000000", " 20 61", " a", 2));
}

#[test]
fn render_offsets_advance_by_sixteen() {
    let v = vec![0xffu8; 40];
    let out = render(&v);
    let starts: Vec<&str> = out.lines().map(|l| &l[..9]).collect();
    assert_eq!(starts, vec!["00000000:", "00000010:", "00000020:"]);
}

#[test]
fn render_spaces_across_lines() {
    let v = b"hello world, this is a longer line\x00".to_vec();
    let expected = [
        line_for(
            "00000000",
            " 68 65 6c 6c 6f 20 77 6f 72 6c 64 2c 20 74 68 69",
            "hello world, thi",
            16,
        ),
        line_for(
            "00000010",
            " 73 20 69 73 20 61 20 6c 6f 6e 67 65 72 20 6c 69",
            "s is a longer li",
            16,
        ),
        line_for("00000020", " 6e 65 00", "ne.", 3),
    ]
    .concat();
    assert_eq!(render(&v), expected);
}

#[test]
fn render_control_bytes_are_dots() {
    let out = render(&[0x00, 0x0a, 0x1f, 0x7f, 0x80, 0xff]);
    assert_eq!(out, line_for("00000000", " 00 0a 1f 7f 80 ff", "......", 6));
}
