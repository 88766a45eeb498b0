use ruvix_kernel::shell::{LineEditor, BS, CTRL_C, DEL};

fn type_bytes(ed: &mut LineEditor, bytes: &[u8], out: &mut Vec<u8>) -> Option<Vec<u8>> {
    let mut cmd = None;
    for &b in bytes {
        if let Some(c) = ed.feed(b, out) {
            cmd = Some(c);
        }
    }
    cmd
}

#[test]
fn new_editor_is_empty() {
    assert!(LineEditor::new().line().is_empty());
}

#[test]
fn printable_bytes_are_echoed_and_kept() {
    let mut ed = LineEditor::new();
    let mut out = Vec::new();
    assert_eq!(type_bytes(&mut ed, b"info", &mut out), None);
    assert_eq!(out, b"info".to_vec());
    assert_eq!(ed.line(), b"info".to_vec());
}

#[test]
fn enter_submits_line_and_clears_it() {
    let mut ed = LineEditor::new();
    let mut out = Vec::new();
    let cmd = type_bytes(&mut ed, b"mem\r", &mut out);
    assert_eq!(cmd, Some(b"mem".to_vec()));
    assert_eq!(out, b"mem\r\n".to_vec());
    assert!(ed.line().is_empty());
    let mut out2 = Vec::new();
    assert_eq!(ed.feed(b'\n', &mut out2), Some(Vec::new()));
    assert_eq!(out2, b"\r\n".to_vec());
}

#[test]
fn backspace_erases_last_byte_on_screen() {
    let mut ed = LineEditor::new();
    let mut out = Vec::new();
    type_bytes(&mut ed, b"taskz", &mut out);
    out.clear();
    assert_eq!(ed.feed(BS, &mut out), None);
    assert_eq!(out, vec![8u8, b' ', 8]);
    assert_eq!(ed.line(), b"task".to_vec());
    out.clear();
    ed.feed(DEL, &mut out);
    assert_eq!(out, vec![8u8, b' ', 8]);
    assert_eq!(ed.line(), b"tas".to_vec());
}

#[test]
fn backspace_on_empty_line_does_nothing() {
    let mut ed = LineEditor::new();
    let mut out = vec![1u8];
    assert_eq!(ed.feed(BS, &mut out), None);
    assert_eq!(out, vec![1u8]);
    assert!(ed.line().is_empty());
}

#[test]
fn ctrl_c_clears_line() {
    let mut ed = LineEditor::new();
    let mut out = Vec::new();
    type_bytes(&mut ed, b"reboot", &mut out);
    out.clear();
    assert_eq!(ed.feed(CTRL_C, &mut out), None);
    assert_eq!(out, b"^C\r\n".to_vec());
    assert!(ed.line().is_empty());
}

#[test]
fn control_bytes_are_ignored() {
    let mut ed = LineEditor::new();
    let mut out = Vec::new();
    type_bytes(&mut ed, &[b'a', 0x1b, 0x00, 0x80, 0xff, b'b'], &mut out);
    assert_eq!(out, b"ab".to_vec());
    assert_eq!(ed.line(), b"ab".to_vec());
}

#[test]
fn typing_then_erasing_restores_line() {
    let mut ed = LineEditor::new();
    let mut out = Vec::new();
    type_bytes(&mut ed, b"cpu", &mut out);
    out.clear();
    ed.feed(b'x', &mut out);
    ed.feed(BS, &mut out);
    assert_eq!(ed.line(), b"cpu".to_vec());
    assert_eq!(out, vec![b'x', 8, b' ', 8]);
}
