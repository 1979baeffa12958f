use trapcore::keyboard::{key, KeyBoard};

#[test]
fn press_and_release_of_a_letter_queues_exactly_one_character() {
    let mut kb = KeyBoard::new();
    kb.process_scancode(0x1E); // press A
    kb.process_scancode(0x9E); // release A
    assert_eq!(key(&mut kb), Some('a'));
    assert_eq!(key(&mut kb), None);
}

#[test]
fn modifier_only_press_and_release_queues_nothing() {
    let mut kb = KeyBoard::new();
    kb.process_scancode(0x2A); // press left shift
    kb.process_scancode(0xAA); // release left shift
    assert_eq!(key(&mut kb), None);
}

#[test]
fn shift_changes_the_decoded_character() {
    let mut kb = KeyBoard::new();
    kb.process_scancode(0x2A); // press left shift
    kb.process_scancode(0x1E); // press A
    kb.process_scancode(0x9E); // release A
    kb.process_scancode(0xAA); // release left shift
    assert_eq!(key(&mut kb), Some('A'));
    assert_eq!(key(&mut kb), None);
}

#[test]
fn characters_come_out_in_the_order_they_were_typed() {
    let mut kb = KeyBoard::new();
    for sc in [0x1Eu8, 0x9E, 0x30, 0xB0, 0x2E, 0xAE] {
        kb.process_scancode(sc); // a, b, c
    }
    assert_eq!(key(&mut kb), Some('a'));
    assert_eq!(key(&mut kb), Some('b'));
    assert_eq!(key(&mut kb), Some('c'));
    assert_eq!(key(&mut kb), None);
}

#[test]
fn enter_decodes_to_a_newline() {
    let mut kb = KeyBoard::new();
    kb.process_scancode(0x1C);
    kb.process_scancode(0x9C);
    assert_eq!(key(&mut kb), Some('\n'));
}

#[test]
fn backspace_decodes_to_the_backspace_character() {
    let mut kb = KeyBoard::new();
    kb.process_scancode(0x0E);
    kb.process_scancode(0x8E);
    assert_eq!(key(&mut kb), Some(trapcore::input::BACKSPACE));
}
