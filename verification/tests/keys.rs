use frogger::input::{decode, Intent, Key};

#[test]
fn arrows_move_the_frog() {
    assert_eq!(decode(Some(Key::Up)), Intent::MoveUp);
    assert_eq!(decode(Some(Key::Down)), Intent::MoveDown);
    assert_eq!(decode(Some(Key::Left)), Intent::MoveLeft);
    assert_eq!(decode(Some(Key::Right)), Intent::MoveRight);
}

#[test]
fn letters_move_the_frog() {
    assert_eq!(decode(Some(Key::Char('w'))), Intent::MoveUp);
    assert_eq!(decode(Some(Key::Char('s'))), Intent::MoveDown);
    assert_eq!(decode(Some(Key::Char('a'))), Intent::MoveLeft);
    assert_eq!(decode(Some(Key::Char('d'))), Intent::MoveRight);
}

#[test]
fn small_q_quits() {
    assert_eq!(decode(Some(Key::Char('q'))), Intent::Quit);
}

#[test]
fn other_input_means_nothing() {
    assert_eq!(decode(None), Intent::Ignore);
    assert_eq!(decode(Some(Key::Other)), Intent::Ignore);
    assert_eq!(decode(Some(Key::Char('x'))), Intent::Ignore);
    assert_eq!(decode(Some(Key::Char(' '))), Intent::Ignore);
}

#[test]
fn capital_letters_mean_nothing() {
    assert_eq!(decode(Some(Key::Char('W'))), Intent::Ignore);
    assert_eq!(decode(Some(Key::Char('S'))), Intent::Ignore);
    assert_eq!(decode(Some(Key::Char('A'))), Intent::Ignore);
    assert_eq!(decode(Some(Key::Char('D'))), Intent::Ignore);
    assert_eq!(decode(Some(Key::Char('Q'))), Intent::Ignore);
}
