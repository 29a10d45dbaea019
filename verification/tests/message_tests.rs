use rheel::message::winner_message;

#[test]
fn winner_message_substitutes_label() {
    assert_eq!(winner_message("Winner:\n{label}", "Pizza"), "Winner:\nPizza");
}

#[test]
fn winner_message_substitutes_every_occurrence() {
    assert_eq!(winner_message("{label} and {label}!", "X"), "X and X!");
}

#[test]
fn winner_message_without_placeholder_is_unchanged() {
    assert_eq!(winner_message("You win", "Pizza"), "You win");
    assert_eq!(winner_message("", "Pizza"), "");
}

#[test]
fn winner_message_with_empty_label() {
    assert_eq!(winner_message("A{label}B", ""), "AB");
}

#[test]
fn winner_message_is_verbatim_and_left_to_right() {
    // the label is inserted verbatim, even if it holds the placeholder
    assert_eq!(winner_message("{label}", "{label}"), "{label}");
    // a partial opening does not start a match
    assert_eq!(winner_message("{labe{label}}", "X"), "{labeX}");
}
