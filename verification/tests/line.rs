use nrf_play::line::{dispatch, Source};

#[test]
fn echo_flag_selects_the_echo() {
    assert_eq!(dispatch(true), Source::Echo);
}

#[test]
fn no_echo_flag_leaves_the_button() {
    assert_eq!(dispatch(false), Source::Button);
}
