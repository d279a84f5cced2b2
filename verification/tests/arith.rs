use candle_moe::arith::{ceil_div, pad};

#[test]
fn pad_rounds_up_to_a_multiple() {
    assert_eq!(pad(0, 512), 0);
    assert_eq!(pad(1, 512), 512);
    assert_eq!(pad(512, 512), 512);
    assert_eq!(pad(513, 512), 1024);
    assert_eq!(pad(7, 0), 7);
    assert_eq!(pad(pad(100, 512), 512), pad(100, 512));
}

#[test]
fn ceil_div_rounds_up() {
    assert_eq!(ceil_div(0, 32), 0);
    assert_eq!(ceil_div(1, 32), 1);
    assert_eq!(ceil_div(32, 32), 1);
    assert_eq!(ceil_div(33, 32), 2);
}
