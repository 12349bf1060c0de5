use apple_ie::cpu::alu::{
    add_with_carry, decrement, difference, displace, following, high_of, increment, low_of,
    make_word, preceding, shift, subtract_with_borrow, Shift, Shifted, Sum,
};

#[test]
fn addition_without_carry_or_overflow() {
    assert_eq!(
        add_with_carry(0x10, 0x20, false),
        Sum { value: 0x30, carry: false, overflow: false }
    );
    assert_eq!(
        add_with_carry(0x10, 0x20, true),
        Sum { value: 0x31, carry: false, overflow: false }
    );
}

#[test]
fn addition_carries_out_of_bit_seven() {
    assert_eq!(
        add_with_carry(0xFF, 0x01, false),
        Sum { value: 0x00, carry: true, overflow: false }
    );
    assert_eq!(add_with_carry(0xFF, 0x00, true), Sum { value: 0x00, carry: true, overflow: false });
    assert_eq!(add_with_carry(0xFF, 0xFF, true), Sum { value: 0xFF, carry: true, overflow: false });
}

#[test]
fn addition_overflows_the_signed_range() {
    assert_eq!(
        add_with_carry(0x50, 0x50, false),
        Sum { value: 0xA0, carry: false, overflow: true }
    );
    assert_eq!(add_with_carry(0x7F, 0x00, true), Sum { value: 0x80, carry: false, overflow: true });
    assert_eq!(add_with_carry(0x80, 0x80, false), Sum { value: 0x00, carry: true, overflow: true });
    assert_eq!(add_with_carry(0xD0, 0x90, false), Sum { value: 0x60, carry: true, overflow: true });
}

#[test]
fn subtraction_borrows() {
    assert_eq!(
        subtract_with_borrow(0x50, 0x10, true),
        Sum { value: 0x40, carry: true, overflow: false }
    );
    assert_eq!(
        subtract_with_borrow(0x50, 0x10, false),
        Sum { value: 0x3F, carry: true, overflow: false }
    );
    assert_eq!(
        subtract_with_borrow(0x50, 0xF0, true),
        Sum { value: 0x60, carry: false, overflow: false }
    );
    assert_eq!(
        subtract_with_borrow(0x00, 0x01, true),
        Sum { value: 0xFF, carry: false, overflow: false }
    );
    assert_eq!(
        subtract_with_borrow(0x00, 0x00, false),
        Sum { value: 0xFF, carry: false, overflow: false }
    );
    assert_eq!(
        subtract_with_borrow(0x10, 0x10, true),
        Sum { value: 0x00, carry: true, overflow: false }
    );
}

#[test]
fn subtraction_overflows_the_signed_range() {
    assert_eq!(
        subtract_with_borrow(0x50, 0xB0, true),
        Sum { value: 0xA0, carry: false, overflow: true }
    );
    assert_eq!(
        subtract_with_borrow(0xD0, 0x70, true),
        Sum { value: 0x60, carry: true, overflow: true }
    );
    assert_eq!(
        subtract_with_borrow(0x80, 0x00, false),
        Sum { value: 0x7F, carry: true, overflow: true }
    );
}

#[test]
fn shifts_move_one_bit() {
    assert_eq!(shift(Shift::Left, 0x81, false), Shifted { value: 0x02, carry: true });
    assert_eq!(shift(Shift::Left, 0x81, true), Shifted { value: 0x02, carry: true });
    assert_eq!(shift(Shift::Left, 0x40, false), Shifted { value: 0x80, carry: false });
    assert_eq!(shift(Shift::Right, 0x81, true), Shifted { value: 0x40, carry: true });
    assert_eq!(shift(Shift::Right, 0x02, false), Shifted { value: 0x01, carry: false });
}

#[test]
fn rotations_move_the_carry_in() {
    assert_eq!(shift(Shift::RotateLeft, 0x81, false), Shifted { value: 0x02, carry: true });
    assert_eq!(shift(Shift::RotateLeft, 0x81, true), Shifted { value: 0x03, carry: true });
    assert_eq!(shift(Shift::RotateLeft, 0x7F, true), Shifted { value: 0xFF, carry: false });
    assert_eq!(shift(Shift::RotateRight, 0x81, false), Shifted { value: 0x40, carry: true });
    assert_eq!(shift(Shift::RotateRight, 0x81, true), Shifted { value: 0xC0, carry: true });
    assert_eq!(shift(Shift::RotateRight, 0x00, true), Shifted { value: 0x80, carry: false });
}

#[test]
fn bytes_wrap_around() {
    assert_eq!(increment(0xFF), 0x00);
    assert_eq!(increment(0x7F), 0x80);
    assert_eq!(decrement(0x00), 0xFF);
    assert_eq!(decrement(0x01), 0x00);
    assert_eq!(difference(0x05, 0x06), 0xFF);
    assert_eq!(difference(0x10, 0x10), 0x00);
    assert_eq!(difference(0x00, 0xFF), 0x01);
}

#[test]
fn words_are_made_of_two_bytes() {
    assert_eq!(make_word(0x34, 0x12), 0x1234);
    assert_eq!(make_word(0xFF, 0xFF), 0xFFFF);
    assert_eq!(make_word(0x00, 0x08), 0x0800);
    assert_eq!(low_of(0x1234), 0x34);
    assert_eq!(high_of(0x1234), 0x12);
    assert_eq!(low_of(0xFFFF), 0xFF);
    assert_eq!(high_of(0x00FF), 0x00);
}

#[test]
fn addresses_wrap_around() {
    assert_eq!(following(0xFFFF), 0x0000);
    assert_eq!(following(0x0802), 0x0803);
    assert_eq!(preceding(0x0000), 0xFFFF);
    assert_eq!(preceding(0x0803), 0x0802);
}

#[test]
fn displacements_are_signed() {
    assert_eq!(displace(0x0805, 0xFD), 0x0802);
    assert_eq!(displace(0x0802, 0x00), 0x0802);
    assert_eq!(displace(0x0802, 0x7F), 0x0881);
    assert_eq!(displace(0x0802, 0x80), 0x0782);
    assert_eq!(displace(0x0000, 0xFF), 0xFFFF);
    assert_eq!(displace(0xFFFF, 0x01), 0x0000);
}
