use oxyjs::parser::char_utils::NonAsciiChar;
use oxyjs::parser::input_stream::{StreamPosition, VecInputStream};
use oxyjs::parser::precedence::Precedence;
use oxyjs::parser::tokenizer::TokenLocation;

#[test]
fn stream_positions() {
    let stream = VecInputStream::new(b"abcdef".to_vec());
    assert_eq!(stream.current_offset(), 0);
    assert_eq!(stream.end_offset(), 6);
    let start = stream.mark();
    assert_eq!(start.value(), 0);
    assert!(stream.is_valid_position(start));
    assert!(stream.is_rewind_position(start));
    let sentinel = StreamPosition::default();
    assert_eq!(sentinel.value(), u32::MAX);
    assert!(!stream.is_valid_position(sentinel));
}

#[test]
fn position_lengths() {
    let mut stream = VecInputStream::new(b"abcdef".to_vec());
    let start = stream.mark();
    stream.read_ascii();
    stream.read_ascii();
    stream.read_ascii();
    let here = stream.mark();
    assert_eq!(here.length_from(start), 3);
    assert_eq!(here.value(), 3);
}

#[test]
fn token_location_accessors() {
    let def = TokenLocation::default();
    assert_eq!(def.start_offset().value(), u32::MAX);
    assert_eq!(def.end_offset().value(), u32::MAX);
}

#[test]
fn precedence_ordering() {
    assert!(Precedence::lowest() < Precedence::comma());
    assert!(Precedence::comma() < Precedence::assignment());
    assert!(Precedence::assignment() < Precedence::conditional());
    assert!(Precedence::conditional() < Precedence::logical_or());
    assert!(Precedence::logical_or() < Precedence::logical_and());
    assert!(Precedence::logical_and() < Precedence::bitwise_or());
    assert!(Precedence::bitwise_or() < Precedence::bitwise_xor());
    assert!(Precedence::bitwise_xor() < Precedence::bitwise_and());
    assert!(Precedence::bitwise_and() < Precedence::equality());
    assert!(Precedence::equality() < Precedence::relational());
    assert!(Precedence::relational() < Precedence::shift());
    assert!(Precedence::shift() < Precedence::additive());
    assert!(Precedence::additive() < Precedence::multiplicative());
    assert!(Precedence::multiplicative() < Precedence::unary());
    assert!(Precedence::unary() < Precedence::postfix());
    assert!(Precedence::postfix() < Precedence::left_hand_side());
    assert!(Precedence::left_hand_side() < Precedence::call_or_new());
    assert!(Precedence::call_or_new() < Precedence::member());
    assert!(Precedence::member() < Precedence::primary());
    assert_eq!(Precedence::comma(), Precedence::comma());
    assert!(Precedence::member() >= Precedence::comma());
}

#[test]
fn non_ascii_char_sentinels() {
    let end = NonAsciiChar::end();
    assert!(end.is_end());
    assert!(!end.is_error());
    assert!(end.is_valid());
    let err = NonAsciiChar::error();
    assert!(err.is_error());
    assert!(!err.is_end());
    assert!(err.is_valid());
    let ch = NonAsciiChar::new(0x263A);
    assert!(!ch.is_end());
    assert!(!ch.is_error());
    assert!(ch.is_valid());
}
