//! The block state codec: boundary bytes and round trips.

use mmtk::block::BlockState;

#[test]
fn decode_boundary_bytes() {
    assert_eq!(BlockState::from(0u8), BlockState::Unallocated);
    assert_eq!(BlockState::from(254u8), BlockState::Marked);
    assert_eq!(BlockState::from(255u8), BlockState::Unmarked);
    assert_eq!(BlockState::from(1u8), BlockState::Reusable { unavailable_lines: 1 });
    assert_eq!(BlockState::from(253u8), BlockState::Reusable { unavailable_lines: 253 });
}

#[test]
fn encode_states() {
    assert_eq!(u8::from(BlockState::Unallocated), 0u8);
    assert_eq!(u8::from(BlockState::Marked), 254u8);
    assert_eq!(u8::from(BlockState::Unmarked), 255u8);
    assert_eq!(u8::from(BlockState::Reusable { unavailable_lines: 7 }), 7u8);
}

#[test]
fn state_byte_state_is_identity_for_legal_states() {
    let states = [
        BlockState::Unallocated,
        BlockState::Unmarked,
        BlockState::Marked,
        BlockState::Reusable { unavailable_lines: 1 },
        BlockState::Reusable { unavailable_lines: 100 },
        BlockState::Reusable { unavailable_lines: 253 },
    ];
    for s in states {
        assert_eq!(BlockState::from(u8::from(s)), s);
    }
}

#[test]
fn byte_state_byte_is_identity_for_every_byte() {
    for byte in 0u8..=255u8 {
        assert_eq!(u8::from(BlockState::from(byte)), byte);
    }
}

#[test]
fn is_reusable() {
    assert!(BlockState::Reusable { unavailable_lines: 3 }.is_reusable());
    assert!(!BlockState::Unallocated.is_reusable());
    assert!(!BlockState::Unmarked.is_reusable());
    assert!(!BlockState::Marked.is_reusable());
}
