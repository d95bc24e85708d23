use issue_bot::token::Token;

#[test]
fn token_is_written_hyphenated_in_lower_case() {
    let token = Token { value: 0x67e55044_10b1_426f_9247_bb680e5fe0c8 };
    assert_eq!(token.to_string(), "67e55044-10b1-426f-9247-bb680e5fe0c8");
    assert_eq!(Token { value: 0 }.to_string(), "00000000-0000-0000-0000-000000000000");
    assert_eq!(
        Token { value: u128::MAX }.to_string(),
        "ffffffff-ffff-ffff-ffff-ffffffffffff"
    );
    assert_eq!(
        Token { value: 0x0123456789abcdef_0123456789abcdef }.to_string(),
        "01234567-89ab-cdef-0123-456789abcdef"
    );
}

#[test]
fn token_is_read_from_its_writing() {
    assert_eq!(
        Token::parse("67e55044-10b1-426f-9247-bb680e5fe0c8"),
        Some(Token { value: 0x67e55044_10b1_426f_9247_bb680e5fe0c8 })
    );
    assert_eq!(
        Token::parse("67e5504410b1426f9247bb680e5fe0c8"),
        Some(Token { value: 0x67e55044_10b1_426f_9247_bb680e5fe0c8 })
    );
    assert_eq!(
        Token::parse("67E55044-10B1-426F-9247-BB680E5FE0C8"),
        Some(Token { value: 0x67e55044_10b1_426f_9247_bb680e5fe0c8 })
    );
}

#[test]
fn text_that_spells_no_token_is_refused() {
    assert_eq!(Token::parse("badtoken"), None);
    assert_eq!(Token::parse(""), None);
    assert_eq!(Token::parse("67e55044-10b1-426f-9247-bb680e5fe0c"), None);
    assert_eq!(Token::parse("anonymous"), None);
}

#[test]
fn fresh_tokens_read_back_and_differ() {
    let a = Token::fresh();
    let b = Token::fresh();
    assert_ne!(a, b);
    assert_eq!(Token::parse(&a.to_string()), Some(a));
    assert_eq!(a.to_string().len(), 36);
}

#[test]
fn fresh_tokens_are_of_version_4() {
    for _ in 0..64 {
        let token = Token::fresh();
        assert_eq!((token.value >> 76) & 0xf, 4);
        assert_eq!((token.value >> 62) & 0x3, 2);
        let text = token.to_string();
        assert_eq!(text.as_bytes()[14], b'4');
        assert!(b"89ab".contains(&text.as_bytes()[19]), "{}", text);
    }
}
