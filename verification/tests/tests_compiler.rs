use mrt_cpu::assembler::error::{
    CompilationError, Position, TokenTypeConversionError, TokenizationError,
};
use mrt_cpu::assembler::token::{tokenize, Token, TokenType};
use mrt_cpu::assembler::{compile, pieces};
use mrt_cpu::compiler::compiler::{CompilationState, CompileError};

fn create_mock_position() -> Position {
    let path = "";
    let position = Position::new(path);

    return position;
}

#[test]
fn compiler_can_tokenize_comment() {
    let mut token = Token::new(create_mock_position());

    for c in "# a comment 03121 # # ##".chars() {
        assert!(token.take(c).is_ok());
    }

    assert_eq!(token.ttype(), TokenType::Comment);
}

#[test]
fn compiler_can_tokenize_symbol() {
    let mut token = Token::new(create_mock_position());

    for c in "abcde0139".chars() {
        assert!(token.take(c).is_ok());
    }

    assert_eq!(token.ttype(), TokenType::Symbol);
}

#[test]
fn compiler_can_tokenize_number() {
    let mut token = Token::new(create_mock_position());

    for c in "38129".chars() {
        assert!(token.take(c).is_ok());
    }

    assert_eq!(token.ttype(), TokenType::Number);
}

#[test]
fn compiler_can_tokenize_number_and_symbol() {
    let mut token = Token::new(create_mock_position());

    for c in "123".chars() {
        assert!(token.take(c).is_ok());
    }

    let result = token.take('a');
    assert!(result.is_err());

    let error = result.err().unwrap();
    assert_eq!(
        error,
        TokenTypeConversionError::IncompatibleTypes(TokenType::Symbol, TokenType::Number)
    );

    assert_eq!(token.ttype(), TokenType::Number);
}

#[test]
fn compiler_errors_on_tokenizing_unknown_character() {
    let mut token = Token::new(create_mock_position());

    let result = token.take('_'); // '_' is not a recognized character at the moment
    assert!(result.is_err());

    let error = result.err().unwrap();
    assert_eq!(error, TokenTypeConversionError::UnknownCharacter('_'));
    assert_eq!(token.ttype(), TokenType::Unknown); // Not yet set
}

#[test]
fn compiler_can_tokenize_hexadecimal_number() {
    let mut token = Token::new(create_mock_position());

    for c in "0x38129".chars() {
        assert!(token.take(c).is_ok());
    }

    assert_eq!(token.ttype(), TokenType::Number);
}

#[test]
fn compiler_position_is_correct() {
    let position = create_mock_position();
    let (line, column) = position.get_line_info();

    assert_eq!(line, 0);
    assert_eq!(column, 0);
}

#[test]
fn compiler_position_new_line_resets_line_offset() {
    let mut position = create_mock_position();

    for _ in 0..5 {
        position.next_char();
    }

    let (_, column) = position.get_line_info();
    assert_eq!(column, 5);

    position.next_line();

    let (line, column) = position.get_line_info();

    assert_eq!(line, 1);
    assert_eq!(column, 0);
}

#[test]
fn compiler_tokenizer_tokenizes() {
    let path = "";
    let input_stream = [];

    let result = tokenize(&input_stream, path);
    assert!(result.is_ok());
}

#[test]
fn compiler_tokenizer_tokenizes_comment() {
    let path = "";
    let input_stream = "# comment".as_bytes();

    let result = tokenize(&input_stream, path);
    assert!(result.is_ok());

    let tokens = result.unwrap();

    assert_eq!(tokens.len(), 1);
    assert_eq!(tokens[0].ttype(), TokenType::Comment);
}

#[test]
fn compiler_tokenizer_tokenizes_comment_until_newline() {
    let path = "";
    let input_stream = "# comment\n".as_bytes();

    let result = tokenize(&input_stream, path);
    assert!(result.is_ok());

    let tokens = result.unwrap();

    assert_eq!(tokens.len(), 2);
    assert_eq!(tokens[0].ttype(), TokenType::Comment);
    assert_eq!(tokens[1].ttype(), TokenType::Whitespace); // the newline '\n'
}

#[test]
fn compiler_tokenizer_tokenizes_number_and_symbol() {
    let path = "";
    let input_stream = "123abc".as_bytes();

    // should tokenize as Number { 123 }, Symbol { abc }
    let result = tokenize(&input_stream, path);
    assert!(result.is_ok());

    let tokens = result.unwrap();

    assert_eq!(tokens.len(), 2);
    assert_eq!(tokens[0].ttype(), TokenType::Number);
    assert_eq!(tokens[1].ttype(), TokenType::Symbol);
}

#[test]
fn compiler_fails_tokenizing_and_shows_correct_position() {
    let path = "";
    let input_stream = "123_".as_bytes();

    // should tokenize as Number { 123 }, with an error at '_'
    let result = tokenize(&input_stream, path);
    assert!(result.is_err());

    let error = result.err().unwrap();

    let TokenizationError::TokenTypeConversion(position, conversion_error) = error;
    let (line, column) = position.get_line_info();
    assert_eq!(line, 0);
    assert_eq!(column, 4);

    if let TokenTypeConversionError::UnknownCharacter(c) = conversion_error {
        assert_eq!(c, '_');
    } else {
        panic!();
    }
}

fn text(token: &Token) -> String {
    token.data().iter().collect()
}

fn summary(input: &str) -> Vec<(TokenType, String)> {
    let tokens = tokenize(input.as_bytes(), "").unwrap();
    tokens.iter().map(|token| (token.ttype(), text(token))).collect()
}

fn kinds(pairs: &[(TokenType, &str)]) -> Vec<(TokenType, String)> {
    pairs.iter().map(|(kind, data)| (*kind, data.to_string())).collect()
}

#[test]
fn tokenizer_keeps_the_characters_of_each_token() {
    assert_eq!(
        summary("123abc"),
        kinds(&[(TokenType::Number, "123"), (TokenType::Symbol, "abc")])
    );
    assert_eq!(
        summary("LDI r0 10\nHLT"),
        kinds(&[
            (TokenType::Symbol, "LDI"),
            (TokenType::Whitespace, " "),
            (TokenType::Symbol, "r0"),
            (TokenType::Whitespace, " "),
            (TokenType::Number, "10"),
            (TokenType::Whitespace, "\n"),
            (TokenType::Symbol, "HLT"),
        ])
    );
}

#[test]
fn tokenizer_empty_input_gives_one_unknown_token() {
    assert_eq!(summary(""), kinds(&[(TokenType::Unknown, "")]));
}

#[test]
fn tokenizer_comment_runs_to_the_line_end() {
    assert_eq!(
        summary("# a _ b\n\n x"),
        kinds(&[
            (TokenType::Comment, "# a _ b"),
            (TokenType::Whitespace, "\n\n "),
            (TokenType::Symbol, "x"),
        ])
    );
}

#[test]
fn tokenizer_hexadecimal_prefix_and_letters() {
    assert_eq!(summary("0x12"), kinds(&[(TokenType::Number, "0x12")]));
    assert_eq!(summary("0X12"), kinds(&[(TokenType::Number, "0X12")]));
    assert_eq!(
        summary("0x1f"),
        kinds(&[(TokenType::Number, "0x1"), (TokenType::Symbol, "f")])
    );
    assert_eq!(
        summary("10x"),
        kinds(&[(TokenType::Number, "10"), (TokenType::Symbol, "x")])
    );
    assert_eq!(summary("XOR"), kinds(&[(TokenType::Symbol, "XOR")]));
}

#[test]
fn tokenizer_positions_follow_the_first_character() {
    let tokens = tokenize("ab\ncd 1".as_bytes(), "").unwrap();
    let places: Vec<(usize, usize, usize)> = tokens
        .iter()
        .map(|token| {
            let position = token.position();
            let (line, column) = position.get_line_info();
            (line, column, position.get_offset())
        })
        .collect();
    assert_eq!(
        places,
        vec![(0, 0, 0), (1, 0, 3), (1, 1, 4), (1, 3, 6), (1, 4, 7)]
    );
}

#[test]
fn tokenizer_reports_the_place_after_the_unknown_character() {
    let error = tokenize("ab\nc d$e".as_bytes(), "").unwrap_err();
    let TokenizationError::TokenTypeConversion(position, cause) = error;
    assert_eq!(cause, TokenTypeConversionError::UnknownCharacter('$'));
    assert_eq!(position.get_line_info(), (1, 4));
    assert_eq!(position.get_offset(), 7);
}

#[test]
fn tokenizer_reads_bytes_as_their_code_points() {
    let error = tokenize(&[b'a', 0xE9], "").unwrap_err();
    let TokenizationError::TokenTypeConversion(_, cause) = error;
    assert_eq!(cause, TokenTypeConversionError::UnknownCharacter('\u{e9}'));
}

#[test]
fn token_whitespace_refuses_letters() {
    let mut token = Token::new(Position::new(""));
    assert!(token.take(' ').is_ok());
    assert!(token.take('\t').is_ok());
    assert_eq!(
        token.take('a'),
        Err(TokenTypeConversionError::IncompatibleTypes(
            TokenType::Symbol,
            TokenType::Whitespace
        ))
    );
    assert_eq!(text(&token), " \t");
}

#[test]
fn token_comment_ends_with_the_line() {
    let mut token = Token::new(Position::new(""));
    assert!(token.take('#').is_ok());
    assert!(token.take('_').is_ok());
    assert_eq!(
        token.take('\n'),
        Err(TokenTypeConversionError::IncompatibleTypes(
            TokenType::Whitespace,
            TokenType::Comment
        ))
    );
    assert_eq!(text(&token), "#_");
}

#[test]
fn token_type_of_a_character() {
    let fresh = Token::new(Position::new(""));
    assert_eq!(TokenType::convert_from('q', &fresh), Ok(TokenType::Symbol));
    assert_eq!(TokenType::convert_from('7', &fresh), Ok(TokenType::Number));
    assert_eq!(TokenType::convert_from('\r', &fresh), Ok(TokenType::Whitespace));
    assert_eq!(TokenType::convert_from('#', &fresh), Ok(TokenType::Comment));
    assert_eq!(TokenType::convert_from('X', &fresh), Ok(TokenType::Symbol));
    assert_eq!(
        TokenType::convert_from('.', &fresh),
        Err(TokenTypeConversionError::UnknownCharacter('.'))
    );

    let mut symbol = Token::new(Position::new(""));
    assert!(symbol.take('r').is_ok());
    assert_eq!(TokenType::convert_from('7', &symbol), Ok(TokenType::Symbol));

    let mut zero = Token::new(Position::new(""));
    assert!(zero.take('0').is_ok());
    assert_eq!(TokenType::convert_from('x', &zero), Ok(TokenType::Number));
    assert_eq!(TokenType::convert_from('X', &zero), Ok(TokenType::Number));
    assert!(zero.take('0').is_ok());
    assert_eq!(TokenType::convert_from('x', &zero), Ok(TokenType::Symbol));
}

#[test]
fn pieces_drop_whitespace() {
    let tokens = tokenize("LDI r0 10 # ten\n".as_bytes(), "").unwrap();
    assert_eq!(
        pieces(&tokens),
        vec![
            CompilationState::Symbol("LDI".chars().collect()),
            CompilationState::Symbol("r0".chars().collect()),
            CompilationState::Numeric("10".chars().collect()),
            CompilationState::Comment("# ten".chars().collect()),
        ]
    );
    assert!(pieces(&tokenize(&[], "").unwrap()).is_empty());
}

#[test]
fn compile_load_immediate_and_halt() {
    let binary = compile("LDI r0 10\nHLT".as_bytes(), "main.asm").unwrap();
    assert_eq!(*binary, vec![0x10, 0x0A, 0x00]);
}

#[test]
fn compile_empty_text_gives_no_bytes() {
    assert_eq!(*compile(&[], "main.asm").unwrap(), Vec::<u8>::new());
    assert_eq!(*compile("  \n# nothing\n".as_bytes(), "main.asm").unwrap(), Vec::<u8>::new());
}

#[test]
fn compile_every_shape() {
    let source = "# shapes\nhlt\nldi R1 0x10\njnz r2 r3\nshl r4 r5 7\nadd r12 r13 r15\n";
    let binary = compile(source.as_bytes(), "main.asm").unwrap();
    assert_eq!(
        *binary,
        vec![0x00, 0x11, 0x10, 0x52, 0x30, 0x94, 0x57, 0x2C, 0xDF]
    );
}

#[test]
fn compile_reports_tokenizer_fault() {
    let error = compile("LDI r0 1_".as_bytes(), "main.asm").unwrap_err();
    match error {
        CompilationError::Tokenizer(TokenizationError::TokenTypeConversion(position, cause)) => {
            assert_eq!(cause, TokenTypeConversionError::UnknownCharacter('_'));
            assert_eq!(position.get_line_info(), (0, 9));
        }
        other => panic!("{:?}", other),
    }
}

#[test]
fn compile_reports_unknown_symbol() {
    assert_eq!(
        compile("LDI r0 10\nfoo".as_bytes(), "main.asm"),
        Err(CompilationError::Assembler(CompileError::UnknownSymbol(
            "foo".to_string()
        )))
    );
    assert_eq!(
        compile("LDI r11 10".as_bytes(), "main.asm"),
        Err(CompilationError::Assembler(CompileError::UnknownSymbol(
            "r11".to_string()
        )))
    );
}

#[test]
fn compile_reports_invalid_number() {
    assert_eq!(
        compile("LDI r0 256".as_bytes(), "main.asm"),
        Err(CompilationError::Assembler(CompileError::InvalidNumber(
            "256".to_string()
        )))
    );
    assert_eq!(
        compile("LDI r0 0x100".as_bytes(), "main.asm"),
        Err(CompilationError::Assembler(CompileError::InvalidNumber(
            "0x100".to_string()
        )))
    );
    assert_eq!(
        compile("LDI r0 0X10".as_bytes(), "main.asm"),
        Err(CompilationError::Assembler(CompileError::InvalidNumber(
            "0X10".to_string()
        )))
    );
}

#[test]
fn compile_hexadecimal_letters_split_the_literal() {
    // The tokenizer ends a number at a letter, so the letter stands alone.
    assert_eq!(
        compile("LDI r0 0x1f".as_bytes(), "main.asm"),
        Err(CompilationError::Assembler(CompileError::UnknownSymbol(
            "f".to_string()
        )))
    );
    assert_eq!(*compile("LDI r0 0x19".as_bytes(), "main.asm").unwrap(), vec![0x10, 0x19]);
}

#[test]
fn compile_first_fault_wins() {
    assert_eq!(
        compile("foo 999".as_bytes(), "main.asm"),
        Err(CompilationError::Assembler(CompileError::UnknownSymbol(
            "foo".to_string()
        )))
    );
    assert_eq!(
        compile("999 foo".as_bytes(), "main.asm"),
        Err(CompilationError::Assembler(CompileError::InvalidNumber(
            "999".to_string()
        )))
    );
}

#[test]
fn position_keeps_its_path() {
    let mut position = Position::new("programs/blink.asm");
    assert_eq!(position.get_path(), "programs/blink.asm");
    position.next_char();
    position.next_line();
    assert_eq!(position.get_path(), "programs/blink.asm");

    let copy = position.clone();
    assert_eq!(copy, position);
    assert_eq!(copy.get_path(), "programs/blink.asm");
    assert_eq!(copy.get_line_info(), (1, 0));
    assert_eq!(copy.get_offset(), 2);
    assert_ne!(copy, Position::new("programs/blink.asm"));
    assert_ne!(Position::new("a"), Position::new("b"));
}

#[test]
fn tokenizer_places_carry_the_path() {
    let tokens = tokenize("ab 1".as_bytes(), "é.asm").unwrap();
    assert_eq!(tokens.len(), 3);
    for token in tokens.iter() {
        assert_eq!(token.position().get_path(), "é.asm");
    }

    let error = tokenize("a$".as_bytes(), "x.asm").unwrap_err();
    let TokenizationError::TokenTypeConversion(position, _) = error;
    assert_eq!(position.get_path(), "x.asm");
    assert_eq!(position.get_offset(), 2);
}
