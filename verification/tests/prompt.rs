use aws_key_rotator::prompt::{check_answer, prompt_label, trim_answer, AnswerError};

#[test]
fn test_check_answer_ok() {
    let input: String = String::from("123456");
    assert_eq!(check_answer(input).unwrap(), 123456u32)
}

#[test]
fn test_check_answer_no_6_digits() {
    let input: String = String::from("12345");
    assert!(check_answer(input).is_err())
}

#[test]
fn test_check_answer_not_an_integer() {
    let input: String = String::from("12d345");
    assert!(check_answer(input).is_err())
}

#[test]
fn answer_errors_tell_length_from_digits() {
    assert_eq!(check_answer(String::from("12345")), Err(AnswerError::WrongLength));
    assert_eq!(check_answer(String::from("1234567")), Err(AnswerError::WrongLength));
    assert_eq!(check_answer(String::from("")), Err(AnswerError::WrongLength));
    assert_eq!(check_answer(String::from("12d345")), Err(AnswerError::NotANumber));
    assert_eq!(check_answer(String::from("-12345")), Err(AnswerError::NotANumber));
    assert_eq!(check_answer(String::from("12 345")), Err(AnswerError::NotANumber));
}

#[test]
fn answer_is_read_without_trailing_whitespace() {
    assert_eq!(check_answer(String::from("123456\n")), Ok(123456));
    assert_eq!(check_answer(String::from("123456\r\n")), Ok(123456));
    assert_eq!(check_answer(String::from("654321 \t\u{a0}\u{3000}")), Ok(654321));
    assert_eq!(check_answer(String::from(" 23456")), Err(AnswerError::NotANumber));
    assert_eq!(check_answer(String::from(" 123456")), Err(AnswerError::WrongLength));
}

#[test]
fn answer_with_a_sign_is_no_number() {
    assert_eq!(check_answer(String::from("+12345")), Err(AnswerError::NotANumber));
    assert_eq!(check_answer(String::from("-12345")), Err(AnswerError::NotANumber));
    assert_eq!(check_answer(String::from("+00000")), Err(AnswerError::NotANumber));
    assert_eq!(check_answer(String::from("++1234")), Err(AnswerError::NotANumber));
    assert_eq!(check_answer(String::from("12345+")), Err(AnswerError::NotANumber));
    assert_eq!(check_answer(String::from("+123456")), Err(AnswerError::WrongLength));
}

#[test]
fn answer_may_begin_with_zeros() {
    assert_eq!(check_answer(String::from("000042")), Ok(42));
    assert_eq!(check_answer(String::from("000000")), Ok(0));
    assert_eq!(check_answer(String::from("012345\n")), Ok(12345));
    assert_eq!(check_answer(String::from("999999")), Ok(999999));
}

#[test]
fn answer_is_accepted_exactly_when_it_is_six_digits() {
    let samples = [
        "123456", "000000", "+12345", "-12345", "12345", "1234567", "      ", "+     ", "1e3456", "0x1234", "12 456",
        "12345a", "a12345", "\u{660}\u{661}\u{662}", "12345\u{e9}", "1234\u{e9}", "", "123456 \t", "123456\r\n",
    ];
    for sample in samples {
        let trimmed = sample.trim_end();
        let six_digits = trimmed.chars().count() == 6 && trimmed.chars().all(|c| ('0'..='9').contains(&c));
        assert_eq!(check_answer(String::from(sample)).is_ok(), six_digits);
        if six_digits {
            assert_eq!(check_answer(String::from(sample)).ok(), trimmed.parse::<u32>().ok());
        }
    }
}

#[test]
fn trimmed_answer_agrees_with_std() {
    for sample in ["123456", "012345\n", "  12 \t\r\n", "", " \n", "abc\u{a0}\u{3000}", "x\u{200b}"] {
        assert_eq!(trim_answer(sample), sample.trim_end());
    }
}

#[test]
fn answer_of_six_bytes_in_fewer_characters_is_no_number() {
    assert_eq!(check_answer(String::from("\u{e9}\u{e9}\u{e9}")), Err(AnswerError::NotANumber));
    assert_eq!(check_answer(String::from("1234\u{e9}")), Err(AnswerError::NotANumber));
    assert_eq!(check_answer(String::from("12345\u{e9}")), Err(AnswerError::WrongLength));
}

#[test]
fn answer_agrees_with_std_on_every_trailing_character() {
    let mut code: u32 = 0;
    while code <= 0x10ffff {
        if let Some(c) = char::from_u32(code) {
            let text = format!("123456{}", c);
            let expected = text.trim_end().len() == 6;
            assert_eq!(check_answer(text).is_ok(), expected);
        }
        code += 1;
    }
}

#[test]
fn prompt_label_is_in_title_case() {
    assert_eq!(prompt_label("enter your mfa"), "Enter Your Mfa: ");
    assert_eq!(prompt_label("oneTimeCode"), "One Time Code: ");
}
