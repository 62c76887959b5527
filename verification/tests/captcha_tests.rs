use tgcaptcha::captcha::captcha_text;
use tgcaptcha::captcha::generate_captcha;
use tgcaptcha::captcha::op_from_token;
use tgcaptcha::captcha::question_display;
use tgcaptcha::captcha::validate_captcha_answer;
use tgcaptcha::question::MathQuestion;
use tgcaptcha::question::Operator;

#[test]
fn rendered_question_validates_its_own_answer() {
    let q = MathQuestion::new(7, Operator::Sub, 3);
    let text = captcha_text(&q);
    assert_eq!(text, "7 - 3");
    assert!(validate_captcha_answer(text.clone(), 4));
    assert!(!validate_captcha_answer(text, 9));
}

#[test]
fn rendered_two_digit_operands_validate() {
    let q = MathQuestion::new(9, Operator::Mul, 10);
    let text = captcha_text(&q);
    assert_eq!(text, "9 * 10");
    assert!(validate_captcha_answer(text.clone(), 90));
    assert!(!validate_captcha_answer(text, 91));
}

#[test]
fn generated_captcha_text_round_trips() {
    for _ in 0..25 {
        let (text, answers) = generate_captcha();
        assert_eq!(answers.len(), 4);
        let mut accepted = 0;
        for (idx, a) in answers.iter().enumerate() {
            if validate_captcha_answer(text.clone(), *a) {
                assert_ne!(idx, 0, "the first candidate must be a decoy");
                accepted += 1;
            }
        }
        assert_eq!(accepted, 1, "exactly one candidate must validate");
    }
}

#[test]
fn malformed_question_texts_reject_everything() {
    for a in 0..=255u8 {
        assert!(!validate_captcha_answer("".to_owned(), a));
        assert!(!validate_captcha_answer("7 -".to_owned(), a));
        assert!(!validate_captcha_answer("7 - 3 1".to_owned(), a));
        assert!(!validate_captcha_answer("x - 3".to_owned(), a));
        assert!(!validate_captcha_answer("7 % 3".to_owned(), a));
        assert!(!validate_captcha_answer("7-3".to_owned(), a));
        assert!(!validate_captcha_answer("300 + 1".to_owned(), a));
    }
}

#[test]
fn whitespace_between_tokens_is_flexible() {
    assert!(validate_captcha_answer("  7   -  3 ".to_owned(), 4));
    assert!(validate_captcha_answer("\t7\n-\t3\n".to_owned(), 4));
}

#[test]
fn negative_subtraction_text_matches_nothing() {
    // A hand-written text may subtract past zero; no unsigned value matches.
    for a in 0..=255u8 {
        assert!(!validate_captcha_answer("3 - 7".to_owned(), a));
    }
}

#[test]
fn oversized_product_text_matches_nothing() {
    for a in 0..=255u8 {
        assert!(!validate_captcha_answer("200 * 200".to_owned(), a));
    }
}

#[test]
fn operator_tokens_parse_exactly() {
    assert_eq!(op_from_token("+"), Some(Operator::Add));
    assert_eq!(op_from_token("-"), Some(Operator::Sub));
    assert_eq!(op_from_token("*"), Some(Operator::Mul));
    assert_eq!(op_from_token("/"), None);
    assert_eq!(op_from_token("++"), None);
    assert_eq!(op_from_token(""), None);
}

#[test]
fn display_text_uses_joiner_guards() {
    let q = MathQuestion::new(7, Operator::Sub, 3);
    assert_eq!(question_display(&q), "7\u{200c} -\u{200c} 3");
}

#[test]
fn leading_plus_parses_like_rust() {
    // str::parse::<u8> accepts one leading plus sign.
    assert!(validate_captcha_answer("+7 - +3".to_owned(), 4));
    assert!(!validate_captcha_answer("++7 - 3".to_owned(), 4));
}
