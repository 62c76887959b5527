use tgcaptcha::question::MathQuestion;
use tgcaptcha::question::Operator;

fn generic_question(n: usize) {
    for _ in 0..10 {
        let (question, answers) = MathQuestion::generate_question(n);

        let mut found_answer = false;
        for (idx, answer) in answers.into_iter().enumerate() {
            if question.validate_answer(answer) {
                assert_ne!(idx, 0, "Answer never should be the first value.");
                found_answer = true;
            }
        }

        assert!(found_answer, "Didn't found the answer in math question.");
    }
}

#[test]
fn generate_question() {
    generic_question(4);
    generic_question(5);
    generic_question(10);
}

#[test]
fn validate_accepts_only_the_answer() {
    for _ in 0..50 {
        let (question, answers) = MathQuestion::generate_question(6);
        let accepted: Vec<u8> = answers
            .iter()
            .copied()
            .filter(|a| question.validate_answer(*a))
            .collect();
        assert_eq!(accepted.len(), 1, "exactly one candidate must validate");
        for a in answers.iter() {
            let expected = *a == accepted[0];
            assert_eq!(question.validate_answer(*a), expected);
        }
    }
}

#[test]
fn first_candidate_is_always_a_decoy() {
    for _ in 0..100 {
        let (question, answers) = MathQuestion::generate_question(4);
        assert!(!question.validate_answer(answers[0]));
    }
}

#[test]
fn candidates_are_pairwise_distinct() {
    for _ in 0..50 {
        let (_, answers) = MathQuestion::generate_question(10);
        for i in 0..answers.len() {
            for j in 0..answers.len() {
                if i != j {
                    assert_ne!(answers[i], answers[j]);
                }
            }
        }
    }
}

#[test]
fn candidates_stay_in_the_plausible_range() {
    for _ in 0..50 {
        let (_, answers) = MathQuestion::generate_question(5);
        assert_eq!(answers.len(), 5);
        for a in answers {
            assert!(a <= 100);
        }
    }
}

#[test]
fn subtraction_never_exceeds_left_operand() {
    for _ in 0..200 {
        let (question, _) = MathQuestion::generate_question(4);
        if matches!(question.operator, Operator::Sub) {
            assert!(question.rhs <= question.lhs);
        }
        assert!(question.lhs >= 1 && question.lhs <= 9);
        assert!(question.rhs >= 1 && question.rhs <= 10);
    }
}

#[test]
fn validate_recomputes_from_operands() {
    let q = MathQuestion::new(7, Operator::Sub, 3);
    assert!(q.validate_answer(4));
    assert!(!q.validate_answer(9));
    assert!(!q.validate_answer(0));

    let add = MathQuestion::new(9, Operator::Add, 10);
    assert!(add.validate_answer(19));
    assert!(!add.validate_answer(18));

    let mul = MathQuestion::new(9, Operator::Mul, 10);
    assert!(mul.validate_answer(90));
    assert!(!mul.validate_answer(89));

    assert_eq!(Operator::Add.eval(2, 3), 5);
    assert_eq!(Operator::Sub.eval(5, 5), 0);
    assert_eq!(Operator::Mul.eval(4, 5), 20);
}
