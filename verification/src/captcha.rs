//! The textual form of a challenge: a question rendered as "lhs op rhs",
//! parsed back and re-evaluated on validation, so the text itself never
//! carries the answer.

use vstd::prelude::*;

use crate::question::MathQuestion;
use crate::question::Operator;
use crate::text::all_digits;
use crate::text::digits_val;
use crate::text::is_space;
use crate::text::parse_u8;
use crate::text::push_char;
use crate::text::spec_digit_char;
use crate::text::spec_parse_u8;
use crate::text::spec_tokens;
use crate::text::spec_u8_string;
use crate::text::split_state;
use crate::text::split_whitespace_tokens;
use crate::text::u8_to_string;

verus! {

/// The textual question handed to the messaging layer.
pub type Question = String;

/// The operator a single-character token denotes — the meaning of the
/// operator parse.
pub open spec fn spec_op_from(t: Seq<char>) -> Option<Operator> {
    if t.len() != 1 {
        None
    } else if t[0] == '+' {
        Some(Operator::Add)
    } else if t[0] == '-' {
        Some(Operator::Sub)
    } else if t[0] == '*' {
        Some(Operator::Mul)
    } else {
        None
    }
}

/// Parse an operator token.
pub fn op_from_token(t: &str) -> (r: Option<Operator>)
    ensures
        r == spec_op_from(t@),
{
    if t.unicode_len() != 1 {
        return None;
    }
    let c = t.get_char(0);
    if c == '+' {
        Some(Operator::Add)
    } else if c == '-' {
        Some(Operator::Sub)
    } else if c == '*' {
        Some(Operator::Mul)
    } else {
        None
    }
}

/// The text of a question: both operands in decimal around the operator's
/// symbol, separated by single spaces.
pub open spec fn spec_captcha_text(q: MathQuestion) -> Seq<char> {
    spec_u8_string(q.lhs as int) + seq![' '] + q.operator.spec_symbol() + seq![' ']
        + spec_u8_string(q.rhs as int)
}

/// Render a question as its textual form.
pub fn captcha_text(q: &MathQuestion) -> (r: String)
    ensures
        r@ == spec_captcha_text(*q),
{
    let mut out = u8_to_string(q.lhs);
    push_char(&mut out, ' ');
    out.append(q.operator.symbol());
    push_char(&mut out, ' ');
    let rhs_text = u8_to_string(q.rhs);
    out.append(rhs_text.as_str());
    proof {
        assert(out@ =~= spec_captcha_text(*q));
    }
    out
}

/// The display form of a question as embedded in messages: like the plain
/// text, but with a zero-width non-joiner before each gap, which renders as
/// an ordinary space yet frustrates naive text scraping.
pub open spec fn spec_question_display(q: MathQuestion) -> Seq<char> {
    spec_u8_string(q.lhs as int) + seq!['\u{200c}', ' '] + q.operator.spec_symbol() + seq![
        '\u{200c}',
        ' ',
    ] + spec_u8_string(q.rhs as int)
}

/// Render a question for display in a message.
pub fn question_display(q: &MathQuestion) -> (r: String)
    ensures
        r@ == spec_question_display(*q),
{
    let mut out = u8_to_string(q.lhs);
    push_char(&mut out, '\u{200c}');
    push_char(&mut out, ' ');
    out.append(q.operator.symbol());
    push_char(&mut out, '\u{200c}');
    push_char(&mut out, ' ');
    let rhs_text = u8_to_string(q.rhs);
    out.append(rhs_text.as_str());
    proof {
        assert(out@ =~= spec_question_display(*q));
    }
    out
}

/// What validating a submitted value against a question text means: the text
/// splits into exactly three whitespace-separated tokens — a number, an
/// operator, a number — and the value equals the operator applied to the two
/// numbers. Anything else fails. The comparison is mathematical, so a
/// negative or oversized recomputed value simply never matches.
pub open spec fn spec_validate_captcha(s: Seq<char>, answer: u8) -> bool {
    let toks = spec_tokens(s);
    if toks.len() != 3 {
        false
    } else {
        match (spec_parse_u8(toks[0]), spec_op_from(toks[1]), spec_parse_u8(toks[2])) {
            (Some(n1), Some(op), Some(n2)) => answer == op.spec_eval(n1, n2),
            _ => false,
        }
    }
}

/// Validate a submitted value against a question text, recomputing the
/// expected answer from the text alone. Pure and deterministic; a text that
/// is not exactly a well-formed question rejects every value.
pub fn validate_captcha_answer(question: Question, answer: u8) -> (r: bool)
    ensures
        r == spec_validate_captcha(question@, answer),
{
    let toks = split_whitespace_tokens(question.as_str());
    proof {
        assert(toks@.map_values(|t: String| t@).len() == toks@.len());
    }
    if toks.len() != 3 {
        return false;
    }
    proof {
        assert(toks@.map_values(|t: String| t@)[0] == toks@[0]@);
        assert(toks@.map_values(|t: String| t@)[1] == toks@[1]@);
        assert(toks@.map_values(|t: String| t@)[2] == toks@[2]@);
    }
    let n1 = parse_u8(toks[0].as_str());
    let op = op_from_token(toks[1].as_str());
    let n2 = parse_u8(toks[2].as_str());
    match (n1, op, n2) {
        (Some(a), Some(o), Some(b)) => {
            let value: i32 = match o {
                Operator::Add => a as i32 + b as i32,
                Operator::Sub => a as i32 - b as i32,
                Operator::Mul => {
                    proof {
                        assert(a * b <= 65025) by (nonlinear_arith)
                            requires
                                a <= 255,
                                b <= 255,
                        ;
                        assert(a * b >= 0) by (nonlinear_arith);
                    }
                    a as i32 * b as i32
                },
            };
            answer as i32 == value
        },
        _ => false,
    }
}

/// Generate a random question in textual form, with four candidate answers:
/// the correct one stands at exactly one position, never the first, and all
/// four are pairwise distinct values in the plausible range.
pub fn generate_captcha() -> (r: (Question, Vec<u8>))
    ensures
        r.1@.len() == 4,
        exists|q: MathQuestion|
            {
                &&& #[trigger] q.wf()
                &&& r.0@ == spec_captcha_text(q)
                &&& (exists|i: int| 1 <= i < 4 && r.1@[i] == q.answer())
                &&& r.1@[0] != q.answer()
                &&& (forall|i: int, j: int| 0 <= i < j < 4 ==> r.1@[i] != r.1@[j])
                &&& (forall|a: u8| spec_validate_captcha(r.0@, a) == (a == q.answer()))
            },
{
    let (q, answers) = MathQuestion::generate_question(4);
    let text = captcha_text(&q);
    let result = (text, answers);
    proof {
        assert forall|a: u8| spec_validate_captcha(result.0@, a) == (a == q.answer()) by {
            lemma_validate_rendered_question(q, a);
        }
        assert({
            &&& q.wf()
            &&& result.0@ == spec_captcha_text(q)
            &&& (exists|i: int| 1 <= i < 4 && result.1@[i] == q.answer())
            &&& result.1@[0] != q.answer()
            &&& (forall|i: int, j: int| 0 <= i < j < 4 ==> result.1@[i] != result.1@[j])
            &&& (forall|a: u8| spec_validate_captcha(result.0@, a) == (a == q.answer()))
        });
    }
    result
}

/// Appending a whitespace-free run to a text extends its unfinished token and
/// nothing else.
proof fn lemma_split_append_nonspace(s: Seq<char>, t: Seq<char>)
    requires
        forall|i: int| 0 <= i < t.len() ==> !is_space(#[trigger] t[i]),
    ensures
        split_state(s + t).0 == split_state(s).0,
        split_state(s + t).1 == split_state(s).1 + t,
    decreases t.len(),
{
    if t.len() == 0 {
        assert(s + t =~= s);
        assert(split_state(s).1 + t =~= split_state(s).1);
    } else {
        lemma_split_append_nonspace(s, t.drop_last());
        let whole = s + t;
        assert(whole.drop_last() =~= s + t.drop_last());
        assert(whole.last() == t.last());
        assert(!is_space(t.last()));
        assert(split_state(whole).1 =~= split_state(s).1 + t);
    }
}

/// Appending a space closes the unfinished token.
proof fn lemma_split_append_space(s: Seq<char>, c: char)
    requires
        is_space(c),
    ensures
        split_state(s + seq![c]).1 == Seq::<char>::empty(),
        split_state(s).1.len() == 0 ==> split_state(s + seq![c]).0 == split_state(s).0,
        split_state(s).1.len() > 0 ==> split_state(s + seq![c]).0 == split_state(s).0.push(
            split_state(s).1,
        ),
{
    let whole = s + seq![c];
    assert(whole.drop_last() =~= s);
    assert(whole.last() == c);
}

/// The decimal rendering of a number parses back to the number itself.
pub proof fn lemma_parse_render_roundtrip(x: u8)
    ensures
        spec_parse_u8(spec_u8_string(x as int)) == Some(x),
{
    let s = spec_u8_string(x as int);
    assert(forall|d: int| 0 <= d < 10 ==> spec_digit_char(d) != '+');
    assert(forall|d: int| 0 <= d < 10 ==> crate::text::is_digit(#[trigger] spec_digit_char(d)));
    if x < 10 {
        assert(all_digits(s));
        assert(digits_val(s.drop_last()) == 0) by {
            assert(s.drop_last() =~= Seq::<char>::empty());
        }
        assert(digits_val(s) == crate::text::digit_val(s.last()));
        assert(digits_val(s) == x);
    } else if x < 100 {
        assert(all_digits(s));
        let head = s.drop_last();
        assert(head =~= seq![spec_digit_char(x as int / 10)]);
        assert(head.drop_last() =~= Seq::<char>::empty());
        assert(digits_val(head.drop_last()) == 0);
        assert(digits_val(head) == x as int / 10);
        assert(digits_val(s) == (x as int / 10) * 10 + (x as int % 10));
        assert(digits_val(s) == x);
    } else {
        assert(all_digits(s));
        let head = s.drop_last();
        assert(head =~= seq![spec_digit_char(x as int / 100), spec_digit_char((x as int / 10) % 10)]);
        let head2 = head.drop_last();
        assert(head2 =~= seq![spec_digit_char(x as int / 100)]);
        assert(head2.drop_last() =~= Seq::<char>::empty());
        assert(digits_val(head2.drop_last()) == 0);
        assert(digits_val(head2) == x as int / 100);
        assert(digits_val(head) == (x as int / 100) * 10 + (x as int / 10) % 10);
        let y = x as int / 10;
        assert(x as int / 100 == y / 10) by (nonlinear_arith)
            requires
                y == x as int / 10,
                0 <= x as int,
        ;
        assert(y == (y / 10) * 10 + y % 10);
        assert(digits_val(head) == x as int / 10);
        assert(digits_val(s) == (x as int / 10) * 10 + (x as int % 10));
        assert(digits_val(s) == x);
    }
    assert(s[0] != '+');
    assert(digits_val(s) <= 255);
}

/// The text of a question splits into exactly its three tokens.
proof fn lemma_captcha_text_tokens(q: MathQuestion)
    ensures
        spec_tokens(spec_captcha_text(q)) =~= seq![
            spec_u8_string(q.lhs as int),
            q.operator.spec_symbol(),
            spec_u8_string(q.rhs as int),
        ],
{
    let d1 = spec_u8_string(q.lhs as int);
    let sym = q.operator.spec_symbol();
    let d3 = spec_u8_string(q.rhs as int);
    let space = seq![' '];
    assert(forall|d: int| 0 <= d < 10 ==> !is_space(#[trigger] spec_digit_char(d)));
    assert(forall|i: int| 0 <= i < d1.len() ==> !is_space(#[trigger] d1[i]));
    assert(forall|i: int| 0 <= i < sym.len() ==> !is_space(#[trigger] sym[i]));
    assert(forall|i: int| 0 <= i < d3.len() ==> !is_space(#[trigger] d3[i]));

    let s0 = Seq::<char>::empty();
    assert(split_state(s0).0 =~= Seq::<Seq<char>>::empty());
    assert(split_state(s0).1 =~= Seq::<char>::empty());

    let s1 = s0 + d1;
    lemma_split_append_nonspace(s0, d1);
    assert(split_state(s1).0 =~= Seq::<Seq<char>>::empty());
    assert(split_state(s1).1 =~= d1);

    let s2 = s1 + space;
    assert(s2 =~= s1 + seq![' ']);
    lemma_split_append_space(s1, ' ');
    assert(split_state(s2).0 =~= seq![d1]);
    assert(split_state(s2).1 =~= Seq::<char>::empty());

    let s3 = s2 + sym;
    lemma_split_append_nonspace(s2, sym);
    assert(split_state(s3).0 =~= seq![d1]);
    assert(split_state(s3).1 =~= sym);

    let s4 = s3 + space;
    assert(s4 =~= s3 + seq![' ']);
    lemma_split_append_space(s3, ' ');
    assert(split_state(s4).0 =~= seq![d1, sym]);
    assert(split_state(s4).1 =~= Seq::<char>::empty());

    let s5 = s4 + d3;
    lemma_split_append_nonspace(s4, d3);
    assert(split_state(s5).0 =~= seq![d1, sym]);
    assert(split_state(s5).1 =~= d3);

    assert(spec_captcha_text(q) =~= s5);
    assert(d3.len() > 0);
    assert(spec_tokens(s5) =~= seq![d1, sym, d3]);
}

/// Round trip: validating a value against the rendered text of a well-formed
/// question succeeds exactly for the question's own answer.
pub proof fn lemma_validate_rendered_question(q: MathQuestion, answer: u8)
    requires
        q.wf(),
    ensures
        spec_validate_captcha(spec_captcha_text(q), answer) == (answer == q.answer()),
{
    lemma_captcha_text_tokens(q);
    lemma_parse_render_roundtrip(q.lhs);
    lemma_parse_render_roundtrip(q.rhs);
    let toks = spec_tokens(spec_captcha_text(q));
    assert(toks[0] == spec_u8_string(q.lhs as int));
    assert(toks[1] == q.operator.spec_symbol());
    assert(toks[2] == spec_u8_string(q.rhs as int));
    assert(spec_op_from(q.operator.spec_symbol()) == Some(q.operator));
}

} // verus!
