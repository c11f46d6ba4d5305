use multiplication_trainer::input::{read_input_key, Input, Key, PendingAnswer, ReadStep};
use multiplication_trainer::output::{
    check_user_input, clear_screen, write_farewell, write_prompt, write_welcome, Out, Style,
};
use multiplication_trainer::problem::{generate_problem, problem_from_draws, Problem};
use multiplication_trainer::session::{start_problem, Session};

fn prompt_of(p: Problem) -> Vec<Out> {
    vec![Out::Number(p.a), Out::Text(" x "), Out::Number(p.b), Out::Text(" = ")]
}

fn press(s: &mut Session, keys: &[Key]) -> Vec<Out> {
    let mut out = Vec::new();
    for k in keys {
        s.handle_key(*k, &mut out);
    }
    out
}

fn typed(digits: &str) -> PendingAnswer {
    let mut p = PendingAnswer::new();
    for c in digits.chars() {
        p.push_digit(c);
    }
    p
}

fn is_verdict(o: &Out) -> bool {
    matches!(o, Out::Style(Style::Green) | Out::Style(Style::Red))
}

#[test]
fn correct_answer_is_praised_and_next_problem_posed() {
    let mut s = Session::with_problem(Problem { a: 3, b: 7 });
    let out = press(&mut s, &[Key::Char('2'), Key::Char('1'), Key::Enter]);
    let next = s.problem();
    let mut expected = vec![
        Out::Char('2'),
        Out::Char('1'),
        Out::Style(Style::Green),
        Out::Text("\tCorrect!\n"),
        Out::Style(Style::ResetColor),
    ];
    expected.extend(prompt_of(next));
    assert_eq!(out, expected);
    assert!(next.a < 10 && next.b < 10);
    assert!(s.is_running());
}

#[test]
fn wrong_answer_is_told_the_product() {
    let mut s = Session::with_problem(Problem { a: 3, b: 7 });
    let out = press(&mut s, &[Key::Char('9'), Key::Enter]);
    let mut expected = vec![
        Out::Char('9'),
        Out::Style(Style::Red),
        Out::Text("\tIncorrect! The correct answer was "),
        Out::Style(Style::Bold),
        Out::Number(21),
        Out::Text("\n"),
        Out::Style(Style::ResetColor),
        Out::Style(Style::ResetAttributes),
    ];
    expected.extend(prompt_of(s.problem()));
    assert_eq!(out, expected);
}

#[test]
fn escape_at_start_ends_without_verdict() {
    let mut out = Vec::new();
    let mut s = Session::start(&mut out);
    let first = s.problem();
    let mut expected = vec![
        Out::Clear,
        Out::Text("Welcome to the Multiplication Trainer\n"),
        Out::Text("Press"),
        Out::Style(Style::Bold),
        Out::Text(" ESC "),
        Out::Style(Style::ResetAttributes),
        Out::Text("to exit the application\n"),
    ];
    expected.extend(prompt_of(first));
    assert_eq!(out, expected);
    let before = out.len();
    s.handle_key(Key::Esc, &mut out);
    assert!(!s.is_running());
    assert_eq!(out.len(), before);
    write_farewell(&mut out);
    assert_eq!(
        out[before..].to_vec(),
        vec![Out::Style(Style::ResetAttributes), Out::Text("\nBye bye!\n")]
    );
    assert!(!out.iter().any(is_verdict));
}

#[test]
fn escape_mid_answer_drops_the_digits() {
    let mut s = Session::with_problem(Problem { a: 4, b: 5 });
    let out = press(&mut s, &[Key::Char('2'), Key::Char('0'), Key::Esc, Key::Enter, Key::Char('1')]);
    assert_eq!(out, vec![Out::Char('2'), Out::Char('0')]);
    assert!(!s.is_running());
    assert_eq!(s.problem(), Problem { a: 4, b: 5 });
}

#[test]
fn leading_zero_is_ignored() {
    assert_eq!(typed("042").parse(), Some(42));
    let mut s = Session::with_problem(Problem { a: 6, b: 7 });
    let out = press(&mut s, &[Key::Char('0'), Key::Char('4'), Key::Char('2'), Key::Enter]);
    assert_eq!(out[3], Out::Style(Style::Green));
}

#[test]
fn many_leading_zeros_are_ignored() {
    assert_eq!(typed("00000000000000000042").parse(), Some(42));
    assert_eq!(typed("0").parse(), Some(0));
}

#[test]
fn enter_without_digits_is_passed_over() {
    let mut p = PendingAnswer::new();
    assert_eq!(p.get_user_input(Input::Accept), ReadStep::Rejected);
    assert_eq!(p.len(), 0);
    let mut s = Session::with_problem(Problem { a: 0, b: 9 });
    let out = press(&mut s, &[Key::Enter]);
    assert!(out.is_empty());
    assert!(s.is_running());
    let out = press(&mut s, &[Key::Char('0'), Key::Enter]);
    assert_eq!(out[1], Out::Style(Style::Green));
}

#[test]
fn answer_too_large_is_passed_over() {
    assert_eq!(typed("65535").parse(), Some(65535));
    assert_eq!(typed("65536").parse(), None);
    assert_eq!(typed("99999999999").parse(), None);
    let mut p = typed("70000");
    assert_eq!(p.get_user_input(Input::Accept), ReadStep::Rejected);
    assert_eq!(p.len(), 5);
}

#[test]
fn reader_steps() {
    let mut p = PendingAnswer::new();
    assert_eq!(p.get_user_input(Input::Digit('1')), ReadStep::Echo('1'));
    assert_eq!(p.get_user_input(Input::Digit('2')), ReadStep::Echo('2'));
    assert_eq!(p.get_user_input(Input::Accept), ReadStep::Value(12));
    assert_eq!(p.len(), 0);
    assert_eq!(p.get_user_input(Input::Digit('5')), ReadStep::Echo('5'));
    assert_eq!(p.get_user_input(Input::Cancel), ReadStep::Stop);
    assert_eq!(p.len(), 0);
}

#[test]
fn keys_are_sorted() {
    assert_eq!(read_input_key(Key::Esc), Some(Input::Cancel));
    assert_eq!(read_input_key(Key::Enter), Some(Input::Accept));
    assert_eq!(read_input_key(Key::Char('0')), Some(Input::Digit('0')));
    assert_eq!(read_input_key(Key::Char('9')), Some(Input::Digit('9')));
    assert_eq!(read_input_key(Key::Char('a')), None);
    assert_eq!(read_input_key(Key::Char('/')), None);
    assert_eq!(read_input_key(Key::Char(':')), None);
    assert_eq!(read_input_key(Key::Other), None);
}

#[test]
fn other_keys_do_nothing() {
    let mut s = Session::with_problem(Problem { a: 2, b: 2 });
    let out = press(&mut s, &[Key::Other, Key::Char('x'), Key::Char(' ')]);
    assert!(out.is_empty());
    assert!(s.is_running());
}

#[test]
fn verdict_for_every_pair() {
    for a in 0..10u16 {
        for b in 0..10u16 {
            let p = Problem { a, b };
            for v in 0..100u16 {
                let mut out = Vec::new();
                let ok = check_user_input(&mut out, v, &p);
                assert_eq!(ok, v == a * b);
                assert_eq!(out.contains(&Out::Style(Style::Green)), ok);
                if !ok {
                    assert!(out.contains(&Out::Number(a * b)));
                }
            }
        }
    }
}

#[test]
fn product_of_largest_operands() {
    let p = Problem { a: 9, b: 9 };
    assert_eq!(p.correct_answer(), 81);
    let mut out = Vec::new();
    assert!(check_user_input(&mut out, 81, &p));
    let mut out = Vec::new();
    assert!(!check_user_input(&mut out, 18, &p));
    assert_eq!(out[3], Out::Number(81));
}

#[test]
fn generated_problems_are_single_digits() {
    for _ in 0..1000 {
        let p = generate_problem();
        assert!(p.a < 10 && p.b < 10);
    }
}

#[test]
fn start_problem_poses_what_it_drew() {
    let mut out = vec![Out::Clear];
    let p = start_problem(&mut out);
    let mut expected = vec![Out::Clear];
    expected.extend(prompt_of(p));
    assert_eq!(out, expected);
}

#[test]
fn prompt_and_screen() {
    let mut out = Vec::new();
    clear_screen(&mut out);
    write_prompt(&mut out, &Problem { a: 3, b: 7 });
    assert_eq!(
        out,
        vec![Out::Clear, Out::Number(3), Out::Text(" x "), Out::Number(7), Out::Text(" = ")]
    );
    let mut out = Vec::new();
    write_welcome(&mut out);
    assert_eq!(out.len(), 6);
    assert_eq!(out[4], Out::Style(Style::ResetAttributes));
}

#[test]
fn new_round_after_each_verdict() {
    let mut s = Session::with_problem(Problem { a: 1, b: 1 });
    for _ in 0..20 {
        let keys = [Key::Char('1'), Key::Enter];
        let out = press(&mut s, &keys);
        assert!(out.iter().any(is_verdict));
        assert_eq!(out[out.len() - 4..].to_vec(), prompt_of(s.problem()));
    }
    assert!(s.is_running());
}

#[test]
fn draws_become_operands() {
    assert_eq!(problem_from_draws(3, 7), Problem { a: 3, b: 7 });
    assert_eq!(problem_from_draws(13, 27), Problem { a: 3, b: 7 });
    assert_eq!(problem_from_draws(65535, 10), Problem { a: 5, b: 0 });
    let mut out = Vec::new();
    write_prompt(&mut out, &problem_from_draws(3, 7));
    assert_eq!(out, prompt_of(Problem { a: 3, b: 7 }));
}
