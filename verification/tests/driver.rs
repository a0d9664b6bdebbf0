use hush::driver::{run, step, Action, Args, Event, ExitStatus, Outcomes, Stage, Step, MAX_REPORTED};
use hush::runtime::ops::{callee, index};
use hush::runtime::value::{Dict, Function, RustFun, Str, Value};
use hush::runtime::{Panic, SourcePos};
use hush::symbol::{Interner, Symbol};

const PLAIN: Args = Args { print_ast: false, print_program: false, check: false };

const FINE: Outcomes =
    Outcomes { read_ok: true, syntax_errors: 0, semantic_errors: None, eval_ok: true };

fn feed(args: &Args, events: &[Event]) -> (Stage, Vec<Action>) {
    let mut stage = Stage::Start;
    let mut log = Vec::new();
    for event in events {
        let Step { stage: next, actions } = step(args, stage, *event);
        stage = next;
        log.extend(actions);
    }
    (stage, log)
}

#[test]
fn exit_codes() {
    assert_eq!(i32::from(ExitStatus::Success), 0);
    assert_eq!(i32::from(ExitStatus::InvalidArgs), 1);
    assert_eq!(i32::from(ExitStatus::StaticError), 2);
    assert_eq!(i32::from(ExitStatus::Panic), 127);
}

#[test]
fn empty_script_succeeds() {
    let events = [
        Event::Begin,
        Event::SourceRead { ok: true },
        Event::Parsed { errors: 0 },
        Event::Resolved { rejected: None },
        Event::Evaluated { ok: true },
    ];
    let (stage, log) = feed(&PLAIN, &events);
    assert_eq!(stage, Stage::Done { status: ExitStatus::Success });
    assert_eq!(
        log,
        vec![
            Action::ReadSource,
            Action::Parse,
            Action::Resolve,
            Action::Evaluate,
            Action::Exit { status: ExitStatus::Success },
        ]
    );
    let (status, trace) = run(&PLAIN, &FINE);
    assert_eq!(i32::from(status), 0);
    assert_eq!(trace, log);
    assert!(Value::default() == Value::Nil);
}

#[test]
fn undefined_name_is_a_static_error() {
    let events = [
        Event::Begin,
        Event::SourceRead { ok: true },
        Event::Parsed { errors: 0 },
        Event::Resolved { rejected: Some(1) },
    ];
    let (stage, log) = feed(&PLAIN, &events);
    assert_eq!(stage, Stage::Done { status: ExitStatus::StaticError });
    assert_eq!(
        log,
        vec![
            Action::ReadSource,
            Action::Parse,
            Action::Resolve,
            Action::ReportSemanticErrors { count: 1 },
            Action::Exit { status: ExitStatus::StaticError },
        ]
    );
    assert!(!log.contains(&Action::Evaluate));
    let outcomes = Outcomes { semantic_errors: Some(1), ..FINE };
    let (status, trace) = run(&PLAIN, &outcomes);
    assert_eq!(i32::from(status), 2);
    assert_eq!(trace, log);
}

#[test]
fn index_out_of_bounds_is_a_panic() {
    let mut interner = Interner::new();
    let path = interner.get_or_intern(b"<stdin>");
    let pos = SourcePos::new(path, 3, 7);
    let array = Value::from(vec![Value::Int(1), Value::Int(2)]);
    let panic = index(&array, &Value::Int(2), pos).unwrap_err();
    assert_eq!(panic.pos(), pos);
    match panic {
        Panic::IndexOutOfBounds { index, pos: at } => {
            assert!(index == Value::Int(2));
            assert_eq!(at, pos);
        }
        other => panic!("{:?}", other),
    }
    let events = [
        Event::Begin,
        Event::SourceRead { ok: true },
        Event::Parsed { errors: 0 },
        Event::Resolved { rejected: None },
        Event::Evaluated { ok: false },
    ];
    let (stage, log) = feed(&PLAIN, &events);
    assert_eq!(stage, Stage::Done { status: ExitStatus::Panic });
    assert_eq!(
        &log[3..],
        &[Action::Evaluate, Action::ReportPanic, Action::Exit { status: ExitStatus::Panic }]
    );
    assert_eq!(i32::from(run(&PLAIN, &Outcomes { eval_ok: false, ..FINE }).0), 127);
}

#[test]
fn check_does_not_evaluate() {
    let args = Args { check: true, ..PLAIN };
    let events = [
        Event::Begin,
        Event::SourceRead { ok: true },
        Event::Parsed { errors: 0 },
        Event::Resolved { rejected: None },
    ];
    let (stage, log) = feed(&args, &events);
    assert_eq!(stage, Stage::Done { status: ExitStatus::Success });
    assert_eq!(
        log,
        vec![
            Action::ReadSource,
            Action::Parse,
            Action::Resolve,
            Action::Exit { status: ExitStatus::Success },
        ]
    );
    let (status, trace) = run(&args, &Outcomes { eval_ok: false, ..FINE });
    assert_eq!(status, ExitStatus::Success);
    assert!(!trace.contains(&Action::Evaluate));
}

#[test]
fn syntax_and_semantic_errors_together() {
    let outcomes = Outcomes { syntax_errors: 2, semantic_errors: Some(3), ..FINE };
    let (status, trace) = run(&PLAIN, &outcomes);
    assert_eq!(status, ExitStatus::StaticError);
    assert_eq!(
        trace,
        vec![
            Action::ReadSource,
            Action::Parse,
            Action::ReportSyntaxErrors { count: 2 },
            Action::Resolve,
            Action::ReportSemanticErrors { count: 3 },
            Action::Exit { status: ExitStatus::StaticError },
        ]
    );
}

#[test]
fn syntax_errors_alone_stop_the_run_after_semantic_analysis() {
    let args = Args { print_ast: true, print_program: true, check: false };
    let outcomes = Outcomes { syntax_errors: 1, ..FINE };
    let (status, trace) = run(&args, &outcomes);
    assert_eq!(status, ExitStatus::StaticError);
    assert_eq!(
        trace,
        vec![
            Action::ReadSource,
            Action::Parse,
            Action::ReportSyntaxErrors { count: 1 },
            Action::PrintAst,
            Action::Resolve,
            Action::PrintProgram,
            Action::Exit { status: ExitStatus::StaticError },
        ]
    );
}

#[test]
fn failed_read_is_a_panic_at_once() {
    let (stage, log) = feed(&PLAIN, &[Event::Begin, Event::SourceRead { ok: false }]);
    assert_eq!(stage, Stage::Done { status: ExitStatus::Panic });
    assert_eq!(
        log,
        vec![
            Action::ReadSource,
            Action::ReportReadFailure,
            Action::Exit { status: ExitStatus::Panic },
        ]
    );
    let mut interner = Interner::new();
    let path = interner.get_or_intern(b"<stdin>");
    let panic = Panic::io(Str::new(b"broken pipe".to_vec()), SourcePos::file(path));
    assert!(panic.pos().is_file());
    assert_eq!(panic.pos().path, path);
}

#[test]
fn at_most_twenty_errors_are_shown() {
    assert_eq!(MAX_REPORTED, 20);
    let outcomes = Outcomes { syntax_errors: 21, semantic_errors: Some(500), ..FINE };
    let (_, trace) = run(&PLAIN, &outcomes);
    assert!(trace.contains(&Action::ReportSyntaxErrors { count: 20 }));
    assert!(trace.contains(&Action::ReportSemanticErrors { count: 20 }));
    let outcomes = Outcomes { syntax_errors: 20, semantic_errors: Some(19), ..FINE };
    let (_, trace) = run(&PLAIN, &outcomes);
    assert!(trace.contains(&Action::ReportSyntaxErrors { count: 20 }));
    assert!(trace.contains(&Action::ReportSemanticErrors { count: 19 }));
}

#[test]
fn rejection_without_errors_is_still_a_static_error() {
    let outcomes = Outcomes { semantic_errors: Some(0), ..FINE };
    let (status, trace) = run(&PLAIN, &outcomes);
    assert_eq!(status, ExitStatus::StaticError);
    assert_eq!(
        trace,
        vec![
            Action::ReadSource,
            Action::Parse,
            Action::Resolve,
            Action::Exit { status: ExitStatus::StaticError },
        ]
    );
}

#[test]
fn events_out_of_turn_change_nothing() {
    let taken = step(&PLAIN, Stage::Reading, Event::Evaluated { ok: true });
    assert_eq!(taken, Step { stage: Stage::Reading, actions: vec![] });
    let done = Stage::Done { status: ExitStatus::StaticError };
    for event in [
        Event::Begin,
        Event::SourceRead { ok: true },
        Event::Parsed { errors: 0 },
        Event::Resolved { rejected: None },
        Event::Evaluated { ok: true },
    ] {
        assert_eq!(step(&PLAIN, done, event), Step { stage: done, actions: vec![] });
    }
}

#[test]
fn indexing_by_kind() {
    let pos = SourcePos::new(Symbol::new(2), 1, 1);
    let text = Value::from("hi");
    assert!(index(&text, &Value::Int(1), pos).unwrap() == Value::Byte(105));
    assert!(matches!(index(&text, &Value::Int(2), pos), Err(Panic::IndexOutOfBounds { .. })));
    assert!(matches!(index(&text, &Value::Int(-1), pos), Err(Panic::IndexOutOfBounds { .. })));
    match index(&text, &Value::Bool(true), pos) {
        Err(Panic::TypeError { value, pos: at }) => {
            assert!(value == Value::Bool(true));
            assert_eq!(at, pos);
        }
        other => panic!("{:?}", other),
    }
    match index(&Value::Int(3), &Value::Int(0), pos) {
        Err(Panic::TypeError { value, .. }) => assert!(value == Value::Int(3)),
        other => panic!("{:?}", other),
    }
    let mut dict = Dict::new();
    dict.insert(Value::from("k"), Value::Int(1));
    let dict = Value::Dict(dict);
    assert!(index(&dict, &Value::from("k"), pos).unwrap() == Value::Int(1));
    match index(&dict, &Value::Nil, pos) {
        Err(Panic::IndexOutOfBounds { index, .. }) => assert!(index == Value::Nil),
        other => panic!("{:?}", other),
    }
    let array = Value::from(vec![Value::Nil]);
    assert!(matches!(index(&array, &Value::from("0"), pos), Err(Panic::TypeError { .. })));
}

#[test]
fn calling_what_is_no_function_is_a_panic() {
    let pos = SourcePos::new(Symbol::new(2), 4, 2);
    let native = Function::Rust(RustFun { id: 5 });
    assert_eq!(callee(&Value::Function(native), pos).unwrap(), native);
    match callee(&Value::Int(1), pos) {
        Err(Panic::InvalidCall { function, pos: at }) => {
            assert!(function == Value::Int(1));
            assert_eq!(at, pos);
        }
        other => panic!("{:?}", other),
    }
}

#[test]
fn every_panic_has_its_position() {
    let pos = SourcePos::new(Symbol::new(2), 8, 3);
    let panics = [
        Panic::io(Str::new(b"closed".to_vec()), pos),
        Panic::index_out_of_bounds(Value::Int(4), pos),
        Panic::type_error(Value::Nil, pos),
        Panic::invalid_call(Value::Bool(false), pos),
        Panic::DivisionByZero { pos },
        Panic::StackOverflow { pos },
    ];
    for panic in &panics {
        assert_eq!(panic.pos(), pos);
    }
}
