use kind2::codec::{build_str_term, decode_str_term};
use kind2::pipeline::assemble;
use kind2::term::{term_eq, CallTerm};

fn round_trips(s: &str) {
    let t = build_str_term(s);
    let back = decode_str_term(&t);
    assert_eq!(back, Some(s.to_string()));
}

#[test]
fn round_trip_simple() {
    round_trips("abc");
}

#[test]
fn round_trip_single_char() {
    round_trips("x");
}

#[test]
fn round_trip_unicode() {
    round_trips("héllo wörld — ≤≥");
}

#[test]
fn round_trip_max_char() {
    round_trips("\u{10FFFF}");
    round_trips("a\u{10FFFF}b");
}

#[test]
fn round_trip_various() {
    let cases = [
        "",
        " ",
        "\n\t",
        "0123456789",
        "(Main) = (Foo)",
        "ação",
        "\u{0}",
        "\u{D7FF}\u{E000}",
    ];
    for s in cases {
        round_trips(s);
    }
}

#[test]
fn empty_string_is_one_nil_node() {
    let t = build_str_term("");
    match &t {
        CallTerm::Ctr0 { name } => assert_eq!(name, "StrNil"),
        _ => panic!("encoding of the empty string must be a single nil node"),
    }
    assert_eq!(decode_str_term(&t), Some(String::new()));
}

#[test]
fn encoding_orders_first_char_at_root() {
    let t = build_str_term("ab");
    match &t {
        CallTerm::Ctr2 { name, fst, snd } => {
            assert_eq!(name, "StrCons");
            match &**fst {
                CallTerm::Num { numb } => assert_eq!(*numb, 'a' as u64),
                _ => panic!("head must be a numeric leaf"),
            }
            match &**snd {
                CallTerm::Ctr2 { fst, .. } => match &**fst {
                    CallTerm::Num { numb } => assert_eq!(*numb, 'b' as u64),
                    _ => panic!("head must be a numeric leaf"),
                },
                _ => panic!("tail must be a cons node"),
            }
        },
        _ => panic!("encoding of \"ab\" must start with a cons node"),
    }
}

#[test]
fn malformed_unknown_ctr_rejected() {
    let t = CallTerm::Ctr0 { name: "Foo".to_string() };
    assert_eq!(decode_str_term(&t), None);
}

#[test]
fn malformed_ctr_head_rejected() {
    let t = CallTerm::Ctr2 {
        name: "StrCons".to_string(),
        fst: Box::new(CallTerm::Ctr0 { name: "StrNil".to_string() }),
        snd: Box::new(CallTerm::Ctr0 { name: "StrNil".to_string() }),
    };
    assert_eq!(decode_str_term(&t), None);
}

#[test]
fn malformed_bare_num_rejected() {
    let t = CallTerm::Num { numb: 65 };
    assert_eq!(decode_str_term(&t), None);
}

#[test]
fn malformed_unary_ctr_rejected() {
    let t = CallTerm::Ctr1 {
        name: "StrCons".to_string(),
        arg: Box::new(CallTerm::Num { numb: 65 }),
    };
    assert_eq!(decode_str_term(&t), None);
}

#[test]
fn out_of_range_code_decodes_as_placeholder() {
    // A surrogate code point is not a valid character: the decoder is
    // deliberately lenient and yields the placeholder instead of failing.
    let t = CallTerm::Ctr2 {
        name: "StrCons".to_string(),
        fst: Box::new(CallTerm::Num { numb: 0xD800 }),
        snd: Box::new(CallTerm::Ctr0 { name: "StrNil".to_string() }),
    };
    assert_eq!(decode_str_term(&t), Some("?".to_string()));
}

#[test]
fn entry_points_share_argument_encoding() {
    let run = assemble("Kind2.Run", "some text");
    let check = assemble("Kind2.Check", "some text");
    let compile = assemble("Kind2.Compile", "some text");
    let args: Vec<&CallTerm> = [&run, &check, &compile]
        .iter()
        .map(|t| match t {
            CallTerm::Ctr1 { arg, .. } => &**arg,
            _ => panic!("an assembled call must be a unary constructor"),
        })
        .collect();
    assert!(term_eq(args[0], args[1]));
    assert!(term_eq(args[1], args[2]));
    let names: Vec<&str> = [&run, &check, &compile]
        .iter()
        .map(|t| match t {
            CallTerm::Ctr1 { name, .. } => name.as_str(),
            _ => unreachable!(),
        })
        .collect();
    assert_eq!(names, ["Kind2.Run", "Kind2.Check", "Kind2.Compile"]);
}

#[test]
fn term_eq_distinguishes() {
    let a = build_str_term("abc");
    let b = build_str_term("abc");
    let c = build_str_term("abd");
    assert!(term_eq(&a, &b));
    assert!(!term_eq(&a, &c));
    assert!(!term_eq(&a, &CallTerm::Num { numb: 0 }));
}
