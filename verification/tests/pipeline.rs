use kind2::cli::{entry_name, CliCmd};
use kind2::pipeline::{do_the_thing, run_command, DriverError};
use kind2::readback::DecodeError;

// A small embedded program whose three entry points are the identity on
// strings, plus one rule that mentions the string constructors so that the
// rule book binds their identifiers.
const IDENTITY_CODE: &str = "
(Kind2.Run x) = x
(Kind2.Check x) = x
(Kind2.Compile x) = x
(Unused) = (StrCons 65 (StrNil))
";

// Entry points that return fixed or malformed results.
const SHAPES_CODE: &str = "
(Kind2.Run x) = (Foo 1 2)
(Kind2.Check x) = (StrCons (StrNil) (StrNil))
(Kind2.Compile x) = (StrCons 79 (StrCons 75 (StrNil)))
(Kind2.Empty x) = (StrNil)
(Unused) = (StrCons 65 (StrNil))
";

const HEAP_CELLS: usize = 1 << 18;

fn run_cmd() -> CliCmd {
    CliCmd::Run { file: "input.kind2".to_string(), debug: false }
}

#[test]
fn entry_names() {
    assert_eq!(entry_name(&run_cmd()), "Kind2.Run");
    assert_eq!(
        entry_name(&CliCmd::Check { file: "f".to_string(), debug: true }),
        "Kind2.Check"
    );
    assert_eq!(entry_name(&CliCmd::Compile { file: "f".to_string() }), "Kind2.Compile");
}

#[test]
fn identity_run_round_trips() {
    // The dispatcher compiles the embedded program concatenated ahead of the
    // file text, so the file must itself be a well-formed source file; the
    // identity entry point then hands its text back unchanged.
    let contents = "(Main) = 1\n";
    let out = run_command(&run_cmd(), Ok(contents.to_string()), IDENTITY_CODE, HEAP_CELLS)
        .expect("identity run must succeed");
    assert_eq!(out.text, contents);
    assert!(out.rewrites > 0);
}

#[test]
fn identity_run_unicode() {
    let out = do_the_thing(IDENTITY_CODE, "Kind2.Run", "olá \u{10FFFF}", HEAP_CELLS)
        .expect("identity run must succeed");
    assert_eq!(out.text, "olá \u{10FFFF}");
}

#[test]
fn unreadable_file_fails_first() {
    let r = run_command(
        &run_cmd(),
        Err("could not read input.kind2".to_string()),
        IDENTITY_CODE,
        HEAP_CELLS,
    );
    match r {
        Err(DriverError::FileRead { msg }) => assert_eq!(msg, "could not read input.kind2"),
        _ => panic!("an unreadable file must surface as a file-read error"),
    }
}

#[test]
fn bad_program_is_a_compile_error() {
    let r = run_command(&run_cmd(), Ok("abc".to_string()), "($$ nonsense", HEAP_CELLS);
    match r {
        Err(DriverError::Compile { .. }) => {},
        _ => panic!("an unparsable program must surface as a compile error"),
    }
}

#[test]
fn user_file_compile_failure_surfaces() {
    let r = run_command(&run_cmd(), Ok("($$ nonsense".to_string()), IDENTITY_CODE, HEAP_CELLS);
    match r {
        Err(DriverError::Compile { .. }) => {},
        _ => panic!("a user file that fails to compile must surface as a compile error"),
    }
}

#[test]
fn too_wide_numeral_is_a_compile_error() {
    // The engine's own number parser cannot read this numeral; the pipeline
    // reports a compile error instead of letting the engine abort.
    let code = "
(Kind2.Run x) = 99999999999999999999999
(Unused) = (StrCons 65 (StrNil))
";
    let r = do_the_thing(code, "Kind2.Run", "abc", HEAP_CELLS);
    match r {
        Err(DriverError::Compile { .. }) => {},
        _ => panic!("a numeral beyond the engine's range must be a compile error"),
    }
}

#[test]
fn digit_led_name_is_a_compile_error() {
    let r = do_the_thing("(Kind2.Run x) = 12a", "Kind2.Run", "abc", HEAP_CELLS);
    match r {
        Err(DriverError::Compile { .. }) => {},
        _ => panic!("a digit-led token that is no numeral must be a compile error"),
    }
}

#[test]
fn digit_tokens_in_comments_are_accepted() {
    // The engine skips comments, so a digit-led token inside one must not
    // trip the numeral pre-scan.
    let code = "
// v 2.0 and a stray 12a token
(Kind2.Run x) = x
(Unused) = (StrCons 65 (StrNil))
";
    let out = do_the_thing(code, "Kind2.Run", "abc", HEAP_CELLS)
        .expect("a commented digit-led token must not be rejected");
    assert_eq!(out.text, "abc");
}

#[test]
fn digit_tokens_in_string_literals_are_accepted() {
    // The engine's string sugar reads raw characters, so a wide numeral
    // inside quotes must not trip the pre-scan; the literal itself builds
    // the engine's own string constructors, which decode as an unknown
    // constructor here.
    let code = "
(Kind2.Run x) = \"99999999999999999999999 and 12a\"
(Unused) = (StrCons 65 (StrNil))
";
    let r = do_the_thing(code, "Kind2.Run", "abc", HEAP_CELLS);
    match r {
        Err(DriverError::Decode { .. }) => {},
        _ => panic!("the string literal must compile and then fail only at decode"),
    }
}

#[test]
fn empty_list_result_decodes_to_empty_string() {
    let out = do_the_thing(SHAPES_CODE, "Kind2.Empty", "ignored", HEAP_CELLS)
        .expect("a bare nil result must decode");
    assert_eq!(out.text, "");
}

#[test]
fn missing_string_constructors_reported() {
    let r = do_the_thing("(Kind2.Run x) = x", "Kind2.Run", "abc", HEAP_CELLS);
    match r {
        Err(DriverError::MissingSymbol { name }) => assert_eq!(name, "StrCons"),
        _ => panic!("a program without the string constructors must be rejected"),
    }
}

#[test]
fn missing_entry_point_reported() {
    let r = do_the_thing(IDENTITY_CODE, "Kind2.Missing", "abc", HEAP_CELLS);
    match r {
        Err(DriverError::MissingSymbol { name }) => assert_eq!(name, "Kind2.Missing"),
        _ => panic!("an unknown entry point must be reported as a missing symbol"),
    }
}

#[test]
fn unknown_constructor_result_is_a_decode_error() {
    let r = do_the_thing(SHAPES_CODE, "Kind2.Run", "abc", HEAP_CELLS);
    match r {
        Err(DriverError::Decode { err: DecodeError::UnknownCtr { .. } }) => {},
        _ => panic!("a result built from an unknown constructor must fail to decode"),
    }
}

#[test]
fn non_numeric_head_is_a_decode_error() {
    let r = do_the_thing(SHAPES_CODE, "Kind2.Check", "abc", HEAP_CELLS);
    match r {
        Err(DriverError::Decode { err: DecodeError::HeadNotNum { .. } }) => {},
        _ => panic!("a cons head that is not numeric must fail to decode"),
    }
}

#[test]
fn fixed_string_result_decodes() {
    let out = do_the_thing(SHAPES_CODE, "Kind2.Compile", "ignored", HEAP_CELLS)
        .expect("a constant string result must decode");
    assert_eq!(out.text, "OK");
}

#[test]
fn cli_holds_a_command() {
    let cli = kind2::cli::Cli { command: CliCmd::Compile { file: "f.kind2".to_string() } };
    assert_eq!(entry_name(&cli.command), "Kind2.Compile");
}
