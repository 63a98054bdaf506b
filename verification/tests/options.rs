//! Option lists and attributes on a declared test.

use mintest::declare::{Attribute, Body, NestedOptions, Options, OptionsError, Token};
use mintest::{TestExpected, TestStatus};

fn words(list: &[&'static str]) -> Vec<Token> {
    let mut tokens = Vec::new();
    for (i, word) in list.iter().enumerate() {
        if i > 0 {
            tokens.push(Token::Comma);
        }
        tokens.push(Token::Ident(word));
    }
    tokens
}

fn same(a: &Options, b: &Options) -> bool {
    a.name == b.name
        && a.skip == b.skip
        && a.disable == b.disable
        && a.no_compile == b.no_compile
        && a.should_fail == b.should_fail
        && a.should_panic == b.should_panic
}

#[test]
fn empty_list_sets_nothing() {
    let options = Options::parse(&vec![]).unwrap();
    assert!(same(&options, &Options::default()));
    assert_eq!(options.name, None);
    assert_eq!(options.skip, None);
    assert!(!options.disable && !options.no_compile && !options.should_fail && !options.should_panic);
    assert!(matches!(options.status(), TestStatus::Enable));
    assert_eq!(options.expected(), TestExpected::Success);
    assert_eq!(options.body(), Body::Given);
    assert_eq!(options.test_name("function"), "function");
}

#[test]
fn each_flag_sets_itself_only() {
    let disable = Options::parse(&words(&["disable"])).unwrap();
    assert!(same(&disable, &Options { disable: true, ..Options::default() }));
    let no_compile = Options::parse(&words(&["no_compile"])).unwrap();
    assert!(same(&no_compile, &Options { no_compile: true, ..Options::default() }));
    let should_fail = Options::parse(&words(&["should_fail"])).unwrap();
    assert!(same(&should_fail, &Options { should_fail: true, ..Options::default() }));
    let should_panic = Options::parse(&words(&["should_panic"])).unwrap();
    assert!(same(&should_panic, &Options { should_panic: true, ..Options::default() }));
    let skip = Options::parse(&words(&["skip"])).unwrap();
    assert!(same(&skip, &Options { skip: Some(None), ..Options::default() }));
}

#[test]
fn name_and_reason_take_a_text() {
    let options = Options::parse(&vec![
        Token::Ident("name"),
        Token::Assign,
        Token::Text("shown"),
        Token::Comma,
        Token::Ident("skip"),
        Token::Assign,
        Token::Text("broken"),
        Token::Comma,
    ])
    .unwrap();
    assert_eq!(options.name, Some("shown"));
    assert_eq!(options.skip, Some(Some("broken")));
    assert_eq!(options.test_name("function"), "shown");
    assert!(matches!(options.status(), TestStatus::Skip(Some("broken"))));
}

#[test]
fn option_given_twice_counts_the_second_time() {
    let options = Options::parse(&vec![
        Token::Ident("name"),
        Token::Assign,
        Token::Text("first"),
        Token::Comma,
        Token::Ident("skip"),
        Token::Assign,
        Token::Text("why"),
        Token::Comma,
        Token::Ident("name"),
        Token::Assign,
        Token::Text("second"),
        Token::Comma,
        Token::Ident("skip"),
    ])
    .unwrap();
    assert_eq!(options.name, Some("second"));
    assert_eq!(options.skip, Some(None));
}

#[test]
fn skip_with_a_sign_and_no_text_has_no_reason() {
    let options =
        Options::parse(&vec![Token::Ident("skip"), Token::Assign, Token::Comma, Token::Ident("disable")])
            .unwrap();
    assert_eq!(options.skip, Some(None));
    assert!(options.disable);
    let at_end = Options::parse(&vec![Token::Ident("skip"), Token::Assign]).unwrap();
    assert_eq!(at_end.skip, Some(None));
}

#[test]
fn parse_mut_goes_on_from_what_is_set() {
    let mut options = Options { should_fail: true, name: Some("kept"), ..Options::default() };
    options.parse_mut(&words(&["disable", "skip"])).unwrap();
    assert!(same(
        &options,
        &Options {
            should_fail: true,
            name: Some("kept"),
            disable: true,
            skip: Some(None),
            ..Options::default()
        }
    ));
}

#[test]
fn unknown_option_is_refused_where_it_stands() {
    assert_eq!(
        Options::parse(&words(&["disable", "bogus", "skip"])).unwrap_err(),
        OptionsError::Unrecognized { at: 2 }
    );
    assert_eq!(Options::parse(&words(&["Skip"])).unwrap_err(), OptionsError::Unrecognized { at: 0 });
}

#[test]
fn name_needs_a_sign_and_a_text() {
    assert_eq!(
        Options::parse(&vec![Token::Ident("name")]).unwrap_err(),
        OptionsError::ExpectedAssign { at: 1 }
    );
    assert_eq!(
        Options::parse(&vec![Token::Ident("name"), Token::Comma]).unwrap_err(),
        OptionsError::ExpectedAssign { at: 1 }
    );
    assert_eq!(
        Options::parse(&vec![Token::Ident("name"), Token::Assign]).unwrap_err(),
        OptionsError::ExpectedText { at: 2 }
    );
    assert_eq!(
        Options::parse(&vec![Token::Ident("name"), Token::Assign, Token::Ident("x")]).unwrap_err(),
        OptionsError::ExpectedText { at: 2 }
    );
}

#[test]
fn what_is_no_option_is_unexpected() {
    assert_eq!(Options::parse(&vec![Token::Comma]).unwrap_err(), OptionsError::Unexpected { at: 0 });
    assert_eq!(Options::parse(&vec![Token::Other]).unwrap_err(), OptionsError::Unexpected { at: 0 });
    assert_eq!(
        Options::parse(&vec![Token::Text("alone")]).unwrap_err(),
        OptionsError::Unexpected { at: 0 }
    );
    assert_eq!(
        Options::parse(&vec![Token::Ident("skip"), Token::Ident("disable")]).unwrap_err(),
        OptionsError::Unexpected { at: 1 }
    );
    assert_eq!(
        Options::parse(&vec![Token::Ident("disable"), Token::Comma, Token::Comma]).unwrap_err(),
        OptionsError::Unexpected { at: 2 }
    );
    assert_eq!(
        Options::parse(&vec![Token::Ident("skip"), Token::Assign, Token::Other]).unwrap_err(),
        OptionsError::Unexpected { at: 2 }
    );
    assert_eq!(
        Options::parse(&vec![Token::Ident("disable"), Token::Assign, Token::Text("x")]).unwrap_err(),
        OptionsError::Unexpected { at: 1 }
    );
}

#[test]
fn status_puts_disabled_before_skipped() {
    let both = Options { disable: true, skip: Some(Some("why")), ..Options::default() };
    assert!(matches!(both.status(), TestStatus::Disable));
    let skipped = Options { skip: Some(Some("why")), ..Options::default() };
    assert!(matches!(skipped.status(), TestStatus::Skip(Some("why"))));
    let silent = Options { skip: Some(None), ..Options::default() };
    assert!(matches!(silent.status(), TestStatus::Skip(None)));
}

#[test]
fn expectation_puts_panic_before_failure() {
    let both = Options { should_panic: true, should_fail: true, ..Options::default() };
    assert_eq!(both.expected(), TestExpected::Panic);
    let panic = Options { should_panic: true, ..Options::default() };
    assert_eq!(panic.expected(), TestExpected::Panic);
    let fail = Options { should_fail: true, ..Options::default() };
    assert_eq!(fail.expected(), TestExpected::Fail);
}

#[test]
fn body_that_is_not_compiled_needs_a_test_that_does_not_run() {
    let alone = Options { no_compile: true, ..Options::default() };
    assert_eq!(alone.body(), Body::Refused);
    let disabled = Options { no_compile: true, disable: true, ..Options::default() };
    assert_eq!(disabled.body(), Body::Stub);
    let skipped = Options { no_compile: true, skip: Some(None), ..Options::default() };
    assert_eq!(skipped.body(), Body::Stub);
    let compiled = Options { disable: true, skip: Some(None), ..Options::default() };
    assert_eq!(compiled.body(), Body::Given);
}

#[test]
fn attributes_of_the_harness_count_as_options() {
    let mut options = Options::default();
    assert_eq!(options.absorb(&Attribute { name: Some("ignore"), bare: true }), Ok(false));
    assert_eq!(options.skip, Some(Some("ignore")));
    assert_eq!(options.absorb(&Attribute { name: Some("should_panic"), bare: true }), Ok(false));
    assert!(options.should_panic);
    let before = options;
    assert_eq!(options.absorb(&Attribute { name: Some("test"), bare: true }), Ok(false));
    assert!(same(&options, &before));
}

#[test]
fn ignore_keeps_a_skip_that_is_already_there() {
    let mut silent = Options { skip: Some(None), ..Options::default() };
    assert_eq!(silent.absorb(&Attribute { name: Some("ignore"), bare: true }), Ok(false));
    assert_eq!(silent.skip, Some(None));
    let mut told = Options { skip: Some(Some("broken")), ..Options::default() };
    assert_eq!(told.absorb(&Attribute { name: Some("ignore"), bare: true }), Ok(false));
    assert_eq!(told.skip, Some(Some("broken")));
}

#[test]
fn other_attributes_stay_on_the_function() {
    let mut options = Options::default();
    for attribute in [
        Attribute { name: Some("inline"), bare: true },
        Attribute { name: Some("allow"), bare: false },
        Attribute { name: None, bare: true },
        Attribute { name: None, bare: false },
        Attribute { name: Some("ignore"), bare: false },
        Attribute { name: Some("should_panic"), bare: false },
        Attribute { name: Some("test"), bare: false },
        Attribute { name: Some("mintest"), bare: true },
    ] {
        assert_eq!(options.absorb(&attribute), Ok(true));
        assert!(same(&options, &Options::default()));
    }
}

#[test]
fn nested_options_are_refused() {
    let mut options = Options { should_fail: true, ..Options::default() };
    assert_eq!(options.absorb(&Attribute { name: Some("mintest"), bare: false }), Err(NestedOptions));
    assert!(same(&options, &Options { should_fail: true, ..Options::default() }));
}

#[test]
fn attributes_are_looked_at_in_order() {
    let mut options = Options::default();
    let stay = options
        .absorb_all(&vec![
            Attribute { name: Some("inline"), bare: true },
            Attribute { name: Some("should_panic"), bare: true },
            Attribute { name: Some("test"), bare: true },
            Attribute { name: Some("doc"), bare: false },
            Attribute { name: Some("ignore"), bare: true },
        ])
        .unwrap();
    assert_eq!(stay, vec![true, false, false, true, false]);
    assert!(same(
        &options,
        &Options { should_panic: true, skip: Some(Some("ignore")), ..Options::default() }
    ));

    let mut halted = Options::default();
    let at = halted
        .absorb_all(&vec![
            Attribute { name: Some("ignore"), bare: true },
            Attribute { name: Some("mintest"), bare: false },
            Attribute { name: Some("should_panic"), bare: true },
        ])
        .unwrap_err();
    assert_eq!(at, 1);
    assert!(same(&halted, &Options { skip: Some(Some("ignore")), ..Options::default() }));
}

#[test]
fn declaration_puts_the_descriptor_together() {
    let options = Options {
        name: Some("shown"),
        skip: Some(Some("later")),
        should_fail: true,
        ..Options::default()
    };
    let test = options.declare("function", 17u8);
    assert_eq!(test.name, "shown");
    assert!(matches!(test.status, TestStatus::Skip(Some("later"))));
    assert_eq!(test.expected, TestExpected::Fail);
    assert_eq!(test.test, 17u8);
    let plain = Options::default().declare("function", 'x');
    assert_eq!(plain.name, "function");
    assert!(matches!(plain.status, TestStatus::Enable));
    assert_eq!(plain.expected, TestExpected::Success);
    assert_eq!(plain.test, 'x');
}
