//! Declaring a test: from the options written on a test function to the
//! descriptor that goes into the registry.
//!
//! The options are a list, separated by commas, of `name = "text"`, `skip`,
//! `skip = "reason"`, `disable`, `no_compile`, `should_fail` and
//! `should_panic`. The attributes `#[ignore]`, `#[should_panic]` and `#[test]`
//! on the function count as options too.

use crate::model::{Test, TestExpected, TestStatus};
use vstd::prelude::*;
use vstd::string::*;

verus! {

/// One token of an option list.
#[derive(Debug, Copy, Clone)]
pub enum Token {
    /// An identifier.
    Ident(&'static str),
    /// The sign `=`.
    Assign,
    /// A comma.
    Comma,
    /// A string literal, by its value.
    Text(&'static str),
    /// Anything else.
    Other,
}

/// What was asked of a test where it was declared.
#[derive(Debug, Copy, Clone)]
pub struct Options {
    /// The name to report the test under, in place of the function's own.
    pub name: Option<&'static str>,
    /// Whether the test is skipped, and the reason if one was given.
    pub skip: Option<Option<&'static str>>,
    /// Whether the test is left out of every run.
    pub disable: bool,
    /// Whether the body is not to be compiled.
    pub no_compile: bool,
    /// Whether the test is expected to return a failure.
    pub should_fail: bool,
    /// Whether the test is expected to panic.
    pub should_panic: bool,
}

/// Why an option list was refused. `at` is the position of the token that
/// was not accepted, or the length of the list where it ended too early.
#[derive(Debug, Copy, Clone, PartialEq, Eq, Structural)]
pub enum OptionsError {
    /// The identifier names no option.
    Unrecognized { at: usize },
    /// The sign `=` was due.
    ExpectedAssign { at: usize },
    /// A string literal was due.
    ExpectedText { at: usize },
    /// An option or the end of the list was due.
    Unexpected { at: usize },
}

/// An attribute on a test function.
#[derive(Debug, Copy, Clone)]
pub struct Attribute {
    /// The attribute's name, where its path is a single identifier.
    pub name: Option<&'static str>,
    /// Whether the attribute stands alone, with nothing after its name.
    pub bare: bool,
}

/// What becomes of the body of a declared test.
#[derive(Debug, Copy, Clone, PartialEq, Eq, Structural)]
pub enum Body {
    /// The body is compiled as written.
    Given,
    /// The body is replaced by one that is never meant to run.
    Stub,
    /// The declaration is refused: a body that is not to be compiled belongs
    /// to a test that is disabled or skipped.
    Refused,
}

/// Nested options on a `mintest` attribute below the declaring one are not
/// understood.
#[derive(Debug, Copy, Clone, PartialEq, Eq, Structural)]
pub struct NestedOptions;

/// Whether two strings hold the same text.
fn same_text(a: &str, b: &str) -> (same: bool)
    ensures
        same == (a@ == b@),
{
    String::from_str(a) == String::from_str(b)
}

impl Options {
    /// The options of a test that was declared without any.
    pub open spec fn unset() -> Options {
        Options {
            name: None,
            skip: None,
            disable: false,
            no_compile: false,
            should_fail: false,
            should_panic: false,
        }
    }

    /// These options after the option that starts with the identifier at
    /// position `at`, and the position behind that option.
    pub open spec fn option_at(self, tokens: Seq<Token>, at: int) -> Result<
        (Options, int),
        OptionsError,
    > {
        let word = tokens[at]->Ident_0@;
        let assigned = at + 1 < tokens.len() && tokens[at + 1] is Assign;
        let texted = at + 2 < tokens.len() && tokens[at + 2] is Text;
        if word == "name"@ {
            if !assigned {
                Err(OptionsError::ExpectedAssign { at: (at + 1) as usize })
            } else if !texted {
                Err(OptionsError::ExpectedText { at: (at + 2) as usize })
            } else {
                Ok((Options { name: Some(tokens[at + 2]->Text_0), ..self }, at + 3))
            }
        } else if word == "skip"@ {
            if !assigned {
                Ok((Options { skip: Some(None), ..self }, at + 1))
            } else if !texted {
                Ok((Options { skip: Some(None), ..self }, at + 2))
            } else {
                Ok((Options { skip: Some(Some(tokens[at + 2]->Text_0)), ..self }, at + 3))
            }
        } else if word == "disable"@ {
            Ok((Options { disable: true, ..self }, at + 1))
        } else if word == "no_compile"@ {
            Ok((Options { no_compile: true, ..self }, at + 1))
        } else if word == "should_fail"@ {
            Ok((Options { should_fail: true, ..self }, at + 1))
        } else if word == "should_panic"@ {
            Ok((Options { should_panic: true, ..self }, at + 1))
        } else {
            Err(OptionsError::Unrecognized { at: at as usize })
        }
    }

    /// These options after the list that starts at position `at`. An option
    /// starts with an identifier; behind an option stands a comma or the end
    /// of the list; behind a comma the list may end. An option given twice
    /// counts as given the second time.
    pub open spec fn parsed_from(self, tokens: Seq<Token>, at: int) -> Result<Options, OptionsError>
        decreases tokens.len() - at,
    {
        if at < 0 || at >= tokens.len() {
            Ok(self)
        } else if !(tokens[at] is Ident) {
            Err(OptionsError::Unexpected { at: at as usize })
        } else {
            match self.option_at(tokens, at) {
                Err(error) => Err(error),
                Ok((options, next)) => if next >= tokens.len() {
                    Ok(options)
                } else if tokens[next] is Comma {
                    options.parsed_from(tokens, next + 1)
                } else {
                    Err(OptionsError::Unexpected { at: next as usize })
                },
            }
        }
    }

    /// The options that a list stands for.
    pub open spec fn parsed(tokens: Seq<Token>) -> Result<Options, OptionsError> {
        Options::unset().parsed_from(tokens, 0)
    }

    /// Reads the option that starts with the identifier `word` at position
    /// `at`.
    fn parse_option(self, tokens: &[Token], at: usize, word: &'static str) -> (res: Result<
        (Options, usize),
        OptionsError,
    >)
        requires
            at < tokens.len(),
            tokens@[at as int] == Token::Ident(word),
        ensures
            match res {
                Ok((options, next)) => self.option_at(tokens@, at as int) == Ok::<
                    (Options, int),
                    OptionsError,
                >((options, next as int)) && at < next <= tokens.len(),
                Err(error) => self.option_at(tokens@, at as int) == Err::<
                    (Options, int),
                    OptionsError,
                >(error),
            },
    {
        let assigned = at + 1 < tokens.len() && match tokens[at + 1] {
            Token::Assign => true,
            _ => false,
        };
        let text = if at + 1 < tokens.len() && at + 2 < tokens.len() {
            match tokens[at + 2] {
                Token::Text(text) => Some(text),
                _ => None,
            }
        } else {
            None
        };
        if same_text(word, "name") {
            if !assigned {
                Err(OptionsError::ExpectedAssign { at: at + 1 })
            } else {
                match text {
                    None => Err(OptionsError::ExpectedText { at: at + 2 }),
                    Some(text) => Ok((Options { name: Some(text), ..self }, at + 3)),
                }
            }
        } else if same_text(word, "skip") {
            if !assigned {
                Ok((Options { skip: Some(None), ..self }, at + 1))
            } else {
                match text {
                    None => Ok((Options { skip: Some(None), ..self }, at + 2)),
                    Some(text) => Ok((Options { skip: Some(Some(text)), ..self }, at + 3)),
                }
            }
        } else if same_text(word, "disable") {
            Ok((Options { disable: true, ..self }, at + 1))
        } else if same_text(word, "no_compile") {
            Ok((Options { no_compile: true, ..self }, at + 1))
        } else if same_text(word, "should_fail") {
            Ok((Options { should_fail: true, ..self }, at + 1))
        } else if same_text(word, "should_panic") {
            Ok((Options { should_panic: true, ..self }, at + 1))
        } else {
            Err(OptionsError::Unrecognized { at })
        }
    }

    /// Reads an option list into these options.
    pub fn parse_mut(&mut self, tokens: &[Token]) -> (res: Result<(), OptionsError>)
        ensures
            match res {
                Ok(_) => old(self).parsed_from(tokens@, 0) == Ok::<Options, OptionsError>(
                    *final(self),
                ),
                Err(error) => old(self).parsed_from(tokens@, 0) == Err::<Options, OptionsError>(
                    error,
                ),
            },
    {
        let mut at: usize = 0;
        while at < tokens.len()
            invariant
                at <= tokens.len(),
                old(self).parsed_from(tokens@, 0) == self.parsed_from(tokens@, at as int),
            decreases tokens.len() - at,
        {
            match tokens[at] {
                Token::Ident(word) => {
                    match self.parse_option(tokens, at, word) {
                        Err(error) => {
                            return Err(error);
                        },
                        Ok((options, next)) => {
                            if next < tokens.len() {
                                match tokens[next] {
                                    Token::Comma => {},
                                    _ => {
                                        return Err(OptionsError::Unexpected { at: next });
                                    },
                                }
                                *self = options;
                                at = next + 1;
                            } else {
                                *self = options;
                                at = next;
                            }
                        },
                    }
                },
                _ => {
                    return Err(OptionsError::Unexpected { at });
                },
            }
        }
        Ok(())
    }

    /// Reads an option list.
    pub fn parse(tokens: &[Token]) -> (res: Result<Options, OptionsError>)
        ensures
            res == Options::parsed(tokens@),
    {
        let mut options = Options::default();
        match options.parse_mut(tokens) {
            Ok(_) => Ok(options),
            Err(error) => Err(error),
        }
    }
}

/// What is written as the reason of a test that was skipped through the
/// attribute `#[ignore]`.
pub open spec fn ignore_reason() -> Seq<char> {
    "ignore"@
}

impl Attribute {
    /// Whether this attribute stands alone and has the given name.
    pub open spec fn is_bare(self, name: Seq<char>) -> bool {
        self.bare && (self.name matches Some(own) && own@ == name)
    }

    /// Whether this attribute carries options of its own for the engine.
    pub open spec fn is_nested(self) -> bool {
        !self.bare && (self.name matches Some(own) && own@ == "mintest"@)
    }

    /// Whether this attribute stays on the function. The attributes that the
    /// declaration takes for itself do not: `#[ignore]`, `#[should_panic]`
    /// and `#[test]`, each standing alone.
    pub open spec fn stays(self) -> bool {
        !self.is_bare("ignore"@) && !self.is_bare("should_panic"@) && !self.is_bare("test"@)
    }
}

impl Options {
    /// These options after an attribute of the function has been looked at.
    /// `#[ignore]` skips the test, unless it is skipped already;
    /// `#[should_panic]` makes it expect a panic.
    pub open spec fn absorbed(self, attribute: Attribute) -> Options {
        if attribute.is_bare("ignore"@) {
            if self.skip is None {
                Options { skip: Some(Some("ignore")), ..self }
            } else {
                self
            }
        } else if attribute.is_bare("should_panic"@) {
            Options { should_panic: true, ..self }
        } else {
            self
        }
    }

    /// These options after the first `n` attributes of the function have
    /// been looked at, in order.
    pub open spec fn absorbed_all(self, attributes: Seq<Attribute>, n: int) -> Options
        decreases n,
    {
        if n <= 0 {
            self
        } else {
            self.absorbed_all(attributes, n - 1).absorbed(attributes[n - 1])
        }
    }

    /// Looks at one attribute of the function, and says whether it stays on
    /// the function. An attribute with nested options is refused, and the
    /// options are then left as they were.
    pub fn absorb(&mut self, attribute: &Attribute) -> (res: Result<bool, NestedOptions>)
        ensures
            res is Err <==> attribute.is_nested(),
            res matches Ok(stays) ==> stays == attribute.stays() && *final(self) == old(
                self,
            ).absorbed(*attribute),
            res is Err ==> *final(self) == *old(self),
    {
        match attribute.name {
            None => Ok(true),
            Some(name) => {
                if attribute.bare {
                    if same_text(name, "ignore") {
                        if self.skip.is_none() {
                            self.skip = Some(Some("ignore"));
                        }
                        Ok(false)
                    } else if same_text(name, "should_panic") {
                        self.should_panic = true;
                        Ok(false)
                    } else if same_text(name, "test") {
                        Ok(false)
                    } else {
                        Ok(true)
                    }
                } else if same_text(name, "mintest") {
                    Err(NestedOptions)
                } else {
                    Ok(true)
                }
            },
        }
    }

    /// Looks at the attributes of the function in order, and says of each
    /// whether it stays on the function. The first attribute with nested
    /// options ends the work: its position is handed back, and the options
    /// are as the attributes in front of it left them.
    pub fn absorb_all(&mut self, attributes: &[Attribute]) -> (res: Result<Vec<bool>, usize>)
        ensures
            match res {
                Ok(stay) => {
                    &&& forall|i: int|
                        0 <= i < attributes.len() ==> !(#[trigger] attributes[i]).is_nested()
                    &&& *final(self) == old(self).absorbed_all(
                        attributes@,
                        attributes.len() as int,
                    )
                    &&& stay.len() == attributes.len()
                    &&& forall|i: int|
                        0 <= i < attributes.len() ==> #[trigger] stay[i] == attributes[i].stays()
                },
                Err(at) => {
                    &&& at < attributes.len()
                    &&& attributes[at as int].is_nested()
                    &&& forall|i: int| 0 <= i < at ==> !(#[trigger] attributes[i]).is_nested()
                    &&& *final(self) == old(self).absorbed_all(attributes@, at as int)
                },
            },
    {
        let mut stay: Vec<bool> = Vec::new();
        let mut i: usize = 0;
        while i < attributes.len()
            invariant
                i <= attributes.len(),
                stay.len() == i,
                *self == old(self).absorbed_all(attributes@, i as int),
                forall|j: int| 0 <= j < i ==> !(#[trigger] attributes[j]).is_nested(),
                forall|j: int| 0 <= j < i ==> #[trigger] stay[j] == attributes[j].stays(),
            decreases attributes.len() - i,
        {
            match self.absorb(&attributes[i]) {
                Ok(stays) => {
                    stay.push(stays);
                },
                Err(_) => {
                    return Err(i);
                },
            }
            i = i + 1;
        }
        Ok(stay)
    }

    /// The status that these options give a test: disabled before skipped,
    /// skipped before enabled.
    pub open spec fn status_spec(self) -> TestStatus {
        if self.disable {
            TestStatus::Disable
        } else {
            match self.skip {
                Some(reason) => TestStatus::Skip(reason),
                None => TestStatus::Enable,
            }
        }
    }

    /// The status that these options give a test.
    pub fn status(&self) -> (status: TestStatus)
        ensures
            status == self.status_spec(),
    {
        if self.disable {
            TestStatus::Disable
        } else {
            match self.skip {
                Some(reason) => TestStatus::Skip(reason),
                None => TestStatus::Enable,
            }
        }
    }

    /// What these options expect of a test: a panic before a failure, a
    /// failure before success.
    pub open spec fn expected_spec(self) -> TestExpected {
        if self.should_panic {
            TestExpected::Panic
        } else if self.should_fail {
            TestExpected::Fail
        } else {
            TestExpected::Success
        }
    }

    /// What these options expect of a test.
    pub fn expected(&self) -> (expected: TestExpected)
        ensures
            expected == self.expected_spec(),
    {
        if self.should_panic {
            TestExpected::Panic
        } else if self.should_fail {
            TestExpected::Fail
        } else {
            TestExpected::Success
        }
    }

    /// What becomes of the body under these options.
    pub open spec fn body_spec(self) -> Body {
        if !self.no_compile {
            Body::Given
        } else if !self.disable && self.skip is None {
            Body::Refused
        } else {
            Body::Stub
        }
    }

    /// What becomes of the body under these options.
    pub fn body(&self) -> (body: Body)
        ensures
            body == self.body_spec(),
    {
        if !self.no_compile {
            Body::Given
        } else if !self.disable && self.skip.is_none() {
            Body::Refused
        } else {
            Body::Stub
        }
    }

    /// The name that a test is reported under: the one given in the options,
    /// or else the function's own.
    pub fn test_name(&self, function: &'static str) -> (name: &'static str)
        ensures
            name == (match self.name {
                Some(given) => given,
                None => function,
            }),
    {
        match self.name {
            Some(given) => given,
            None => function,
        }
    }

    /// The descriptor of a test that was declared with these options on the
    /// function named `function`, with `test` as the handle on its body.
    pub fn declare<F>(&self, function: &'static str, test: F) -> (descriptor: Test<F>)
        ensures
            descriptor.status == self.status_spec(),
            descriptor.name == (match self.name {
                Some(given) => given,
                None => function,
            }),
            descriptor.test == test,
            descriptor.expected == self.expected_spec(),
    {
        Test {
            status: self.status(),
            name: self.test_name(function),
            test,
            expected: self.expected(),
        }
    }
}

impl Default for Options {
    fn default() -> (options: Options)
        ensures
            options == Options::unset(),
    {
        Options {
            name: None,
            skip: None,
            disable: false,
            no_compile: false,
            should_fail: false,
            should_panic: false,
        }
    }
}

} // verus!
