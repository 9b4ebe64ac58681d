use vesti::ast::{FunctionDefKind, Statement, TrimWhitespace};
use vesti::error::{VestiErr, VestiErrKind};
use vesti::evaluator::Evaluator;
use vesti::script::Halt;

fn macro_def(kind: FunctionDefKind, trim: TrimWhitespace, body: &str) -> Result<String, Halt> {
    Evaluator::new().eval_vesti(&Statement::FunctionDefine {
        kind,
        name: "foo".to_string(),
        args: "#1#2".to_string(),
        trim,
        body: vec![Statement::MainText(body.to_string())],
    })
}

fn macro_trim(start: bool, end: bool) -> TrimWhitespace {
    TrimWhitespace { start, mid: None, end }
}

fn env_trim(start: bool, mid: bool, end: bool) -> TrimWhitespace {
    TrimWhitespace { start, mid: Some(mid), end }
}

fn env_def(
    is_redefine: bool,
    args_num: u8,
    optional_arg: Option<Vec<Statement>>,
    trim: TrimWhitespace,
) -> Result<String, Halt> {
    Evaluator::new().eval_vesti(&Statement::EnvironmentDefine {
        is_redefine,
        name: "box".to_string(),
        args_num,
        optional_arg,
        trim,
        begin_part: vec![Statement::MainText(" \n<begin>\t ".to_string())],
        end_part: vec![Statement::MainText("\n <end> \n".to_string())],
    })
}

fn illegal_trim() -> Result<String, Halt> {
    Err(Halt::Failed(VestiErr { err_kind: VestiErrKind::IllegalTrimPolicy, location: None }))
}

#[test]
fn flags_combine_and_are_found_again() {
    let both = FunctionDefKind::expand().union(FunctionDefKind::global());
    assert_eq!(both, FunctionDefKind::global().union(FunctionDefKind::expand()));
    assert!(both.has_property(FunctionDefKind::expand()));
    assert!(both.has_property(FunctionDefKind::global()));
    assert!(both.has_property(both));
    assert!(!both.has_property(FunctionDefKind::long()));
    assert!(!both.has_property(FunctionDefKind::outer()));
    assert!(both.has_property(FunctionDefKind::none()));
    assert!(!FunctionDefKind::none().has_property(FunctionDefKind::long()));
    assert!(!FunctionDefKind::expand().has_property(both));
    assert_eq!(FunctionDefKind::none().union(FunctionDefKind::long()), FunctionDefKind::long());
}

#[test]
fn plain_macro_definition() {
    assert_eq!(
        macro_def(FunctionDefKind::none(), macro_trim(false, false), " body "),
        Ok("\\def\\foo#1#2{ body %\n}\n".to_string())
    );
}

#[test]
fn macro_definition_command_follows_the_flags() {
    let trim = macro_trim(false, false);
    assert_eq!(
        macro_def(FunctionDefKind::global(), trim, "b"),
        Ok("\\gdef\\foo#1#2{b%\n}\n".to_string())
    );
    assert_eq!(
        macro_def(FunctionDefKind::expand(), trim, "b"),
        Ok("\\edef\\foo#1#2{b%\n}\n".to_string())
    );
    assert_eq!(
        macro_def(FunctionDefKind::long(), trim, "b"),
        Ok("\\long\\def\\foo#1#2{b%\n}\n".to_string())
    );
    assert_eq!(
        macro_def(FunctionDefKind::outer(), trim, "b"),
        Ok("\\outer\\def\\foo#1#2{b%\n}\n".to_string())
    );
}

#[test]
fn expand_and_global_give_xdef_in_either_order() {
    let trim = macro_trim(false, false);
    let one = FunctionDefKind::global().union(FunctionDefKind::expand());
    let other = FunctionDefKind::expand().union(FunctionDefKind::global());
    assert_eq!(macro_def(one, trim, "b"), Ok("\\xdef\\foo#1#2{b%\n}\n".to_string()));
    assert_eq!(macro_def(other, trim, "b"), Ok("\\xdef\\foo#1#2{b%\n}\n".to_string()));
}

#[test]
fn long_and_outer_come_before_the_command_in_that_order() {
    let all = FunctionDefKind::global()
        .union(FunctionDefKind::outer())
        .union(FunctionDefKind::expand())
        .union(FunctionDefKind::long());
    assert_eq!(
        macro_def(all, macro_trim(false, false), "b"),
        Ok("\\long\\outer\\xdef\\foo#1#2{b%\n}\n".to_string())
    );
    let some = FunctionDefKind::outer().union(FunctionDefKind::long()).union(FunctionDefKind::global());
    assert_eq!(
        macro_def(some, macro_trim(false, false), "b"),
        Ok("\\long\\outer\\gdef\\foo#1#2{b%\n}\n".to_string())
    );
}

#[test]
fn macro_body_is_trimmed_as_the_policy_says() {
    let kind = FunctionDefKind::none();
    let body = " \n body\t\n ";
    assert_eq!(
        macro_def(kind, macro_trim(false, false), body),
        Ok("\\def\\foo#1#2{ \n body\t\n %\n}\n".to_string())
    );
    assert_eq!(
        macro_def(kind, macro_trim(false, true), body),
        Ok("\\def\\foo#1#2{ \n body%\n}\n".to_string())
    );
    assert_eq!(
        macro_def(kind, macro_trim(true, false), body),
        Ok("\\def\\foo#1#2{%\nbody\t\n %\n}\n".to_string())
    );
    assert_eq!(
        macro_def(kind, macro_trim(true, true), body),
        Ok("\\def\\foo#1#2{%\nbody%\n}\n".to_string())
    );
}

#[test]
fn macro_body_of_whitespace_only_trims_to_nothing() {
    assert_eq!(
        macro_def(FunctionDefKind::none(), macro_trim(true, true), " \t\n "),
        Ok("\\def\\foo#1#2{%\n%\n}\n".to_string())
    );
    assert_eq!(
        macro_def(FunctionDefKind::none(), macro_trim(false, true), " \t\n "),
        Ok("\\def\\foo#1#2{%\n}\n".to_string())
    );
}

#[test]
fn macro_with_a_middle_switch_is_rejected() {
    let trim = TrimWhitespace { start: false, mid: Some(false), end: false };
    assert_eq!(macro_def(FunctionDefKind::none(), trim, "b"), illegal_trim());
    let trim = TrimWhitespace { start: true, mid: Some(true), end: true };
    assert_eq!(macro_def(FunctionDefKind::global(), trim, "b"), illegal_trim());
}

#[test]
fn new_and_renewed_environment() {
    assert_eq!(
        env_def(false, 0, None, env_trim(false, false, false)),
        Ok("\\newenvironment{box}{ \n<begin>\t }{\n <end> \n}\n".to_string())
    );
    assert_eq!(
        env_def(true, 0, None, env_trim(false, false, false)),
        Ok("\\renewenvironment{box}{ \n<begin>\t }{\n <end> \n}\n".to_string())
    );
}

#[test]
fn environment_with_arguments_writes_the_count() {
    assert_eq!(
        env_def(false, 2, None, env_trim(true, true, true)),
        Ok("\\newenvironment{box}[2]{<begin>}{<end>}\n".to_string())
    );
    assert_eq!(
        env_def(false, 255, None, env_trim(true, true, true)),
        Ok("\\newenvironment{box}[255]{<begin>}{<end>}\n".to_string())
    );
}

#[test]
fn environment_with_an_optional_argument_writes_its_default() {
    let default = Some(vec![Statement::MainText("red".to_string())]);
    assert_eq!(
        env_def(false, 1, default, env_trim(true, true, true)),
        Ok("\\newenvironment{box}[1][red]{<begin>}{<end>}\n".to_string())
    );
    assert_eq!(
        env_def(true, 3, Some(vec![]), env_trim(true, true, true)),
        Ok("\\renewenvironment{box}[3][]{<begin>}{<end>}\n".to_string())
    );
}

#[test]
fn environment_without_arguments_writes_no_brackets() {
    let default = Some(vec![Statement::MainText("red".to_string())]);
    assert_eq!(
        env_def(false, 0, default, env_trim(true, true, true)),
        Ok("\\newenvironment{box}{<begin>}{<end>}\n".to_string())
    );
    assert_eq!(
        env_def(false, 0, Some(vec![]), env_trim(true, true, true)),
        env_def(false, 0, None, env_trim(true, true, true))
    );
}

#[test]
fn environment_bodies_are_trimmed_as_the_policy_says() {
    let render = |start, mid, end| env_def(false, 0, None, env_trim(start, mid, end));
    let expect = |begin: &str, end: &str| -> Result<String, Halt> {
        Ok(format!("\\newenvironment{{box}}{{{}}}{{{}}}\n", begin, end))
    };
    assert_eq!(render(false, false, false), expect(" \n<begin>\t ", "\n <end> \n"));
    assert_eq!(render(true, false, false), expect("<begin>\t ", "\n <end> \n"));
    assert_eq!(render(false, true, false), expect(" \n<begin>", "<end> \n"));
    assert_eq!(render(false, false, true), expect(" \n<begin>\t ", "\n <end>"));
    assert_eq!(render(true, true, false), expect("<begin>", "<end> \n"));
    assert_eq!(render(true, false, true), expect("<begin>\t ", "\n <end>"));
    assert_eq!(render(false, true, true), expect(" \n<begin>", "<end>"));
    assert_eq!(render(true, true, true), expect("<begin>", "<end>"));
}

#[test]
fn environment_without_a_middle_switch_is_rejected() {
    let trim = TrimWhitespace { start: true, mid: None, end: true };
    assert_eq!(env_def(false, 0, None, trim), illegal_trim());
    assert_eq!(env_def(true, 2, Some(vec![]), trim), illegal_trim());
}

#[test]
fn illegal_trim_policy_has_a_message() {
    let err = VestiErr::illegal_trim_policy();
    assert_eq!(err.location, None);
    assert_eq!(err.message(), "the trim policy does not fit the kind of definition");
}
