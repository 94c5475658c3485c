use cargox::cli::split_cli_args;

fn args(list: &[&str]) -> Vec<String> {
    list.iter().map(|a| a.to_string()).collect()
}

#[test]
fn arguments_after_the_spec_go_to_the_binary() {
    let (own, rest) = split_cli_args(&args(&["bat", "--help"]));
    assert_eq!(own, args(&["bat"]));
    assert_eq!(rest, args(&["--help"]));
}

#[test]
fn bin_flag_value_is_not_the_spec() {
    let (own, rest) = split_cli_args(&args(&["--bin", "foo", "mycrate", "-x", ""]));
    assert_eq!(own, args(&["--bin", "foo", "mycrate"]));
    assert_eq!(rest, args(&["-x", ""]));
}

#[test]
fn leading_flags_stay_with_the_tool() {
    let (own, rest) = split_cli_args(&args(&["-f", "mycrate", "run", "--quiet"]));
    assert_eq!(own, args(&["-f", "mycrate"]));
    assert_eq!(rest, args(&["run", "--quiet"]));
}

#[test]
fn without_a_spec_everything_stays_with_the_tool() {
    let (own, rest) = split_cli_args(&args(&["--force", "--quiet"]));
    assert_eq!(own, args(&["--force", "--quiet"]));
    assert!(rest.is_empty());
}

#[test]
fn binary_arguments_pass_through_verbatim() {
    let raw = [
        "tool",
        "a b",
        "\"quoted\"",
        "",
        "--flag=va lue",
        "'single'",
    ];
    let (own, rest) = split_cli_args(&args(&raw));
    assert_eq!(own, args(&["tool"]));
    assert_eq!(rest, args(&raw[1..]));
}
