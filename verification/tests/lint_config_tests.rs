use fixcpp::lint_config::{check_selection, lint_configuration};

fn names(list: &[&str]) -> Vec<String> {
    list.iter().map(|s| s.to_string()).collect()
}

#[test]
fn check_selection_switches_all_off_then_the_given_on() {
    assert_eq!(check_selection(&names(&["modernize-use-auto"])), "-*,modernize-use-auto");
    assert_eq!(check_selection(&names(&["a", "b", "c"])), "-*,a,b,c");
    assert_eq!(check_selection(&Vec::new()), "-*");
    assert_eq!(check_selection(&names(&[""])), "-*,");
}

#[test]
fn lint_configuration_for_one_check_is_exact() {
    let expected = "Checks: '-*,modernize-use-nullptr'\n\
WarningsAsErrors: ''\n\
HeaderFilterRegex: ''\n\
FormatStyle: none\n\
User: ''\n\
ExtraArgs: []\n\
ExtraArgsBefore: []\n";
    assert_eq!(lint_configuration(&names(&["modernize-use-nullptr"])), expected);
}

#[test]
fn lint_configuration_keeps_everything_but_the_selection_fixed() {
    let none = lint_configuration(&Vec::new());
    let two = lint_configuration(&names(&["x", "y"]));
    let tail = "'\nWarningsAsErrors: ''\nHeaderFilterRegex: ''\nFormatStyle: none\nUser: ''\nExtraArgs: []\nExtraArgsBefore: []\n";
    assert_eq!(none, format!("Checks: '-*{}", tail));
    assert_eq!(two, format!("Checks: '-*,x,y{}", tail));
    assert_eq!(two.lines().count(), 7);
}
