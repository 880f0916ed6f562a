use tui_shimmer::capability::{colorterm_enables, supports_true_color_from_env};

fn chars(text: &str) -> Option<Vec<char>> {
    Some(text.chars().collect())
}

#[test]
fn colorterm_truecolor_enables() {
    assert!(supports_true_color_from_env(false, &None, &None, &chars("truecolor")));
    assert!(supports_true_color_from_env(false, &None, &None, &chars("TRUECOLOR")));
    assert!(supports_true_color_from_env(false, &None, &None, &chars("TrueColor")));
    assert!(supports_true_color_from_env(false, &None, &None, &chars("xterm-truecolor")));
}

#[test]
fn colorterm_24bit_enables() {
    assert!(supports_true_color_from_env(false, &None, &None, &chars("24bit")));
    assert!(supports_true_color_from_env(false, &None, &None, &chars("24BIT")));
    assert!(supports_true_color_from_env(false, &None, &None, &chars("mode-24Bit-wide")));
}

#[test]
fn colorterm_other_values_do_not_enable() {
    assert!(!supports_true_color_from_env(false, &None, &None, &chars("xterm-256color")));
    assert!(!supports_true_color_from_env(false, &None, &None, &chars("")));
    assert!(!supports_true_color_from_env(false, &None, &None, &chars("24 bit")));
    assert!(!supports_true_color_from_env(false, &None, &None, &None));
}

#[test]
fn no_color_always_disables() {
    assert!(!supports_true_color_from_env(true, &None, &None, &chars("truecolor")));
    assert!(!supports_true_color_from_env(true, &chars("1"), &None, &chars("24bit")));
}

#[test]
fn clicolor_force_enables_unless_zero() {
    assert!(supports_true_color_from_env(false, &chars("1"), &None, &None));
    assert!(supports_true_color_from_env(false, &chars("yes"), &None, &None));
    assert!(supports_true_color_from_env(false, &chars(""), &None, &None));
    // The literal "0" does not force; the decision falls through.
    assert!(!supports_true_color_from_env(false, &chars("0"), &None, &None));
    assert!(supports_true_color_from_env(false, &chars("0"), &None, &chars("truecolor")));
}

#[test]
fn clicolor_zero_disables() {
    assert!(!supports_true_color_from_env(false, &None, &chars("0"), &chars("truecolor")));
    assert!(supports_true_color_from_env(false, &None, &chars("1"), &chars("truecolor")));
    assert!(!supports_true_color_from_env(false, &None, &chars("1"), &None));
}

#[test]
fn precedence_force_beats_clicolor() {
    assert!(supports_true_color_from_env(false, &chars("1"), &chars("0"), &None));
}

#[test]
fn colorterm_matcher_is_case_insensitive() {
    let value: Vec<char> = "24bIt".chars().collect();
    assert!(colorterm_enables(&value));
    let value: Vec<char> = "plain".chars().collect();
    assert!(!colorterm_enables(&value));
    let value: Vec<char> = "tRuEcOlOr".chars().collect();
    assert!(colorterm_enables(&value));
}
