use tinypw::display::render_strength_bar;
use tinypw::options::get_random_password;
use tinypw::options::Args;
use tinypw::password::DEFAULT_LENGTH;
use tinypw::password::LETTERS_LOWER;
use tinypw::password::LETTERS_UPPER;
use tinypw::password::NUMBERS;
use tinypw::password::SIMILAR_SYMBOLS;
use tinypw::password::SYMBOLS;
use tinypw::strength::unique_chars;

fn new_args(length: Option<usize>, to_clipboard: bool, mode: &str, extra_chars: &str) -> Args {
    Args {
        length,
        to_clipboard,
        quiet: false,
        mode: mode.to_string(),
        extra_chars: extra_chars.to_string(),
    }
}

fn label_for(bits: f64) -> &'static str {
    if bits < 28.0 {
        "weak"
    } else if bits < 36.0 {
        "fair"
    } else if bits < 60.0 {
        "good"
    } else {
        "strong"
    }
}

fn strength_bar_for(pw_str: &str) -> String {
    let length = pw_str.chars().count() as f64;
    let pool_size = unique_chars(pw_str) as f64;
    let entropy_bits = if length == 0.0 || pool_size <= 1.0 {
        0.0
    } else {
        length * pool_size.log2()
    };
    let pct = (entropy_bits / 90.0).clamp(0.0, 1.0);
    let filled = (pct * 24.0).round() as usize;
    let percent = format!("{:>5.1}", pct * 100.0);
    render_strength_bar(filled, &percent, label_for(entropy_bits))
}

#[test]
fn test_get_random_password() {
    let args = new_args(Some(4), false, "ulnse", "");
    let rnd_pw = get_random_password(&args);
    assert_eq!(rnd_pw.length, 4);

    assert!(rnd_pw.base_string.chars().any(|c| LETTERS_UPPER.contains(c)));
}

#[test]
fn test_strength_bar() {
    let actual = strength_bar_for("4kVRwqf73dS*Iu7W");
    assert!(actual.contains("strong"));
    assert!(actual.contains("69.5%"));
}

#[test]
fn test_default_length_when_none() {
    let args = new_args(None, false, "ulnse", "");
    let rnd_pw = get_random_password(&args);
    assert_eq!(rnd_pw.length, DEFAULT_LENGTH);
}

#[test]
fn test_character_mode_upper_only() {
    let args = new_args(Some(8), false, "un", "");
    let rnd_pw = get_random_password(&args);

    assert!(LETTERS_LOWER.chars().all(|c| !rnd_pw.base_string.contains(c)));
    assert!(rnd_pw.base_string.chars().any(|c| LETTERS_UPPER.contains(c)));
}

#[test]
fn test_character_mode_lower_only() {
    let args = new_args(Some(8), false, "ln", "");
    let rnd_pw = get_random_password(&args);

    assert!(LETTERS_UPPER.chars().all(|c| !rnd_pw.base_string.contains(c)));
    assert!(rnd_pw.base_string.chars().any(|c| LETTERS_LOWER.contains(c)));
}

#[test]
fn test_character_mode_default_when_neither_u_nor_l() {
    let args = new_args(Some(8), false, "nse", "");
    let rnd_pw = get_random_password(&args);

    assert!(rnd_pw.base_string.chars().any(|c| LETTERS_LOWER.contains(c)));
    assert!(rnd_pw.base_string.chars().any(|c| LETTERS_UPPER.contains(c)));
    assert!(rnd_pw.base_string.chars().any(|c| NUMBERS.contains(c)));
    assert!(rnd_pw.base_string.chars().any(|c| SYMBOLS.contains(c)));
    assert!(SIMILAR_SYMBOLS.chars().all(|c| !rnd_pw.base_string.contains(c)));
}

#[test]
fn test_exclude_numbers_and_symbols_when_missing_in_mode() {
    let args = new_args(Some(8), false, "ul", "");
    let rnd_pw = get_random_password(&args);
    assert!(NUMBERS.chars().all(|c| !rnd_pw.base_string.contains(c)));
    assert!(SYMBOLS.chars().all(|c| !rnd_pw.base_string.contains(c)));
}

#[test]
fn test_extra_chars_are_appended() {
    let extra = "~Âº";
    let args = new_args(Some(8), false, "ulnse", extra);
    let rnd_pw = get_random_password(&args);
    assert!(extra.chars().all(|c| rnd_pw.base_string.contains(c)));
}

#[test]
fn options_give_the_exact_pool() {
    let rnd_pw = get_random_password(&new_args(Some(3), true, "lne", "1l"));
    assert_eq!(rnd_pw.length, 3);
    assert_eq!(rnd_pw.base_string, "abcdefghjkmnpqrstuvwxyz234567891l");
}

#[test]
fn options_without_case_letters_use_both_cases() {
    let rnd_pw = get_random_password(&new_args(None, false, "", ""));
    assert_eq!(rnd_pw.length, 16);
    assert_eq!(
        rnd_pw.base_string,
        "abcdefghijklmnopqrstuvwxyzABCDEFGHIJKLMNOPQRSTUVWXYZ"
    );
}

#[test]
fn options_upper_with_symbols() {
    let rnd_pw = get_random_password(&new_args(Some(0), false, "us", ""));
    assert_eq!(rnd_pw.length, 0);
    assert_eq!(rnd_pw.base_string, "ABCDEFGHIJKLMNOPQRSTUVWXYZ!#$&()*+/");
    assert_eq!(rnd_pw.generate(), "");
}
