use tinypw::display::render_strength_bar;
use tinypw::display::strength_color;
use tinypw::display::strength_emoji;
use tinypw::strength::unique_chars;

fn entropy_from(length: usize, pool_size: usize) -> f64 {
    if length == 0 || pool_size <= 1 {
        0.0
    } else {
        length as f64 * (pool_size as f64).log2()
    }
}

#[test]
fn unique_chars_counts_each_character_once() {
    assert_eq!(unique_chars(""), 0);
    assert_eq!(unique_chars("a"), 1);
    assert_eq!(unique_chars("aaaa"), 1);
    assert_eq!(unique_chars("abcd"), 4);
    assert_eq!(unique_chars("abca"), 3);
    assert_eq!(unique_chars("abcdefghij"), 10);
    assert_eq!(unique_chars("abcdefghijkl"), 12);
    assert_eq!(unique_chars("abcdefghijklmnop"), 16);
    assert_eq!(unique_chars("4kVRwqf73dS*Iu7W"), 15);
    assert_eq!(unique_chars("ºéºé~"), 3);
}

#[test]
fn repeated_character_and_empty_text_have_no_entropy() {
    assert_eq!(entropy_from(4, unique_chars("aaaa")), 0.0);
    assert_eq!(entropy_from(0, unique_chars("")), 0.0);
    assert_eq!(entropy_from(1, unique_chars("a")), 0.0);
}

#[test]
fn four_distinct_characters_give_eight_bits() {
    assert_eq!(entropy_from(4, unique_chars("abcd")), 8.0);
}

#[test]
fn sixteen_distinct_characters_give_sixty_four_bits() {
    assert_eq!(entropy_from(16, unique_chars("abcdefghijklmnop")), 64.0);
}

#[test]
fn unique_chars_is_the_same_on_every_call() {
    let text = "4kVRwqf73dS*Iu7W";
    assert_eq!(unique_chars(text), unique_chars(text));
}

#[test]
fn each_label_has_its_colour() {
    assert_eq!(strength_color("weak"), "\x1b[31m");
    assert_eq!(strength_color("fair"), "\x1b[33m");
    assert_eq!(strength_color("good"), "\x1b[36m");
    assert_eq!(strength_color("strong"), "\x1b[32m");
    assert_eq!(strength_color(""), "\x1b[32m");
    assert_eq!(strength_color("weak "), "\x1b[32m");
}

#[test]
fn each_label_has_its_face() {
    assert_eq!(strength_emoji("weak"), "😬");
    assert_eq!(strength_emoji("fair"), "😐");
    assert_eq!(strength_emoji("good"), "🙂");
    assert_eq!(strength_emoji("strong"), "😎");
    assert_eq!(strength_emoji("Weak"), "😎");
}

#[test]
fn strength_line_is_laid_out_in_order() {
    assert_eq!(
        render_strength_bar(17, " 69.5", "strong"),
        "\x1b[32m[█████████████████░░░░░░░] \x1b[0m 69.5% strong 😎"
    );
    assert_eq!(
        render_strength_bar(0, "  0.0", "weak"),
        "\x1b[31m[░░░░░░░░░░░░░░░░░░░░░░░░] \x1b[0m  0.0% weak 😬"
    );
    assert_eq!(
        render_strength_bar(24, "100.0", "good"),
        "\x1b[36m[████████████████████████] \x1b[0m100.0% good 🙂"
    );
}
