//! The coloured strength line that accompanies a password.

use crate::text::push_char;
use crate::text::same_text;
use vstd::prelude::*;
use vstd::string::*;

verus! {

/// The number of cells in the strength bar.
pub const BAR_WIDTH: usize = 24;

/// The cell of the bar that counts.
pub const FILLED_BLOCK: char = '\u{2588}';

/// The cell of the bar that is left over.
pub const EMPTY_BLOCK: char = '\u{2591}';

/// The escape sequence that ends a colour.
pub const RESET: &'static str = "\x1b[0m";

/// The colour of a label: red for weak, yellow for fair, cyan for good, and
/// green for anything else.
pub open spec fn color_of(label: Seq<char>) -> Seq<char> {
    if label == "weak"@ {
        "\x1b[31m"@
    } else if label == "fair"@ {
        "\x1b[33m"@
    } else if label == "good"@ {
        "\x1b[36m"@
    } else {
        "\x1b[32m"@
    }
}

/// The face shown beside a label.
pub open spec fn emoji_of(label: Seq<char>) -> Seq<char> {
    if label == "weak"@ {
        "\u{1F62C}"@
    } else if label == "fair"@ {
        "\u{1F610}"@
    } else if label == "good"@ {
        "\u{1F642}"@
    } else {
        "\u{1F60E}"@
    }
}

/// The escape sequence that switches the terminal to the colour of `label`.
pub fn strength_color(label: &str) -> (color: &'static str)
    ensures
        color@ == color_of(label@),
{
    if same_text(label, "weak") {
        "\x1b[31m"
    } else if same_text(label, "fair") {
        "\x1b[33m"
    } else if same_text(label, "good") {
        "\x1b[36m"
    } else {
        "\x1b[32m"
    }
}

/// The face that stands for `label`.
pub fn strength_emoji(label: &str) -> (emoji: &'static str)
    ensures
        emoji@ == emoji_of(label@),
{
    if same_text(label, "weak") {
        "\u{1F62C}"
    } else if same_text(label, "fair") {
        "\u{1F610}"
    } else if same_text(label, "good") {
        "\u{1F642}"
    } else {
        "\u{1F60E}"
    }
}

/// The cells of the bar: `filled` filled blocks, then empty blocks up to
/// the bar's width.
pub open spec fn bar_cells(filled: nat) -> Seq<char> {
    Seq::new(
        BAR_WIDTH as nat,
        |k: int|
            if k < filled {
                FILLED_BLOCK
            } else {
                EMPTY_BLOCK
            },
    )
}

/// The whole strength line: the bar in the label's colour, the percentage,
/// the label and its face.
pub open spec fn strength_line(filled: nat, percent: Seq<char>, label: Seq<char>) -> Seq<char> {
    color_of(label) + "["@ + bar_cells(filled) + "] "@ + RESET@ + percent + "% "@ + label + " "@
        + emoji_of(label)
}

/// Lays out the strength line for a bar with `filled_blocks` filled cells,
/// the percentage already written out as `percent`, and the label.
pub fn render_strength_bar(filled_blocks: usize, percent: &str, label: &str) -> (line: String)
    requires
        filled_blocks <= BAR_WIDTH,
    ensures
        line@ == strength_line(filled_blocks as nat, percent@, label@),
{
    let mut line = String::from_str(strength_color(label));
    line.append("[");
    let ghost head = line@;
    let mut k: usize = 0;
    while k < BAR_WIDTH
        invariant
            k <= BAR_WIDTH,
            filled_blocks <= BAR_WIDTH,
            line@ == head + bar_cells(filled_blocks as nat).take(k as int),
        decreases BAR_WIDTH - k,
    {
        let cell = if k < filled_blocks {
            FILLED_BLOCK
        } else {
            EMPTY_BLOCK
        };
        push_char(&mut line, cell);
        assert(bar_cells(filled_blocks as nat).take(k + 1) =~= bar_cells(
            filled_blocks as nat,
        ).take(k as int).push(cell));
        k += 1;
    }
    assert(bar_cells(filled_blocks as nat).take(BAR_WIDTH as int) =~= bar_cells(
        filled_blocks as nat,
    ));
    line.append("] ");
    line.append(RESET);
    line.append(percent);
    line.append("% ");
    line.append(label);
    line.append(" ");
    line.append(strength_emoji(label));
    line
}

} // verus!
