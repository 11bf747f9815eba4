use vstd::prelude::*;
use vstd::string::StringExecFns;
use colored::Colorize;
use crate::render::{Span, Style};

verus! {

/// The fixed RGB color of heat-map bucket `level`, monotonically brighter
/// with the level.
pub open spec fn heat_rgb_spec(level: int) -> (u8, u8, u8) {
    if level <= 0 {
        (45u8, 51u8, 59u8)
    } else if level == 1 {
        (14u8, 68u8, 121u8)
    } else if level == 2 {
        (33u8, 110u8, 177u8)
    } else if level == 3 {
        (52u8, 152u8, 219u8)
    } else {
        (116u8, 185u8, 255u8)
    }
}

/// Looks up the RGB color of heat-map bucket `level`.
pub fn heat_rgb(level: u8) -> (rgb: (u8, u8, u8))
    ensures
        rgb == heat_rgb_spec(level as int),
{
    if level == 0 {
        (45, 51, 59)
    } else if level == 1 {
        (14, 68, 121)
    } else if level == 2 {
        (33, 110, 177)
    } else if level == 3 {
        (52, 152, 219)
    } else {
        (116, 185, 255)
    }
}

/// Text that holds no escape character, so that coloring can only wrap it,
/// never rewrite it.
pub open spec fn clean_text(t: Seq<char>) -> bool {
    !t.contains('\u{1b}')
}

/// Every outcome of coloring clean text with the fixed style prefix `prefix`:
/// the text unchanged (coloring disabled for the process), or the prefix,
/// the text, and the trailing reset sequence.
pub open spec fn styled_outcome(out: Seq<char>, text: Seq<char>, prefix: Seq<char>) -> bool {
    out == text || out == prefix + text + "\u{1b}[0m"@
}

/// Every outcome of coloring clean text with some style prefix.
pub open spec fn some_styled_outcome(out: Seq<char>, text: Seq<char>) -> bool {
    out == text || (exists|prefix: Seq<char>| out == prefix + text + "\u{1b}[0m"@)
}

/// Relies on colored::Colorize::bright_blue and colored::ColoredString's
/// Display: when coloring is disabled for the process the text is written
/// unchanged, otherwise it is wrapped in the bright-blue prefix and the
/// reset sequence, provided the text holds no escape character.
#[verifier::external_body]
fn bright_blue_text(s: &str) -> (r: String)
    ensures
        clean_text(s@) ==> styled_outcome(r@, s@, "\u{1b}[94m"@),
{
    s.bright_blue().to_string()
}

/// Relies on colored::Colorize::bright_cyan: as bright_blue_text, with the
/// bright-cyan prefix.
#[verifier::external_body]
fn bright_cyan_text(s: &str) -> (r: String)
    ensures
        clean_text(s@) ==> styled_outcome(r@, s@, "\u{1b}[96m"@),
{
    s.bright_cyan().to_string()
}

/// Relies on colored::Colorize::bright_white and colored::Colorize::bold: as
/// bright_blue_text, with the bold bright-white prefix.
#[verifier::external_body]
fn title_bold_text(s: &str) -> (r: String)
    ensures
        clean_text(s@) ==> styled_outcome(r@, s@, "\u{1b}[1;97m"@),
{
    s.bright_white().bold().to_string()
}

/// Relies on colored::Colorize::truecolor: when coloring is disabled the text
/// is written unchanged; otherwise it is wrapped in a color prefix and the
/// reset sequence, provided the text holds no escape character. The prefix is
/// not pinned: without truecolor support, colored falls back to the nearest
/// basic color.
#[verifier::external_body]
fn truecolor_text(s: &str, r: u8, g: u8, b: u8) -> (out: String)
    ensures
        clean_text(s@) ==> some_styled_outcome(out@, s@),
{
    s.truecolor(r, g, b).to_string()
}

/// Turns one span into terminal text: plain text stays as it is; styled clean
/// text is either unchanged (coloring disabled) or wrapped in one style
/// prefix and the trailing reset.
pub fn span_to_ansi(s: &Span) -> (r: String)
    ensures
        s.style is Plain ==> r@ == s.text@,
        clean_text(s.text@) ==> some_styled_outcome(r@, s.text@),
{
    match s.style {
        Style::Plain => String::from_str(s.text.as_str()),
        Style::BrightBlue => {
            let r = bright_blue_text(s.text.as_str());
            proof {
                if clean_text(s.text@) && r@ != s.text@ {
                    assert(r@ == "\u{1b}[94m"@ + s.text@ + "\u{1b}[0m"@);
                }
            }
            r
        },
        Style::BrightCyan => {
            let r = bright_cyan_text(s.text.as_str());
            proof {
                if clean_text(s.text@) && r@ != s.text@ {
                    assert(r@ == "\u{1b}[96m"@ + s.text@ + "\u{1b}[0m"@);
                }
            }
            r
        },
        Style::TitleBold => {
            let r = title_bold_text(s.text.as_str());
            proof {
                if clean_text(s.text@) && r@ != s.text@ {
                    assert(r@ == "\u{1b}[1;97m"@ + s.text@ + "\u{1b}[0m"@);
                }
            }
            r
        },
        Style::Heat(level) => {
            let rgb = heat_rgb(level);
            truecolor_text(s.text.as_str(), rgb.0, rgb.1, rgb.2)
        },
    }
}

/// The shape of a rendered line turned into terminal text: one piece per
/// span, concatenated in order; a plain span's piece is its text itself, and
/// any span of clean text contributes its text either unchanged or wrapped in
/// one style prefix and the reset sequence.
pub open spec fn ansi_line_shape(out: Seq<char>, spans: Seq<Span>) -> bool
    decreases spans.len(),
{
    if spans.len() == 0 {
        out == Seq::<char>::empty()
    } else {
        exists|rest: Seq<char>, piece: Seq<char>|
            out == rest + piece && ansi_line_shape(rest, spans.drop_last()) && (spans.last().style
                is Plain ==> piece == spans.last().text@) && (clean_text(spans.last().text@)
                ==> some_styled_outcome(piece, spans.last().text@))
    }
}

/// Turns one rendered line into terminal text, spans in order.
pub fn line_to_ansi(line: &Vec<Span>) -> (r: String)
    ensures
        ansi_line_shape(r@, line@),
{
    let mut s = String::new();
    let mut i: usize = 0;
    while i < line.len()
        invariant
            i <= line@.len(),
            ansi_line_shape(s@, line@.take(i as int)),
        decreases line@.len() - i,
    {
        let piece = span_to_ansi(&line[i]);
        let ghost prev = s@;
        s.append(piece.as_str());
        proof {
            let t = line@.take(i + 1);
            assert(t.drop_last() =~= line@.take(i as int));
            assert(t.last() == line@[i as int]);
            assert(s@ == prev + piece@);
            assert(ansi_line_shape(prev, t.drop_last()));
            assert(ansi_line_shape(s@, t));
        }
        i = i + 1;
    }
    proof {
        assert(line@.take(line@.len() as int) =~= line@);
    }
    s
}

/// The plain characters of a line: each span's text, concatenated in order,
/// colors disregarded.
pub open spec fn line_text_spec(l: Seq<Span>) -> Seq<char>
    decreases l.len(),
{
    if l.len() == 0 {
        Seq::<char>::empty()
    } else {
        line_text_spec(l.drop_last()) + l.last().text@
    }
}

/// Concatenates the plain text of a rendered line, colors disregarded.
pub fn line_text(line: &Vec<Span>) -> (r: String)
    ensures
        r@ == line_text_spec(line@),
{
    let mut s = String::new();
    let mut i: usize = 0;
    while i < line.len()
        invariant
            i <= line@.len(),
            s@ == line_text_spec(line@.take(i as int)),
        decreases line@.len() - i,
    {
        s.append(line[i].text.as_str());
        i = i + 1;
        proof {
            assert(line@.take(i as int).drop_last() =~= line@.take(i - 1));
        }
    }
    proof {
        assert(line@.take(line@.len() as int) =~= line@);
    }
    s
}

} // verus!
