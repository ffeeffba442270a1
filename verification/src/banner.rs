//! The program's title, drawn in large letters with FIGlet.

use vstd::prelude::*;

verus! {

/// A FIGlet font.
#[verifier::external_type_specification]
#[verifier::external_body]
pub struct ExFIGfont(figlet_rs::FIGfont);

/// The glyphs of `font`: for each character code, the lines of its drawing.
pub uninterp spec fn figfont_glyphs(font: figlet_rs::FIGfont) -> Map<u32, Seq<Seq<char>>>;

/// The number of lines every glyph of `font` is drawn on.
pub uninterp spec fn figfont_height(font: figlet_rs::FIGfont) -> u32;

/// The glyphs drawing `message`, skipping the characters the font lacks.
pub open spec fn message_glyphs(glyphs: Map<u32, Seq<Seq<char>>>, message: Seq<char>) -> Seq<
    Seq<Seq<char>>,
> {
    message.filter(|c: char| glyphs.contains_key(c as u32)).map_values(|c: char| glyphs[c as u32])
}

/// Line `row` of a drawing: line `row` of each glyph that has one, side by side.
pub open spec fn figure_row(drawn: Seq<Seq<Seq<char>>>, row: int) -> Seq<char>
    decreases drawn.len(),
{
    if drawn.len() == 0 {
        Seq::empty()
    } else {
        figure_row(drawn.drop_last(), row) + if 0 <= row < drawn.last().len() {
            drawn.last()[row]
        } else {
            Seq::empty()
        }
    }
}

/// The first `rows` lines of a drawing, each ended by a newline.
pub open spec fn figure_rows(drawn: Seq<Seq<Seq<char>>>, rows: nat) -> Seq<char>
    decreases rows,
{
    if rows == 0 {
        Seq::empty()
    } else {
        figure_rows(drawn, (rows - 1) as nat) + figure_row(drawn, rows - 1) + seq!['\n']
    }
}

/// The drawing of `message` with the given glyphs and height: nothing when
/// the message is empty or the font draws none of its characters.
pub open spec fn figure_text(glyphs: Map<u32, Seq<Seq<char>>>, height: u32, message: Seq<char>) -> Option<
    Seq<char>,
> {
    let drawn = message_glyphs(glyphs, message);
    if message.len() == 0 || drawn.len() == 0 {
        None
    } else {
        Some(figure_rows(drawn, height as nat))
    }
}

/// The standard font draws every printable ASCII character (codes 32 to 126)
/// on 6 lines.
pub open spec fn is_standard_font(font: figlet_rs::FIGfont) -> bool {
    &&& figfont_height(font) == 6
    &&& forall|code: u32| 32 <= code <= 126 ==> #[trigger] figfont_glyphs(font).contains_key(code)
}

/// Loads the standard FIGlet font.
///
/// Trusted: wraps `figlet_rs::FIGfont::standard`, which parses the font file
/// bundled with the crate (`standard.flf`). That file's header gives a height
/// of 6 and the file holds the glyphs of codes 32 to 126, which the parser
/// always reads; the crate's own example unwraps the result. The contract
/// states that the font loads, has height 6 and draws those characters.
#[verifier::external_body]
fn standard_font() -> (font: Result<figlet_rs::FIGfont, String>)
    ensures
        font is Ok,
        is_standard_font(font->Ok_0),
{
    figlet_rs::FIGfont::standard()
}

/// Draws `message` with `font`.
///
/// Trusted: wraps `figlet_rs::FIGfont::convert` and the `Display` of the
/// `FIGure` it returns. As their source shows, `convert` gives nothing for an
/// empty message or one of which the font draws no character, and the
/// drawing is made, for each line of the font's height, of that line of every
/// glyph drawn, each line ended by a newline.
#[verifier::external_body]
fn draw(font: &figlet_rs::FIGfont, message: &str) -> (drawing: Option<String>)
    ensures
        figure_text(figfont_glyphs(*font), figfont_height(*font), message@) == match drawing {
            Some(d) => Some(d@),
            None => None::<Seq<char>>,
        },
{
    match font.convert(message) {
        Some(figure) => Some(figure.to_string()),
        None => None,
    }
}

/// The title drawn by the banner.
pub open spec fn title() -> Seq<char> {
    "PortHunter"@
}

/// The program's title drawn in the standard FIGlet font: the 6 lines of
/// the drawing, each made of that line of the glyph of every letter of
/// `PortHunter` and ended by a newline.
pub fn banner_text() -> (banner: Result<Option<String>, String>)
    ensures
        banner matches Ok(Some(d)) && exists|font: figlet_rs::FIGfont|
            is_standard_font(font) && d@ == figure_rows(
                message_glyphs(figfont_glyphs(font), title()),
                6,
            ),
{
    match standard_font() {
        Ok(font) => {
            let drawing = draw(&font, "PortHunter");
            proof {
                reveal_strlit("PortHunter");
                let glyphs = figfont_glyphs(font);
                let pred = |c: char| glyphs.contains_key(c as u32);
                assert(pred(title()[0]));
                title().lemma_filter_contains(pred, 0);
                assert(message_glyphs(glyphs, title()).len() > 0);
            }
            Ok(drawing)
        },
        Err(e) => Err(e),
    }
}

} // verus!
