//! The `quasar init` banner: the text it reveals (the FIGlet "Quasar", the
//! tagline and the byline), where that text stands, and how each revealed
//! char and the final frame are coloured.
use vstd::prelude::*;
use crate::text::{chars_of, push_char};

verus! {

pub const BANNER_WIDTH: usize = 70;

/// 1 blank + 7 figlet + 1 blank + 1 tagline + 1 byline.
pub const BANNER_HEIGHT: usize = 11;

pub const BANNER_FRAMES: usize = 22;

pub const TAGLINE: &'static str = "Build programs that execute at the speed of light";

pub const BYLINE: &'static str = "by blueshift.gg";

pub const CYAN: &'static str = "\x1b[36m";

pub const BOLD: &'static str = "\x1b[1m";

pub const GREY: &'static str = "\x1b[90m";

pub const RESET: &'static str = "\x1b[0m";

/// Line `i` (0 to 6) of the FIGlet "Quasar".
pub open spec fn figlet_line_view(i: usize) -> Seq<char> {
    match i {
        0 => " ██████╗ ██╗   ██╗ █████╗ ███████╗ █████╗ ██████╗ "@,
        1 => "██╔═══██╗██║   ██║██╔══██╗██╔════╝██╔══██╗██╔══██╗"@,
        2 => "██║   ██║██║   ██║███████║███████╗███████║██████╔╝"@,
        3 => "██║▄▄ ██║██║   ██║██╔══██║╚════██║██╔══██║██╔══██╗"@,
        4 => "╚██████╔╝╚██████╔╝██║  ██║███████║██║  ██║██║  ██║"@,
        5 => " ╚══▀▀═╝  ╚═════╝ ╚═╝  ╚═╝╚══════╝╚═╝  ╚═╝╚═╝  ╚═╝"@,
        _ => ""@,
    }
}

pub fn figlet_line(i: usize) -> (s: &'static str)
    ensures
        s@ == figlet_line_view(i),
{
    match i {
        0 => " ██████╗ ██╗   ██╗ █████╗ ███████╗ █████╗ ██████╗ ",
        1 => "██╔═══██╗██║   ██║██╔══██╗██╔════╝██╔══██╗██╔══██╗",
        2 => "██║   ██║██║   ██║███████║███████╗███████║██████╔╝",
        3 => "██║▄▄ ██║██║   ██║██╔══██║╚════██║██╔══██║██╔══██╗",
        4 => "╚██████╔╝╚██████╔╝██║  ██║███████║██║  ██║██║  ██║",
        5 => " ╚══▀▀═╝  ╚═════╝ ╚═╝  ╚═╝╚══════╝╚═╝  ╚═╝╚═╝  ╚═╝",
        _ => "",
    }
}

/// `len` chars centred in `width` columns start here (at 0 when they do
/// not fit).
pub open spec fn center_spec(width: usize, len: usize) -> usize {
    if len <= width {
        ((width - len) / 2) as usize
    } else {
        0
    }
}

pub fn center_offset(width: usize, len: usize) -> (r: usize)
    ensures
        r == center_spec(width, len),
{
    width.saturating_sub(len) / 2
}

/// The text of the banner and where it stands.
pub struct BannerText {
    /// The FIGlet lines.
    pub fig: Vec<Vec<char>>,
    /// The widest FIGlet line.
    pub fig_w: usize,
    pub fig_off: usize,
    pub tag: Vec<char>,
    pub tag_off: usize,
    pub by: Vec<char>,
    pub by_off: usize,
}

/// The banner text laid out in `width` columns: every block centred.
pub open spec fn banner_wf(b: BannerText, width: usize) -> bool {
    &&& b.fig@.len() == 7
    &&& forall|i: int| 0 <= i < 7 ==> #[trigger] b.fig@[i]@ == figlet_line_view(i as usize)
    &&& (forall|i: int| 0 <= i < 7 ==> #[trigger] b.fig@[i]@.len() <= b.fig_w)
    &&& (exists|i: int| 0 <= i < 7 && #[trigger] b.fig@[i]@.len() == b.fig_w)
    &&& b.fig_off == center_spec(width, b.fig_w)
    &&& b.tag@ == TAGLINE@
    &&& b.tag_off == center_spec(width, b.tag@.len() as usize)
    &&& b.by@ == BYLINE@
    &&& b.by_off == center_spec(width, b.by@.len() as usize)
}

pub fn banner_text(width: usize) -> (b: BannerText)
    ensures
        banner_wf(b, width),
{
    let mut fig: Vec<Vec<char>> = Vec::new();
    let mut fig_w: usize = 0;
    let mut i: usize = 0;
    while i < 7
        invariant
            i <= 7,
            fig@.len() == i,
            forall|j: int| 0 <= j < i ==> #[trigger] fig@[j]@ == figlet_line_view(j as usize),
            forall|j: int| 0 <= j < i ==> #[trigger] fig@[j]@.len() <= fig_w,
            i == 0 ==> fig_w == 0,
            i > 0 ==> exists|j: int| 0 <= j < i && #[trigger] fig@[j]@.len() == fig_w,
        decreases 7 - i,
    {
        let row = chars_of(figlet_line(i));
        let ghost old_fig = fig@;
        let ghost old_w = fig_w;
        if row.len() > fig_w {
            fig_w = row.len();
        }
        fig.push(row);
        assert(fig@[i as int]@.len() <= fig_w);
        proof {
            if fig@[i as int]@.len() == fig_w {
                assert(0 <= i < i + 1 && fig@[i as int]@.len() == fig_w);
            } else {
                assert(fig_w == old_w && i > 0);
                let j = choose|j: int| 0 <= j < i && #[trigger] old_fig[j]@.len() == old_w;
                assert(fig@[j] == old_fig[j]);
            }
        }
        i = i + 1;
    }
    let tag = chars_of(TAGLINE);
    let by = chars_of(BYLINE);
    let fig_off = center_offset(width, fig_w);
    let tag_off = center_offset(width, tag.len());
    let by_off = center_offset(width, by.len());
    let b = BannerText { fig, fig_w, fig_off, tag, tag_off, by, by_off };
    assert(b.fig@.len() == 7);
    assert(exists|i: int| 0 <= i < 7 && #[trigger] b.fig@[i]@.len() == b.fig_w);
    assert(b.tag@ == TAGLINE@);
    assert(b.tag_off == center_spec(width, b.tag@.len() as usize));
    b
}

/// The char of the revealed text at banner line `line`, column `col`
/// (a space where there is none).
pub open spec fn text_char_spec(b: BannerText, line: usize, col: usize) -> char {
    if 1 <= line <= 7 && col >= b.fig_off && col - b.fig_off < b.fig_w {
        let row = b.fig@[line - 1]@;
        if col - b.fig_off < row.len() {
            row[col - b.fig_off]
        } else {
            ' '
        }
    } else if line == 9 && col >= b.tag_off && col - b.tag_off < b.tag@.len() {
        b.tag@[col - b.tag_off]
    } else if line == 10 && col >= b.by_off && col - b.by_off < b.by@.len() {
        b.by@[col - b.by_off]
    } else {
        ' '
    }
}

pub fn text_char_at(b: &BannerText, line: usize, col: usize) -> (c: char)
    requires
        b.fig@.len() == 7,
    ensures
        c == text_char_spec(*b, line, col),
{
    if 1 <= line && line <= 7 && col >= b.fig_off && col - b.fig_off < b.fig_w {
        let row = &b.fig[line - 1];
        if col - b.fig_off < row.len() {
            row[col - b.fig_off]
        } else {
            ' '
        }
    } else if line == 9 && col >= b.tag_off && col - b.tag_off < b.tag.len() {
        b.tag[col - b.tag_off]
    } else if line == 10 && col >= b.by_off && col - b.by_off < b.by.len() {
        b.by[col - b.by_off]
    } else {
        ' '
    }
}

/// A revealed char as written: cyan in the FIGlet lines, bold in the
/// tagline, grey for the byline's `by ` and cyan after it; a space for a
/// space or a char on another line.
pub open spec fn text_char_style_spec(ch: char, line: usize, col: usize, by_off: usize) -> Seq<char> {
    if ch == ' ' {
        seq![' ']
    } else if 1 <= line <= 7 {
        CYAN@ + seq![ch] + RESET@
    } else if line == 9 {
        BOLD@ + seq![ch] + RESET@
    } else if line == 10 {
        if col - by_off < 3 {
            GREY@ + seq![ch] + RESET@
        } else {
            CYAN@ + seq![ch] + RESET@
        }
    } else {
        seq![' ']
    }
}

fn styled(code: &str, ch: char) -> (r: String)
    ensures
        r@ == code@ + seq![ch] + RESET@,
{
    let mut r = String::from_str(code);
    push_char(&mut r, ch);
    r.append(RESET);
    r
}

fn space() -> (r: String)
    ensures
        r@ == seq![' '],
{
    let mut r = String::new();
    push_char(&mut r, ' ');
    assert(r@ =~= seq![' ']);
    r
}

/// What the banner writes for a revealed char. A byline char stands at or
/// after the byline's offset.
pub fn text_char_style(ch: char, line: usize, col: usize, by_off: usize) -> (r: String)
    requires
        ch != ' ' && line == 10 ==> col >= by_off,
    ensures
        r@ == text_char_style_spec(ch, line, col, by_off),
{
    if ch == ' ' {
        space()
    } else if 1 <= line && line <= 7 {
        styled(CYAN, ch)
    } else if line == 9 {
        styled(BOLD, ch)
    } else if line == 10 {
        if col - by_off < 3 {
            styled(GREY, ch)
        } else {
            styled(CYAN, ch)
        }
    } else {
        space()
    }
}

/// `n` spaces.
pub open spec fn spaces(n: nat) -> Seq<char> {
    Seq::new(n, |i: int| ' ')
}

/// A FIGlet row in the final frame: every non-space char in cyan.
pub open spec fn colored_row(row: Seq<char>) -> Seq<char>
    decreases row.len(),
{
    if row.len() == 0 {
        seq![]
    } else {
        colored_row(row.drop_last()) + if row.last() != ' ' {
            CYAN@ + seq![row.last()] + RESET@
        } else {
            seq![' ']
        }
    }
}

pub const BYLINE_FINAL: &'static str = "\x1b[90mby \x1b[36mblueshift.gg\x1b[0m";

/// A line of the last, clean frame (after the line's clear-and-indent
/// prefix): the FIGlet rows centred, the bold tagline, the byline.
pub open spec fn final_line_spec(b: BannerText, line: usize) -> Seq<char> {
    if 1 <= line <= 7 {
        spaces(b.fig_off as nat) + colored_row(b.fig@[line - 1]@)
    } else if line == 9 {
        spaces(b.tag_off as nat) + BOLD@ + TAGLINE@ + RESET@
    } else if line == 10 {
        spaces(b.by_off as nat) + BYLINE_FINAL@
    } else {
        seq![]
    }
}

fn push_spaces(r: &mut String, n: usize)
    ensures
        final(r)@ == old(r)@ + spaces(n as nat),
{
    let mut i: usize = 0;
    let ghost start = r@;
    while i < n
        invariant
            i <= n,
            r@ == start + spaces(i as nat),
        decreases n - i,
    {
        push_char(r, ' ');
        i = i + 1;
        assert(r@ =~= start + spaces(i as nat));
    }
}

pub fn final_line(b: &BannerText, line: usize) -> (r: String)
    requires
        b.fig@.len() == 7,
    ensures
        r@ == final_line_spec(*b, line),
{
    let mut r = String::new();
    if 1 <= line && line <= 7 {
        push_spaces(&mut r, b.fig_off);
        let row = &b.fig[line - 1];
        let ghost head = r@;
        let mut i: usize = 0;
        while i < row.len()
            invariant
                i <= row@.len(),
                r@ == head + colored_row(row@.take(i as int)),
            decreases row@.len() - i,
        {
            let ch = row[i];
            assert(row@.take(i + 1).drop_last() =~= row@.take(i as int));
            if ch != ' ' {
                r.append(styled(CYAN, ch).as_str());
            } else {
                push_char(&mut r, ' ');
            }
            i = i + 1;
            assert(r@ =~= head + colored_row(row@.take(i as int)));
        }
        assert(row@.take(row@.len() as int) =~= row@);
    } else if line == 9 {
        push_spaces(&mut r, b.tag_off);
        r.append(BOLD);
        r.append(TAGLINE);
        r.append(RESET);
    } else if line == 10 {
        push_spaces(&mut r, b.by_off);
        r.append(BYLINE_FINAL);
    }
    assert(r@ =~= final_line_spec(*b, line));
    r
}

/// Centred text fits: it ends within the width, and the margins on its two
/// sides differ by at most one column.
pub proof fn centered_text_fits(width: usize, len: usize)
    requires
        len <= width,
    ensures
        center_spec(width, len) + len <= width,
        0 <= (width - len - center_spec(width, len)) - center_spec(width, len) <= 1,
{
}

} // verus!
