use vstd::prelude::*;
use crate::file_status::FileIndex;

verus! {

/// A control sequence: escape, `[`, then `body`.
pub open spec fn csi(body: Seq<char>) -> Seq<char> {
    seq!['\u{1b}', '['] + body
}

pub open spec fn fg_seq(code: char) -> Seq<char> {
    csi(seq!['3', '8', ';', '5', ';', code, 'm'])
}

pub open spec fn bg_seq(code: char) -> Seq<char> {
    csi(seq!['4', '8', ';', '5', ';', code, 'm'])
}

pub open spec fn fg_reset_seq() -> Seq<char> {
    csi(seq!['3', '9', 'm'])
}

pub open spec fn bg_reset_seq() -> Seq<char> {
    csi(seq!['4', '9', 'm'])
}

pub open spec fn clear_seq() -> Seq<char> {
    csi(seq!['2', 'J'])
}

pub open spec fn digit(d: nat) -> char {
    if d == 0 { '0' }
    else if d == 1 { '1' }
    else if d == 2 { '2' }
    else if d == 3 { '3' }
    else if d == 4 { '4' }
    else if d == 5 { '5' }
    else if d == 6 { '6' }
    else if d == 7 { '7' }
    else if d == 8 { '8' }
    else { '9' }
}

/// `n` in decimal, with no leading zeros.
pub open spec fn decimal(n: nat) -> Seq<char>
    decreases n,
{
    if n < 10 {
        seq![digit(n)]
    } else {
        decimal(n / 10).push(digit(n % 10))
    }
}

/// The sequence that moves the terminal cursor to column `x`, line `y`,
/// both counted from one.
pub open spec fn goto_seq(x: u16, y: u16) -> Seq<char> {
    csi(decimal(y as nat) + seq![';'] + decimal(x as nat) + seq!['H'])
}

/// Relies on the `Display` of `termion::clear::All`: it writes `ESC [ 2 J`.
#[verifier::external_body]
fn clear_all() -> (r: String)
    ensures
        r@ == clear_seq(),
{
    format!("{}", termion::clear::All)
}

/// Relies on the `Display` of `termion::cursor::Goto`: it writes `ESC [`,
/// the line, `;`, the column, `H`, both in decimal.
#[verifier::external_body]
fn goto(x: u16, y: u16) -> (r: String)
    requires
        x >= 1,
        y >= 1,
    ensures
        r@ == goto_seq(x, y),
{
    format!("{}", termion::cursor::Goto(x, y))
}

/// Relies on `termion::color::Green::fg_str`: `ESC [ 38;5;2m`.
#[verifier::external_body]
fn fg_green() -> (r: String)
    ensures
        r@ == fg_seq('2'),
{
    termion::color::Green.fg_str().to_string()
}

/// Relies on `termion::color::Blue::fg_str`: `ESC [ 38;5;4m`.
#[verifier::external_body]
fn fg_blue() -> (r: String)
    ensures
        r@ == fg_seq('4'),
{
    termion::color::Blue.fg_str().to_string()
}

/// Relies on `termion::color::Magenta::fg_str`: `ESC [ 38;5;5m`.
#[verifier::external_body]
fn fg_magenta() -> (r: String)
    ensures
        r@ == fg_seq('5'),
{
    termion::color::Magenta.fg_str().to_string()
}

/// Relies on `termion::color::Blue::bg_str`: `ESC [ 48;5;4m`.
#[verifier::external_body]
fn bg_blue() -> (r: String)
    ensures
        r@ == bg_seq('4'),
{
    termion::color::Blue.bg_str().to_string()
}

/// Relies on `termion::color::Reset::fg_str`: `ESC [ 39m`.
#[verifier::external_body]
fn fg_reset() -> (r: String)
    ensures
        r@ == fg_reset_seq(),
{
    termion::color::Reset.fg_str().to_string()
}

/// Relies on `termion::color::Reset::bg_str`: `ESC [ 49m`.
#[verifier::external_body]
fn bg_reset() -> (r: String)
    ensures
        r@ == bg_reset_seq(),
{
    termion::color::Reset.bg_str().to_string()
}

/// `s` written `n` times.
pub open spec fn repeat(s: Seq<char>, n: nat) -> Seq<char>
    decreases n,
{
    if n == 0 {
        Seq::<char>::empty()
    } else {
        repeat(s, (n - 1) as nat) + s
    }
}

pub open spec fn crlf() -> Seq<char> {
    seq!['\r', '\n']
}

/// A line in blue: a section header.
pub open spec fn header_text(title: Seq<char>) -> Seq<char> {
    fg_seq('4') + title + fg_reset_seq()
}

/// The line of one entry: its status code in magenta, a space, its path.
pub open spec fn entry_text(e: FileIndex) -> Seq<char> {
    fg_seq('5') + e.status@ + fg_reset_seq() + seq![' '] + e.name@ + crlf()
}

pub open spec fn entries_text(l: Seq<FileIndex>) -> Seq<char>
    decreases l.len(),
{
    if l.len() == 0 {
        Seq::<char>::empty()
    } else {
        entries_text(l.drop_last()) + entry_text(l.last())
    }
}

/// The lines of one section below its header.
pub open spec fn section_text(l: Seq<FileIndex>) -> Seq<char> {
    if l.len() == 0 {
        "  (no files)\r\n"@
    } else {
        entries_text(l)
    }
}

/// The number of blank lines that bring `rows` lines of content down to the
/// line above the status bar; none where the content already reaches it.
pub open spec fn pad_count(rows: nat, height: nat) -> nat {
    if height >= rows + 2 {
        (height - rows - 2) as nat
    } else {
        0
    }
}

/// The status text filled with spaces to `width` characters; as it is where
/// it is already that wide or wider.
pub open spec fn padded(msg: Seq<char>, width: nat) -> Seq<char> {
    if msg.len() >= width {
        msg
    } else {
        msg + repeat(seq![' '], (width - msg.len()) as nat)
    }
}

/// The one-based screen coordinate of a zero-based position, held to what
/// the terminal can address.
pub open spec fn screen_coord(n: nat) -> u16 {
    if n + 1 > 65535 {
        65535
    } else {
        (n + 1) as u16
    }
}

/// A whole frame: clear the screen and go home, the branch line, the three
/// sections under their headers, blank lines down to the status bar, the
/// status bar in blue, and the terminal cursor put on the model's cursor.
pub open spec fn frame_text(
    branch: Seq<char>,
    staged: Seq<FileIndex>,
    modified: Seq<FileIndex>,
    untracked: Seq<FileIndex>,
    rows: nat,
    height: nat,
    width: nat,
    message: Seq<char>,
    row: nat,
    column: nat,
) -> Seq<char> {
    clear_seq() + goto_seq(1, 1)
        + fg_seq('2') + "On branch "@ + branch + crlf() + fg_reset_seq()
        + header_text("Changes to be committed:\r\n"@) + section_text(staged)
        + header_text("Changes not staged for commit:\r\n"@) + section_text(modified)
        + header_text("Untracked files:\r\n"@) + section_text(untracked)
        + repeat(crlf(), pad_count(rows, height))
        + bg_seq('4') + padded(message, width) + bg_reset_seq() + crlf()
        + goto_seq(screen_coord(column), screen_coord(row))
}

fn to_screen(n: usize) -> (r: u16)
    ensures
        r == screen_coord(n as nat),
        r >= 1,
{
    if n >= 65535 {
        65535
    } else {
        (n + 1) as u16
    }
}

/// Appends `s` to `out` `n` times.
pub fn push_repeated(out: &mut String, s: &str, n: usize)
    ensures
        final(out)@ == old(out)@ + repeat(s@, n as nat),
{
    let ghost start = out@;
    let mut i: usize = 0;
    while i < n
        invariant
            i <= n,
            out@ == start + repeat(s@, i as nat),
        decreases n - i,
    {
        out.append(s);
        i = i + 1;
        assert(out@ =~= start + repeat(s@, i as nat));
    }
}

/// Appends the lines of a section below its header.
pub fn push_section(out: &mut String, l: &Vec<FileIndex>)
    ensures
        final(out)@ == old(out)@ + section_text(l@),
{
    if l.len() == 0 {
        out.append("  (no files)\r\n");
        return;
    }
    let ghost start = out@;
    let mut i: usize = 0;
    while i < l.len()
        invariant
            i <= l@.len(),
            out@ == start + entries_text(l@.take(i as int)),
        decreases l@.len() - i,
    {
        let e = &l[i];
        out.append(fg_magenta().as_str());
        out.append(e.status.as_str());
        out.append(fg_reset().as_str());
        out.append(" ");
        out.append(e.name.as_str());
        out.append("\r\n");
        proof {
            reveal_strlit(" ");
            reveal_strlit("\r\n");
            assert(l@.take(i + 1).drop_last() =~= l@.take(i as int));
        }
        i = i + 1;
        assert(out@ =~= start + entries_text(l@.take(i as int)));
    }
    assert(l@.take(l@.len() as int) =~= l@);
}

/// Appends `message` filled with spaces to `width` characters.
pub fn push_padded(out: &mut String, message: &str, width: usize)
    ensures
        final(out)@ == old(out)@ + padded(message@, width as nat),
{
    let n = message.unicode_len();
    out.append(message);
    if n < width {
        proof {
            reveal_strlit(" ");
        }
        assert(" "@ =~= seq![' ']);
        push_repeated(out, " ", width - n);
    }
    assert(out@ =~= old(out)@ + padded(message@, width as nat));
}

/// Renders a whole frame; see `frame_text`.
pub fn render_frame(
    branch: &str,
    staged: &Vec<FileIndex>,
    modified: &Vec<FileIndex>,
    untracked: &Vec<FileIndex>,
    rows: usize,
    height: usize,
    width: usize,
    message: &str,
    row: usize,
    column: usize,
) -> (r: String)
    ensures
        r@ == frame_text(
            branch@,
            staged@,
            modified@,
            untracked@,
            rows as nat,
            height as nat,
            width as nat,
            message@,
            row as nat,
            column as nat,
        ),
{
    proof {
        reveal_strlit("\r\n");
    }
    assert("\r\n"@ =~= crlf());
    let mut out = clear_all();
    out.append(goto(1, 1).as_str());
    out.append(fg_green().as_str());
    out.append("On branch ");
    out.append(branch);
    out.append("\r\n");
    out.append(fg_reset().as_str());
    out.append(fg_blue().as_str());
    out.append("Changes to be committed:\r\n");
    out.append(fg_reset().as_str());
    push_section(&mut out, staged);
    out.append(fg_blue().as_str());
    out.append("Changes not staged for commit:\r\n");
    out.append(fg_reset().as_str());
    push_section(&mut out, modified);
    out.append(fg_blue().as_str());
    out.append("Untracked files:\r\n");
    out.append(fg_reset().as_str());
    push_section(&mut out, untracked);
    let pad: usize = if height >= 2 && height - 2 > rows {
        height - 2 - rows
    } else {
        0
    };
    push_repeated(&mut out, "\r\n", pad);
    out.append(bg_blue().as_str());
    push_padded(&mut out, message, width);
    out.append(bg_reset().as_str());
    out.append("\r\n");
    out.append(goto(to_screen(column), to_screen(row)).as_str());
    assert(pad as nat == pad_count(rows as nat, height as nat));
    assert(out@ =~= frame_text(
        branch@,
        staged@,
        modified@,
        untracked@,
        rows as nat,
        height as nat,
        width as nat,
        message@,
        row as nat,
        column as nat,
    ));
    out
}

} // verus!
