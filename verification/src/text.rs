//! The game-over overlay text, and what it means to write a text line into a
//! row-major character grid.

use vstd::prelude::*;

verus! {

/// Writing `text` left to right into the `w` by `h` grid stored row-major in
/// `s`, starting at column `x` of row `y`: writing stops at the first
/// character whose cell falls off the grid, and the rest of the line is
/// silently dropped.
pub open spec fn write_text(
    s: Seq<char>,
    w: int,
    h: int,
    text: Seq<char>,
    x: int,
    y: int,
) -> Seq<char>
    decreases text.len(),
{
    if text.len() == 0 {
        s
    } else if !(0 <= y < h && 0 <= x < w) {
        s
    } else {
        write_text(s.update(y * w + x, text[0]), w, h, text.skip(1), x + 1, y)
    }
}

pub open spec fn gameover_line1() -> Seq<char> {
    seq!['G', 'a', 'm', 'e', ' ', 'O', 'v', 'e', 'r']
}

pub open spec fn gameover_line2() -> Seq<char> {
    seq!['G', 'a', 'b', 'e', ' ', 'w', 'o', 'u', 'l', 'd', ' ', 'h', 'a', 'v', 'e']
}

pub open spec fn gameover_line3() -> Seq<char> {
    seq!['d', 'o', 'n', 'e', ' ', 'b', 'e', 't', 't', 'e', 'r', '!']
}

pub open spec fn quit_hint() -> Seq<char> {
    seq!['P', 'r', 'e', 's', 's', ' ', '\'', 'q', '\'', ' ', 't', 'o', ' ', 'q', 'u', 'i', 't']
}

pub open spec fn retry_hint() -> Seq<char> {
    seq![
        'P',
        'r',
        'e',
        's',
        's',
        ' ',
        '\'',
        'r',
        '\'',
        ' ',
        't',
        'o',
        ' ',
        'r',
        'e',
        't',
        'r',
        'y',
    ]
}

pub fn gameover_line1_chars() -> (r: Vec<char>)
    ensures
        r@ == gameover_line1(),
        r@.len() == 9,
{
    let mut v: Vec<char> = Vec::new();
    v.push('G');
    v.push('a');
    v.push('m');
    v.push('e');
    v.push(' ');
    v.push('O');
    v.push('v');
    v.push('e');
    v.push('r');
    proof {
        assert(v@ =~= gameover_line1());
    }
    v
}

pub fn gameover_line2_chars() -> (r: Vec<char>)
    ensures
        r@ == gameover_line2(),
        r@.len() == 15,
{
    let mut v: Vec<char> = Vec::new();
    v.push('G');
    v.push('a');
    v.push('b');
    v.push('e');
    v.push(' ');
    v.push('w');
    v.push('o');
    v.push('u');
    v.push('l');
    v.push('d');
    v.push(' ');
    v.push('h');
    v.push('a');
    v.push('v');
    v.push('e');
    proof {
        assert(v@ =~= gameover_line2());
    }
    v
}

pub fn gameover_line3_chars() -> (r: Vec<char>)
    ensures
        r@ == gameover_line3(),
        r@.len() == 12,
{
    let mut v: Vec<char> = Vec::new();
    v.push('d');
    v.push('o');
    v.push('n');
    v.push('e');
    v.push(' ');
    v.push('b');
    v.push('e');
    v.push('t');
    v.push('t');
    v.push('e');
    v.push('r');
    v.push('!');
    proof {
        assert(v@ =~= gameover_line3());
    }
    v
}

pub fn quit_hint_chars() -> (r: Vec<char>)
    ensures
        r@ == quit_hint(),
        r@.len() == 17,
{
    let mut v: Vec<char> = Vec::new();
    v.push('P');
    v.push('r');
    v.push('e');
    v.push('s');
    v.push('s');
    v.push(' ');
    v.push('\'');
    v.push('q');
    v.push('\'');
    v.push(' ');
    v.push('t');
    v.push('o');
    v.push(' ');
    v.push('q');
    v.push('u');
    v.push('i');
    v.push('t');
    proof {
        assert(v@ =~= quit_hint());
    }
    v
}

pub fn retry_hint_chars() -> (r: Vec<char>)
    ensures
        r@ == retry_hint(),
        r@.len() == 18,
{
    let mut v: Vec<char> = Vec::new();
    v.push('P');
    v.push('r');
    v.push('e');
    v.push('s');
    v.push('s');
    v.push(' ');
    v.push('\'');
    v.push('r');
    v.push('\'');
    v.push(' ');
    v.push('t');
    v.push('o');
    v.push(' ');
    v.push('r');
    v.push('e');
    v.push('t');
    v.push('r');
    v.push('y');
    proof {
        assert(v@ =~= retry_hint());
    }
    v
}

} // verus!
