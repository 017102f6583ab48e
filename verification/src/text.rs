//! Text building blocks: decimal numerals and the concatenation of a list
//! of pieces.

use vstd::prelude::*;
use vstd::seq_lib::lemma_flatten_concat;
use vstd::string::StringExecFns;

verus! {

/// The numeral of a single digit.
pub open spec fn digit_char(d: nat) -> char {
    if d == 0 {
        '0'
    } else if d == 1 {
        '1'
    } else if d == 2 {
        '2'
    } else if d == 3 {
        '3'
    } else if d == 4 {
        '4'
    } else if d == 5 {
        '5'
    } else if d == 6 {
        '6'
    } else if d == 7 {
        '7'
    } else if d == 8 {
        '8'
    } else {
        '9'
    }
}

/// The decimal numeral of `n`, without leading zeros.
pub open spec fn decimal(n: nat) -> Seq<char>
    decreases n,
{
    if n < 10 {
        seq![digit_char(n)]
    } else {
        decimal(n / 10).push(digit_char(n % 10))
    }
}

fn digit_str(d: usize) -> (r: &'static str)
    requires
        d < 10,
    ensures
        r@ == seq![digit_char(d as nat)],
{
    proof {
        reveal_strlit("0");
        reveal_strlit("1");
        reveal_strlit("2");
        reveal_strlit("3");
        reveal_strlit("4");
        reveal_strlit("5");
        reveal_strlit("6");
        reveal_strlit("7");
        reveal_strlit("8");
        reveal_strlit("9");
    }
    let r = if d == 0 {
        "0"
    } else if d == 1 {
        "1"
    } else if d == 2 {
        "2"
    } else if d == 3 {
        "3"
    } else if d == 4 {
        "4"
    } else if d == 5 {
        "5"
    } else if d == 6 {
        "6"
    } else if d == 7 {
        "7"
    } else if d == 8 {
        "8"
    } else {
        "9"
    };
    assert(r@ =~= seq![digit_char(d as nat)]);
    r
}

/// Writes `n` as a decimal numeral.
pub fn decimal_string(n: usize) -> (r: String)
    ensures
        r@ == decimal(n as nat),
    decreases n,
{
    if n < 10 {
        digit_str(n).to_owned()
    } else {
        let mut s = decimal_string(n / 10);
        let d = digit_str(n % 10);
        s.append(d);
        assert(s@ =~= decimal(n as nat));
        s
    }
}

/// Appending the next piece extends the concatenation of a prefix by
/// that piece.
pub proof fn lemma_flatten_take_next<A>(parts: Seq<Seq<A>>, i: int)
    requires
        0 <= i < parts.len(),
    ensures
        parts.take(i + 1).flatten() == parts.take(i).flatten() + parts[i],
{
    assert(parts.take(i + 1) =~= parts.take(i).push(parts[i]));
    parts.take(i).lemma_flatten_push(parts[i]);
}

/// Where piece `i` stands in the concatenation of `parts`: after all the
/// pieces before it.
pub open spec fn piece_offset(parts: Seq<Seq<char>>, i: int) -> int {
    parts.take(i).flatten().len() as int
}

/// Piece `i` stands in the concatenation, whole, at its offset.
pub proof fn lemma_piece_in_place(parts: Seq<Seq<char>>, i: int)
    requires
        0 <= i < parts.len(),
    ensures
        piece_offset(parts, i) + parts[i].len() <= parts.flatten().len(),
        parts.flatten().subrange(
            piece_offset(parts, i),
            piece_offset(parts, i) + parts[i].len(),
        ) == parts[i],
        piece_offset(parts, i + 1) == piece_offset(parts, i) + parts[i].len(),
{
    lemma_flatten_take_next(parts, i);
    assert(parts =~= parts.take(i + 1) + parts.skip(i + 1));
    lemma_flatten_concat(parts.take(i + 1), parts.skip(i + 1));
    let before = parts.take(i).flatten();
    let all = parts.flatten();
    let start = before.len() as int;
    assert(all =~= before + parts[i] + parts.skip(i + 1).flatten());
    assert(all.subrange(start, start + parts[i].len()) =~= parts[i]);
}

/// Pieces stand in the concatenation in the order of the list: an earlier
/// piece ends before a later one begins.
pub proof fn lemma_pieces_in_order(parts: Seq<Seq<char>>, i: int, j: int)
    requires
        0 <= i < j < parts.len(),
    ensures
        piece_offset(parts, i) + parts[i].len() <= piece_offset(parts, j),
    decreases j - i,
{
    lemma_piece_in_place(parts, i);
    if i + 1 < j {
        lemma_pieces_in_order(parts, i + 1, j);
        lemma_piece_in_place(parts, i + 1);
    }
}

/// The characters of each of a list of string slices.
pub open spec fn str_views<'a>(lines: Seq<&'a str>) -> Seq<Seq<char>> {
    lines.map_values(|s: &'a str| s@)
}

/// Writes the pieces of `lines` one after another.
pub fn concat_lines<'a>(lines: &[&'a str]) -> (r: String)
    ensures
        r@ == str_views(lines@).flatten(),
{
    let ghost parts = str_views(lines@);
    let mut out = String::new();
    let mut i: usize = 0;
    while i < lines.len()
        invariant
            i <= lines.len(),
            parts == str_views(lines@),
            out@ == parts.take(i as int).flatten(),
        decreases lines.len() - i,
    {
        proof {
            lemma_flatten_take_next(parts, i as int);
        }
        out.append(lines[i]);
        i = i + 1;
    }
    assert(parts.take(i as int) =~= parts);
    out
}

/// The characters of each of a list of strings.
pub open spec fn string_views(items: Seq<String>) -> Seq<Seq<char>> {
    items.map_values(|s: String| s@)
}

/// Item `i` of a list as it is written: on a line of its own, with a
/// comma after it unless it is the last.
pub open spec fn list_line(items: Seq<Seq<char>>, i: int) -> Seq<char> {
    items[i] + (if i + 1 < items.len() {
        ",\n"@
    } else {
        "\n"@
    })
}

/// The lines of a list, in the order of the items.
pub open spec fn list_lines(items: Seq<Seq<char>>) -> Seq<Seq<char>> {
    Seq::new(items.len(), |i: int| list_line(items, i))
}

/// A list as it is written: one item per line in the order given, items
/// separated by commas, no comma after the last.
pub open spec fn comma_list(items: Seq<Seq<char>>) -> Seq<char> {
    list_lines(items).flatten()
}

/// Writes a list: one item per line, separated by commas.
pub fn render_comma_list(items: &[String]) -> (r: String)
    ensures
        r@ == comma_list(string_views(items@)),
{
    let ghost lines = list_lines(string_views(items@));
    let mut out = String::new();
    let mut i: usize = 0;
    while i < items.len()
        invariant
            i <= items.len(),
            lines == list_lines(string_views(items@)),
            out@ == lines.take(i as int).flatten(),
        decreases items.len() - i,
    {
        proof {
            lemma_flatten_take_next(lines, i as int);
        }
        out.append(items[i].as_str());
        if i + 1 < items.len() {
            out.append(",\n");
        } else {
            out.append("\n");
        }
        i = i + 1;
    }
    assert(lines.take(i as int) =~= lines);
    out
}

/// Where item `i` of a written list begins.
pub open spec fn item_offset(items: Seq<Seq<char>>, i: int) -> int {
    piece_offset(list_lines(items), i)
}

/// Order is kept in a written list: each item stands whole at its place,
/// and an earlier item ends before a later one begins.
pub proof fn lemma_list_keeps_order(items: Seq<Seq<char>>, i: int, j: int)
    requires
        0 <= i < j < items.len(),
    ensures
        comma_list(items).subrange(item_offset(items, i), item_offset(items, i) + items[i].len())
            == items[i],
        comma_list(items).subrange(item_offset(items, j), item_offset(items, j) + items[j].len())
            == items[j],
        0 <= item_offset(items, i),
        item_offset(items, i) + items[i].len() < item_offset(items, j),
        item_offset(items, j) + items[j].len() < comma_list(items).len(),
{
    let lines = list_lines(items);
    let text = comma_list(items);
    lemma_piece_in_place(lines, i);
    lemma_piece_in_place(lines, j);
    lemma_pieces_in_order(lines, i, j);
    reveal_strlit(",\n");
    reveal_strlit("\n");
    let at_i = item_offset(items, i);
    let at_j = item_offset(items, j);
    assert(lines[i].subrange(0, items[i].len() as int) =~= items[i]);
    assert(lines[j].subrange(0, items[j].len() as int) =~= items[j]);
    assert(text.subrange(at_i, at_i + items[i].len()) =~= text.subrange(
        at_i,
        at_i + lines[i].len(),
    ).subrange(0, items[i].len() as int));
    assert(text.subrange(at_j, at_j + items[j].len()) =~= text.subrange(
        at_j,
        at_j + lines[j].len(),
    ).subrange(0, items[j].len() as int));
}

} // verus!
