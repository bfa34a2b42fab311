use vstd::prelude::*;

verus! {

/// Spaces between the two columns.
pub const COLUMN_GAP: &'static str = "    ";

/// The length of the longest line, 0 when there is none.
pub open spec fn max_width(lines: Seq<Seq<char>>) -> nat
    decreases lines.len(),
{
    if lines.len() == 0 {
        0
    } else {
        let w = max_width(lines.drop_last());
        let l = lines.last().len();
        if l > w {
            l
        } else {
            w
        }
    }
}

/// `s` followed by spaces up to `width` characters.
pub open spec fn padded(s: Seq<char>, width: nat) -> Seq<char> {
    if s.len() >= width {
        s
    } else {
        s + Seq::new((width - s.len()) as nat, |_i: int| ' ')
    }
}

/// Line `i` of a column, empty past its end.
pub open spec fn cell(lines: Seq<Seq<char>>, i: int) -> Seq<char> {
    if 0 <= i < lines.len() {
        lines[i]
    } else {
        Seq::empty()
    }
}

/// Two columns side by side: each left line padded to the widest left line,
/// the gap, then the right line; as many rows as the longer column has.
pub open spec fn side_by_side_spec(left: Seq<Seq<char>>, right: Seq<Seq<char>>) -> Seq<Seq<char>> {
    let rows = if left.len() >= right.len() {
        left.len()
    } else {
        right.len()
    };
    Seq::new(
        rows,
        |i: int| padded(cell(left, i), max_width(left)) + COLUMN_GAP@ + cell(right, i),
    )
}

/// The texts of a list of strings.
pub open spec fn texts(v: Seq<String>) -> Seq<Seq<char>> {
    v.map_values(|s: String| s@)
}

proof fn lemma_max_width_step(lines: Seq<Seq<char>>, i: int)
    requires
        0 <= i < lines.len(),
    ensures
        max_width(lines.take(i + 1)) == if lines[i].len() > max_width(lines.take(i)) {
            lines[i].len()
        } else {
            max_width(lines.take(i))
        },
{
    assert(lines.take(i + 1).drop_last() =~= lines.take(i));
}

proof fn lemma_max_width_bounds(lines: Seq<Seq<char>>, i: int)
    requires
        0 <= i < lines.len(),
    ensures
        lines[i].len() <= max_width(lines),
    decreases lines.len(),
{
    if i < lines.len() - 1 {
        lemma_max_width_bounds(lines.drop_last(), i);
    }
}

fn widest(lines: &Vec<String>) -> (r: usize)
    ensures
        r == max_width(texts(lines@)),
{
    let mut w: usize = 0;
    let mut i: usize = 0;
    while i < lines.len()
        invariant
            i <= lines.len(),
            w == max_width(texts(lines@).take(i as int)),
        decreases lines.len() - i,
    {
        let l = lines[i].as_str().unicode_len();
        proof {
            lemma_max_width_step(texts(lines@), i as int);
        }
        if l > w {
            w = l;
        }
        i += 1;
    }
    assert(texts(lines@).take(lines.len() as int) =~= texts(lines@));
    w
}

/// Lays out `left` and `right` as two columns: every left line padded with
/// spaces to the widest left line, four spaces, then the right line; a column
/// that runs out contributes empty lines.
pub fn side_by_side(left: &Vec<String>, right: &Vec<String>) -> (r: Vec<String>)
    ensures
        texts(r@) == side_by_side_spec(texts(left@), texts(right@)),
{
    let width = widest(left);
    let rows: usize = if left.len() >= right.len() {
        left.len()
    } else {
        right.len()
    };
    let ghost spec_rows = side_by_side_spec(texts(left@), texts(right@));
    let mut out: Vec<String> = Vec::new();
    let mut i: usize = 0;
    while i < rows
        invariant
            i <= rows,
            rows == spec_rows.len(),
            width == max_width(texts(left@)),
            spec_rows == side_by_side_spec(texts(left@), texts(right@)),
            out@.len() == i,
            forall|k: int| 0 <= k < i ==> #[trigger] out@[k]@ == spec_rows[k],
        decreases rows - i,
    {
        let mut line = String::new();
        let mut used: usize = 0;
        if i < left.len() {
            line.append(left[i].as_str());
            used = left[i].as_str().unicode_len();
            proof {
                lemma_max_width_bounds(texts(left@), i as int);
            }
        }
        let ghost base = line@;
        assert(used == base.len() && used <= width);
        while used < width
            invariant
                used <= width,
                line@ == base + Seq::new((used - base.len()) as nat, |_i: int| ' '),
                base.len() <= used,
            decreases width - used,
        {
            line.append(" ");
            proof {
                reveal_strlit(" ");
                assert(line@ =~= base + Seq::new((used + 1 - base.len()) as nat, |_i: int| ' '));
            }
            used += 1;
        }
        proof {
            if base.len() >= width {
                assert(line@ =~= base);
            }
            assert(line@ =~= padded(cell(texts(left@), i as int), width as nat));
        }
        line.append(COLUMN_GAP);
        if i < right.len() {
            line.append(right[i].as_str());
        }
        proof {
            assert(line@ =~= spec_rows[i as int]);
        }
        out.push(line);
        i += 1;
    }
    assert(texts(out@) =~= spec_rows);
    out
}

} // verus!
