//! Text pieces shared by every frame: fixed-width labels, decimal numbers
//! and the bar's track.

use vstd::prelude::*;
use vstd::arithmetic::div_mod::{lemma_div_is_ordered, lemma_div_multiples_vanish};
use vstd::string::StrSliceExecFns;
use vstd::string::StringExecFns;

verus! {

/// Width in characters of an action label or an info tag.
pub const LABEL_WIDTH: usize = 12;

/// A label cut to its first twelve characters, or padded with spaces on the
/// left up to twelve.
pub open spec fn normalize(s: Seq<char>) -> Seq<char> {
    if s.len() >= LABEL_WIDTH {
        s.take(LABEL_WIDTH as int)
    } else {
        spaces((LABEL_WIDTH - s.len()) as nat) + s
    }
}

/// `n` spaces.
pub open spec fn spaces(n: nat) -> Seq<char> {
    Seq::new(n, |i: int| ' ')
}

/// Normalizing a label is idempotent and always gives twelve characters.
pub proof fn law_normalize_idempotent(s: Seq<char>)
    ensures
        normalize(s).len() == LABEL_WIDTH,
        normalize(normalize(s)) == normalize(s),
{
    assert(normalize(s).len() == LABEL_WIDTH);
    assert(normalize(normalize(s)) =~= normalize(s));
}

/// Brings a label to twelve characters (see `normalize`).
pub fn set_good_size(text: &str) -> (r: String)
    ensures
        r@ == normalize(text@),
{
    let n = text.unicode_len();
    if n >= LABEL_WIDTH {
        String::from_str(text.substring_char(0, LABEL_WIDTH))
    } else {
        let mut r = String::new();
        let mut i: usize = n;
        proof {
            reveal_strlit(" ");
        }
        while i < LABEL_WIDTH
            invariant
                n <= i <= LABEL_WIDTH,
                n == text@.len(),
                r@ =~= spaces((i - n) as nat),
                " "@ == seq![' '],
            decreases LABEL_WIDTH - i,
        {
            r.append(" ");
            i = i + 1;
        }
        r.append(text);
        r
    }
}

/// The ten decimal digits, in order.
pub open spec fn digit(d: int) -> Seq<char> {
    "0123456789"@.subrange(d, d + 1)
}

/// The decimal writing of `n`, without leading zeros.
pub open spec fn decimal(n: nat) -> Seq<char>
    decreases n,
{
    if n < 10 {
        digit(n as int)
    } else {
        decimal(n / 10) + digit((n % 10) as int)
    }
}

/// Writes `n` in decimal.
pub fn decimal_string(n: u128) -> (r: String)
    ensures
        r@ == decimal(n as nat),
    decreases n,
{
    proof {
        reveal_strlit("0123456789");
    }
    if n < 10 {
        String::from_str("0123456789".substring_char(n as usize, n as usize + 1))
    } else {
        let mut r = decimal_string(n / 10);
        let d = (n % 10) as usize;
        r.append("0123456789".substring_char(d, d + 1));
        r
    }
}

/// The first unit that track cell `i` stands for: `i * max / width`.
pub open spec fn cell_start(i: int, max: int, width: int) -> int {
    i * max / width
}

/// Track cell `i`: `'='` when progress is past the cell, `'>'` at the
/// leading edge, `' '` when progress has not reached it.
pub open spec fn cell(i: int, max: int, width: int, progress: int) -> char {
    if cell_start(i, max, width) < progress {
        if cell_start(i + 1, max, width) >= progress {
            '>'
        } else {
            '='
        }
    } else {
        ' '
    }
}

/// The track: `width` cells.
pub open spec fn track(max: nat, width: nat, progress: nat) -> Seq<char> {
    Seq::new(width, |i: int| cell(i, max as int, width as int, progress as int))
}

/// How many of the first `n` cells start below `progress`.
pub open spec fn cells_below(max: int, width: int, progress: int, n: int) -> int
    decreases n,
{
    if n <= 0 {
        0
    } else {
        cells_below(max, width, progress, n - 1) + if cell_start(n - 1, max, width) < progress {
            1int
        } else {
            0int
        }
    }
}

proof fn lemma_cell_start_monotonic(i: int, j: int, max: int, width: int)
    requires
        0 <= i <= j,
        max >= 0,
        width > 0,
    ensures
        cell_start(i, max, width) <= cell_start(j, max, width),
{
    assert(i * max <= j * max) by (nonlinear_arith)
        requires
            0 <= i <= j,
            max >= 0,
    ;
    lemma_div_is_ordered(i * max, j * max, width);
}

/// The cells that start below `progress` are the first `cells_below(.., n)`.
proof fn lemma_cells_below_prefix(max: int, width: int, progress: int, n: int)
    requires
        0 <= n,
        max >= 0,
        width > 0,
    ensures
        0 <= cells_below(max, width, progress, n) <= n,
        forall|i: int|
            0 <= i < n ==> (cell_start(i, max, width) < progress <==> i < cells_below(
                max,
                width,
                progress,
                n,
            )),
    decreases n,
{
    if n > 0 {
        lemma_cells_below_prefix(max, width, progress, n - 1);
        if cell_start(n - 1, max, width) < progress {
            assert forall|i: int| 0 <= i < n - 1 implies cell_start(i, max, width) < progress by {
                lemma_cell_start_monotonic(i, n - 1, max, width);
            }
        }
    }
}

/// The shape of the track, for `max > 0`, `width > 0` and progress at most
/// `max`: the cells that are not blank are exactly those whose first unit
/// lies below the progress, as many as `cells_below` counts; they form a
/// prefix; all of them are solid fill but the last, which is the one
/// leading edge; and there is a lit cell exactly when progress is not zero.
pub proof fn law_track_shape(max: nat, width: nat, progress: nat)
    requires
        max > 0,
        width > 0,
        progress <= max,
    ensures
        ({
            let t = track(max, width, progress);
            let k = cells_below(max as int, width as int, progress as int, width as int);
            &&& 0 <= k <= width
            &&& forall|i: int|
                0 <= i < width ==> (t[i] != ' ' <==> cell_start(
                    i,
                    max as int,
                    width as int,
                ) < progress)
            &&& forall|i: int| 0 <= i < width ==> (t[i] != ' ' <==> i < k)
            &&& forall|i: int| 0 <= i < k - 1 ==> t[i] == '='
            &&& k > 0 ==> t[k - 1] == '>'
            &&& (k > 0 <==> progress > 0)
        }),
{
    let t = track(max, width, progress);
    let (m, w, p) = (max as int, width as int, progress as int);
    lemma_cells_below_prefix(m, w, p, w);
    let k = cells_below(m, w, p, w);
    assert forall|i: int| 0 <= i < k - 1 implies t[i] == '=' by {
        assert(cell_start(i + 1, m, w) < p);
    }
    if k > 0 {
        if k < w {
            assert(!(cell_start(k, m, w) < p));
        } else {
            lemma_div_multiples_vanish(m, w);
            assert(w * m == m * w) by (nonlinear_arith);
        }
        assert(t[k - 1] == '>');
    }
    assert(cell_start(0, m, w) == 0);
    if p > 0 {
        assert(0 < k);
    }
}

proof fn lemma_product_fits(a: int, b: int)
    requires
        0 <= a <= usize::MAX,
        0 <= b <= usize::MAX,
    ensures
        0 <= a * b <= u128::MAX,
{
    assert(0 <= a * b <= usize::MAX * usize::MAX) by (nonlinear_arith)
        requires
            0 <= a <= usize::MAX,
            0 <= b <= usize::MAX,
    ;
}

/// `i * max / width` computed without overflow.
fn cell_start_exec(i: usize, max: usize, width: usize) -> (r: u128)
    requires
        width > 0,
    ensures
        r == cell_start(i as int, max as int, width as int),
{
    proof {
        lemma_product_fits(i as int, max as int);
    }
    (i as u128) * (max as u128) / (width as u128)
}

/// Appends the track of a bar to `out`.
pub fn push_track(out: &mut String, max: usize, width: usize, progress: usize)
    ensures
        final(out)@ == old(out)@ + track(max as nat, width as nat, progress as nat),
{
    proof {
        reveal_strlit(">");
        reveal_strlit("=");
        reveal_strlit(" ");
    }
    let ghost start = out@;
    let mut i: usize = 0;
    while i < width
        invariant
            i <= width,
            out@ =~= start + Seq::new(
                i as nat,
                |j: int| cell(j, max as int, width as int, progress as int),
            ),
            ">"@ == seq!['>'],
            "="@ == seq!['='],
            " "@ == seq![' '],
        decreases width - i,
    {
        let lo = cell_start_exec(i, max, width);
        if lo < progress as u128 {
            if cell_start_exec(i + 1, max, width) >= progress as u128 {
                out.append(">");
            } else {
                out.append("=");
            }
        } else {
            out.append(" ");
        }
        i = i + 1;
    }
    assert(out@ =~= start + track(max as nat, width as nat, progress as nat));
}

} // verus!
