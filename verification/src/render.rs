use vstd::prelude::*;
use vstd::string::StringExecFns;

verus! {

/// The character for a single decimal digit.
pub open spec fn digit_char(d: nat) -> char {
    if d == 0 {
        '0'
    } else if d == 1 {
        '1'
    } else if d == 2 {
        '2'
    } else if d == 3 {
        '3'
    } else if d == 4 {
        '4'
    } else if d == 5 {
        '5'
    } else if d == 6 {
        '6'
    } else if d == 7 {
        '7'
    } else if d == 8 {
        '8'
    } else {
        '9'
    }
}

/// The decimal digits of `n`, most significant first, with no leading zeros
/// (a single `'0'` for zero).
pub open spec fn dec_rep(n: nat) -> Seq<char>
    decreases n,
{
    if n < 10 {
        seq![digit_char(n)]
    } else {
        dec_rep(n / 10).push(digit_char(n % 10))
    }
}

fn digit_str(d: usize) -> (s: &'static str)
    requires
        d < 10,
    ensures
        s@ == seq![digit_char(d as nat)],
{
    if d == 0 {
        proof {
            reveal_strlit("0");
            assert("0"@ =~= seq![digit_char(0 as nat)]);
        }
        "0"
    } else if d == 1 {
        proof {
            reveal_strlit("1");
            assert("1"@ =~= seq![digit_char(1 as nat)]);
        }
        "1"
    } else if d == 2 {
        proof {
            reveal_strlit("2");
            assert("2"@ =~= seq![digit_char(2 as nat)]);
        }
        "2"
    } else if d == 3 {
        proof {
            reveal_strlit("3");
            assert("3"@ =~= seq![digit_char(3 as nat)]);
        }
        "3"
    } else if d == 4 {
        proof {
            reveal_strlit("4");
            assert("4"@ =~= seq![digit_char(4 as nat)]);
        }
        "4"
    } else if d == 5 {
        proof {
            reveal_strlit("5");
            assert("5"@ =~= seq![digit_char(5 as nat)]);
        }
        "5"
    } else if d == 6 {
        proof {
            reveal_strlit("6");
            assert("6"@ =~= seq![digit_char(6 as nat)]);
        }
        "6"
    } else if d == 7 {
        proof {
            reveal_strlit("7");
            assert("7"@ =~= seq![digit_char(7 as nat)]);
        }
        "7"
    } else if d == 8 {
        proof {
            reveal_strlit("8");
            assert("8"@ =~= seq![digit_char(8 as nat)]);
        }
        "8"
    } else {
        proof {
            reveal_strlit("9");
            assert("9"@ =~= seq![digit_char(9 as nat)]);
        }
        "9"
    }
}

/// Renders `n` in decimal.
pub fn usize_to_string(n: usize) -> (r: String)
    ensures
        r@ == dec_rep(n as nat),
    decreases n,
{
    if n < 10 {
        digit_str(n).to_owned()
    } else {
        let mut r = usize_to_string(n / 10);
        r.append(digit_str(n % 10));
        proof {
            assert(r@ =~= dec_rep((n / 10) as nat).push(digit_char((n % 10) as nat)));
        }
        r
    }
}

/// `n` copies of the character `c`.
pub open spec fn repeat_char(c: char, n: nat) -> Seq<char> {
    Seq::new(n, |i: int| c)
}

/// The solid-block glyph that fills the progress bar.
pub open spec fn bar_glyph() -> char {
    '\u{25ae}'
}

/// The bar field: `filled` glyphs, space-padded on the right to `width`
/// cells. When `filled` exceeds `width` the field overflows rather than
/// clamps; with the rescaling in `compute` this can happen at the boundary
/// when the total is not a multiple of the bar width.
pub open spec fn bar_text(filled: nat, width: nat) -> Seq<char> {
    repeat_char(bar_glyph(), filled) + repeat_char(
        ' ',
        if filled < width {
            (width - filled) as nat
        } else {
            0
        },
    )
}

/// Builds the bar field as a string.
pub fn bar_field(filled: usize, width: usize) -> (r: String)
    ensures
        r@ == bar_text(filled as nat, width as nat),
{
    let mut r = String::new();
    let mut i: usize = 0;
    while i < filled
        invariant
            i <= filled,
            r@ == repeat_char(bar_glyph(), i as nat),
        decreases filled - i,
    {
        r.append("\u{25ae}");
        i = i + 1;
        proof {
            reveal_strlit("\u{25ae}");
            assert(r@ =~= repeat_char(bar_glyph(), i as nat));
        }
    }
    let pad: usize = if filled < width {
        width - filled
    } else {
        0
    };
    let mut j: usize = 0;
    while j < pad
        invariant
            j <= pad,
            r@ == repeat_char(bar_glyph(), filled as nat) + repeat_char(' ', j as nat),
        decreases pad - j,
    {
        r.append(" ");
        j = j + 1;
        proof {
            reveal_strlit(" ");
            assert(r@ =~= repeat_char(bar_glyph(), filled as nat) + repeat_char(' ', j as nat));
        }
    }
    proof {
        assert(r@ =~= bar_text(filled as nat, width as nat));
    }
    r
}

/// Where rendered frames go. The decorator hands each frame, in full, to a
/// renderer; the renderer records or displays it.
pub trait Renderer {
    /// Every frame rendered so far, oldest first.
    spec fn frames(&self) -> Seq<Seq<char>>;

    /// Accepts one frame, appending it to the rendered history.
    fn render(&mut self, frame: &str)
        ensures
            final(self).frames() == old(self).frames().push(frame@),
    ;
}

/// A renderer that keeps every frame in memory, so a traversal can be
/// inspected without a terminal.
pub struct BufferRenderer {
    buf: Vec<String>,
}

impl BufferRenderer {
    pub fn new() -> (r: BufferRenderer)
        ensures
            r.frames() == Seq::<Seq<char>>::empty(),
    {
        let r = BufferRenderer { buf: Vec::new() };
        proof {
            assert(r.frames() =~= Seq::<Seq<char>>::empty());
        }
        r
    }

    /// How many frames have been rendered.
    pub fn len(&self) -> (n: usize)
        ensures
            n == self.frames().len(),
    {
        self.buf.len()
    }

    /// The `i`-th rendered frame, oldest first.
    pub fn frame_at(&self, i: usize) -> (s: &String)
        requires
            i < self.frames().len(),
        ensures
            s@ == self.frames()[i as int],
    {
        &self.buf[i]
    }
}

impl Renderer for BufferRenderer {
    closed spec fn frames(&self) -> Seq<Seq<char>> {
        self.buf@.map_values(|s: String| s@)
    }

    fn render(&mut self, frame: &str) {
        self.buf.push(frame.to_owned());
        proof {
            assert(self.frames() =~= old(self).frames().push(frame@));
        }
    }
}

} // verus!
