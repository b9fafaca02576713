//! The block-character clock face: each digit (and the colon) of a rendered
//! time becomes a fixed glyph of five rows, and the glyphs stand side by
//! side two spaces apart.  The terminal layer only stacks the five finished
//! rows on the screen.

use vstd::prelude::*;
use vstd::string::StrSliceExecFns;

verus! {

/// One row of the five-row glyph of a clock character; characters outside
/// the clock alphabet render as blank space.
pub open spec fn glyph_row(c: char, i: int) -> Seq<char> {
    if c == '0' {
        if i == 0 {
            " ██████ "@
        } else if i == 4 {
            " ██████ "@
        } else {
            "██    ██"@
        }
    } else if c == '1' {
        if i == 0 {
            "   ██   "@
        } else if i == 1 {
            "  ███   "@
        } else if i == 4 {
            " ██████ "@
        } else {
            "   ██   "@
        }
    } else if c == '2' {
        if i == 0 {
            " ██████ "@
        } else if i == 1 {
            "██    ██"@
        } else if i == 2 {
            "    ███ "@
        } else if i == 3 {
            "  ███   "@
        } else {
            "████████"@
        }
    } else if c == '3' {
        if i == 0 {
            " ██████ "@
        } else if i == 1 {
            "      ██"@
        } else if i == 2 {
            "  █████ "@
        } else if i == 3 {
            "      ██"@
        } else {
            " ██████ "@
        }
    } else if c == '4' {
        if i == 0 {
            "██    ██"@
        } else if i == 1 {
            "██    ██"@
        } else if i == 2 {
            "████████"@
        } else {
            "      ██"@
        }
    } else if c == '5' {
        if i == 0 {
            "████████"@
        } else if i == 1 {
            "██      "@
        } else if i == 2 {
            "███████ "@
        } else if i == 3 {
            "      ██"@
        } else {
            "███████ "@
        }
    } else if c == '6' {
        if i == 0 {
            " ██████ "@
        } else if i == 1 {
            "██      "@
        } else if i == 2 {
            "███████ "@
        } else if i == 3 {
            "██    ██"@
        } else {
            " ██████ "@
        }
    } else if c == '7' {
        if i == 0 {
            "████████"@
        } else if i == 1 {
            "      ██"@
        } else if i == 2 {
            "     ██ "@
        } else if i == 3 {
            "    ██  "@
        } else {
            "   ██   "@
        }
    } else if c == '8' {
        if i == 0 {
            " ██████ "@
        } else if i == 1 {
            "██    ██"@
        } else if i == 2 {
            " ██████ "@
        } else if i == 3 {
            "██    ██"@
        } else {
            " ██████ "@
        }
    } else if c == '9' {
        if i == 0 {
            " ██████ "@
        } else if i == 1 {
            "██    ██"@
        } else if i == 2 {
            " ████████"@
        } else if i == 3 {
            "      ██"@
        } else {
            " ██████ "@
        }
    } else if c == ':' {
        if i == 0 {
            "   █    "@
        } else if i == 2 {
            "   █    "@
        } else {
            "        "@
        }
    } else {
        "        "@
    }
}

/// One finished row of the clock face: the glyph rows of the characters,
/// joined by two spaces.
pub open spec fn clock_row(s: Seq<char>, i: int) -> Seq<char>
    decreases s.len(),
{
    if s.len() == 0 {
        Seq::empty()
    } else if s.len() == 1 {
        glyph_row(s[0], i)
    } else {
        clock_row(s.drop_last(), i) + "  "@ + glyph_row(s.last(), i)
    }
}

/// The glyph row as text.
fn glyph_row_str(c: char, i: usize) -> (r: &'static str)
    requires
        i < 5,
    ensures
        r@ == glyph_row(c, i as int),
{
    match c {
        '0' => {
            if i == 0 || i == 4 {
                " ██████ "
            } else {
                "██    ██"
            }
        },
        '1' => {
            if i == 0 {
                "   ██   "
            } else if i == 1 {
                "  ███   "
            } else if i == 4 {
                " ██████ "
            } else {
                "   ██   "
            }
        },
        '2' => {
            if i == 0 {
                " ██████ "
            } else if i == 1 {
                "██    ██"
            } else if i == 2 {
                "    ███ "
            } else if i == 3 {
                "  ███   "
            } else {
                "████████"
            }
        },
        '3' => {
            if i == 0 {
                " ██████ "
            } else if i == 1 {
                "      ██"
            } else if i == 2 {
                "  █████ "
            } else if i == 3 {
                "      ██"
            } else {
                " ██████ "
            }
        },
        '4' => {
            if i == 0 || i == 1 {
                "██    ██"
            } else if i == 2 {
                "████████"
            } else {
                "      ██"
            }
        },
        '5' => {
            if i == 0 {
                "████████"
            } else if i == 1 {
                "██      "
            } else if i == 2 {
                "███████ "
            } else if i == 3 {
                "      ██"
            } else {
                "███████ "
            }
        },
        '6' => {
            if i == 0 {
                " ██████ "
            } else if i == 1 {
                "██      "
            } else if i == 2 {
                "███████ "
            } else if i == 3 {
                "██    ██"
            } else {
                " ██████ "
            }
        },
        '7' => {
            if i == 0 {
                "████████"
            } else if i == 1 {
                "      ██"
            } else if i == 2 {
                "     ██ "
            } else if i == 3 {
                "    ██  "
            } else {
                "   ██   "
            }
        },
        '8' => {
            if i == 0 {
                " ██████ "
            } else if i == 1 {
                "██    ██"
            } else if i == 2 {
                " ██████ "
            } else if i == 3 {
                "██    ██"
            } else {
                " ██████ "
            }
        },
        '9' => {
            if i == 0 {
                " ██████ "
            } else if i == 1 {
                "██    ██"
            } else if i == 2 {
                " ████████"
            } else if i == 3 {
                "      ██"
            } else {
                " ██████ "
            }
        },
        ':' => {
            if i == 0 || i == 2 {
                "   █    "
            } else {
                "        "
            }
        },
        _ => "        ",
    }
}

/// Render a time string as the five rows of its block-character clock face.
pub fn format_monolithic_ascii(time: &str) -> (r: Vec<String>)
    ensures
        r@.len() == 5,
        forall|i: int| 0 <= i < 5 ==> r@[i]@ == clock_row(time@, i),
{
    let n = time.unicode_len();
    let mut lines: Vec<String> = Vec::new();
    let mut i: usize = 0;
    while i < 5
        invariant
            i <= 5,
            n == time@.len(),
            lines@.len() == i,
            forall|j: int| 0 <= j < i ==> lines@[j]@ == clock_row(time@, j),
        decreases 5 - i,
    {
        let mut line = String::new();
        let mut k: usize = 0;
        while k < n
            invariant
                k <= n,
                i < 5,
                n == time@.len(),
                line@ == clock_row(time@.take(k as int), i as int),
            decreases n - k,
        {
            let c = time.get_char(k);
            proof {
                assert(time@.take(k as int + 1).drop_last() =~= time@.take(k as int));
                assert(time@.take(k as int + 1).last() == c);
            }
            if k > 0 {
                line.append("  ");
            }
            let row = glyph_row_str(c, i);
            line.append(row);
            proof {
                if k == 0 {
                    assert(time@.take(1int).len() == 1);
                    assert(time@.take(1int)[0] == c);
                }
                assert(line@ =~= clock_row(time@.take(k as int + 1), i as int));
            }
            k = k + 1;
        }
        proof {
            assert(time@.take(n as int) =~= time@);
        }
        lines.push(line);
        i = i + 1;
    }
    lines
}

} // verus!
