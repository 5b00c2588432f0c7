//! Verified identifier casing: the capitalized-word (Pascal) form of
//! underscore-delimited names, the leading-lowercase (camel) form used for
//! local variable names, the blunt `Id` -> `ID` substring rewrite, and the
//! trailing-plural strip applied to table names.

use vstd::prelude::*;

verus! {

/// ASCII uppercase of a lowercase letter; any other character is unchanged.
pub open spec fn upper_char(c: char) -> char {
    if c == 'a' {
        'A'
    } else if c == 'b' {
        'B'
    } else if c == 'c' {
        'C'
    } else if c == 'd' {
        'D'
    } else if c == 'e' {
        'E'
    } else if c == 'f' {
        'F'
    } else if c == 'g' {
        'G'
    } else if c == 'h' {
        'H'
    } else if c == 'i' {
        'I'
    } else if c == 'j' {
        'J'
    } else if c == 'k' {
        'K'
    } else if c == 'l' {
        'L'
    } else if c == 'm' {
        'M'
    } else if c == 'n' {
        'N'
    } else if c == 'o' {
        'O'
    } else if c == 'p' {
        'P'
    } else if c == 'q' {
        'Q'
    } else if c == 'r' {
        'R'
    } else if c == 's' {
        'S'
    } else if c == 't' {
        'T'
    } else if c == 'u' {
        'U'
    } else if c == 'v' {
        'V'
    } else if c == 'w' {
        'W'
    } else if c == 'x' {
        'X'
    } else if c == 'y' {
        'Y'
    } else if c == 'z' {
        'Z'
    } else {
        c
    }
}

/// ASCII lowercase of an uppercase letter; any other character is unchanged.
pub open spec fn lower_char(c: char) -> char {
    if c == 'A' {
        'a'
    } else if c == 'B' {
        'b'
    } else if c == 'C' {
        'c'
    } else if c == 'D' {
        'd'
    } else if c == 'E' {
        'e'
    } else if c == 'F' {
        'f'
    } else if c == 'G' {
        'g'
    } else if c == 'H' {
        'h'
    } else if c == 'I' {
        'i'
    } else if c == 'J' {
        'j'
    } else if c == 'K' {
        'k'
    } else if c == 'L' {
        'l'
    } else if c == 'M' {
        'm'
    } else if c == 'N' {
        'n'
    } else if c == 'O' {
        'o'
    } else if c == 'P' {
        'p'
    } else if c == 'Q' {
        'q'
    } else if c == 'R' {
        'r'
    } else if c == 'S' {
        's'
    } else if c == 'T' {
        't'
    } else if c == 'U' {
        'u'
    } else if c == 'V' {
        'v'
    } else if c == 'W' {
        'w'
    } else if c == 'X' {
        'x'
    } else if c == 'Y' {
        'y'
    } else if c == 'Z' {
        'z'
    } else {
        c
    }
}

/// Helper for [`pascal_of`]: `cap` says whether the next ordinary character
/// begins a segment and is therefore uppercased; underscores are dropped and
/// start a new segment.
pub open spec fn pascal_rest(s: Seq<char>, cap: bool) -> Seq<char>
    decreases s.len(),
{
    if s.len() == 0 {
        Seq::<char>::empty()
    } else if s[0] == '_' {
        pascal_rest(s.skip(1), true)
    } else {
        seq![if cap { upper_char(s[0]) } else { s[0] }] + pascal_rest(s.skip(1), false)
    }
}

/// The capitalized-word form: each underscore-delimited segment has its first
/// character uppercased, the segments are concatenated and the underscores
/// dropped.  Characters after a segment's first are kept unchanged.
pub open spec fn pascal_of(s: Seq<char>) -> Seq<char> {
    pascal_rest(s, true)
}

/// The leading-lowercase form of a capitalized name: its first character
/// lowercased, the rest unchanged.
pub open spec fn camel_of(s: Seq<char>) -> Seq<char> {
    if s.len() == 0 {
        s
    } else {
        seq![lower_char(s[0])] + s.skip(1)
    }
}

/// The literal substring rewrite `"Id"` -> `"ID"`: leftmost matches first,
/// non-overlapping, with no regard for word boundaries.
pub open spec fn replace_id_of(s: Seq<char>) -> Seq<char>
    decreases s.len(),
{
    if s.len() < 2 {
        s
    } else if s[0] == 'I' && s[1] == 'd' {
        seq!['I', 'D'] + replace_id_of(s.skip(2))
    } else {
        seq![s[0]] + replace_id_of(s.skip(1))
    }
}

/// A table name with one trailing `'s'` removed, if present.
pub open spec fn strip_plural(s: Seq<char>) -> Seq<char> {
    if s.len() > 0 && s[s.len() - 1] == 's' {
        s.take(s.len() - 1)
    } else {
        s
    }
}

/// The generated type name for a raw table name: trailing plural stripped,
/// then the capitalized-word form.
pub open spec fn type_name_of(s: Seq<char>) -> Seq<char> {
    pascal_of(strip_plural(s))
}

/// Appends the uppercased form of the character `s@[i]` to `out`.
fn append_upper_at(out: &mut String, s: &str, i: usize)
    requires
        i < s@.len(),
        s@.len() <= usize::MAX,
    ensures
        final(out)@ == old(out)@ + seq![upper_char(s@[i as int])],
{
    proof {
        reveal_strlit("A");
        reveal_strlit("B");
        reveal_strlit("C");
        reveal_strlit("D");
        reveal_strlit("E");
        reveal_strlit("F");
        reveal_strlit("G");
        reveal_strlit("H");
        reveal_strlit("I");
        reveal_strlit("J");
        reveal_strlit("K");
        reveal_strlit("L");
        reveal_strlit("M");
        reveal_strlit("N");
        reveal_strlit("O");
        reveal_strlit("P");
        reveal_strlit("Q");
        reveal_strlit("R");
        reveal_strlit("S");
        reveal_strlit("T");
        reveal_strlit("U");
        reveal_strlit("V");
        reveal_strlit("W");
        reveal_strlit("X");
        reveal_strlit("Y");
        reveal_strlit("Z");
    }
    let c = s.get_char(i);
    let up: &'static str = if c == 'a' {
        "A"
    } else if c == 'b' {
        "B"
    } else if c == 'c' {
        "C"
    } else if c == 'd' {
        "D"
    } else if c == 'e' {
        "E"
    } else if c == 'f' {
        "F"
    } else if c == 'g' {
        "G"
    } else if c == 'h' {
        "H"
    } else if c == 'i' {
        "I"
    } else if c == 'j' {
        "J"
    } else if c == 'k' {
        "K"
    } else if c == 'l' {
        "L"
    } else if c == 'm' {
        "M"
    } else if c == 'n' {
        "N"
    } else if c == 'o' {
        "O"
    } else if c == 'p' {
        "P"
    } else if c == 'q' {
        "Q"
    } else if c == 'r' {
        "R"
    } else if c == 's' {
        "S"
    } else if c == 't' {
        "T"
    } else if c == 'u' {
        "U"
    } else if c == 'v' {
        "V"
    } else if c == 'w' {
        "W"
    } else if c == 'x' {
        "X"
    } else if c == 'y' {
        "Y"
    } else if c == 'z' {
        "Z"
    } else {
        let piece = s.substring_char(i, i + 1);
        proof {
            assert(piece@ =~= seq![upper_char(s@[i as int])]);
        }
        out.append(piece);
        return ;
    };
    proof {
        assert(up@ =~= seq![upper_char(s@[i as int])]);
    }
    out.append(up);
}

/// Appends the lowercased form of the character `s@[i]` to `out`.
fn append_lower_at(out: &mut String, s: &str, i: usize)
    requires
        i < s@.len(),
        s@.len() <= usize::MAX,
    ensures
        final(out)@ == old(out)@ + seq![lower_char(s@[i as int])],
{
    proof {
        reveal_strlit("a");
        reveal_strlit("b");
        reveal_strlit("c");
        reveal_strlit("d");
        reveal_strlit("e");
        reveal_strlit("f");
        reveal_strlit("g");
        reveal_strlit("h");
        reveal_strlit("i");
        reveal_strlit("j");
        reveal_strlit("k");
        reveal_strlit("l");
        reveal_strlit("m");
        reveal_strlit("n");
        reveal_strlit("o");
        reveal_strlit("p");
        reveal_strlit("q");
        reveal_strlit("r");
        reveal_strlit("s");
        reveal_strlit("t");
        reveal_strlit("u");
        reveal_strlit("v");
        reveal_strlit("w");
        reveal_strlit("x");
        reveal_strlit("y");
        reveal_strlit("z");
    }
    let c = s.get_char(i);
    let low: &'static str = if c == 'A' {
        "a"
    } else if c == 'B' {
        "b"
    } else if c == 'C' {
        "c"
    } else if c == 'D' {
        "d"
    } else if c == 'E' {
        "e"
    } else if c == 'F' {
        "f"
    } else if c == 'G' {
        "g"
    } else if c == 'H' {
        "h"
    } else if c == 'I' {
        "i"
    } else if c == 'J' {
        "j"
    } else if c == 'K' {
        "k"
    } else if c == 'L' {
        "l"
    } else if c == 'M' {
        "m"
    } else if c == 'N' {
        "n"
    } else if c == 'O' {
        "o"
    } else if c == 'P' {
        "p"
    } else if c == 'Q' {
        "q"
    } else if c == 'R' {
        "r"
    } else if c == 'S' {
        "s"
    } else if c == 'T' {
        "t"
    } else if c == 'U' {
        "u"
    } else if c == 'V' {
        "v"
    } else if c == 'W' {
        "w"
    } else if c == 'X' {
        "x"
    } else if c == 'Y' {
        "y"
    } else if c == 'Z' {
        "z"
    } else {
        let piece = s.substring_char(i, i + 1);
        proof {
            assert(piece@ =~= seq![lower_char(s@[i as int])]);
        }
        out.append(piece);
        return ;
    };
    proof {
        assert(low@ =~= seq![lower_char(s@[i as int])]);
    }
    out.append(low);
}

/// Renders the capitalized-word form of `s`.
pub fn to_pascal(s: &str) -> (r: String)
    ensures
        r@ == pascal_of(s@),
{
    let len = s.unicode_len();
    let mut out = String::new();
    let mut cap = true;
    let mut i: usize = 0;
    proof {
        assert(s@.skip(0) =~= s@);
        assert(Seq::<char>::empty() + pascal_rest(s@, true) =~= pascal_rest(s@, true));
    }
    while i < len
        invariant
            i <= len,
            len == s@.len(),
            pascal_of(s@) == out@ + pascal_rest(s@.skip(i as int), cap),
        decreases len - i,
    {
        let ghost prev = out@;
        let ghost rest = s@.skip(i as int);
        proof {
            assert(rest.len() > 0);
            assert(rest[0] == s@[i as int]);
            assert(rest.skip(1) =~= s@.skip(i as int + 1));
        }
        let c = s.get_char(i);
        if c == '_' {
            cap = true;
        } else if cap {
            append_upper_at(&mut out, s, i);
            cap = false;
            proof {
                assert(prev + pascal_rest(rest, true) =~= out@ + pascal_rest(
                    s@.skip(i as int + 1),
                    false,
                ));
            }
        } else {
            let piece = s.substring_char(i, i + 1);
            out.append(piece);
            proof {
                assert(piece@ =~= seq![s@[i as int]]);
                assert(prev + pascal_rest(rest, false) =~= out@ + pascal_rest(
                    s@.skip(i as int + 1),
                    false,
                ));
            }
        }
        i = i + 1;
    }
    proof {
        assert(s@.skip(len as int) =~= Seq::<char>::empty());
        assert(out@ + pascal_rest(Seq::<char>::empty(), cap) =~= out@);
    }
    out
}

/// Renders the leading-lowercase form of `s`.
pub fn to_camel(s: &str) -> (r: String)
    ensures
        r@ == camel_of(s@),
{
    let len = s.unicode_len();
    if len == 0 {
        let r = String::new();
        proof {
            assert(r@ =~= camel_of(s@));
        }
        return r;
    }
    let mut out = String::new();
    append_lower_at(&mut out, s, 0);
    let tail = s.substring_char(1, len);
    out.append(tail);
    proof {
        assert(tail@ =~= s@.skip(1));
        assert(out@ =~= camel_of(s@));
    }
    out
}

/// Renders `s` with each literal `"Id"` substring rewritten to `"ID"`.
pub fn replace_id(s: &str) -> (r: String)
    ensures
        r@ == replace_id_of(s@),
{
    let len = s.unicode_len();
    let mut out = String::new();
    let mut i: usize = 0;
    proof {
        assert(s@.skip(0) =~= s@);
        assert(Seq::<char>::empty() + replace_id_of(s@) =~= replace_id_of(s@));
    }
    while i < len
        invariant
            i <= len,
            len == s@.len(),
            replace_id_of(s@) == out@ + replace_id_of(s@.skip(i as int)),
        decreases len - i,
    {
        let ghost prev = out@;
        let ghost rest = s@.skip(i as int);
        proof {
            assert(rest.len() == len - i);
            assert(rest[0] == s@[i as int]);
        }
        if i + 1 < len && s.get_char(i) == 'I' && s.get_char(i + 1) == 'd' {
            proof {
                reveal_strlit("ID");
                assert(rest[1] == s@[i as int + 1]);
                assert(rest.skip(2) =~= s@.skip(i as int + 2));
                assert("ID"@ =~= seq!['I', 'D']);
            }
            out.append("ID");
            proof {
                assert(prev + replace_id_of(rest) =~= out@ + replace_id_of(
                    s@.skip(i as int + 2),
                ));
            }
            i = i + 2;
        } else {
            let piece = s.substring_char(i, i + 1);
            out.append(piece);
            proof {
                assert(piece@ =~= seq![s@[i as int]]);
                if rest.len() >= 2 {
                    assert(rest[1] == s@[i as int + 1]);
                    assert(!(rest[0] == 'I' && rest[1] == 'd'));
                }
                assert(rest.skip(1) =~= s@.skip(i as int + 1));
                assert(prev + replace_id_of(rest) =~= out@ + replace_id_of(
                    s@.skip(i as int + 1),
                ));
            }
            i = i + 1;
        }
    }
    proof {
        assert(s@.skip(len as int) =~= Seq::<char>::empty());
        assert(out@ + replace_id_of(Seq::<char>::empty()) =~= out@);
    }
    out
}

/// Renders the generated type name for a raw table name.
pub fn to_type_name(s: &str) -> (r: String)
    ensures
        r@ == type_name_of(s@),
{
    let len = s.unicode_len();
    if len > 0 && s.get_char(len - 1) == 's' {
        let stem = s.substring_char(0, len - 1);
        proof {
            assert(stem@ =~= strip_plural(s@));
        }
        to_pascal(stem)
    } else {
        proof {
            assert(strip_plural(s@) == s@);
        }
        to_pascal(s)
    }
}

} // verus!
