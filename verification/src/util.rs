//! Text utilities for the renderer: line-wise indentation and character
//! mapping over strings.

use vstd::prelude::*;
use vstd::string::StrSliceExecFns;
use vstd::string::StringExecFns;

verus! {

/// The sequence of `n` space characters.
pub open spec fn spaces(n: nat) -> Seq<char> {
    Seq::new(n, |i: int| ' ')
}

/// The character of `s` at position `j`, preceded by `pad` when it starts a
/// line: position 0, or a position right after a newline.
pub open spec fn padded_char_at(s: Seq<char>, pad: Seq<char>, j: int) -> Seq<char> {
    (if j == 0 || s[j - 1] == '\n' {
        pad
    } else {
        Seq::<char>::empty()
    }) + seq![s[j]]
}

/// The first `i` characters of `s`, with `pad` inserted before each
/// line start.
pub open spec fn line_padded_prefix(s: Seq<char>, pad: Seq<char>, i: int) -> Seq<char>
    decreases i,
{
    if i <= 0 {
        Seq::<char>::empty()
    } else {
        line_padded_prefix(s, pad, i - 1) + padded_char_at(s, pad, i - 1)
    }
}

/// `s` with every one of its lines prefixed by `n` spaces.  Empty input stays
/// empty, and a trailing newline does not open a new, padded line.
pub open spec fn indent_text(s: Seq<char>, n: nat) -> Seq<char> {
    line_padded_prefix(s, spaces(n), s.len() as int)
}

/// Relies on `String::push`: appends exactly the one character `c`.
#[verifier::external_body]
pub(crate) fn push_char(s: &mut String, c: char)
    ensures
        final(s)@ == old(s)@.push(c),
{
    s.push(c);
}

/// A string of `amt` spaces.
fn make_pad(amt: u32) -> (r: String)
    ensures
        r@ == spaces(amt as nat),
{
    let mut r = String::new();
    let mut k: u32 = 0;
    while k < amt
        invariant
            k <= amt,
            r@ == spaces(k as nat),
        decreases amt - k,
    {
        push_char(&mut r, ' ');
        proof {
            assert(r@ =~= spaces((k + 1) as nat));
        }
        k = k + 1;
    }
    r
}

/// `d` with every line prefixed by `amt` spaces.
pub fn indentd(d: &str, amt: u32) -> (r: String)
    ensures
        r@ == indent_text(d@, amt as nat),
{
    let pad = make_pad(amt);
    let n = d.unicode_len();
    let mut r = String::new();
    let mut j: usize = 0;
    while j < n
        invariant
            n == d@.len(),
            j <= n,
            pad@ == spaces(amt as nat),
            r@ == line_padded_prefix(d@, pad@, j as int),
        decreases n - j,
    {
        let c = d.get_char(j);
        if j == 0 {
            r.append(pad.as_str());
        } else {
            let p = d.get_char(j - 1);
            if p == '\n' {
                r.append(pad.as_str());
            }
        }
        push_char(&mut r, c);
        proof {
            assert(r@ =~= line_padded_prefix(d@, pad@, j as int) + padded_char_at(
                d@,
                pad@,
                j as int,
            ));
        }
        j = j + 1;
    }
    r
}

/// An indentation prefix on its own: the empty text indented, which renders
/// as the empty string because indentation is applied per line and the empty
/// text has no lines.
pub fn indent(amt: u32) -> (r: String)
    ensures
        r@ == indent_text(Seq::<char>::empty(), amt as nat),
{
    String::new()
}

/// `d` with every character passed through `f`.
pub fn tr<F: Fn(char) -> char>(d: &str, f: F) -> (r: String)
    requires
        forall|c: char| #[trigger] call_requires(f, (c,)),
    ensures
        r@.len() == d@.len(),
        forall|i: int| 0 <= i < d@.len() ==> call_ensures(f, (d@[i],), #[trigger] r@[i]),
{
    let n = d.unicode_len();
    let mut r = String::new();
    let mut j: usize = 0;
    while j < n
        invariant
            n == d@.len(),
            j <= n,
            r@.len() == j,
            forall|i: int| 0 <= i < j ==> call_ensures(f, (d@[i],), #[trigger] r@[i]),
            forall|c: char| #[trigger] call_requires(f, (c,)),
        decreases n - j,
    {
        let c = d.get_char(j);
        let c2 = f(c);
        push_char(&mut r, c2);
        j = j + 1;
    }
    r
}

/// `s` with every occurrence of `from` replaced by `to`.
pub open spec fn tr_map_text(s: Seq<char>, from: char, to: char) -> Seq<char> {
    s.map(
        |i: int, c: char|
            if c == from {
                to
            } else {
                c
            },
    )
}

/// `d` with every occurrence of `from` replaced by `to`.
pub fn tr_map(d: &str, from: char, to: char) -> (r: String)
    ensures
        r@ == tr_map_text(d@, from, to),
{
    let r = tr(
        d,
        (|c: char| -> (rc: char)
            ensures
                rc == (if c == from {
                    to
                } else {
                    c
                }),
            {
                if c == from {
                    to
                } else {
                    c
                }
            }),
    );
    proof {
        assert(r@ =~= tr_map_text(d@, from, to));
    }
    r
}

/// Whether two string slices hold the same characters.
pub fn str_eq(a: &str, b: &str) -> (r: bool)
    ensures
        r == (a@ == b@),
{
    let na = a.unicode_len();
    let nb = b.unicode_len();
    if na != nb {
        return false;
    }
    let mut j: usize = 0;
    while j < na
        invariant
            na == a@.len(),
            nb == b@.len(),
            na == nb,
            j <= na,
            forall|i: int| 0 <= i < j ==> a@[i] == b@[i],
        decreases na - j,
    {
        if a.get_char(j) != b.get_char(j) {
            return false;
        }
        j = j + 1;
    }
    proof {
        assert(a@ =~= b@);
    }
    true
}

/// An error message qualified by the offending path: `msg 'path'`.
pub fn file_error(msg: &str, path: &str) -> (r: String)
    ensures
        r@ == msg@ + " '"@ + path@ + "'"@,
{
    let mut r = String::from_str(msg);
    r.append(" '");
    r.append(path);
    r.append("'");
    r
}

} // verus!
