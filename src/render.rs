//! Rendering a binding as Rust source: a module with the program bytes and
//! the identifier as constants, for a build step that writes it to a file.

use vstd::prelude::*;
use vstd::string::StringExecFns;
use crate::binding::GeneratedBinding;

verus! {

/// The lower-case hexadecimal digit of `n`, for `n < 16`.
pub open spec fn hex_digit(n: int) -> Seq<char> {
    if n == 0 { "0"@ } else if n == 1 { "1"@ } else if n == 2 { "2"@ } else if n == 3 { "3"@ }
    else if n == 4 { "4"@ } else if n == 5 { "5"@ } else if n == 6 { "6"@ } else if n == 7 { "7"@ }
    else if n == 8 { "8"@ } else if n == 9 { "9"@ } else if n == 10 { "a"@ } else if n == 11 { "b"@ }
    else if n == 12 { "c"@ } else if n == 13 { "d"@ } else if n == 14 { "e"@ } else { "f"@ }
}

/// The hexadecimal digit of weight `16^k` of `x`.
pub open spec fn nibble(x: int, k: nat) -> int
    decreases k,
{
    if k == 0 {
        x % 16
    } else {
        nibble(x / 16, (k - 1) as nat)
    }
}

/// A byte as a literal: `0x` and two digits.
pub open spec fn byte_literal(b: u8) -> Seq<char> {
    "0x"@ + hex_digit(nibble(b as int, 1)) + hex_digit(nibble(b as int, 0))
}

/// A word as a literal: `0x` and eight digits.
pub open spec fn word_literal(w: u32) -> Seq<char> {
    "0x"@ + hex_digit(nibble(w as int, 7)) + hex_digit(nibble(w as int, 6)) + hex_digit(
        nibble(w as int, 5),
    ) + hex_digit(nibble(w as int, 4)) + hex_digit(nibble(w as int, 3)) + hex_digit(
        nibble(w as int, 2),
    ) + hex_digit(nibble(w as int, 1)) + hex_digit(nibble(w as int, 0))
}

/// The bytes as array elements, each followed by `, `.
pub open spec fn byte_elements(s: Seq<u8>) -> Seq<char>
    decreases s.len(),
{
    if s.len() == 0 {
        Seq::empty()
    } else {
        byte_elements(s.drop_last()) + byte_literal(s.last()) + ", "@
    }
}

/// The words as array elements, each followed by `, `.
pub open spec fn word_elements(s: Seq<u32>) -> Seq<char>
    decreases s.len(),
{
    if s.len() == 0 {
        Seq::empty()
    } else {
        word_elements(s.drop_last()) + word_literal(s.last()) + ", "@
    }
}

/// The module that exposes a binding: `ELF` holds the bytes verbatim and `ID`
/// the identifier.
pub open spec fn module_source(name: Seq<char>, bytes: Seq<u8>, id: Seq<u32>) -> Seq<char> {
    "pub mod "@ + name + " {\n    pub const ELF: &[u8] = &["@ + byte_elements(bytes)
        + "];\n    pub const ID: [u32; 8] = ["@ + word_elements(id) + "];\n}\n"@
}

fn hex_digit_str(n: u32) -> (r: &'static str)
    requires
        n < 16,
    ensures
        r@ == hex_digit(n as int),
{
    if n == 0 { "0" } else if n == 1 { "1" } else if n == 2 { "2" } else if n == 3 { "3" }
    else if n == 4 { "4" } else if n == 5 { "5" } else if n == 6 { "6" } else if n == 7 { "7" }
    else if n == 8 { "8" } else if n == 9 { "9" } else if n == 10 { "a" } else if n == 11 { "b" }
    else if n == 12 { "c" } else if n == 13 { "d" } else if n == 14 { "e" } else { "f" }
}

fn nibble_of(x: u32, k: u32) -> (r: u32)
    ensures
        r as int == nibble(x as int, k as nat),
        r < 16,
{
    let mut y: u32 = x;
    let mut i: u32 = 0;
    while i < k
        invariant
            i <= k,
            nibble(y as int, (k - i) as nat) == nibble(x as int, k as nat),
        decreases k - i,
    {
        y = y / 16;
        i = i + 1;
    }
    y % 16
}

fn append_digit(out: &mut String, x: u32, k: u32)
    ensures
        final(out)@ == old(out)@ + hex_digit(nibble(x as int, k as nat)),
{
    let d = nibble_of(x, k);
    out.append(hex_digit_str(d));
}

fn append_byte(out: &mut String, b: u8)
    ensures
        final(out)@ == old(out)@ + byte_literal(b),
{
    out.append("0x");
    append_digit(out, b as u32, 1);
    append_digit(out, b as u32, 0);
    assert(final(out)@ =~= old(out)@ + byte_literal(b));
}

fn append_word(out: &mut String, w: u32)
    ensures
        final(out)@ == old(out)@ + word_literal(w),
{
    out.append("0x");
    append_digit(out, w, 7);
    append_digit(out, w, 6);
    append_digit(out, w, 5);
    append_digit(out, w, 4);
    append_digit(out, w, 3);
    append_digit(out, w, 2);
    append_digit(out, w, 1);
    append_digit(out, w, 0);
    assert(final(out)@ =~= old(out)@ + word_literal(w));
}

/// The Rust source of a module named `name` that holds `bytes` as `ELF` and
/// `id` as `ID`.
pub fn render_module(name: &str, bytes: &[u8], id: [u32; 8]) -> (r: String)
    ensures
        r@ == module_source(name@, bytes@, id@),
{
    let mut out = String::from_str("pub mod ");
    out.append(name);
    out.append(" {\n    pub const ELF: &[u8] = &[");
    let ghost head = out@;
    let mut i: usize = 0;
    while i < bytes.len()
        invariant
            i <= bytes@.len(),
            out@ == head + byte_elements(bytes@.take(i as int)),
        decreases bytes@.len() - i,
    {
        append_byte(&mut out, bytes[i]);
        out.append(", ");
        assert(bytes@.take(i + 1).drop_last() =~= bytes@.take(i as int));
        i = i + 1;
    }
    assert(bytes@.take(bytes@.len() as int) =~= bytes@);
    out.append("];\n    pub const ID: [u32; 8] = [");
    let ghost middle = out@;
    let mut j: usize = 0;
    while j < 8
        invariant
            j <= 8,
            id@.len() == 8,
            out@ == middle + word_elements(id@.take(j as int)),
        decreases 8 - j,
    {
        append_word(&mut out, id[j]);
        out.append(", ");
        assert(id@.take(j + 1).drop_last() =~= id@.take(j as int));
        j = j + 1;
    }
    assert(id@.take(8) =~= id@);
    out.append("];\n}\n");
    assert(out@ =~= module_source(name@, bytes@, id@));
    out
}

impl GeneratedBinding {
    /// The Rust source of the module that exposes this binding.
    pub fn to_source(&self) -> (r: String)
        ensures
            r@ == module_source(self@.name, self@.bytes, self@.id),
    {
        render_module(self.name().as_str(), self.bytes().as_slice(), self.id())
    }
}

} // verus!
