use vstd::prelude::*;

verus! {

/// An ASCII byte that shows as itself: a visible character (0x21 to 0x7E),
/// the space, or one of the whitespace controls tab, line feed, form feed
/// and carriage return.
pub open spec fn is_printable(b: u8) -> bool {
    (0x21 <= b <= 0x7E) || b == 0x20 || b == 0x09 || b == 0x0A || b == 0x0C || b == 0x0D
}

/// How a byte of memory is shown as text: itself when printable, '.' otherwise.
pub open spec fn shown_as(b: u8) -> char {
    if is_printable(b) {
        b as char
    } else {
        '.'
    }
}

/// The character that stands for `b` in a text view of memory.
pub fn ascii_or_dot(b: u8) -> (r: char)
    ensures
        r == shown_as(b),
{
    if (0x21 <= b && b <= 0x7E) || b == 0x20 || b == 0x09 || b == 0x0A || b == 0x0C || b == 0x0D {
        b as char
    } else {
        '.'
    }
}

/// Each byte of `bytes` shown as text, in order.
pub fn bytes_to_ascii(bytes: &[u8]) -> (r: Vec<char>)
    ensures
        r@.len() == bytes@.len(),
        forall|i: int| 0 <= i < bytes@.len() ==> r@[i] == shown_as(#[trigger] bytes@[i]),
{
    let mut out: Vec<char> = Vec::new();
    let mut k: usize = 0;
    while k < bytes.len()
        invariant
            k <= bytes@.len(),
            out@.len() == k,
            forall|i: int| 0 <= i < k ==> out@[i] == shown_as(#[trigger] bytes@[i]),
        decreases bytes@.len() - k,
    {
        out.push(ascii_or_dot(bytes[k]));
        k = k + 1;
    }
    out
}

} // verus!
