use vstd::prelude::*;

verus! {

/// How the four logical nametables map onto the console's two physical ones.
#[derive(Debug, Clone, Copy, PartialEq, Eq, Structural)]
pub enum CartridgeMirroring {
    Horizontal,
    Vertical,
    SingleScreen,
    FourScreen,
}

/// What a mapper does with an access: it handles it itself (with this result),
/// or lets it through to the console's own bus.
#[derive(Debug, Clone, Copy, PartialEq, Eq, Structural)]
pub enum InterceptorResult<T> {
    Intercepted(T),
    NotIntercepted,
}

/// The byte at index `i` of `v`, or `None` outside it (open bus).
pub open spec fn byte_at(v: Seq<u8>, i: int) -> Option<u8> {
    if 0 <= i < v.len() {
        Some(v[i])
    } else {
        None
    }
}

/// `v` with the byte at index `i` replaced by `b`; unchanged outside it.
pub open spec fn store_at(v: Seq<u8>, i: int, b: u8) -> Seq<u8> {
    if 0 <= i < v.len() {
        v.update(i, b)
    } else {
        v
    }
}

/// The byte at index `i` of `v`, if there is one.
pub fn get_byte(v: &Vec<u8>, i: usize) -> (r: Option<u8>)
    ensures
        r == byte_at(v@, i as int),
{
    if i < v.len() {
        Some(v[i])
    } else {
        None
    }
}

/// Stores `b` at index `i` of `v`, if there is one.
pub fn set_byte(v: &mut Vec<u8>, i: usize, b: u8)
    ensures
        final(v)@ == store_at(old(v)@, i as int, b),
{
    if i < v.len() {
        v.set(i, b);
    }
}

/// A buffer of `size` bytes filled with as many whole copies of `data` as fit,
/// the rest zero.
pub open spec fn tile_spec(data: Seq<u8>, size: nat) -> Seq<u8> {
    Seq::new(
        size,
        |i: int|
            if data.len() > 0 && i < (size / data.len()) * data.len() {
                data[i % (data.len() as int)]
            } else {
                0u8
            },
    )
}

/// Fills a buffer of `size` bytes with whole copies of `data`.
pub fn tile(data: &Vec<u8>, size: usize) -> (r: Vec<u8>)
    ensures
        r@ == tile_spec(data@, size as nat),
{
    let len = data.len();
    let full: usize = if len == 0 {
        0
    } else {
        proof {
            vstd::arithmetic::div_mod::lemma_mod_decreases(size as nat, len as nat);
        }
        size - size % len
    };
    proof {
        if len > 0 {
            vstd::arithmetic::div_mod::lemma_fundamental_div_mod(size as int, len as int);
        }
    }
    let mut out: Vec<u8> = Vec::new();
    let mut i: usize = 0;
    while i < size
        invariant
            i <= size,
            full <= size,
            len == data@.len(),
            full == (if len == 0 {
                0
            } else {
                (size / len) * len
            }),
            out@.len() == i,
            forall|j: int| 0 <= j < i ==> out@[j] == tile_spec(data@, size as nat)[j],
        decreases size - i,
    {
        let b = if i < full {
            data[i % len]
        } else {
            0
        };
        out.push(b);
        i = i + 1;
    }
    assert(out@ =~= tile_spec(data@, size as nat));
    out
}

} // verus!
