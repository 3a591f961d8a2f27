//! Strings for string descriptors: UTF-16, as the bus wants them.

use super::types::{SetupResult, SetupResultView};
use vstd::prelude::*;
use vstd::string::StringSliceAdditionalSpecFns;

verus! {

/// The iterator over the characters of a string that `konst::string::chars`
/// returns.
#[verifier::external_type_specification]
#[verifier::external_body]
pub struct ExChars<'a>(konst::string::Chars<'a>);

/// The characters that an iterator has yet to hand out, in their order.
pub uninterp spec fn chars_left(iter: konst::string::Chars<'_>) -> Seq<char>;

/// `konst::string::chars` is the equivalent of `str::chars`: the iterator
/// that it returns has all characters of the string to hand out.
pub assume_specification[ konst::string::chars ](string: &str) -> (iter: konst::string::Chars<'_>)
    ensures
        chars_left(iter) == string@,
;

/// `konst::string::Chars::next` hands out the first of the characters that
/// are left and keeps the rest; where none is left it returns `None` and
/// changes nothing.
pub assume_specification<'a>[ konst::string::Chars::<'a>::next ](
    iter: &mut konst::string::Chars<'a>,
) -> (c: Option<char>)
    ensures
        chars_left(*old(iter)).len() == 0 ==> c is None && chars_left(*final(iter)) == chars_left(
            *old(iter),
        ),
        chars_left(*old(iter)).len() > 0 ==> c == Some(chars_left(*old(iter))[0]) && chars_left(
            *final(iter),
        ) == chars_left(*old(iter)).drop_first(),
;

/// A character is a number of at most 21 bits.
pub proof fn lemma_char_code(c: char)
    ensures
        c as u32 == c as int,
        0 <= c as int <= 0x10ffff,
{
}

/// The UTF-16 code units of one character: itself where it fits in 16 bits,
/// else a high and a low surrogate that carry ten bits each of what is above
/// 0x10000.
pub open spec fn utf16_of_char(c: char) -> Seq<u16> {
    if (c as u32) < 0x10000 {
        seq![c as u16]
    } else {
        seq![
            (0xd800 + ((c as u32) - 0x10000) / 0x400) as u16,
            (0xdc00 + ((c as u32) - 0x10000) % 0x400) as u16,
        ]
    }
}

/// The UTF-16 code units of a string.
pub open spec fn utf16(s: Seq<char>) -> Seq<u16>
    decreases s.len(),
{
    if s.len() == 0 {
        Seq::empty()
    } else {
        utf16_of_char(s[0]) + utf16(s.drop_first())
    }
}

/// The code units of a string are those of what comes before its last
/// character, and then those of that character.
pub proof fn lemma_utf16_push(s: Seq<char>, c: char)
    ensures
        utf16(s.push(c)) == utf16(s) + utf16_of_char(c),
    decreases s.len(),
{
    if s.len() == 0 {
        assert(s.push(c).drop_first() =~= Seq::<char>::empty());
        assert(utf16(s.push(c)) =~= utf16_of_char(c) + utf16(Seq::<char>::empty()));
        assert(utf16(s.push(c)) =~= utf16(s) + utf16_of_char(c));
    } else {
        assert(s.push(c).drop_first() =~= s.drop_first().push(c));
        lemma_utf16_push(s.drop_first(), c);
        assert(utf16(s.push(c)) =~= utf16(s) + utf16_of_char(c));
    }
}

/// A string takes no more code units in UTF-16 than it takes bytes in
/// UTF-8.
pub proof fn lemma_utf16_len(s: Seq<char>)
    ensures
        utf16(s).len() <= vstd::utf8::encode_utf8(s).len(),
    decreases s.len(),
{
    if s.len() > 0 {
        lemma_char_code(s[0]);
        lemma_utf16_len(s.drop_first());
        assert(utf16_of_char(s[0]).len() <= vstd::utf8::encode_scalar(s[0] as u32).len());
    }
}

/// The number of UTF-16 code units that a string takes.
pub fn str_utf16_count(s: &str) -> (n: usize)
    ensures
        n == utf16(s@).len(),
{
    let limit = s.as_bytes().len();
    let mut i = konst::string::chars(s);
    let mut n: usize = 0;
    let ghost mut done: Seq<char> = Seq::empty();
    proof {
        lemma_utf16_len(s@);
        assert(done + chars_left(i) =~= s@);
    }
    loop
        invariant
            done + chars_left(i) == s@,
            n == utf16(done).len(),
            utf16(s@).len() <= limit,
        ensures
            n == utf16(s@).len(),
        decreases chars_left(i).len(),
    {
        let ghost left = chars_left(i);
        match i.next() {
            Some(c) => {
                proof {
                    lemma_char_code(c);
                    lemma_utf16_push(done, c);
                    assert(done.push(c) + left.drop_first() =~= done + left);
                    lemma_utf16_prefix(done.push(c), left.drop_first());
                    done = done.push(c);
                }
                n += if (c as u32) < 0x10000 {
                    1
                } else {
                    2
                };
            },
            None => {
                assert(done =~= s@);
                break ;
            },
        }
    }
    n
}

/// The code units of a string start with those of each of its beginnings.
pub proof fn lemma_utf16_prefix(a: Seq<char>, b: Seq<char>)
    ensures
        utf16(a + b) == utf16(a) + utf16(b),
    decreases b.len(),
{
    if b.len() == 0 {
        assert(a + b =~= a);
        assert(utf16(a) + utf16(b) =~= utf16(a));
    } else {
        let c = b[0];
        assert(a + b =~= a.push(c) + b.drop_first());
        lemma_utf16_prefix(a.push(c), b.drop_first());
        lemma_utf16_push(a, c);
        assert(utf16(b) =~= utf16_of_char(c) + utf16(b.drop_first()));
        assert(utf16(a + b) =~= utf16(a) + utf16(b));
    }
}

/// Writes the UTF-16 code units of `s` to the start of `u`, and leaves the
/// rest of `u` as it is.
pub fn str_to_utf16_inplace(u: &mut [u16], s: &str)
    requires
        utf16(s@).len() <= old(u)@.len(),
    ensures
        final(u)@ == utf16(s@) + old(u)@.skip(utf16(s@).len() as int),
{
    let mut i: usize = 0;
    let mut j = konst::string::chars(s);
    let ghost mut done: Seq<char> = Seq::empty();
    assert(done + chars_left(j) =~= s@);
    assert(u@ =~= utf16(done) + old(u)@.skip(0));
    loop
        invariant
            done + chars_left(j) == s@,
            i == utf16(done).len(),
            u@.len() == old(u)@.len(),
            utf16(s@).len() <= u@.len(),
            u@ == utf16(done) + old(u)@.skip(i as int),
        ensures
            u@ == utf16(s@) + old(u)@.skip(utf16(s@).len() as int),
        decreases chars_left(j).len(),
    {
        let ghost left = chars_left(j);
        let ghost before = u@;
        match j.next() {
            Some(c) => {
                proof {
                    lemma_utf16_push(done, c);
                    assert(done.push(c) + left.drop_first() =~= done + left);
                    lemma_utf16_prefix(done.push(c), left.drop_first());
                }
                let ghost start = i as int;
                let ghost units = utf16_of_char(c);
                assert(start + units.len() <= u@.len()) by {
                    assert(utf16(s@).len() == utf16(done.push(c)).len() + utf16(
                        left.drop_first(),
                    ).len());
                }
                proof {
                    lemma_char_code(c);
                }
                let v: u32 = c as u32;
                if v < 0x10000 {
                    u[i] = v as u16;
                    assert(units[0] == v as u16);
                    assert(u@ =~= before.update(start, units[0]));
                } else {
                    let excess: u32 = v - 0x10000;
                    assert(excess >> 10 & 0x3ff == excess / 0x400 % 0x400 && excess & 0x3ff
                        == excess % 0x400) by (bit_vector);
                    u[i] = (excess >> 10 & 0x3ff) as u16 + 0xd800;
                    i += 1;
                    u[i] = (excess & 0x3ff) as u16 + 0xdc00;
                    assert(units[0] == 0xd800 + excess / 0x400);
                    assert(units[1] == 0xdc00 + excess % 0x400);
                    assert(u@ =~= before.update(start, units[0]).update(start + 1, units[1]));
                }
                i += 1;
                proof {
                    done = done.push(c);
                    assert(i == start + units.len());
                    assert(utf16(done) =~= before.subrange(0, start) + units);
                    assert forall|k: int| 0 <= k < u@.len() implies u@[k] == (utf16(done) + old(
                        u,
                    )@.skip(i as int))[k] by {
                        if k < start {
                            assert(u@[k] == before[k]);
                        } else if k < i {
                            assert(u@[k] == units[k - start]);
                        } else {
                            assert(u@[k] == before[k]);
                            assert(before[k] == old(u)@.skip(start)[k - start]);
                        }
                    }
                    assert(u@ =~= utf16(done) + old(u)@.skip(i as int));
                }
            },
            None => {
                assert(done =~= s@);
                break ;
            },
        }
    }
}

/// The most UTF-16 code units that a string descriptor holds: its length in
/// bytes has to fit in one byte.
pub const STRING_DESC_MAX: usize = 126;

/// Low byte first, the bytes of 16-bit words.
pub open spec fn le_bytes(words: Seq<u16>) -> Seq<u8> {
    Seq::new(2 * words.len(), |i: int| if i % 2 == 0 {
        (words[i / 2] % 256) as u8
    } else {
        (words[i / 2] / 256) as u8
    })
}

/// The string descriptor for a string: its length in bytes, the descriptor
/// type 3, and the UTF-16 code units of the string, low byte first.
pub open spec fn string_desc(s: Seq<char>) -> Seq<u8> {
    seq![(2 * utf16(s).len() + 2) as u8, 3u8] + le_bytes(utf16(s))
}

/// Makes the string descriptor for `s`; `None` where `s` is too long for
/// one.
pub fn string_descriptor(s: &str) -> (d: Option<Vec<u8>>)
    ensures
        utf16(s@).len() <= STRING_DESC_MAX ==> (d matches Some(v) && v@ == string_desc(s@)),
        utf16(s@).len() > STRING_DESC_MAX ==> d is None,
{
    let n = str_utf16_count(s);
    if n > STRING_DESC_MAX {
        return None;
    }
    let mut units: Vec<u16> = Vec::new();
    let mut k: usize = 0;
    while k < n
        invariant
            k <= n,
            units@.len() == k,
            forall|i: int| 0 <= i < k ==> units@[i] == 0,
        decreases n - k,
    {
        units.push(0);
        k += 1;
    }
    assert(units@.skip(n as int) =~= Seq::<u16>::empty());
    str_to_utf16_inplace(units.as_mut_slice(), s);
    assert(units@ =~= utf16(s@));

    let mut d: Vec<u8> = Vec::new();
    d.push((2 * n + 2) as u8);
    d.push(3);
    let mut k: usize = 0;
    while k < n
        invariant
            k <= n,
            n == units@.len(),
            n <= STRING_DESC_MAX,
            units@ == utf16(s@),
            d@.len() == 2 + 2 * k,
            d@[0] == (2 * n + 2) as u8,
            d@[1] == 3,
            forall|i: int| 0 <= i < 2 * k ==> d@[2 + i] == le_bytes(units@)[i],
        decreases n - k,
    {
        let u = units[k];
        d.push((u % 256) as u8);
        d.push((u / 256) as u8);
        k += 1;
    }
    assert(d@ =~= string_desc(s@));
    Some(d)
}

/// The answer to a request for the string descriptor with index `idx`, out
/// of the descriptors of a device in the order of their indices: that
/// descriptor to send, or the error value for an index that there is no
/// descriptor for.
pub fn get_descriptor(descriptors: &[&'static [u8]], idx: u8) -> (r: SetupResult)
    ensures
        idx < descriptors@.len() ==> r@ == SetupResultView::Tx(descriptors@[idx as int]@, None),
        idx >= descriptors@.len() ==> r@ == SetupResultView::error(),
{
    if idx as usize >= descriptors.len() {
        return SetupResult::error();
    }
    SetupResult::tx_data(descriptors[idx as usize])
}

/// Whether two strings are the same.
pub fn str_eq(a: &str, b: &str) -> (same: bool)
    ensures
        same == (a@ == b@),
{
    let x = a.as_bytes();
    let y = b.as_bytes();
    proof {
        vstd::utf8::encode_utf8_decode_utf8(a@);
        vstd::utf8::encode_utf8_decode_utf8(b@);
    }
    if x.len() != y.len() {
        return false;
    }
    let mut i: usize = 0;
    while i < x.len()
        invariant
            i <= x@.len(),
            x@.len() == y@.len(),
            x@ == a.spec_bytes(),
            y@ == b.spec_bytes(),
            forall|j: int| 0 <= j < i ==> x@[j] == y@[j],
        decreases x@.len() - i,
    {
        if x[i] != y[i] {
            return false;
        }
        i += 1;
    }
    assert(x@ =~= y@);
    true
}

/// The index of the string `s` in `strings`: that of its first place there,
/// or `None` where it is not among them, or not among the first 256.
pub fn string_index(strings: &[&str], s: &str) -> (idx: Option<u8>)
    ensures
        match idx {
            Some(i) => i < strings@.len() && strings@[i as int]@ == s@ && forall|j: int|
                0 <= j < i ==> strings@[j]@ != s@,
            None => forall|j: int| 0 <= j < strings@.len() && j < 256 ==> strings@[j]@ != s@,
        },
{
    let mut i: usize = 0;
    while i < strings.len() && i < 256
        invariant
            i <= strings@.len(),
            i <= 256,
            forall|j: int| 0 <= j < i ==> strings@[j]@ != s@,
        decreases strings@.len() - i,
    {
        if str_eq(strings[i], s) {
            return Some(i as u8);
        }
        i += 1;
    }
    None
}

} // verus!
