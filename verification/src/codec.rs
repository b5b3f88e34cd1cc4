//! Conversions between symbols or addresses and their bytes.
//!
//! A symbol's text is at most `SYMBOL_CAPACITY` symbol characters; an
//! address key is exactly `ADDRESS_LEN` non-zero bytes.  Both are packed
//! big-endian into 64-bit words, zero padded.
use vstd::prelude::*;
use crate::symbol::{
    canonical, is_key_char, is_symbol_char, text_len, word_byte, word_bytes, words_bytes, Address, Symbol,
    ADDRESS_LEN, SYMBOL_CAPACITY,
};

verus! {

/// Byte `i` of `b`, zero past its end.
pub open spec fn padded_byte(b: Seq<u8>, i: int) -> u8 {
    if 0 <= i < b.len() {
        b[i]
    } else {
        0
    }
}

/// The big-endian word of eight bytes.
pub open spec fn pack8(b0: u8, b1: u8, b2: u8, b3: u8, b4: u8, b5: u8, b6: u8, b7: u8) -> u64 {
    ((b0 as u64) << 56u64) | ((b1 as u64) << 48u64) | ((b2 as u64) << 40u64) | ((b3 as u64) << 32u64)
        | ((b4 as u64) << 24u64) | ((b5 as u64) << 16u64) | ((b6 as u64) << 8u64) | (b7 as u64)
}

/// Word `k` of the zero-padded bytes `b`: bytes `8k .. 8k + 8`.
pub open spec fn pack_word(b: Seq<u8>, k: int) -> u64 {
    pack8(
        padded_byte(b, 8 * k),
        padded_byte(b, 8 * k + 1),
        padded_byte(b, 8 * k + 2),
        padded_byte(b, 8 * k + 3),
        padded_byte(b, 8 * k + 4),
        padded_byte(b, 8 * k + 5),
        padded_byte(b, 8 * k + 6),
        padded_byte(b, 8 * k + 7),
    )
}

/// A valid symbol text: at most `SYMBOL_CAPACITY` symbol characters.
pub open spec fn valid_symbol_text(b: Seq<u8>) -> bool {
    &&& b.len() <= SYMBOL_CAPACITY
    &&& forall|i: int| 0 <= i < b.len() ==> is_symbol_char(#[trigger] b[i])
}

/// A valid address key: exactly `ADDRESS_LEN` non-zero bytes.
pub open spec fn valid_address_key(b: Seq<u8>) -> bool {
    &&& b.len() == ADDRESS_LEN
    &&& forall|i: int| 0 <= i < b.len() ==> is_key_char(#[trigger] b[i])
}

/// The bytes of a packed word are the packed bytes.
proof fn lemma_pack8_bytes(b0: u8, b1: u8, b2: u8, b3: u8, b4: u8, b5: u8, b6: u8, b7: u8)
    ensures
        word_bytes(pack8(b0, b1, b2, b3, b4, b5, b6, b7)) == seq![b0, b1, b2, b3, b4, b5, b6, b7],
{
    let w = pack8(b0, b1, b2, b3, b4, b5, b6, b7);
    assert({
        &&& ((w >> 56u64) & 0xff) as u8 == b0
        &&& ((w >> 48u64) & 0xff) as u8 == b1
        &&& ((w >> 40u64) & 0xff) as u8 == b2
        &&& ((w >> 32u64) & 0xff) as u8 == b3
        &&& ((w >> 24u64) & 0xff) as u8 == b4
        &&& ((w >> 16u64) & 0xff) as u8 == b5
        &&& ((w >> 8u64) & 0xff) as u8 == b6
        &&& ((w >> 0u64) & 0xff) as u8 == b7
    }) by (bit_vector)
        requires
            w == ((b0 as u64) << 56u64) | ((b1 as u64) << 48u64) | ((b2 as u64) << 40u64) | ((b3 as u64)
                << 32u64) | ((b4 as u64) << 24u64) | ((b5 as u64) << 16u64) | ((b6 as u64) << 8u64) | (b7 as u64),
    ;
    assert(word_bytes(w) =~= seq![b0, b1, b2, b3, b4, b5, b6, b7]);
}

/// Packing the bytes of a word gives the word back.
proof fn lemma_unpack8(w: u64)
    ensures
        pack8(
            word_byte(w, 0),
            word_byte(w, 1),
            word_byte(w, 2),
            word_byte(w, 3),
            word_byte(w, 4),
            word_byte(w, 5),
            word_byte(w, 6),
            word_byte(w, 7),
        ) == w,
{
    assert(((((w >> 56u64) & 0xff) as u8) as u64) << 56u64 | ((((w >> 48u64) & 0xff) as u8) as u64) << 48u64
        | ((((w >> 40u64) & 0xff) as u8) as u64) << 40u64 | ((((w >> 32u64) & 0xff) as u8) as u64) << 32u64
        | ((((w >> 24u64) & 0xff) as u8) as u64) << 24u64 | ((((w >> 16u64) & 0xff) as u8) as u64) << 16u64
        | ((((w >> 8u64) & 0xff) as u8) as u64) << 8u64 | ((((w >> 0u64) & 0xff) as u8) as u64) == w)
        by (bit_vector);
}

/// Bytes of a sequence of words that starts with `w`.
proof fn lemma_words_bytes_cons(w: u64, rest: Seq<u64>)
    ensures
        words_bytes(seq![w] + rest) == word_bytes(w) + words_bytes(rest),
{
    let ws = seq![w] + rest;
    assert(ws[0] == w);
    assert(ws.drop_first() =~= rest);
}

/// Length and bytes of the raw bytes of a sequence of words.
proof fn lemma_words_bytes_index(ws: Seq<u64>)
    ensures
        words_bytes(ws).len() == 8 * ws.len(),
        forall|i: int| 0 <= i < 8 * ws.len() ==> #[trigger] words_bytes(ws)[i] == word_byte(ws[i / 8], i % 8),
    decreases ws.len(),
{
    if ws.len() > 0 {
        lemma_words_bytes_index(ws.drop_first());
        let r = words_bytes(ws);
        assert forall|i: int| 0 <= i < 8 * ws.len() implies #[trigger] r[i] == word_byte(ws[i / 8], i % 8) by {
            if i >= 8 {
                assert(r[i] == words_bytes(ws.drop_first())[i - 8]);
                assert((i - 8) / 8 == i / 8 - 1);
                assert((i - 8) % 8 == i % 8);
            }
        }
    }
}

/// The text length of bytes whose first `n` bytes are non-zero, followed
/// by a zero byte or the end, is `n`.
proof fn lemma_text_len_is(raw: Seq<u8>, n: int)
    requires
        0 <= n <= raw.len(),
        forall|i: int| 0 <= i < n ==> #[trigger] raw[i] != 0,
        n == raw.len() || raw[n] == 0,
    ensures
        text_len(raw) == n,
    decreases n,
{
    if n > 0 {
        assert(raw[0] != 0);
        assert forall|i: int| 0 <= i < n - 1 implies #[trigger] raw.drop_first()[i] != 0 by {
            assert(raw.drop_first()[i] == raw[i + 1]);
        }
        lemma_text_len_is(raw.drop_first(), n - 1);
    }
}

/// The text length never exceeds the length.
proof fn lemma_text_len_bound(raw: Seq<u8>)
    ensures
        text_len(raw) <= raw.len(),
        forall|i: int| 0 <= i < text_len(raw) ==> #[trigger] raw[i] != 0,
        text_len(raw) < raw.len() ==> raw[text_len(raw) as int] == 0,
    decreases raw.len(),
{
    if raw.len() > 0 && raw[0] != 0 {
        lemma_text_len_bound(raw.drop_first());
        assert forall|i: int| 0 <= i < text_len(raw) implies #[trigger] raw[i] != 0 by {
            if i > 0 {
                assert(raw[i] == raw.drop_first()[i - 1]);
            }
        }
    }
}

/// The raw bytes of words packed from `b`: `b` zero-padded to `8 n` bytes.
proof fn lemma_raw_of_packed(b: Seq<u8>, ws: Seq<u64>)
    requires
        forall|k: int| 0 <= k < ws.len() ==> #[trigger] ws[k] == pack_word(b, k),
    ensures
        words_bytes(ws) == Seq::new((8 * ws.len()) as nat, |i: int| padded_byte(b, i)),
{
    lemma_words_bytes_index(ws);
    assert forall|i: int| 0 <= i < 8 * ws.len() implies #[trigger] words_bytes(ws)[i] == padded_byte(b, i) by {
        let k = i / 8;
        let j = i % 8;
        lemma_pack8_bytes(
            padded_byte(b, 8 * k),
            padded_byte(b, 8 * k + 1),
            padded_byte(b, 8 * k + 2),
            padded_byte(b, 8 * k + 3),
            padded_byte(b, 8 * k + 4),
            padded_byte(b, 8 * k + 5),
            padded_byte(b, 8 * k + 6),
            padded_byte(b, 8 * k + 7),
        );
        assert(word_bytes(ws[k])[j] == word_byte(ws[k], j));
        assert(i == 8 * k + j);
    }
    assert(words_bytes(ws) =~= Seq::new((8 * ws.len()) as nat, |i: int| padded_byte(b, i)));
}

/// Packing the raw bytes of words gives the words back.
proof fn lemma_packed_of_raw(ws: Seq<u64>, k: int)
    requires
        0 <= k < ws.len(),
    ensures
        pack_word(words_bytes(ws), k) == ws[k],
{
    lemma_words_bytes_index(ws);
    let r = words_bytes(ws);
    assert forall|j: int| 0 <= j < 8 implies #[trigger] padded_byte(r, 8 * k + j) == word_byte(ws[k], j) by {
        assert((8 * k + j) / 8 == k);
        assert((8 * k + j) % 8 == j);
        assert(r[8 * k + j] == word_byte(ws[(8 * k + j) / 8], (8 * k + j) % 8));
    }
    assert(padded_byte(r, 8 * k + 0) == word_byte(ws[k], 0));
    assert(padded_byte(r, 8 * k + 1) == word_byte(ws[k], 1));
    assert(padded_byte(r, 8 * k + 2) == word_byte(ws[k], 2));
    assert(padded_byte(r, 8 * k + 3) == word_byte(ws[k], 3));
    assert(padded_byte(r, 8 * k + 4) == word_byte(ws[k], 4));
    assert(padded_byte(r, 8 * k + 5) == word_byte(ws[k], 5));
    assert(padded_byte(r, 8 * k + 6) == word_byte(ws[k], 6));
    assert(padded_byte(r, 8 * k + 7) == word_byte(ws[k], 7));
    lemma_unpack8(ws[k]);
}

/// Byte `i` of `b`, zero past its end.
fn byte_at(b: &[u8], i: usize) -> (r: u8)
    ensures
        r == padded_byte(b@, i as int),
{
    if i < b.len() {
        b[i]
    } else {
        0
    }
}

/// Word `k` of the zero-padded bytes `b`.
fn pack_word_exec(b: &[u8], k: usize) -> (w: u64)
    requires
        k < 8,
    ensures
        w == pack_word(b@, k as int),
{
    let base = 8 * k;
    let b0 = byte_at(b, base) as u64;
    let b1 = byte_at(b, base + 1) as u64;
    let b2 = byte_at(b, base + 2) as u64;
    let b3 = byte_at(b, base + 3) as u64;
    let b4 = byte_at(b, base + 4) as u64;
    let b5 = byte_at(b, base + 5) as u64;
    let b6 = byte_at(b, base + 6) as u64;
    let b7 = byte_at(b, base + 7) as u64;
    (b0 << 56u64) | (b1 << 48u64) | (b2 << 40u64) | (b3 << 32u64) | (b4 << 24u64) | (b5 << 16u64) | (b6 << 8u64) | b7
}

/// Appends the eight bytes of `w`, most significant first.
fn push_word_bytes(v: &mut Vec<u8>, w: u64)
    ensures
        final(v)@ == old(v)@ + word_bytes(w),
{
    let mut j: u64 = 0;
    while j < 8
        invariant
            j <= 8,
            v@ == old(v)@ + word_bytes(w).take(j as int),
        decreases 8 - j,
    {
        let byte = ((w >> (56 - 8 * j)) & 0xff) as u8;
        assert(byte == word_byte(w, j as int));
        v.push(byte);
        j += 1;
        assert(v@ =~= old(v)@ + word_bytes(w).take(j as int));
    }
    assert(word_bytes(w).take(8) =~= word_bytes(w));
}

/// The leading non-zero bytes of `raw`.
fn leading_text(raw: &Vec<u8>) -> (r: Vec<u8>)
    ensures
        r@ == raw@.take(text_len(raw@) as int),
{
    let mut r: Vec<u8> = Vec::new();
    let mut i: usize = 0;
    while i < raw.len() && raw[i] != 0
        invariant
            i <= raw@.len(),
            forall|j: int| 0 <= j < i ==> #[trigger] raw@[j] != 0,
            r@ == raw@.take(i as int),
        decreases raw@.len() - i,
    {
        r.push(raw[i]);
        i += 1;
        assert(r@ =~= raw@.take(i as int));
    }
    proof {
        lemma_text_len_is(raw@, i as int);
    }
    r
}

/// Whether every byte of `b` is a symbol character.
fn all_symbol_chars(b: &[u8]) -> (r: bool)
    ensures
        r == forall|i: int| 0 <= i < b@.len() ==> is_symbol_char(#[trigger] b@[i]),
{
    let mut i: usize = 0;
    while i < b.len()
        invariant
            i <= b@.len(),
            forall|j: int| 0 <= j < i ==> is_symbol_char(#[trigger] b@[j]),
        decreases b@.len() - i,
    {
        let c = b[i];
        if !((97 <= c && c <= 122) || (65 <= c && c <= 90) || (48 <= c && c <= 57) || c == 95) {
            assert(!is_symbol_char(b@[i as int]));
            return false;
        }
        i += 1;
    }
    true
}

/// Whether every byte of `b` is non-zero.
fn all_key_chars(b: &[u8]) -> (r: bool)
    ensures
        r == forall|i: int| 0 <= i < b@.len() ==> is_key_char(#[trigger] b@[i]),
{
    let mut i: usize = 0;
    while i < b.len()
        invariant
            i <= b@.len(),
            forall|j: int| 0 <= j < i ==> is_key_char(#[trigger] b@[j]),
        decreases b@.len() - i,
    {
        if b[i] == 0 {
            assert(!is_key_char(b@[i as int]));
            return false;
        }
        i += 1;
    }
    true
}

impl Symbol {
    /// The symbol whose text is `b`.
    pub open spec fn spec_from_text(b: Seq<u8>) -> Symbol {
        Symbol { w0: pack_word(b, 0), w1: pack_word(b, 1), w2: pack_word(b, 2), w3: pack_word(b, 3) }
    }

    /// The symbol with text `b`; `None` unless `b` is at most
    /// `SYMBOL_CAPACITY` symbol characters (`a-z`, `A-Z`, `0-9`, `_`).
    pub fn from_bytes(b: &[u8]) -> (r: Option<Symbol>)
        ensures
            r == if valid_symbol_text(b@) {
                Some(Symbol::spec_from_text(b@))
            } else {
                None::<Symbol>
            },
    {
        if b.len() > SYMBOL_CAPACITY || !all_symbol_chars(b) {
            return None;
        }
        Some(Symbol {
            w0: pack_word_exec(b, 0),
            w1: pack_word_exec(b, 1),
            w2: pack_word_exec(b, 2),
            w3: pack_word_exec(b, 3),
        })
    }

    /// The text of the symbol.
    pub fn to_bytes(&self) -> (r: Vec<u8>)
        ensures
            r@ == self.text(),
    {
        let mut raw: Vec<u8> = Vec::new();
        push_word_bytes(&mut raw, self.w0);
        push_word_bytes(&mut raw, self.w1);
        push_word_bytes(&mut raw, self.w2);
        push_word_bytes(&mut raw, self.w3);
        proof {
            lemma_words_bytes_cons(self.w0, seq![self.w1, self.w2, self.w3]);
            lemma_words_bytes_cons(self.w1, seq![self.w2, self.w3]);
            lemma_words_bytes_cons(self.w2, seq![self.w3]);
            lemma_words_bytes_cons(self.w3, Seq::empty());
            assert(self.words() =~= seq![self.w0] + seq![self.w1, self.w2, self.w3]);
            assert(seq![self.w1, self.w2, self.w3] =~= seq![self.w1] + seq![self.w2, self.w3]);
            assert(seq![self.w2, self.w3] =~= seq![self.w2] + seq![self.w3]);
            assert(seq![self.w3] =~= seq![self.w3] + Seq::<u64>::empty());
            assert(raw@ =~= self.raw());
        }
        leading_text(&raw)
    }
}

impl Address {
    /// The seven words in order.
    pub open spec fn words(self) -> Seq<u64> {
        seq![self.w0, self.w1, self.w2, self.w3, self.w4, self.w5, self.w6]
    }

    /// The key bytes.
    pub open spec fn key(self) -> Seq<u8> {
        words_bytes(self.words())
    }

    /// The address whose key is `b`.
    pub open spec fn spec_from_key(b: Seq<u8>) -> Address {
        Address {
            w0: pack_word(b, 0),
            w1: pack_word(b, 1),
            w2: pack_word(b, 2),
            w3: pack_word(b, 3),
            w4: pack_word(b, 4),
            w5: pack_word(b, 5),
            w6: pack_word(b, 6),
        }
    }

    /// The address with key `b`; `None` unless `b` is exactly
    /// `ADDRESS_LEN` non-zero bytes.
    pub fn from_bytes(b: &[u8]) -> (r: Option<Address>)
        ensures
            r == if valid_address_key(b@) {
                Some(Address::spec_from_key(b@))
            } else {
                None::<Address>
            },
    {
        if b.len() != ADDRESS_LEN || !all_key_chars(b) {
            return None;
        }
        Some(Address {
            w0: pack_word_exec(b, 0),
            w1: pack_word_exec(b, 1),
            w2: pack_word_exec(b, 2),
            w3: pack_word_exec(b, 3),
            w4: pack_word_exec(b, 4),
            w5: pack_word_exec(b, 5),
            w6: pack_word_exec(b, 6),
        })
    }

    /// The key bytes of the address.
    pub fn to_bytes(&self) -> (r: Vec<u8>)
        ensures
            r@ == self.key(),
    {
        let mut raw: Vec<u8> = Vec::new();
        push_word_bytes(&mut raw, self.w0);
        push_word_bytes(&mut raw, self.w1);
        push_word_bytes(&mut raw, self.w2);
        push_word_bytes(&mut raw, self.w3);
        push_word_bytes(&mut raw, self.w4);
        push_word_bytes(&mut raw, self.w5);
        push_word_bytes(&mut raw, self.w6);
        proof {
            let w = self.words();
            assert forall|k: int| 0 <= k <= 7 implies #[trigger] words_bytes(w.skip(k)) == if k == 7 {
                Seq::<u8>::empty()
            } else {
                word_bytes(w[k]) + words_bytes(w.skip(k + 1))
            } by {
                if k < 7 {
                    lemma_words_bytes_cons(w[k], w.skip(k + 1));
                    assert(w.skip(k) =~= seq![w[k]] + w.skip(k + 1));
                } else {
                    assert(w.skip(k) =~= Seq::<u64>::empty());
                }
            }
            assert(w.skip(0) =~= w);
            assert(raw@ =~= word_bytes(w[0]) + (word_bytes(w[1]) + (word_bytes(w[2]) + (word_bytes(w[3])
                + (word_bytes(w[4]) + (word_bytes(w[5]) + (word_bytes(w[6]) + words_bytes(w.skip(7)))))))));
        }
        raw
    }
}

/// A symbol's text is valid, and packing it gives the symbol back.
pub proof fn law_symbol_text_roundtrip(s: Symbol)
    requires
        s.wf(),
    ensures
        valid_symbol_text(s.text()),
        Symbol::spec_from_text(s.text()) == s,
{
    let raw = s.raw();
    let t = s.text();
    lemma_words_bytes_index(s.words());
    lemma_text_len_bound(raw);
    assert forall|i: int| 0 <= i < 32 implies #[trigger] padded_byte(t, i) == padded_byte(raw, i) by {
        if i >= t.len() {
            assert(raw[i] == 0);
        }
    }
    assert forall|k: int| 0 <= k < 4 implies #[trigger] pack_word(t, k) == pack_word(raw, k) by {
        assert(padded_byte(t, 8 * k + 0) == padded_byte(raw, 8 * k + 0));
        assert(padded_byte(t, 8 * k + 1) == padded_byte(raw, 8 * k + 1));
        assert(padded_byte(t, 8 * k + 2) == padded_byte(raw, 8 * k + 2));
        assert(padded_byte(t, 8 * k + 3) == padded_byte(raw, 8 * k + 3));
        assert(padded_byte(t, 8 * k + 4) == padded_byte(raw, 8 * k + 4));
        assert(padded_byte(t, 8 * k + 5) == padded_byte(raw, 8 * k + 5));
        assert(padded_byte(t, 8 * k + 6) == padded_byte(raw, 8 * k + 6));
        assert(padded_byte(t, 8 * k + 7) == padded_byte(raw, 8 * k + 7));
    }
    lemma_packed_of_raw(s.words(), 0);
    lemma_packed_of_raw(s.words(), 1);
    lemma_packed_of_raw(s.words(), 2);
    lemma_packed_of_raw(s.words(), 3);
    assert(pack_word(t, 0) == s.w0);
    assert(pack_word(t, 1) == s.w1);
    assert(pack_word(t, 2) == s.w2);
    assert(pack_word(t, 3) == s.w3);
}

/// A valid text packs into a well-formed symbol whose text it is.
pub proof fn law_text_symbol_roundtrip(b: Seq<u8>)
    requires
        valid_symbol_text(b),
    ensures
        Symbol::spec_from_text(b).text() == b,
        Symbol::spec_from_text(b).wf(),
{
    let s = Symbol::spec_from_text(b);
    lemma_raw_of_packed(b, s.words());
    let raw = s.raw();
    assert forall|i: int| 0 <= i < b.len() implies #[trigger] raw[i] != 0 by {
        assert(is_symbol_char(b[i]));
    }
    lemma_text_len_is(raw, b.len() as int);
    assert(s.text() =~= b);
    assert(canonical(raw));
}

/// An address's key is recovered by packing it, and a valid key packs into
/// an address with that key.
pub proof fn law_address_key_roundtrip(a: Address, b: Seq<u8>)
    ensures
        Address::spec_from_key(a.key()) == a,
        valid_address_key(b) ==> Address::spec_from_key(b).key() == b,
{
    lemma_packed_of_raw(a.words(), 0);
    lemma_packed_of_raw(a.words(), 1);
    lemma_packed_of_raw(a.words(), 2);
    lemma_packed_of_raw(a.words(), 3);
    lemma_packed_of_raw(a.words(), 4);
    lemma_packed_of_raw(a.words(), 5);
    lemma_packed_of_raw(a.words(), 6);
    if valid_address_key(b) {
        let c = Address::spec_from_key(b);
        lemma_raw_of_packed(b, c.words());
        assert(c.key() =~= b);
    }
}

} // verus!
