//! Short identifiers (`Symbol`) and account identifiers (`Address`) as
//! plain, copyable values.
//!
//! A `Symbol` holds up to 32 bytes of text packed big-endian into four
//! 64-bit words, padded with zero bytes; symbols are ordered by their
//! words, compared lexicographically.
//!
//! An `Address` holds the 56-byte textual account key the same way, in
//! seven words.
use vstd::prelude::*;

verus! {

/// Number of bytes a symbol can hold.
pub const SYMBOL_CAPACITY: usize = 32;

/// Number of bytes an address key holds.
pub const ADDRESS_LEN: usize = 56;

/// A short identifier (severity, outage id, status code, event name).
#[derive(Clone, Copy, Debug, PartialEq, Eq, Structural, Hash)]
pub struct Symbol {
    pub w0: u64,
    pub w1: u64,
    pub w2: u64,
    pub w3: u64,
}

/// An account or contract identifier, given by its textual key.
#[derive(Clone, Copy, Debug, PartialEq, Eq, Structural, Hash)]
pub struct Address {
    pub w0: u64,
    pub w1: u64,
    pub w2: u64,
    pub w3: u64,
    pub w4: u64,
    pub w5: u64,
    pub w6: u64,
}

/// Byte `j` (0 = most significant) of a big-endian 64-bit word.
pub open spec fn word_byte(w: u64, j: int) -> u8 {
    ((w >> ((56 - 8 * j) as u64)) & 0xff) as u8
}

/// The eight bytes of a word, most significant first.
pub open spec fn word_bytes(w: u64) -> Seq<u8> {
    Seq::new(8, |j: int| word_byte(w, j))
}

/// The raw bytes of a sequence of words.
pub open spec fn words_bytes(ws: Seq<u64>) -> Seq<u8>
    decreases ws.len(),
{
    if ws.len() == 0 {
        Seq::empty()
    } else {
        word_bytes(ws[0]) + words_bytes(ws.drop_first())
    }
}

/// Number of leading non-zero bytes.
pub open spec fn text_len(raw: Seq<u8>) -> nat
    decreases raw.len(),
{
    if raw.len() == 0 || raw[0] == 0 {
        0
    } else {
        1 + text_len(raw.drop_first())
    }
}

/// A raw byte buffer is canonical when its text is followed by zero bytes only.
pub open spec fn canonical(raw: Seq<u8>) -> bool {
    forall|i: int| text_len(raw) <= i < raw.len() ==> raw[i] == 0
}

/// Bytes allowed in a symbol: `a-z` (97..=122), `A-Z` (65..=90), `0-9`
/// (48..=57) and `_` (95).
pub open spec fn is_symbol_char(b: u8) -> bool {
    (97 <= b <= 122) || (65 <= b <= 90) || (48 <= b <= 57) || b == 95
}

/// Bytes allowed in a textual key: any non-zero byte.
pub open spec fn is_key_char(b: u8) -> bool {
    b != 0
}

impl Symbol {
    /// The four words in order.
    pub open spec fn words(self) -> Seq<u64> {
        seq![self.w0, self.w1, self.w2, self.w3]
    }

    /// All 32 stored bytes, text first, then zero padding.
    pub open spec fn raw(self) -> Seq<u8> {
        words_bytes(self.words())
    }

    /// The text of the symbol.
    pub open spec fn text(self) -> Seq<u8> {
        self.raw().take(text_len(self.raw()) as int)
    }

    /// A well-formed symbol: valid characters followed by zero padding.
    pub open spec fn wf(self) -> bool {
        &&& canonical(self.raw())
        &&& forall|i: int| 0 <= i < self.text().len() ==> is_symbol_char(#[trigger] self.text()[i])
    }

    /// Strict order of symbols: their words compared lexicographically.
    pub open spec fn spec_lt(self, other: Symbol) -> bool {
        ||| self.w0 < other.w0
        ||| self.w0 == other.w0 && self.w1 < other.w1
        ||| self.w0 == other.w0 && self.w1 == other.w1 && self.w2 < other.w2
        ||| self.w0 == other.w0 && self.w1 == other.w1 && self.w2 == other.w2 && self.w3 < other.w3
    }

    /// Strict order of two symbols, by their words.
    pub fn less_than(&self, other: &Symbol) -> (r: bool)
        ensures
            r == self.spec_lt(*other),
    {
        if self.w0 != other.w0 {
            self.w0 < other.w0
        } else if self.w1 != other.w1 {
            self.w1 < other.w1
        } else if self.w2 != other.w2 {
            self.w2 < other.w2
        } else {
            self.w3 < other.w3
        }
    }

    /// `critical`
    #[verifier::allow_in_spec]
    pub fn critical() -> Symbol
        returns
            (Symbol { w0: 0x637269746963616c, w1: 0, w2: 0, w3: 0 }),
    {
        Symbol { w0: 0x637269746963616c, w1: 0, w2: 0, w3: 0 }
    }

    /// `high`
    #[verifier::allow_in_spec]
    pub fn high() -> Symbol
        returns
            (Symbol { w0: 0x6869676800000000, w1: 0, w2: 0, w3: 0 }),
    {
        Symbol { w0: 0x6869676800000000, w1: 0, w2: 0, w3: 0 }
    }

    /// `medium`
    #[verifier::allow_in_spec]
    pub fn medium() -> Symbol
        returns
            (Symbol { w0: 0x6d656469756d0000, w1: 0, w2: 0, w3: 0 }),
    {
        Symbol { w0: 0x6d656469756d0000, w1: 0, w2: 0, w3: 0 }
    }

    /// `low`
    #[verifier::allow_in_spec]
    pub fn low() -> Symbol
        returns
            (Symbol { w0: 0x6c6f770000000000, w1: 0, w2: 0, w3: 0 }),
    {
        Symbol { w0: 0x6c6f770000000000, w1: 0, w2: 0, w3: 0 }
    }

    /// `met`
    #[verifier::allow_in_spec]
    pub fn met() -> Symbol
        returns
            (Symbol { w0: 0x6d65740000000000, w1: 0, w2: 0, w3: 0 }),
    {
        Symbol { w0: 0x6d65740000000000, w1: 0, w2: 0, w3: 0 }
    }

    /// `viol`
    #[verifier::allow_in_spec]
    pub fn viol() -> Symbol
        returns
            (Symbol { w0: 0x76696f6c00000000, w1: 0, w2: 0, w3: 0 }),
    {
        Symbol { w0: 0x76696f6c00000000, w1: 0, w2: 0, w3: 0 }
    }

    /// `rew`
    #[verifier::allow_in_spec]
    pub fn rew() -> Symbol
        returns
            (Symbol { w0: 0x7265770000000000, w1: 0, w2: 0, w3: 0 }),
    {
        Symbol { w0: 0x7265770000000000, w1: 0, w2: 0, w3: 0 }
    }

    /// `pen`
    #[verifier::allow_in_spec]
    pub fn pen() -> Symbol
        returns
            (Symbol { w0: 0x70656e0000000000, w1: 0, w2: 0, w3: 0 }),
    {
        Symbol { w0: 0x70656e0000000000, w1: 0, w2: 0, w3: 0 }
    }

    /// `top`
    #[verifier::allow_in_spec]
    pub fn top() -> Symbol
        returns
            (Symbol { w0: 0x746f700000000000, w1: 0, w2: 0, w3: 0 }),
    {
        Symbol { w0: 0x746f700000000000, w1: 0, w2: 0, w3: 0 }
    }

    /// `excel`
    #[verifier::allow_in_spec]
    pub fn excel() -> Symbol
        returns
            (Symbol { w0: 0x657863656c000000, w1: 0, w2: 0, w3: 0 }),
    {
        Symbol { w0: 0x657863656c000000, w1: 0, w2: 0, w3: 0 }
    }

    /// `good`
    #[verifier::allow_in_spec]
    pub fn good() -> Symbol
        returns
            (Symbol { w0: 0x676f6f6400000000, w1: 0, w2: 0, w3: 0 }),
    {
        Symbol { w0: 0x676f6f6400000000, w1: 0, w2: 0, w3: 0 }
    }

    /// `poor`
    #[verifier::allow_in_spec]
    pub fn poor() -> Symbol
        returns
            (Symbol { w0: 0x706f6f7200000000, w1: 0, w2: 0, w3: 0 }),
    {
        Symbol { w0: 0x706f6f7200000000, w1: 0, w2: 0, w3: 0 }
    }

    /// `v1`
    #[verifier::allow_in_spec]
    pub fn v1() -> Symbol
        returns
            (Symbol { w0: 0x7631000000000000, w1: 0, w2: 0, w3: 0 }),
    {
        Symbol { w0: 0x7631000000000000, w1: 0, w2: 0, w3: 0 }
    }

    /// `sla_calc`
    #[verifier::allow_in_spec]
    pub fn sla_calc() -> Symbol
        returns
            (Symbol { w0: 0x736c615f63616c63, w1: 0, w2: 0, w3: 0 }),
    {
        Symbol { w0: 0x736c615f63616c63, w1: 0, w2: 0, w3: 0 }
    }

    /// `set_int`
    #[verifier::allow_in_spec]
    pub fn set_int() -> Symbol
        returns
            (Symbol { w0: 0x7365745f696e7400, w1: 0, w2: 0, w3: 0 }),
    {
        Symbol { w0: 0x7365745f696e7400, w1: 0, w2: 0, w3: 0 }
    }

    /// `cfg_upd`
    #[verifier::allow_in_spec]
    pub fn cfg_upd() -> Symbol
        returns
            (Symbol { w0: 0x6366675f75706400, w1: 0, w2: 0, w3: 0 }),
    {
        Symbol { w0: 0x6366675f75706400, w1: 0, w2: 0, w3: 0 }
    }

    /// `paused`
    #[verifier::allow_in_spec]
    pub fn paused() -> Symbol
        returns
            (Symbol { w0: 0x7061757365640000, w1: 0, w2: 0, w3: 0 }),
    {
        Symbol { w0: 0x7061757365640000, w1: 0, w2: 0, w3: 0 }
    }

    /// `unpause`
    #[verifier::allow_in_spec]
    pub fn unpause() -> Symbol
        returns
            (Symbol { w0: 0x756e706175736500, w1: 0, w2: 0, w3: 0 }),
    {
        Symbol { w0: 0x756e706175736500, w1: 0, w2: 0, w3: 0 }
    }

    /// `op_set`
    #[verifier::allow_in_spec]
    pub fn op_set() -> Symbol
        returns
            (Symbol { w0: 0x6f705f7365740000, w1: 0, w2: 0, w3: 0 }),
    {
        Symbol { w0: 0x6f705f7365740000, w1: 0, w2: 0, w3: 0 }
    }

    /// `pruned`
    #[verifier::allow_in_spec]
    pub fn pruned() -> Symbol
        returns
            (Symbol { w0: 0x7072756e65640000, w1: 0, w2: 0, w3: 0 }),
    {
        Symbol { w0: 0x7072756e65640000, w1: 0, w2: 0, w3: 0 }
    }

    /// `pruned_a`
    #[verifier::allow_in_spec]
    pub fn pruned_a() -> Symbol
        returns
            (Symbol { w0: 0x7072756e65645f61, w1: 0, w2: 0, w3: 0 }),
    {
        Symbol { w0: 0x7072756e65645f61, w1: 0, w2: 0, w3: 0 }
    }

    /// `adm_prop`
    #[verifier::allow_in_spec]
    pub fn adm_prop() -> Symbol
        returns
            (Symbol { w0: 0x61646d5f70726f70, w1: 0, w2: 0, w3: 0 }),
    {
        Symbol { w0: 0x61646d5f70726f70, w1: 0, w2: 0, w3: 0 }
    }

    /// `adm_acc`
    #[verifier::allow_in_spec]
    pub fn adm_acc() -> Symbol
        returns
            (Symbol { w0: 0x61646d5f61636300, w1: 0, w2: 0, w3: 0 }),
    {
        Symbol { w0: 0x61646d5f61636300, w1: 0, w2: 0, w3: 0 }
    }

    /// `adm_can`
    #[verifier::allow_in_spec]
    pub fn adm_can() -> Symbol
        returns
            (Symbol { w0: 0x61646d5f63616e00, w1: 0, w2: 0, w3: 0 }),
    {
        Symbol { w0: 0x61646d5f63616e00, w1: 0, w2: 0, w3: 0 }
    }

    /// `adm_ren`
    #[verifier::allow_in_spec]
    pub fn adm_ren() -> Symbol
        returns
            (Symbol { w0: 0x61646d5f72656e00, w1: 0, w2: 0, w3: 0 }),
    {
        Symbol { w0: 0x61646d5f72656e00, w1: 0, w2: 0, w3: 0 }
    }

    /// `op_prop`
    #[verifier::allow_in_spec]
    pub fn op_prop() -> Symbol
        returns
            (Symbol { w0: 0x6f705f70726f7000, w1: 0, w2: 0, w3: 0 }),
    {
        Symbol { w0: 0x6f705f70726f7000, w1: 0, w2: 0, w3: 0 }
    }

    /// `op_acc`
    #[verifier::allow_in_spec]
    pub fn op_acc() -> Symbol
        returns
            (Symbol { w0: 0x6f705f6163630000, w1: 0, w2: 0, w3: 0 }),
    {
        Symbol { w0: 0x6f705f6163630000, w1: 0, w2: 0, w3: 0 }
    }

    /// `op_can`
    #[verifier::allow_in_spec]
    pub fn op_can() -> Symbol
        returns
            (Symbol { w0: 0x6f705f63616e0000, w1: 0, w2: 0, w3: 0 }),
    {
        Symbol { w0: 0x6f705f63616e0000, w1: 0, w2: 0, w3: 0 }
    }

    /// `cfg_frz`
    #[verifier::allow_in_spec]
    pub fn cfg_frz() -> Symbol
        returns
            (Symbol { w0: 0x6366675f66727a00, w1: 0, w2: 0, w3: 0 }),
    {
        Symbol { w0: 0x6366675f66727a00, w1: 0, w2: 0, w3: 0 }
    }

    /// `cfg_unfrz`
    #[verifier::allow_in_spec]
    pub fn cfg_unfrz() -> Symbol
        returns
            (Symbol { w0: 0x6366675f756e6672, w1: 0x7a00000000000000, w2: 0, w3: 0 }),
    {
        Symbol { w0: 0x6366675f756e6672, w1: 0x7a00000000000000, w2: 0, w3: 0 }
    }

    /// `stats_sat`
    #[verifier::allow_in_spec]
    pub fn stats_sat() -> Symbol
        returns
            (Symbol { w0: 0x73746174735f7361, w1: 0x7400000000000000, w2: 0, w3: 0 }),
    {
        Symbol { w0: 0x73746174735f7361, w1: 0x7400000000000000, w2: 0, w3: 0 }
    }

    /// `mig_done`
    #[verifier::allow_in_spec]
    pub fn mig_done() -> Symbol
        returns
            (Symbol { w0: 0x6d69675f646f6e65, w1: 0, w2: 0, w3: 0 }),
    {
        Symbol { w0: 0x6d69675f646f6e65, w1: 0, w2: 0, w3: 0 }
    }

    /// `totcalc`
    #[verifier::allow_in_spec]
    pub fn totcalc() -> Symbol
        returns
            (Symbol { w0: 0x746f7463616c6300, w1: 0, w2: 0, w3: 0 }),
    {
        Symbol { w0: 0x746f7463616c6300, w1: 0, w2: 0, w3: 0 }
    }

    /// `totrew`
    #[verifier::allow_in_spec]
    pub fn totrew() -> Symbol
        returns
            (Symbol { w0: 0x746f747265770000, w1: 0, w2: 0, w3: 0 }),
    {
        Symbol { w0: 0x746f747265770000, w1: 0, w2: 0, w3: 0 }
    }

    /// `totviol`
    #[verifier::allow_in_spec]
    pub fn totviol() -> Symbol
        returns
            (Symbol { w0: 0x746f7476696f6c00, w1: 0, w2: 0, w3: 0 }),
    {
        Symbol { w0: 0x746f7476696f6c00, w1: 0, w2: 0, w3: 0 }
    }

    /// `totpen`
    #[verifier::allow_in_spec]
    pub fn totpen() -> Symbol
        returns
            (Symbol { w0: 0x746f7470656e0000, w1: 0, w2: 0, w3: 0 }),
    {
        Symbol { w0: 0x746f7470656e0000, w1: 0, w2: 0, w3: 0 }
    }

    /// `calc`
    #[verifier::allow_in_spec]
    pub fn calc() -> Symbol
        returns
            (Symbol { w0: 0x63616c6300000000, w1: 0, w2: 0, w3: 0 }),
    {
        Symbol { w0: 0x63616c6300000000, w1: 0, w2: 0, w3: 0 }
    }

    /// `audit`
    #[verifier::allow_in_spec]
    pub fn audit() -> Symbol
        returns
            (Symbol { w0: 0x6175646974000000, w1: 0, w2: 0, w3: 0 }),
    {
        Symbol { w0: 0x6175646974000000, w1: 0, w2: 0, w3: 0 }
    }

    /// `pause`
    #[verifier::allow_in_spec]
    pub fn pause() -> Symbol
        returns
            (Symbol { w0: 0x7061757365000000, w1: 0, w2: 0, w3: 0 }),
    {
        Symbol { w0: 0x7061757365000000, w1: 0, w2: 0, w3: 0 }
    }

    /// `stats`
    #[verifier::allow_in_spec]
    pub fn stats() -> Symbol
        returns
            (Symbol { w0: 0x7374617473000000, w1: 0, w2: 0, w3: 0 }),
    {
        Symbol { w0: 0x7374617473000000, w1: 0, w2: 0, w3: 0 }
    }

    /// `history`
    #[verifier::allow_in_spec]
    pub fn history() -> Symbol
        returns
            (Symbol { w0: 0x686973746f727900, w1: 0, w2: 0, w3: 0 }),
    {
        Symbol { w0: 0x686973746f727900, w1: 0, w2: 0, w3: 0 }
    }

    /// `failcode`
    #[verifier::allow_in_spec]
    pub fn failcode() -> Symbol
        returns
            (Symbol { w0: 0x6661696c636f6465, w1: 0, w2: 0, w3: 0 }),
    {
        Symbol { w0: 0x6661696c636f6465, w1: 0, w2: 0, w3: 0 }
    }

    /// `safe_call`
    #[verifier::allow_in_spec]
    pub fn safe_call() -> Symbol
        returns
            (Symbol { w0: 0x736166655f63616c, w1: 0x6c00000000000000, w2: 0, w3: 0 }),
    {
        Symbol { w0: 0x736166655f63616c, w1: 0x6c00000000000000, w2: 0, w3: 0 }
    }

    /// `ver_nego`
    #[verifier::allow_in_spec]
    pub fn ver_nego() -> Symbol
        returns
            (Symbol { w0: 0x7665725f6e65676f, w1: 0, w2: 0, w3: 0 }),
    {
        Symbol { w0: 0x7665725f6e65676f, w1: 0, w2: 0, w3: 0 }
    }

    /// `corr_id`
    #[verifier::allow_in_spec]
    pub fn corr_id() -> Symbol
        returns
            (Symbol { w0: 0x636f72725f696400, w1: 0, w2: 0, w3: 0 }),
    {
        Symbol { w0: 0x636f72725f696400, w1: 0, w2: 0, w3: 0 }
    }

    /// `freeze`
    #[verifier::allow_in_spec]
    pub fn freeze() -> Symbol
        returns
            (Symbol { w0: 0x667265657a650000, w1: 0, w2: 0, w3: 0 }),
    {
        Symbol { w0: 0x667265657a650000, w1: 0, w2: 0, w3: 0 }
    }
}

} // verus!
