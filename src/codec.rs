//! Encoding bytes as words and decoding words back to bytes.
use vstd::prelude::*;
use vstd::string::StringSliceAdditionalSpecFns;
use crate::crc::{calculate_crc8, crc8};
use crate::wordlist::{byte_to_word, candidate, hash_of, lemma_word_of, lemma_word_of_injective, lookup_candidate, word_hash, word_of};

verus! {

/// The byte that separates words.
pub const SEPARATOR: u8 = 45;

/// An error met while decoding pricklybird words.
#[derive(Clone, PartialEq, Eq, Hash, Debug)]
pub enum DecodeError {
    /// The input is malformed: too few words, or a word not in the wordlist.
    General(String),
    /// The words are valid but the checksum does not match.
    CRCError,
}

/// The kind of a decoding failure, as contracts speak of it.
pub enum DecodeFault {
    Format,
    Checksum,
}

/// A decoding result with its error reduced to its kind.
pub open spec fn outcome(r: Result<Vec<u8>, DecodeError>) -> Result<Seq<u8>, DecodeFault> {
    match r {
        Ok(v) => Ok(v@),
        Err(DecodeError::General(_)) => Err(DecodeFault::Format),
        Err(DecodeError::CRCError) => Err(DecodeFault::Checksum),
    }
}

/// ASCII lowercase of one byte.
pub open spec fn lower(c: u8) -> u8 {
    if 65 <= c <= 90 {
        (c + 32) as u8
    } else {
        c
    }
}

pub open spec fn lower_seq(w: Seq<u8>) -> Seq<u8> {
    w.map_values(|c: u8| lower(c))
}

/// `w` spells the word of `b`, in any mixture of case.
pub open spec fn spells(w: Seq<u8>, b: u8) -> bool {
    lower_seq(w) == word_of(b)
}

/// The byte that a candidate word stands for, if any.
pub open spec fn word_value(w: Seq<u8>) -> Option<u8> {
    if exists|b: u8| spells(w, b) {
        Some(choose|b: u8| spells(w, b))
    } else {
        None
    }
}

/// The bytes that a sequence of candidate words stands for, if every word is valid.
pub open spec fn words_value(ws: Seq<Seq<u8>>) -> Option<Seq<u8>> {
    if forall|j: int| 0 <= j < ws.len() ==> (#[trigger] word_value(ws[j])).is_some() {
        Some(Seq::new(ws.len(), |j: int| word_value(ws[j]).unwrap()))
    } else {
        None
    }
}

/// Words joined by the separator.
pub open spec fn join(ws: Seq<Seq<u8>>) -> Seq<u8>
    decreases ws.len(),
{
    if ws.len() == 0 {
        Seq::empty()
    } else if ws.len() == 1 {
        ws[0]
    } else {
        join(ws.drop_last()) + seq![SEPARATOR] + ws.last()
    }
}

/// The full encoding as bytes: each byte of the data and then its checksum,
/// as words joined by the separator; nothing for empty data.
pub open spec fn encoding(d: Seq<u8>) -> Seq<u8> {
    if d.len() == 0 {
        Seq::empty()
    } else {
        join(d.push(crc8(d)).map_values(|b: u8| word_of(b)))
    }
}

pub open spec fn is_space(c: u8) -> bool {
    c == 9 || c == 10 || c == 11 || c == 12 || c == 13 || c == 32
}

pub open spec fn trim_start(s: Seq<u8>) -> Seq<u8>
    decreases s.len(),
{
    if s.len() > 0 && is_space(s[0]) {
        trim_start(s.drop_first())
    } else {
        s
    }
}

pub open spec fn trim_end(s: Seq<u8>) -> Seq<u8>
    decreases s.len(),
{
    if s.len() > 0 && is_space(s.last()) {
        trim_end(s.drop_last())
    } else {
        s
    }
}

/// `s` without leading and trailing ASCII whitespace.
pub open spec fn trim(s: Seq<u8>) -> Seq<u8> {
    trim_end(trim_start(s))
}

/// The pieces of `s` between separators; an empty `s` is one empty piece.
pub open spec fn split(s: Seq<u8>) -> Seq<Seq<u8>>
    decreases s.len(),
{
    if s.len() == 0 {
        seq![Seq::empty()]
    } else {
        let prev = split(s.drop_last());
        if s.last() == SEPARATOR {
            prev.push(Seq::empty())
        } else {
            prev.update(prev.len() - 1, prev.last().push(s.last()))
        }
    }
}

/// What decoding the text `t` gives.
pub open spec fn decoding(t: Seq<u8>) -> Result<Seq<u8>, DecodeFault> {
    let ws = split(trim(t));
    if ws.len() < 2 {
        Err(DecodeFault::Format)
    } else {
        match words_value(ws) {
            None => Err(DecodeFault::Format),
            Some(bs) => if crc8(bs) != 0 {
                Err(DecodeFault::Checksum)
            } else {
                Ok(bs.drop_last())
            },
        }
    }
}

proof fn lemma_split_nonempty(s: Seq<u8>)
    ensures
        split(s).len() >= 1,
    decreases s.len(),
{
    if s.len() > 0 {
        lemma_split_nonempty(s.drop_last());
    }
}

fn lower_byte(c: u8) -> (r: u8)
    ensures
        r == lower(c),
{
    if 65 <= c && c <= 90 {
        c + 32
    } else {
        c
    }
}

/// The byte that the word `t[start..end]` stands for.
fn decode_word_at(t: &[u8], start: usize, end: usize) -> (r: Option<u8>)
    requires
        start <= end <= t@.len(),
    ensures
        r == word_value(t@.subrange(start as int, end as int)),
{
    let ghost w = t@.subrange(start as int, end as int);
    if end - start != 4 {
        assert forall|b: u8| !spells(w, b) by {
            lemma_word_of(b);
            assert(lower_seq(w).len() == w.len());
        }
        return None;
    }
    let l0 = lower_byte(t[start]);
    let l1 = lower_byte(t[start + 1]);
    let l2 = lower_byte(t[start + 2]);
    let l3 = lower_byte(t[start + 3]);
    let c = lookup_candidate(hash_of(l0, l3));
    let word = byte_to_word(c);
    proof {
        lemma_word_of(c);
    }
    if word[0] == l0 && word[1] == l1 && word[2] == l2 && word[3] == l3 {
        assert(lower_seq(w) =~= word_of(c));
        assert(spells(w, c));
        assert forall|b: u8| spells(w, b) implies b == c by {
            lemma_word_of_injective(b, c);
        }
        Some(c)
    } else {
        assert forall|b: u8| !spells(w, b) by {
            if spells(w, b) {
                lemma_word_of(b);
                assert(lower_seq(w)[0] == l0);
                assert(lower_seq(w)[3] == l3);
                assert(lower_seq(w)[1] == l1);
                assert(lower_seq(w)[2] == l2);
            }
        }
        None
    }
}

/// The word of each byte, in order; no checksum is added.
pub fn bytes_to_words(data: &[u8]) -> (r: Vec<[u8; 4]>)
    ensures
        r@.len() == data@.len(),
        forall|i: int| 0 <= i < data@.len() ==> (#[trigger] r@[i])@ == word_of(data@[i]),
{
    let mut r: Vec<[u8; 4]> = Vec::with_capacity(data.len());
    let mut i: usize = 0;
    while i < data.len()
        invariant
            i <= data@.len(),
            r@.len() == i,
            forall|j: int| 0 <= j < i ==> (#[trigger] r@[j])@ == word_of(data@[j]),
        decreases data@.len() - i,
    {
        r.push(byte_to_word(data[i]));
        i += 1;
    }
    r
}

/// The byte of each word, in order, failing on the first word that is not in
/// the wordlist; no checksum is checked.
pub fn words_to_bytes(words: &Vec<&str>) -> (r: Result<Vec<u8>, DecodeError>)
    ensures
        outcome(r) == match words_value(words@.map_values(|w: &str| w.spec_bytes())) {
            Some(v) => Ok(v),
            None => Err(DecodeFault::Format),
        },
{
    let ghost ws = words@.map_values(|w: &str| w.spec_bytes());
    let mut out: Vec<u8> = Vec::with_capacity(words.len());
    let mut i: usize = 0;
    while i < words.len()
        invariant
            i <= ws.len(),
            ws.len() == words@.len(),
            ws == words@.map_values(|w: &str| w.spec_bytes()),
            out@.len() == i,
            forall|j: int| 0 <= j < i ==> (#[trigger] word_value(ws[j])).is_some(),
            forall|j: int| 0 <= j < i ==> out@[j] == (#[trigger] word_value(ws[j])).unwrap(),
        decreases ws.len() - i,
    {
        let bytes = words[i].as_bytes();
        assert(bytes@.subrange(0, bytes@.len() as int) =~= ws[i as int]);
        match decode_word_at(bytes, 0, bytes.len()) {
            None => {
                return Err(DecodeError::General(String::from_str("Invalid word detected in input.")));
            },
            Some(b) => {
                out.push(b);
            },
        }
        i += 1;
    }
    assert(out@ =~= Seq::new(ws.len(), |j: int| word_value(ws[j]).unwrap()));
    Ok(out)
}

/// Every byte is ASCII.
pub open spec fn is_ascii_bytes(b: Seq<u8>) -> bool {
    forall|i: int| 0 <= i < b.len() ==> b[i] < 128
}

/// Relies on `String::from_utf8_lossy`: ASCII bytes are valid UTF-8 and come
/// back as the same characters.
#[verifier::external_body]
fn ascii_to_string(b: &Vec<u8>) -> (r: String)
    ensures
        is_ascii_bytes(b@) ==> r@ == b@.map_values(|c: u8| c as char),
{
    String::from_utf8_lossy(b).into_owned()
}

/// Encode `data` as pricklybird words with the checksum word at the end.
pub fn convert_to_pricklybird(data: &[u8]) -> (r: String)
    ensures
        data@.len() == 0 ==> r@.len() == 0,
        is_ascii_bytes(encoding(data@)) ==> r@ == encoding(data@).map_values(|c: u8| c as char),
{
    if data.len() == 0 {
        return String::new();
    }
    let crc = calculate_crc8(data);
    let mut dc: Vec<u8> = Vec::new();
    let mut k: usize = 0;
    while k < data.len()
        invariant
            k <= data@.len(),
            dc@ == data@.subrange(0, k as int),
        decreases data@.len() - k,
    {
        dc.push(data[k]);
        k += 1;
        assert(dc@ =~= data@.subrange(0, k as int));
    }
    dc.push(crc);
    assert(dc@ =~= data@.push(crc8(data@)));
    let ghost ws = dc@.map_values(|b: u8| word_of(b));
    let mut out: Vec<u8> = Vec::new();
    let mut i: usize = 0;
    while i < dc.len()
        invariant
            i <= dc@.len(),
            ws == dc@.map_values(|b: u8| word_of(b)),
            out@ == join(ws.subrange(0, i as int)),
        decreases dc@.len() - i,
    {
        let w = byte_to_word(dc[i]);
        let ghost before = out@;
        if i > 0 {
            out.push(SEPARATOR);
        }
        out.push(w[0]);
        out.push(w[1]);
        out.push(w[2]);
        out.push(w[3]);
        proof {
            let next = ws.subrange(0, i + 1);
            assert(next.drop_last() =~= ws.subrange(0, i as int));
            assert(next.last() == w@);
            if i == 0 {
                assert(out@ =~= w@);
            } else {
                assert(out@ =~= before + seq![SEPARATOR] + w@);
            }
        }
        i += 1;
    }
    assert(ws.subrange(0, dc@.len() as int) =~= ws);
    ascii_to_string(&out)
}

/// The bounds of `s` without its leading and trailing whitespace.
fn trim_bounds(s: &[u8]) -> (r: (usize, usize))
    ensures
        r.0 <= r.1 <= s@.len(),
        s@.subrange(r.0 as int, r.1 as int) == trim(s@),
{
    let n = s.len();
    let mut lo: usize = 0;
    assert(s@.subrange(0, n as int) =~= s@);
    while lo < n && (s[lo] == 9 || s[lo] == 10 || s[lo] == 11 || s[lo] == 12 || s[lo] == 13 || s[lo] == 32)
        invariant
            lo <= n,
            n == s@.len(),
            trim_start(s@) == trim_start(s@.subrange(lo as int, n as int)),
        decreases n - lo,
    {
        assert(s@.subrange(lo as int, n as int).drop_first() =~= s@.subrange(lo + 1, n as int));
        lo += 1;
    }
    let ghost u = s@.subrange(lo as int, n as int);
    assert(trim_start(s@) == u);
    let mut hi: usize = n;
    while hi > lo && (s[hi - 1] == 9 || s[hi - 1] == 10 || s[hi - 1] == 11 || s[hi - 1] == 12 || s[hi - 1] == 13 || s[hi - 1] == 32)
        invariant
            lo <= hi <= n,
            n == s@.len(),
            u == s@.subrange(lo as int, n as int),
            trim_end(u) == trim_end(s@.subrange(lo as int, hi as int)),
        decreases hi - lo,
    {
        assert(s@.subrange(lo as int, hi as int).drop_last() =~= s@.subrange(lo as int, hi - 1));
        hi -= 1;
    }
    (lo, hi)
}

/// Decode pricklybird words, check the checksum and drop the checksum byte.
#[verifier::rlimit(60)]
pub fn convert_from_pricklybird(words: &str) -> (r: Result<Vec<u8>, DecodeError>)
    ensures
        outcome(r) == decoding(words.spec_bytes()),
{
    let text = words.as_bytes();
    let (lo, hi) = trim_bounds(text);
    let ghost t = text@.subrange(lo as int, hi as int);
    let mut starts: Vec<usize> = Vec::new();
    let mut ends: Vec<usize> = Vec::new();
    let ghost mut segs: Seq<Seq<u8>> = Seq::empty();
    let mut start: usize = lo;
    let mut i: usize = lo;
    assert(text@.subrange(lo as int, lo as int) =~= Seq::<u8>::empty());
    assert(segs.push(Seq::<u8>::empty()) =~= seq![Seq::<u8>::empty()]);
    while i < hi
        invariant
            lo <= start <= i <= hi <= text@.len(),
            t == text@.subrange(lo as int, hi as int),
            starts@.len() == segs.len(),
            ends@.len() == segs.len(),
            forall|j: int| 0 <= j < segs.len() ==> #[trigger] starts@[j] <= ends@[j] <= text@.len(),
            forall|j: int| 0 <= j < segs.len() ==> #[trigger] segs[j] == text@.subrange(starts@[j] as int, ends@[j] as int),
            split(text@.subrange(lo as int, i as int)) == segs.push(text@.subrange(start as int, i as int)),
        decreases hi - i,
    {
        proof {
            assert(text@.subrange(lo as int, i + 1).drop_last() =~= text@.subrange(lo as int, i as int));
            lemma_split_nonempty(text@.subrange(lo as int, i as int));
        }
        if text[i] == SEPARATOR {
            proof {
                segs = segs.push(text@.subrange(start as int, i as int));
            }
            starts.push(start);
            ends.push(i);
            start = i + 1;
            assert(text@.subrange(start as int, i + 1) =~= Seq::<u8>::empty());
            assert(split(text@.subrange(lo as int, i + 1)) =~= segs.push(text@.subrange(start as int, i + 1)));
        } else {
            assert(text@.subrange(start as int, i + 1) =~= text@.subrange(start as int, i as int).push(text[i as int]));
            assert(split(text@.subrange(lo as int, i + 1)) =~= segs.push(text@.subrange(start as int, i + 1)));
        }
        i += 1;
    }
    proof {
        segs = segs.push(text@.subrange(start as int, hi as int));
    }
    starts.push(start);
    ends.push(hi);
    let ghost ws = split(t);
    assert(ws == segs);
    if starts.len() < 2 {
        return Err(DecodeError::General(String::from_str("Input must be at least two words long.")));
    }
    let mut out: Vec<u8> = Vec::with_capacity(starts.len());
    let mut j: usize = 0;
    while j < starts.len()
        invariant
            j <= ws.len(),
            ws == split(trim(text@)),
            ws.len() >= 2,
            text@ == words.spec_bytes(),
            starts@.len() == ws.len(),
            ends@.len() == ws.len(),
            forall|k: int| 0 <= k < ws.len() ==> #[trigger] starts@[k] <= ends@[k] <= text@.len(),
            forall|k: int| 0 <= k < ws.len() ==> #[trigger] ws[k] == text@.subrange(starts@[k] as int, ends@[k] as int),
            out@.len() == j,
            forall|k: int| 0 <= k < j ==> (#[trigger] word_value(ws[k])).is_some(),
            forall|k: int| 0 <= k < j ==> out@[k] == (#[trigger] word_value(ws[k])).unwrap(),
        decreases ws.len() - j,
    {
        match decode_word_at(text, starts[j], ends[j]) {
            None => {
                assert(decoding(text@) == Err::<Seq<u8>, DecodeFault>(DecodeFault::Format)) by {
                    assert(word_value(ws[j as int]).is_none());
                    assert(words_value(ws).is_none());
                    assert(split(trim(text@)) == ws);
                }
                return Err(DecodeError::General(String::from_str("Invalid word detected in input.")));
            },
            Some(b) => {
                out.push(b);
            },
        }
        j += 1;
    }
    assert(out@ =~= Seq::new(ws.len(), |k: int| word_value(ws[k]).unwrap()));
    if calculate_crc8(out.as_slice()) != 0 {
        return Err(DecodeError::CRCError);
    }
    out.pop();
    assert(out@ =~= words_value(ws).unwrap().drop_last());
    Ok(out)
}

/// Empty data encodes as empty text, and empty text does not decode.
pub proof fn lemma_empty_input()
    ensures
        encoding(Seq::empty()) == Seq::<u8>::empty(),
        decoding(Seq::empty()) is Err,
{
    assert(trim_start(Seq::<u8>::empty()) == Seq::<u8>::empty());
    assert(trim(Seq::<u8>::empty()) == Seq::<u8>::empty());
    assert(split(Seq::<u8>::empty()).len() == 1);
}

} // verus!
