//! Short channel identifiers: the canonical `BLOCKxTXxOUT` string form,
//! its grammar, and the packed 64-bit cache key.

use vstd::prelude::*;

verus! {

/// Is `c` a decimal digit?
pub open spec fn is_dec_digit(c: char) -> bool {
    48 <= c as u32 && c as u32 <= 57
}

/// The numeric value of a decimal digit character.
pub open spec fn digit_val(c: char) -> nat {
    (c as u32 - 48) as nat
}

/// Every character of `s` is a decimal digit.
pub open spec fn all_dec_digits(s: Seq<char>) -> bool {
    forall|k: int| 0 <= k < s.len() ==> is_dec_digit(#[trigger] s[k])
}

/// The numeric value of a digit string, most significant digit first.
pub open spec fn dec_val(s: Seq<char>) -> nat
    decreases s.len(),
{
    if s.len() == 0 {
        0
    } else {
        dec_val(s.drop_last()) * 10 + digit_val(s.last())
    }
}

/// A short channel identifier: the funding transaction's block height,
/// its index within that block, and the funding output number.
#[derive(Clone, Copy, Debug, PartialEq, Eq, Structural)]
pub struct ShortChannelId {
    pub block: u32,
    pub txindex: u32,
    pub outnum: u16,
}

/// `i` and `j` are the positions of the two separators of a structurally
/// well-formed `BLOCKxTXxOUT` string: three nonempty digit runs.
pub open spec fn scid_split_at(s: Seq<char>, i: int, j: int) -> bool {
    &&& 1 <= i
    &&& i + 1 < j
    &&& j + 1 < s.len()
    &&& s[i] == 'x'
    &&& s[j] == 'x'
    &&& all_dec_digits(s.subrange(0, i))
    &&& all_dec_digits(s.subrange(i + 1, j))
    &&& all_dec_digits(s.subrange(j + 1, s.len() as int))
}

/// The three digit runs' values fit the packed 24/24/16-bit layout.
pub open spec fn scid_in_range(s: Seq<char>, i: int, j: int) -> bool {
    &&& dec_val(s.subrange(0, i)) < 0x1000000
    &&& dec_val(s.subrange(i + 1, j)) < 0x1000000
    &&& dec_val(s.subrange(j + 1, s.len() as int)) < 0x10000
}

/// A canonically-formatted short channel id string: three nonempty digit
/// runs separated by `x`, with each value fitting its field.
pub open spec fn is_valid_scid(s: Seq<char>) -> bool {
    exists|i: int, j: int| scid_split_at(s, i, j) && scid_in_range(s, i, j)
}

/// The components of a structurally well-formed id string.
pub open spec fn scid_fields(s: Seq<char>) -> (nat, nat, nat) {
    let (i, j) = choose|i: int, j: int| scid_split_at(s, i, j);
    (
        dec_val(s.subrange(0, i)),
        dec_val(s.subrange(i + 1, j)),
        dec_val(s.subrange(j + 1, s.len() as int)),
    )
}

/// The packed 64-bit cache key of a structurally well-formed id string.
pub open spec fn scid_key_of(s: Seq<char>) -> u64 {
    let (b, t, o) = scid_fields(s);
    ((b as u64) << 40) | ((t as u64) << 16) | (o as u64)
}

/// In a structurally well-formed id every position other than the two
/// separators holds a digit.
pub proof fn lemma_nonsep_is_digit(s: Seq<char>, i: int, j: int, p: int)
    requires
        scid_split_at(s, i, j),
        0 <= p < s.len(),
        p != i,
        p != j,
    ensures
        is_dec_digit(s[p]),
{
    if p < i {
        assert(s.subrange(0, i)[p] == s[p]);
    } else if p < j {
        assert(s.subrange(i + 1, j)[p - (i + 1)] == s[p]);
    } else {
        assert(s.subrange(j + 1, s.len() as int)[p - (j + 1)] == s[p]);
    }
}

/// The separator decomposition of an id string is unique.
pub proof fn lemma_split_unique(s: Seq<char>, i1: int, j1: int, i2: int, j2: int)
    requires
        scid_split_at(s, i1, j1),
        scid_split_at(s, i2, j2),
    ensures
        i1 == i2,
        j1 == j2,
{
    assert(!is_dec_digit('x'));
    if i2 != i1 && i2 != j1 {
        lemma_nonsep_is_digit(s, i1, j1, i2);
    }
    if j2 != i1 && j2 != j1 {
        lemma_nonsep_is_digit(s, i1, j1, j2);
    }
    if i1 != i2 && i1 != j2 {
        lemma_nonsep_is_digit(s, i2, j2, i1);
    }
    if j1 != i2 && j1 != j2 {
        lemma_nonsep_is_digit(s, i2, j2, j1);
    }
}

/// A digit string's value only grows as the string is extended to the
/// right.
proof fn lemma_dec_val_prefix_le(s: Seq<char>, a: int, b: int)
    requires
        0 <= a <= b <= s.len(),
    ensures
        dec_val(s.subrange(0, a)) <= dec_val(s.subrange(0, b)),
    decreases b - a,
{
    if a < b {
        lemma_dec_val_prefix_le(s, a, b - 1);
        let pre = s.subrange(0, b - 1);
        let cur = s.subrange(0, b);
        assert(cur.drop_last() =~= pre);
        assert(dec_val(cur) == dec_val(pre) * 10 + digit_val(cur.last()));
    }
}

impl ShortChannelId {
    /// The components fit the packed 24/24/16-bit layout.
    pub open spec fn wf(&self) -> bool {
        self.block < 0x1000000 && self.txindex < 0x1000000
    }

    /// The packed 64-bit form: block height in the top 24 bits, then the
    /// transaction index, then the output number.  Used as the cache key.
    pub open spec fn key(&self) -> u64 {
        ((self.block as u64) << 40) | ((self.txindex as u64) << 16) | (self.outnum as u64)
    }

    /// Packs the identifier into its 64-bit cache key.
    pub fn to_key(&self) -> (k: u64)
        ensures
            k == self.key(),
    {
        ((self.block as u64) << 40) | ((self.txindex as u64) << 16) | (self.outnum as u64)
    }
}

/// Parses the digit run `s[from..to]` as a decimal value of at most
/// `max`: succeeds exactly when the run is all digits and its value is
/// within bound.
fn parse_dec_segment(s: &str, from: usize, to: usize, max: u64) -> (r: Option<u64>)
    requires
        from <= to <= s@.len(),
        max < 0x100000000,
    ensures
        r is Some <==> (all_dec_digits(s@.subrange(from as int, to as int)) && dec_val(
            s@.subrange(from as int, to as int),
        ) <= max),
        r matches Some(v) ==> v == dec_val(s@.subrange(from as int, to as int)),
{
    let ghost seg = s@.subrange(from as int, to as int);
    let mut i: usize = from;
    let mut acc: u64 = 0;
    while i < to
        invariant
            from <= i <= to <= s@.len(),
            max < 0x100000000,
            seg == s@.subrange(from as int, to as int),
            all_dec_digits(seg.subrange(0, i - from)),
            acc == dec_val(seg.subrange(0, i - from)),
            acc <= max,
        decreases to - i,
    {
        let c = s.get_char(i);
        let cv = c as u32;
        proof {
            assert(seg[i - from] == s@[i as int]);
        }
        if cv < 48 || cv > 57 {
            return None;
        }
        let d = (cv - 48) as u64;
        let next = acc * 10 + d;
        proof {
            let pre = seg.subrange(0, i - from);
            let cur = seg.subrange(0, i + 1 - from);
            assert(cur.drop_last() =~= pre);
            assert(cur.last() == seg[i - from]);
            assert(dec_val(cur) == dec_val(pre) * 10 + digit_val(cur.last()));
        }
        if next > max {
            proof {
                lemma_dec_val_prefix_le(seg, i + 1 - from, seg.len() as int);
                assert(seg.subrange(0, seg.len() as int) =~= seg);
            }
            return None;
        }
        acc = next;
        i = i + 1;
    }
    proof {
        assert(seg.subrange(0, seg.len() as int) =~= seg);
    }
    Some(acc)
}

/// Parses a canonically-formatted short channel id string, the form in
/// which forward-event payloads carry channel references.  Returns `None`
/// exactly on malformed input.
pub fn parse_short_channel_id(s: &str) -> (r: Option<ShortChannelId>)
    ensures
        r is Some <==> is_valid_scid(s@),
        r matches Some(sc) ==> sc.wf() && (sc.block as nat, sc.txindex as nat, sc.outnum as nat)
            == scid_fields(s@),
{
    let n = s.unicode_len();
    let mut first: Option<usize> = None;
    let mut second: Option<usize> = None;
    let mut extra: bool = false;
    let mut k: usize = 0;
    while k < n
        invariant
            n == s@.len(),
            k <= n,
            first is None ==> second is None && (forall|p: int| 0 <= p < k ==> s@[p] != 'x'),
            first matches Some(f) ==> f < k && s@[f as int] == 'x' && (forall|p: int|
                0 <= p < f ==> s@[p] != 'x'),
            first is Some && second is None ==> (forall|p: int|
                (first->0 as int) < p < k ==> s@[p] != 'x'),
            second matches Some(g) ==> first is Some && (first->0 as int) < g < k && s@[g as int]
                == 'x' && (forall|p: int| (first->0 as int) < p < g ==> s@[p] != 'x'),
            second is Some && !extra ==> (forall|p: int|
                (second->0 as int) < p < k ==> s@[p] != 'x'),
            extra ==> second is Some && (exists|p: int|
                (second->0 as int) < p < k && s@[p] == 'x'),
        decreases n - k,
    {
        let c = s.get_char(k);
        if c == 'x' {
            if first.is_none() {
                first = Some(k);
            } else if second.is_none() {
                second = Some(k);
            } else {
                extra = true;
            }
        }
        k = k + 1;
    }
    proof {
        assert(!is_dec_digit('x'));
    }
    if extra {
        proof {
            let g = second->0 as int;
            let p = choose|p: int| g < p < n && s@[p] == 'x';
            let f = first->0 as int;
            assert forall|i: int, j: int| !(scid_split_at(s@, i, j) && scid_in_range(
                s@,
                i,
                j,
            )) by {
                if scid_split_at(s@, i, j) {
                    if f != i && f != j {
                        lemma_nonsep_is_digit(s@, i, j, f);
                    }
                    if g != i && g != j {
                        lemma_nonsep_is_digit(s@, i, j, g);
                    }
                    if p != i && p != j {
                        lemma_nonsep_is_digit(s@, i, j, p);
                    }
                }
            }
        }
        return None;
    }
    let f = match first {
        Some(f) => f,
        None => {
            proof {
                assert forall|i: int, j: int| !(scid_split_at(s@, i, j) && scid_in_range(
                    s@,
                    i,
                    j,
                )) by {}
            }
            return None;
        },
    };
    let g = match second {
        Some(g) => g,
        None => {
            proof {
                assert forall|i: int, j: int| !(scid_split_at(s@, i, j) && scid_in_range(
                    s@,
                    i,
                    j,
                )) by {
                    if scid_split_at(s@, i, j) {
                        if f as int != i && f as int != j {
                            lemma_nonsep_is_digit(s@, i, j, f as int);
                        }
                    }
                }
            }
            return None;
        },
    };
    // at this point the separator positions are exactly f and g
    proof {
        assert forall|i: int, j: int| scid_split_at(s@, i, j) implies i == f && j == g by {
            assert(s@[i] == 'x');
            assert(s@[j] == 'x');
        }
    }
    if f < 1 || g - f < 2 || n - g < 2 {
        return None;
    }
    let b = match parse_dec_segment(s, 0, f, 0xFFFFFF) {
        Some(v) => v,
        None => {
            return None;
        },
    };
    let t = match parse_dec_segment(s, f + 1, g, 0xFFFFFF) {
        Some(v) => v,
        None => {
            return None;
        },
    };
    let o = match parse_dec_segment(s, g + 1, n, 0xFFFF) {
        Some(v) => v,
        None => {
            return None;
        },
    };
    proof {
        assert(scid_split_at(s@, f as int, g as int));
        assert(scid_in_range(s@, f as int, g as int));
        let (i, j) = choose|i: int, j: int| scid_split_at(s@, i, j);
        assert(scid_split_at(s@, i, j));
        lemma_split_unique(s@, i, j, f as int, g as int);
    }
    Some(
        ShortChannelId {
            block: b as u32,
            txindex: t as u32,
            outnum: o as u16,
        },
    )
}

/// Distinct well-formed identifiers pack to distinct 64-bit keys, so the
/// channel-to-peer cache, keyed by the packed form, never conflates two
/// channels.
pub proof fn lemma_key_injective(a: ShortChannelId, b: ShortChannelId)
    requires
        a.wf(),
        b.wf(),
        a.key() == b.key(),
    ensures
        a == b,
{
    let ab = a.block as u64;
    let at = a.txindex as u64;
    let ao = a.outnum as u64;
    let bb = b.block as u64;
    let bt = b.txindex as u64;
    let bo = b.outnum as u64;
    assert((ab < 0x1000000 && at < 0x1000000 && ao < 0x10000 && bb < 0x1000000 && bt < 0x1000000
        && bo < 0x10000 && ((ab << 40) | (at << 16) | ao) == ((bb << 40) | (bt << 16) | bo)) ==> (ab
        == bb && at == bt && ao == bo)) by (bit_vector);
}

} // verus!
