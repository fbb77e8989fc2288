use vstd::prelude::*;
use vstd::string::StrSliceExecFns;
use vstd::string::StringExecFns;

verus! {

/// `n` occurs in `h` starting at position `i`.
pub open spec fn occurs_at(h: Seq<char>, n: Seq<char>, i: int) -> bool {
    &&& 0 <= i
    &&& i + n.len() <= h.len()
    &&& h.subrange(i, i + n.len() as int) == n
}

/// `n` occurs somewhere in `h` as a contiguous run of characters.
pub open spec fn contains_seq(h: Seq<char>, n: Seq<char>) -> bool {
    exists|i: int| occurs_at(h, n, i)
}

/// Whether `n` occurs in `h` starting exactly at position `i`.
fn match_at(h: &str, n: &str, i: usize) -> (r: bool)
    requires
        i + n@.len() <= h@.len(),
    ensures
        r == occurs_at(h@, n@, i as int),
{
    let hlen: usize = h.unicode_len();
    let nlen: usize = n.unicode_len();
    let mut j: usize = 0;
    while j < nlen
        invariant
            hlen == h@.len(),
            nlen == n@.len(),
            i + nlen <= hlen,
            0 <= j <= nlen,
            forall|k: int| 0 <= k < j ==> h@[i + k] == n@[k],
        decreases nlen - j,
    {
        if h.get_char(i + j) != n.get_char(j) {
            proof {
                let s = h@.subrange(i as int, i as int + n@.len() as int);
                assert(s[j as int] == h@[i + j]);
                assert(s != n@);
            }
            return false;
        }
        j += 1;
    }
    proof {
        let s = h@.subrange(i as int, i as int + n@.len() as int);
        assert(s =~= n@) by {
            assert(forall|k: int| 0 <= k < n@.len() ==> s[k] == h@[i + k]);
        }
    }
    true
}

/// Substring test: whether `n` occurs anywhere in `h`, by characters.
pub fn str_contains(h: &str, n: &str) -> (r: bool)
    ensures
        r == contains_seq(h@, n@),
{
    let hlen: usize = h.unicode_len();
    let nlen: usize = n.unicode_len();
    if nlen > hlen {
        proof {
            assert(forall|i: int| !occurs_at(h@, n@, i));
        }
        return false;
    }
    let end: usize = hlen - nlen;
    let mut i: usize = 0;
    loop
        invariant
            hlen == h@.len(),
            nlen == n@.len(),
            nlen <= hlen,
            end == hlen - nlen,
            0 <= i <= end,
            forall|k: int| 0 <= k < i ==> !occurs_at(h@, n@, k),
        decreases end - i,
    {
        if match_at(h, n, i) {
            return true;
        }
        if i == end {
            proof {
                assert(forall|k: int| occurs_at(h@, n@, k) ==> 0 <= k <= end);
            }
            return false;
        }
        i += 1;
    }
}

/// The character the widget names carry in place of an ordinary space.
pub open spec fn no_break_space() -> char {
    '\u{a0}'
}

/// `s` with every no-break space replaced by an ASCII underscore; every
/// other character is kept as it is.
pub open spec fn normalized(s: Seq<char>) -> Seq<char> {
    s.map_values(|c: char| if c == no_break_space() { '_' } else { c })
}

/// Replace every no-break space in `s` with an underscore.
pub fn normalize_name(s: &str) -> (r: String)
    ensures
        r@ == normalized(s@),
{
    let len: usize = s.unicode_len();
    let mut out = String::new();
    let mut i: usize = 0;
    while i < len
        invariant
            len == s@.len(),
            0 <= i <= len,
            out@ == normalized(s@.subrange(0, i as int)),
        decreases len - i,
    {
        let c = s.get_char(i);
        if c == '\u{a0}' {
            out.append("_");
            proof {
                reveal_strlit("_");
            }
        } else {
            let piece = s.substring_char(i, i + 1);
            out.append(piece);
        }
        proof {
            let prefix = s@.subrange(0, i as int);
            let longer = s@.subrange(0, i + 1);
            assert(longer =~= prefix.push(s@[i as int]));
            assert(normalized(longer) =~= normalized(prefix).push(
                if s@[i as int] == no_break_space() {
                    '_'
                } else {
                    s@[i as int]
                },
            ));
            assert(s@.subrange(i as int, i + 1)[0] == s@[i as int]);
            assert(out@ =~= normalized(longer));
        }
        i += 1;
    }
    proof {
        assert(s@.subrange(0, len as int) =~= s@);
    }
    out
}

} // verus!
