//! Comparing trace lines against the nestest reference log.
use vstd::prelude::*;

use crate::text::{chars_of, is_space, is_space_char, occurs_at, trim_space_end};

verus! {

/// `i` is the first position of `needle` in `hay`.
pub open spec fn first_occurrence(hay: Seq<char>, needle: Seq<char>, i: int) -> bool {
    occurs_at(hay, needle, i) && forall|j: int| 0 <= j < i ==> !occurs_at(hay, needle, j)
}

/// The CPU columns of a trace line: everything before the first `PPU:`
/// (trailing white space dropped), or the whole line when it has none.
pub open spec fn cpu_portion(line: Seq<char>) -> Seq<char> {
    if exists|i: int| occurs_at(line, "PPU:"@, i) {
        trim_space_end(line.take(choose|i: int| first_occurrence(line, "PPU:"@, i)))
    } else {
        line
    }
}

/// Whether `cs[i..]` starts with `PPU:`.
fn ppu_at(cs: &[char], i: usize) -> (r: bool)
    requires
        i <= cs@.len(),
    ensures
        r == occurs_at(cs@, "PPU:"@, i as int),
{
    proof {
        reveal_strlit("PPU:");
    }
    if cs.len() - i < 4 {
        return false;
    }
    let r = cs[i] == 'P' && cs[i + 1] == 'P' && cs[i + 2] == 'U' && cs[i + 3] == ':';
    proof {
        if r {
            assert(cs@.subrange(i as int, i + 4) =~= "PPU:"@);
        } else {
            let sub = cs@.subrange(i as int, i + 4);
            if sub == "PPU:"@ {
                assert(sub[0] == 'P' && sub[1] == 'P' && sub[2] == 'U' && sub[3] == ':');
            }
        }
    }
    r
}

/// The CPU columns of a trace line, as characters.
fn cpu_columns(line: &str) -> (r: Vec<char>)
    ensures
        r@ == cpu_portion(line@),
{
    proof {
        reveal_strlit("PPU:");
    }
    let cs = chars_of(line);
    let mut i: usize = 0;
    while i < cs.len()
        invariant
            cs@ == line@,
            i <= cs@.len(),
            forall|j: int| 0 <= j < i ==> !occurs_at(line@, "PPU:"@, j),
        decreases cs@.len() - i,
    {
        if ppu_at(&cs, i) {
            let mut n: usize = i;
            assert(first_occurrence(line@, "PPU:"@, i as int));
            proof {
                let c = choose|c: int| first_occurrence(line@, "PPU:"@, c);
                if c < i as int {
                    assert(!occurs_at(line@, "PPU:"@, c));
                }
                if c > i as int {
                    assert(!occurs_at(line@, "PPU:"@, i as int));
                }
                assert(cs@.take(n as int) =~= line@.take(c));
            }
            while n > 0 && is_space_char(cs[n - 1])
                invariant
                    n <= i <= cs@.len(),
                    trim_space_end(cs@.take(n as int)) == trim_space_end(cs@.take(i as int)),
                decreases n,
            {
                assert(cs@.take(n as int).drop_last() =~= cs@.take(n - 1));
                n = n - 1;
            }
            let mut out: Vec<char> = Vec::new();
            let mut k: usize = 0;
            while k < n
                invariant
                    k <= n <= cs@.len(),
                    out@ == cs@.take(k as int),
                decreases n - k,
            {
                out.push(cs[k]);
                k = k + 1;
                assert(out@ =~= cs@.take(k as int));
            }
            return out;
        }
        i = i + 1;
    }
    proof {
        if exists|j: int| occurs_at(line@, "PPU:"@, j) {
            let j = choose|j: int| occurs_at(line@, "PPU:"@, j);
            assert(j < cs@.len());
        }
    }
    cs
}

/// Whether two trace lines agree in their CPU columns (the PPU columns
/// depend on the implementation and are ignored).
pub fn cpu_columns_match(ours: &str, reference: &str) -> (r: bool)
    ensures
        r == (cpu_portion(ours@) == cpu_portion(reference@)),
{
    let a = cpu_columns(ours);
    let b = cpu_columns(reference);
    if a.len() != b.len() {
        return false;
    }
    let mut i: usize = 0;
    while i < a.len()
        invariant
            a@ == cpu_portion(ours@),
            b@ == cpu_portion(reference@),
            a@.len() == b@.len(),
            i <= a@.len(),
            forall|k: int| 0 <= k < i ==> a@[k] == b@[k],
        decreases a@.len() - i,
    {
        if a[i] != b[i] {
            return false;
        }
        i = i + 1;
    }
    assert(a@ =~= b@);
    true
}

} // verus!
