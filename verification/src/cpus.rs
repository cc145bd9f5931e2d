//! The CPUs a process may run on, from its affinity mask.

use vstd::prelude::*;

verus! {

/// The CPUs set among the first `n` bits of `mask`, ascending.
pub open spec fn set_cpus_below(mask: Seq<bool>, n: int) -> Seq<usize>
    decreases n,
{
    if n <= 0 {
        seq![]
    } else if mask[n - 1] {
        set_cpus_below(mask, n - 1).push((n - 1) as usize)
    } else {
        set_cpus_below(mask, n - 1)
    }
}

/// The CPUs set in `mask` (bit `i` stands for CPU `i`), ascending.
pub open spec fn set_cpus(mask: Seq<bool>) -> Seq<usize> {
    set_cpus_below(mask, mask.len() as int)
}

/// `0..n`.
pub open spec fn first_cpus(n: usize) -> Seq<usize> {
    Seq::new(n as nat, |i: int| i as usize)
}

/// The CPUs the process may run on: those set in its affinity mask when the
/// mask is known and not empty; otherwise `0..n` with `n` the available
/// parallelism, or a single CPU when that is unknown.
pub open spec fn spec_allowed_cpus(mask: Option<Seq<bool>>, parallelism: Option<usize>) -> Seq<usize> {
    let fallback = match parallelism {
        Some(n) => n,
        None => 1,
    };
    match mask {
        Some(m) => if set_cpus(m).len() > 0 {
            set_cpus(m)
        } else {
            first_cpus(fallback)
        },
        None => first_cpus(fallback),
    }
}

proof fn lemma_set_cpus_below(mask: Seq<bool>, n: int)
    requires
        0 <= n <= mask.len(),
        mask.len() <= usize::MAX,
    ensures
        forall|i: int, j: int|
            0 <= i < j < set_cpus_below(mask, n).len() ==> #[trigger] set_cpus_below(mask, n)[i]
                < #[trigger] set_cpus_below(mask, n)[j],
        forall|i: int|
            0 <= i < set_cpus_below(mask, n).len() ==> #[trigger] set_cpus_below(mask, n)[i] < n
                && mask[set_cpus_below(mask, n)[i] as int],
        forall|c: int| 0 <= c < n && mask[c] ==> set_cpus_below(mask, n).contains(c as usize),
    decreases n,
{
    if n > 0 {
        lemma_set_cpus_below(mask, n - 1);
        let prev = set_cpus_below(mask, n - 1);
        if mask[n - 1] {
            let cur = prev.push((n - 1) as usize);
            assert(((n - 1) as usize) as int == n - 1);
            assert forall|c: int| 0 <= c < n && mask[c] implies cur.contains(c as usize) by {
                if c == n - 1 {
                    assert(cur[prev.len() as int] == c as usize);
                } else {
                    let k = choose|k: int| 0 <= k < prev.len() && prev[k] == c as usize;
                    assert(cur[k] == c as usize);
                }
            }
        }
    }
}

/// The CPUs set in `mask`, ascending.
fn cpus_in_mask(mask: &Vec<bool>) -> (v: Vec<usize>)
    ensures
        v@ == set_cpus(mask@),
{
    let mut v: Vec<usize> = Vec::new();
    let mut i: usize = 0;
    while i < mask.len()
        invariant
            i <= mask@.len(),
            v@ == set_cpus_below(mask@, i as int),
        decreases mask@.len() - i,
    {
        if mask[i] {
            v.push(i);
        }
        i += 1;
    }
    v
}

/// Whether the affinity mask gives no CPU: it is unavailable, or has no bit
/// set.
pub open spec fn uses_fallback(mask: Option<Seq<bool>>) -> bool {
    match mask {
        Some(m) => forall|c: int| 0 <= c < m.len() ==> !m[c],
        None => true,
    }
}

/// `v` is `0, 1, ..., n - 1`.
pub open spec fn is_first_n(v: Seq<usize>, n: int) -> bool {
    &&& v.len() == n
    &&& forall|i: int| 0 <= i < n ==> v[i] == i
}

/// CPUs the calling process may run on, ascending, from its affinity mask
/// (`None` where no mask is available) and the available parallelism (`None`
/// where unknown). Respects restrictions of the parent environment (systemd
/// `AllowedCPUs=`, container cpusets, `taskset`).
pub fn allowed_cpus_from(mask: Option<&Vec<bool>>, parallelism: Option<usize>) -> (v: Vec<usize>)
    requires
        parallelism matches Some(n) ==> n >= 1,
    ensures
        v@ == spec_allowed_cpus(
            match mask {
                Some(m) => Some(m@),
                None => None,
            },
            parallelism,
        ),
        uses_fallback(
            match mask {
                Some(m) => Some(m@),
                None => None,
            },
        ) ==> is_first_n(
            v@,
            match parallelism {
                Some(n) => n as int,
                None => 1,
            },
        ),
{
    if let Some(m) = mask {
        let cpus = cpus_in_mask(m);
        proof {
            lemma_fallback_mask_has_no_cpu(m@);
        }
        if cpus.len() > 0 {
            return cpus;
        }
    }
    let fallback = match parallelism {
        Some(n) => n,
        None => 1,
    };
    let mut v: Vec<usize> = Vec::new();
    let mut i: usize = 0;
    while i < fallback
        invariant
            i <= fallback,
            v@ == first_cpus(i),
        decreases fallback - i,
    {
        v.push(i);
        i += 1;
        assert(v@ =~= first_cpus(i));
    }
    assert(v@ =~= first_cpus(fallback));
    v
}

/// The allowed CPUs are never empty and strictly ascending, and each is set
/// in the mask whenever the mask is used.
pub proof fn law_allowed_cpus_non_empty_ascending(mask: Option<Seq<bool>>, parallelism: Option<usize>)
    requires
        parallelism matches Some(n) ==> n >= 1,
        mask matches Some(m) ==> m.len() <= usize::MAX,
    ensures
        spec_allowed_cpus(mask, parallelism).len() > 0,
        forall|i: int, j: int|
            0 <= i < j < spec_allowed_cpus(mask, parallelism).len() ==> #[trigger] spec_allowed_cpus(
                mask,
                parallelism,
            )[i] < #[trigger] spec_allowed_cpus(mask, parallelism)[j],
{
    if let Some(m) = mask {
        lemma_set_cpus_below(m, m.len() as int);
    }
}

/// When the mask has CPUs set, exactly those are allowed.
pub proof fn law_allowed_cpus_are_the_mask(mask: Seq<bool>, parallelism: Option<usize>)
    requires
        mask.len() <= usize::MAX,
        exists|c: int| 0 <= c < mask.len() && mask[c],
    ensures
        forall|c: int|
            0 <= c < mask.len() ==> (mask[c] <==> spec_allowed_cpus(Some(mask), parallelism).contains(
                c as usize,
            )),
{
    lemma_set_cpus_below(mask, mask.len() as int);
    let c0 = choose|c: int| 0 <= c < mask.len() && mask[c];
    assert(set_cpus(mask).contains(c0 as usize));
    assert forall|c: int| 0 <= c < mask.len() implies (mask[c] <==> spec_allowed_cpus(
        Some(mask),
        parallelism,
    ).contains(c as usize)) by {
        if set_cpus(mask).contains(c as usize) {
            let k = choose|k: int| 0 <= k < set_cpus(mask).len() && set_cpus(mask)[k] == c as usize;
            assert(mask[set_cpus(mask)[k] as int]);
        }
    }
}

proof fn lemma_no_bit_no_cpu(mask: Seq<bool>, n: int)
    requires
        0 <= n <= mask.len(),
        forall|c: int| 0 <= c < mask.len() ==> !mask[c],
    ensures
        set_cpus_below(mask, n).len() == 0,
    decreases n,
{
    if n > 0 {
        lemma_no_bit_no_cpu(mask, n - 1);
    }
}

proof fn lemma_fallback_mask_has_no_cpu(mask: Seq<bool>)
    ensures
        uses_fallback(Some(mask)) ==> set_cpus(mask).len() == 0,
{
    if uses_fallback(Some(mask)) {
        let o: Option<Seq<bool>> = Some(mask);
        assert(o matches Some(m) && m == mask);
        assert(forall|c: int| 0 <= c < mask.len() ==> !mask[c]);
        lemma_no_bit_no_cpu(mask, mask.len() as int);
    }
}

/// Without a usable affinity mask (none available, or no bit set) the
/// process may run on CPUs `0..n`, all `n` of them, where `n` is the
/// available parallelism, or on CPU `0` alone when that is unknown.
pub proof fn law_fallback_is_first_cpus(mask: Option<Seq<bool>>, parallelism: Option<usize>)
    requires
        uses_fallback(mask),
    ensures
        is_first_n(
            spec_allowed_cpus(mask, parallelism),
            match parallelism {
                Some(n) => n as int,
                None => 1,
            },
        ),
{
    if let Some(m) = mask {
        lemma_no_bit_no_cpu(m, m.len() as int);
    }
}

} // verus!
