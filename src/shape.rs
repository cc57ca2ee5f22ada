use vstd::prelude::*;

verus! {

/// One dimension of a tensor shape as a model declares it: either bound to a
/// size when the model is loaded, or left open until data is supplied.
#[derive(Clone, Copy, Debug, PartialEq, Eq, Structural)]
pub enum Dim {
    Fixed(u64),
    Dynamic,
}

/// The number of elements in a tensor of the given dimensions.
pub open spec fn product(s: Seq<u64>) -> int
    decreases s.len(),
{
    if s.len() == 0 {
        1
    } else {
        product(s.drop_last()) * s.last()
    }
}

/// The declared shape with every open dimension counted as 1.
pub open spec fn fixed_part(d: Seq<Dim>) -> Seq<u64> {
    Seq::new(
        d.len(),
        |i: int|
            match d[i] {
                Dim::Fixed(n) => n,
                Dim::Dynamic => 1u64,
            },
    )
}

/// Whether some dimension before index `i` is open.
pub open spec fn dynamic_before(d: Seq<Dim>, i: int) -> bool {
    exists|j: int| 0 <= j < i && d[j] == Dim::Dynamic
}

/// The size that the first open dimension takes for `len` elements.
pub open spec fn open_size(d: Seq<Dim>, len: u64) -> u64 {
    if product(fixed_part(d)) == 0 {
        0
    } else {
        (len as int / product(fixed_part(d))) as u64
    }
}

/// The concrete shape of `len` elements laid out under the declared shape `d`:
/// fixed dimensions keep their size, the first open dimension absorbs what the
/// length leaves over, and any further open dimension is 1.
pub open spec fn resolve(d: Seq<Dim>, len: u64) -> Seq<u64> {
    Seq::new(
        d.len(),
        |i: int|
            match d[i] {
                Dim::Fixed(n) => n,
                Dim::Dynamic => if dynamic_before(d, i) {
                    1u64
                } else {
                    open_size(d, len)
                },
            },
    )
}

/// Whether `len` elements fill the declared shape `d` exactly.
pub open spec fn fits(d: Seq<Dim>, len: u64) -> bool {
    product(resolve(d, len)) == len as int
}

pub proof fn lemma_product_nonneg(s: Seq<u64>)
    ensures
        product(s) >= 0,
    decreases s.len(),
{
    if s.len() > 0 {
        lemma_product_nonneg(s.drop_last());
        let a = product(s.drop_last());
        let b = s.last() as int;
        assert(a * b >= 0) by (nonlinear_arith)
            requires
                a >= 0,
                b >= 0,
        ;
    }
}

pub proof fn lemma_product_zero(s: Seq<u64>, i: int)
    requires
        0 <= i < s.len(),
        s[i] == 0,
    ensures
        product(s) == 0,
    decreases s.len(),
{
    if i < s.len() - 1 {
        lemma_product_zero(s.drop_last(), i);
    }
}

/// With no zero dimension, dropping trailing dimensions never adds elements.
pub proof fn lemma_product_prefix(s: Seq<u64>, i: int)
    requires
        0 <= i <= s.len(),
        forall|j: int| 0 <= j < s.len() ==> s[j] > 0,
    ensures
        product(s.take(i)) <= product(s),
    decreases s.len(),
{
    if i == s.len() {
        assert(s.take(i) =~= s);
    } else {
        let t = s.drop_last();
        lemma_product_prefix(t, i);
        assert(t.take(i) =~= s.take(i));
        lemma_product_nonneg(t);
        let a = product(t);
        let b = s.last() as int;
        assert(a <= a * b) by (nonlinear_arith)
            requires
                a >= 0,
                b >= 1,
        ;
    }
}

/// The number of elements of a shape, or `None` where it exceeds `u64`.
pub fn checked_product(dims: &Vec<u64>) -> (r: Option<u64>)
    ensures
        match r {
            Some(p) => p as int == product(dims@),
            None => product(dims@) > u64::MAX,
        },
{
    let mut i: usize = 0;
    while i < dims.len()
        invariant
            i <= dims.len(),
            forall|j: int| 0 <= j < i ==> dims@[j] > 0,
        decreases dims.len() - i,
    {
        if dims[i] == 0 {
            proof {
                lemma_product_zero(dims@, i as int);
            }
            return Some(0);
        }
        i = i + 1;
    }
    let mut acc: u64 = 1;
    let mut k: usize = 0;
    while k < dims.len()
        invariant
            k <= dims.len(),
            forall|j: int| 0 <= j < dims@.len() ==> dims@[j] > 0,
            acc as int == product(dims@.take(k as int)),
        decreases dims.len() - k,
    {
        proof {
            assert(dims@.take(k + 1).drop_last() =~= dims@.take(k as int));
        }
        match acc.checked_mul(dims[k]) {
            Some(v) => {
                acc = v;
                k = k + 1;
            },
            None => {
                proof {
                    lemma_product_prefix(dims@, k + 1);
                }
                return None;
            },
        }
    }
    proof {
        assert(dims@.take(k as int) =~= dims@);
    }
    Some(acc)
}

/// The concrete shape of `len` elements under the declared shape `dims`.
pub fn resolve_shape(dims: &Vec<Dim>, len: u64) -> (r: Vec<u64>)
    ensures
        r@ == resolve(dims@, len),
{
    let mut fixed: Vec<u64> = Vec::new();
    let mut i: usize = 0;
    while i < dims.len()
        invariant
            i <= dims.len(),
            fixed@ =~= fixed_part(dims@).take(i as int),
        decreases dims.len() - i,
    {
        match dims[i] {
            Dim::Fixed(n) => fixed.push(n),
            Dim::Dynamic => fixed.push(1),
        }
        i = i + 1;
    }
    assert(fixed@ =~= fixed_part(dims@));
    let q: u64 = match checked_product(&fixed) {
        Some(f) => if f == 0 {
            0
        } else {
            len / f
        },
        None => {
            proof {
                vstd::arithmetic::div_mod::lemma_basic_div(len as int, product(fixed@));
            }
            0
        },
    };
    assert(q == open_size(dims@, len));
    let mut r: Vec<u64> = Vec::new();
    let mut seen: bool = false;
    let mut k: usize = 0;
    while k < dims.len()
        invariant
            k <= dims.len(),
            q == open_size(dims@, len),
            seen == dynamic_before(dims@, k as int),
            r@ =~= resolve(dims@, len).take(k as int),
        decreases dims.len() - k,
    {
        match dims[k] {
            Dim::Fixed(n) => r.push(n),
            Dim::Dynamic => {
                if seen {
                    r.push(1);
                } else {
                    r.push(q);
                }
                seen = true;
            },
        }
        proof {
            if dims@[k as int] == Dim::Dynamic {
                assert(dynamic_before(dims@, k + 1));
            } else if dynamic_before(dims@, k + 1) {
                let j = choose|j: int| 0 <= j < k + 1 && dims@[j] == Dim::Dynamic;
                assert(j < k);
            }
        }
        k = k + 1;
    }
    assert(r@ =~= resolve(dims@, len));
    r
}

/// Whether `len` elements fill the declared shape `dims` exactly; returns the
/// concrete shape alongside.
pub fn check_fits(dims: &Vec<Dim>, len: u64) -> (r: (bool, Vec<u64>))
    ensures
        r.0 == fits(dims@, len),
        r.1@ == resolve(dims@, len),
{
    let shape = resolve_shape(dims, len);
    let ok = match checked_product(&shape) {
        Some(p) => p == len,
        None => false,
    };
    (ok, shape)
}

} // verus!
