use vstd::prelude::*;

use crate::error::ModelError;
use crate::model::Feed;
use crate::tensor::{DescriptorView, TensorDescriptor};

verus! {

/// The backends an engine may run a model on.
#[derive(Clone, Copy, Debug, PartialEq, Eq, Structural)]
pub enum Provider {
    Cpu,
    Wasm,
    WebGl,
    WebGpu,
    WebNn,
}

/// Whether a provider runs on an accelerator rather than the processor.
pub open spec fn is_accelerated(p: Provider) -> bool {
    p != Provider::Cpu && p != Provider::Wasm
}

/// The first provider of `requested` that `available` holds.
pub open spec fn first_supported(requested: Seq<Provider>, available: Seq<Provider>) -> Option<
    Provider,
>
    decreases requested.len(),
{
    if requested.len() == 0 {
        None
    } else if available.contains(requested[0]) {
        Some(requested[0])
    } else {
        first_supported(requested.drop_first(), available)
    }
}

fn contains_provider(v: &Vec<Provider>, p: Provider) -> (r: bool)
    ensures
        r == v@.contains(p),
{
    let mut i: usize = 0;
    while i < v.len()
        invariant
            i <= v.len(),
            forall|j: int| 0 <= j < i ==> v@[j] != p,
        decreases v.len() - i,
    {
        if v[i] == p {
            assert(v@[i as int] == p);
            return true;
        }
        i = i + 1;
    }
    false
}

/// Picks the backend to load a model on: the first requested one that is
/// available; where none is, the first available one if the caller allows
/// falling back, else `UnsupportedProvider`.
pub fn select_provider(requested: &Vec<Provider>, available: &Vec<Provider>, fallback: bool) -> (r:
    Result<Provider, ModelError>)
    ensures
        first_supported(requested@, available@) matches Some(p) ==> r == Ok::<
            Provider,
            ModelError,
        >(p),
        first_supported(requested@, available@) is None && fallback && available@.len() > 0 ==> r
            == Ok::<Provider, ModelError>(available@[0]),
        first_supported(requested@, available@) is None && !(fallback && available@.len() > 0)
            ==> r == Err::<Provider, ModelError>(ModelError::UnsupportedProvider),
{
    let mut i: usize = 0;
    assert(requested@.skip(0) =~= requested@);
    while i < requested.len()
        invariant
            i <= requested.len(),
            first_supported(requested@, available@) == first_supported(
                requested@.skip(i as int),
                available@,
            ),
        decreases requested.len() - i,
    {
        let p = requested[i];
        assert(requested@.skip(i as int)[0] == p);
        if contains_provider(available, p) {
            return Ok(p);
        }
        assert(requested@.skip(i as int).drop_first() =~= requested@.skip(i + 1));
        i = i + 1;
    }
    assert(requested@.skip(i as int).len() == 0);
    if fallback && available.len() > 0 {
        Ok(available[0])
    } else {
        Err(ModelError::UnsupportedProvider)
    }
}

/// Whether any of the available providers is an accelerated one.
pub fn has_accelerated_backend(available: &Vec<Provider>) -> (r: bool)
    ensures
        r == exists|i: int| 0 <= i < available@.len() && is_accelerated(available@[i]),
{
    let mut i: usize = 0;
    while i < available.len()
        invariant
            i <= available.len(),
            forall|j: int| 0 <= j < i ==> !is_accelerated(available@[j]),
        decreases available.len() - i,
    {
        let p = available[i];
        if p != Provider::Cpu && p != Provider::Wasm {
            assert(is_accelerated(available@[i as int]));
            return true;
        }
        i = i + 1;
    }
    false
}

/// Whether some descriptor of `s` is named `n`.
pub open spec fn declares(s: Seq<DescriptorView>, n: Seq<char>) -> bool {
    exists|i: int| 0 <= i < s.len() && s[i].name == n
}

/// Whether some feed of `feeds` is named `n`.
pub open spec fn feeds_name(feeds: Seq<Feed>, n: Seq<char>) -> bool {
    exists|k: int| 0 <= k < feeds.len() && feeds[k].name@ == n
}

fn find_descriptor(descs: &Vec<TensorDescriptor>, name: &String) -> (r: bool)
    ensures
        r == declares(crate::model::views(descs@), name@),
{
    let ghost v = crate::model::views(descs@);
    let mut i: usize = 0;
    while i < descs.len()
        invariant
            i <= descs.len(),
            v == crate::model::views(descs@),
            forall|j: int| 0 <= j < i ==> v[j].name != name@,
        decreases descs.len() - i,
    {
        assert(v[i as int] == descs@[i as int]@);
        if descs[i].name == *name {
            return true;
        }
        i = i + 1;
    }
    false
}

fn find_feed(feeds: &Vec<Feed>, name: &String) -> (r: bool)
    ensures
        r == feeds_name(feeds@, name@),
{
    let mut k: usize = 0;
    while k < feeds.len()
        invariant
            k <= feeds.len(),
            forall|j: int| 0 <= j < k ==> feeds@[j].name@ != name@,
        decreases feeds.len() - k,
    {
        if feeds[k].name == *name {
            return true;
        }
        k = k + 1;
    }
    false
}

/// Whether every feed names a declared input and every input has a feed.
pub open spec fn feeds_match(inputs: Seq<DescriptorView>, feeds: Seq<Feed>) -> bool {
    &&& forall|k: int| 0 <= k < feeds.len() ==> declares(inputs, #[trigger] feeds[k].name@)
    &&& forall|i: int| 0 <= i < inputs.len() ==> feeds_name(feeds, #[trigger] inputs[i].name)
}

/// What a failed check of `feeds` against `inputs` reports: an unknown key,
/// which takes precedence, or else an input without a feed, each by name.
pub open spec fn feed_error(inputs: Seq<DescriptorView>, feeds: Seq<Feed>, e: ModelError) -> bool {
    match e {
        ModelError::UnknownInput { name } => exists|k: int|
            0 <= k < feeds.len() && #[trigger] feeds[k].name@ == name@ && !declares(inputs, name@),
        ModelError::MissingInput { name } => {
            &&& forall|k: int| 0 <= k < feeds.len() ==> declares(inputs, #[trigger] feeds[k].name@)
            &&& exists|i: int|
                0 <= i < inputs.len() && #[trigger] inputs[i].name == name@ && !feeds_name(
                    feeds,
                    name@,
                )
        },
        _ => false,
    }
}

/// Checks the keys of a set of feeds against the declared inputs: the first
/// feed that names no input gives `UnknownInput`; where all are known, the
/// first input that no feed names gives `MissingInput`.
pub fn check_feeds(inputs: &Vec<TensorDescriptor>, feeds: &Vec<Feed>) -> (r: Result<
    (),
    ModelError,
>)
    ensures
        r is Ok <==> feeds_match(crate::model::views(inputs@), feeds@),
        r matches Err(e) ==> feed_error(crate::model::views(inputs@), feeds@, e),
{
    let mut k: usize = 0;
    while k < feeds.len()
        invariant
            k <= feeds.len(),
            forall|j: int|
                0 <= j < k ==> declares(crate::model::views(inputs@), #[trigger] feeds@[j].name@),
        decreases feeds.len() - k,
    {
        if !find_descriptor(inputs, &feeds[k].name) {
            return Err(ModelError::UnknownInput { name: feeds[k].name.clone() });
        }
        k = k + 1;
    }
    let mut i: usize = 0;
    while i < inputs.len()
        invariant
            i <= inputs.len(),
            forall|j: int| 0 <= j < i ==> feeds_name(feeds@, #[trigger] inputs@[j].name@),
            forall|j: int|
                0 <= j < feeds@.len() ==> declares(crate::model::views(inputs@), #[trigger] feeds@[j].name@),
        decreases inputs.len() - i,
    {
        assert(crate::model::views(inputs@)[i as int] == inputs@[i as int]@);
        if !find_feed(feeds, &inputs[i].name) {
            let name = inputs[i].name.clone();
            proof {
                let v = crate::model::views(inputs@);
                assert(v[i as int].name == name@);
                assert(!feeds_name(feeds@, v[i as int].name));
            }
            return Err(ModelError::MissingInput { name });
        }
        i = i + 1;
    }
    proof {
        let v = crate::model::views(inputs@);
        assert forall|j: int| 0 <= j < v.len() implies feeds_name(feeds@, #[trigger] v[j].name) by {
            assert(v[j] == inputs@[j]@);
        }
    }
    Ok(())
}

} // verus!
