//! Capability-tiered shader source selection.
//!
//! Vertex and fragment sources come in several variants, one per capability
//! tier (a minimum shading-language version such as 120 or 150).  The builder
//! picks the highest tier that has both a vertex and a fragment variant and
//! is supported by the backend, and hands the chosen source pair to the
//! application for compilation on the device.

use vstd::prelude::*;

use crate::error::FlowError;

verus! {

/// One shader source variant: the capability tier it requires and its source
/// bytes.
pub struct ShaderVariant {
    pub tier: u32,
    pub source: Vec<u8>,
}

/// The capability tiers the active graphics backend supports.
pub struct BackendCapabilities {
    pub tiers: Vec<u32>,
}

/// The outcome of selection: the chosen tier and the vertex and fragment
/// sources of that tier, ready for compilation on the device.
#[derive(PartialEq, Eq, Debug)]
pub struct ProgramSource {
    pub tier: u32,
    pub vertex_source: Vec<u8>,
    pub fragment_source: Vec<u8>,
}

/// Some variant in `vs` is for tier `t`.
pub open spec fn has_tier(vs: Seq<ShaderVariant>, t: u32) -> bool {
    exists|i: int| 0 <= i < vs.len() && vs[i].tier == t
}

/// The backend supports tier `t`.
pub open spec fn supports_tier(caps: Seq<u32>, t: u32) -> bool {
    exists|i: int| 0 <= i < caps.len() && caps[i] == t
}

/// The variant set is a mapping: no tier occurs twice.
pub open spec fn tiers_unique(vs: Seq<ShaderVariant>) -> bool {
    forall|i: int, j: int| 0 <= i < j < vs.len() ==> vs[i].tier != vs[j].tier
}

/// Tier `t` has a vertex variant, a fragment variant, and backend support.
pub open spec fn is_candidate_tier(
    v: Seq<ShaderVariant>,
    f: Seq<ShaderVariant>,
    caps: Seq<u32>,
    t: u32,
) -> bool {
    has_tier(v, t) && has_tier(f, t) && supports_tier(caps, t)
}

/// `s` is the source of some variant for tier `t` in `vs`.
pub open spec fn variant_source(vs: Seq<ShaderVariant>, t: u32, s: Seq<u8>) -> bool {
    exists|i: int| 0 <= i < vs.len() && vs[i].tier == t && vs[i].source@ == s
}

/// Whether any variant in `vs` is for tier `t`.
fn contains_tier(vs: &Vec<ShaderVariant>, t: u32) -> (r: bool)
    ensures
        r == has_tier(vs@, t),
{
    let mut i: usize = 0;
    while i < vs.len()
        invariant
            0 <= i <= vs@.len(),
            forall|j: int| 0 <= j < i ==> vs@[j].tier != t,
        decreases vs@.len() - i,
    {
        if vs[i].tier == t {
            return true;
        }
        i += 1;
    }
    false
}

/// Whether the backend supports tier `t`.
fn contains_cap(caps: &Vec<u32>, t: u32) -> (r: bool)
    ensures
        r == supports_tier(caps@, t),
{
    let mut i: usize = 0;
    while i < caps.len()
        invariant
            0 <= i <= caps@.len(),
            forall|j: int| 0 <= j < i ==> caps@[j] != t,
        decreases caps@.len() - i,
    {
        if caps[i] == t {
            return true;
        }
        i += 1;
    }
    false
}

/// A copy of the source bytes of the first variant for tier `t`, if any.
fn source_for(vs: &Vec<ShaderVariant>, t: u32) -> (r: Option<Vec<u8>>)
    ensures
        match r {
            Some(s) => variant_source(vs@, t, s@),
            None => !has_tier(vs@, t),
        },
{
    let mut i: usize = 0;
    while i < vs.len()
        invariant
            0 <= i <= vs@.len(),
            forall|j: int| 0 <= j < i ==> vs@[j].tier != t,
        decreases vs@.len() - i,
    {
        if vs[i].tier == t {
            let src = &vs[i].source;
            let mut out: Vec<u8> = Vec::new();
            let mut k: usize = 0;
            while k < src.len()
                invariant
                    0 <= k <= src@.len(),
                    out@ == src@.subrange(0, k as int),
                decreases src@.len() - k,
            {
                out.push(src[k]);
                k += 1;
                proof {
                    assert(out@ =~= src@.subrange(0, k as int));
                }
            }
            proof {
                assert(out@ =~= vs@[i as int].source@);
            }
            return Some(out);
        }
        i += 1;
    }
    None
}

/// Select the source pair for the highest mutually supported tier.
///
/// Returns the chosen tier with a vertex and a fragment source of that tier;
/// every candidate tier (present in both variant sets and supported by the
/// backend) is at most the chosen one.  Fails with
/// `NoCompatibleVariantError` exactly when no tier is a candidate.
pub fn link(
    vertex_variants: &Vec<ShaderVariant>,
    fragment_variants: &Vec<ShaderVariant>,
    caps: &BackendCapabilities,
) -> (r: Result<ProgramSource, FlowError>)
    ensures
        match r {
            Ok(p) => {
                &&& is_candidate_tier(vertex_variants@, fragment_variants@, caps.tiers@, p.tier)
                &&& forall|t: u32|
                    is_candidate_tier(vertex_variants@, fragment_variants@, caps.tiers@, t)
                        ==> t <= p.tier
                &&& variant_source(vertex_variants@, p.tier, p.vertex_source@)
                &&& variant_source(fragment_variants@, p.tier, p.fragment_source@)
            },
            Err(e) => {
                &&& e is NoCompatibleVariantError
                &&& forall|t: u32|
                    !is_candidate_tier(vertex_variants@, fragment_variants@, caps.tiers@, t)
            },
        },
{
    let mut best: Option<u32> = None;
    let mut i: usize = 0;
    while i < vertex_variants.len()
        invariant
            0 <= i <= vertex_variants@.len(),
            match best {
                Some(b) => {
                    &&& is_candidate_tier(vertex_variants@, fragment_variants@, caps.tiers@, b)
                    &&& forall|j: int| 0 <= j < i
                        && is_candidate_tier(
                            vertex_variants@,
                            fragment_variants@,
                            caps.tiers@,
                            #[trigger] vertex_variants@[j].tier,
                        ) ==> vertex_variants@[j].tier <= b
                },
                None => forall|j: int| 0 <= j < i
                    ==> !is_candidate_tier(
                        vertex_variants@,
                        fragment_variants@,
                        caps.tiers@,
                        #[trigger] vertex_variants@[j].tier,
                    ),
            },
        decreases vertex_variants@.len() - i,
    {
        let t = vertex_variants[i].tier;
        if contains_tier(fragment_variants, t) && contains_cap(&caps.tiers, t) {
            match best {
                Some(b) => {
                    if t > b {
                        best = Some(t);
                    }
                },
                None => {
                    best = Some(t);
                },
            }
        }
        i += 1;
    }
    proof {
        // A candidate tier is the tier of some vertex variant, so the scan
        // saw every candidate.
        assert forall|t: u32|
            is_candidate_tier(vertex_variants@, fragment_variants@, caps.tiers@, t)
                implies (best matches Some(b) && t <= b) by {
            let i0 = choose|i0: int|
                0 <= i0 < vertex_variants@.len() && vertex_variants@[i0].tier == t;
            assert(vertex_variants@[i0].tier == t);
        };
    }
    match best {
        Some(b) => {
            let vs = source_for(vertex_variants, b);
            let fs = source_for(fragment_variants, b);
            match (vs, fs) {
                (Some(v), Some(f)) => Ok(ProgramSource {
                    tier: b,
                    vertex_source: v,
                    fragment_source: f,
                }),
                _ => {
                    // A candidate tier has a variant in both sets.
                    proof {
                        assert(has_tier(vertex_variants@, b));
                        assert(has_tier(fragment_variants@, b));
                    }
                    Err(FlowError::NoCompatibleVariantError)
                },
            }
        },
        None => Err(FlowError::NoCompatibleVariantError),
    }
}

/// Selection is deterministic: for one set of inputs there is at most one
/// tier that is a candidate and an upper bound of all candidates, so two
/// selections over identical variant sets and capabilities agree.
pub proof fn lemma_selection_deterministic(
    v: Seq<ShaderVariant>,
    f: Seq<ShaderVariant>,
    caps: Seq<u32>,
    t1: u32,
    t2: u32,
)
    requires
        is_candidate_tier(v, f, caps, t1),
        forall|t: u32| is_candidate_tier(v, f, caps, t) ==> t <= t1,
        is_candidate_tier(v, f, caps, t2),
        forall|t: u32| is_candidate_tier(v, f, caps, t) ==> t <= t2,
    ensures
        t1 == t2,
{
}

/// Over a variant set without repeated tiers, the source of a tier is
/// determined: the selected program is equivalent whenever the inputs are.
pub proof fn lemma_source_deterministic(vs: Seq<ShaderVariant>, t: u32, s1: Seq<u8>, s2: Seq<u8>)
    requires
        tiers_unique(vs),
        variant_source(vs, t, s1),
        variant_source(vs, t, s2),
    ensures
        s1 == s2,
{
    let i1 = choose|i: int| 0 <= i < vs.len() && vs[i].tier == t && vs[i].source@ == s1;
    let i2 = choose|i: int| 0 <= i < vs.len() && vs[i].tier == t && vs[i].source@ == s2;
    assert(i1 == i2);
}

} // verus!
