//! Choice of the texture format that the window surface is configured with.
use vstd::prelude::*;

verus! {

/// Declares `wgpu::TextureFormat`, the formats a surface can present.
#[verifier::external_type_specification]
#[verifier::external_body]
pub struct ExTextureFormat(wgpu::TextureFormat);

/// Whether `wgpu::TextureFormat::is_srgb` holds of a format: whether the
/// format stores colours in the sRGB colour space. It depends on the format
/// alone.
pub uninterp spec fn srgb_format(format: wgpu::TextureFormat) -> bool;

/// Calls `wgpu::TextureFormat::is_srgb`; its result is `srgb_format` of the
/// format.
#[verifier::external_body]
fn format_is_srgb(format: &wgpu::TextureFormat) -> (srgb: bool)
    ensures
        srgb == srgb_format(*format),
{
    format.is_srgb()
}

/// The position of the first `true` of `flags` at or after `k`, or the
/// length of `flags` when there is none.
pub open spec fn first_true_from(flags: Seq<bool>, k: int) -> int
    decreases flags.len() - k,
{
    if k < 0 || k >= flags.len() {
        flags.len() as int
    } else if flags[k] {
        k
    } else {
        first_true_from(flags, k + 1)
    }
}

/// The position of the first `true` of `flags`, or 0 when there is none.
pub open spec fn first_srgb(flags: Seq<bool>) -> int {
    if first_true_from(flags, 0) < flags.len() {
        first_true_from(flags, 0)
    } else {
        0
    }
}

proof fn lemma_first_true_skips_false(flags: Seq<bool>, k: int)
    requires
        0 <= k <= flags.len(),
        forall|j: int| 0 <= j < k ==> !flags[j],
    ensures
        first_true_from(flags, 0) == first_true_from(flags, k),
    decreases k,
{
    if k > 0 {
        lemma_first_true_skips_false(flags, k - 1);
    }
}

/// Picks among surface formats by their sRGB flags: the first sRGB one,
/// or else the first one.
pub fn first_srgb_index(srgb: &Vec<bool>) -> (i: usize)
    requires
        srgb@.len() > 0,
    ensures
        i == first_srgb(srgb@),
        i < srgb@.len(),
        srgb@[i as int] ==> forall|j: int| 0 <= j < i ==> !srgb@[j],
        !srgb@[i as int] ==> i == 0 && forall|j: int| 0 <= j < srgb@.len() ==> !srgb@[j],
{
    let mut i: usize = 0;
    while i < srgb.len()
        invariant
            i <= srgb@.len(),
            forall|j: int| 0 <= j < i ==> !srgb@[j],
        decreases srgb@.len() - i,
    {
        if srgb[i] {
            proof {
                lemma_first_true_skips_false(srgb@, i as int);
            }
            return i;
        }
        i = i + 1;
    }
    proof {
        lemma_first_true_skips_false(srgb@, srgb@.len() as int);
    }
    0
}

/// The sRGB flag of each format of `formats`.
pub open spec fn srgb_flags(formats: Seq<wgpu::TextureFormat>) -> Seq<bool> {
    formats.map_values(|f: wgpu::TextureFormat| srgb_format(f))
}

/// Each format's flag is whether that format is sRGB.
pub proof fn lemma_srgb_flags_pointwise(formats: Seq<wgpu::TextureFormat>)
    ensures
        srgb_flags(formats).len() == formats.len(),
        forall|j: int|
            0 <= j < formats.len() ==> #[trigger] srgb_flags(formats)[j] == srgb_format(
                formats[j],
            ),
{
}

/// The chosen position is the first `true` when there is one, and 0 when
/// there is none: it lies in the list, no `true` comes before it, and it is
/// `false` only when every flag is.
pub proof fn lemma_first_srgb_is_first(flags: Seq<bool>)
    requires
        flags.len() > 0,
    ensures
        0 <= first_srgb(flags) < flags.len(),
        flags[first_srgb(flags)] ==> forall|j: int| 0 <= j < first_srgb(flags) ==> !flags[j],
        !flags[first_srgb(flags)] ==> first_srgb(flags) == 0 && forall|j: int|
            0 <= j < flags.len() ==> !flags[j],
{
    lemma_first_true_range(flags, 0);
}

proof fn lemma_first_true_range(flags: Seq<bool>, k: int)
    requires
        0 <= k <= flags.len(),
    ensures
        k <= first_true_from(flags, k) <= flags.len(),
        first_true_from(flags, k) < flags.len() ==> flags[first_true_from(flags, k)],
        forall|j: int| k <= j < first_true_from(flags, k) ==> !flags[j],
    decreases flags.len() - k,
{
    if k < flags.len() && !flags[k] {
        lemma_first_true_range(flags, k + 1);
    }
}

/// The format to configure the surface with: the first sRGB format of
/// `formats` if it has one, else its first format.
pub fn get_surface_format(formats: &Vec<wgpu::TextureFormat>) -> (format: wgpu::TextureFormat)
    requires
        formats@.len() > 0,
    ensures
        format == formats@[first_srgb(srgb_flags(formats@))],
        exists|i: int|
            0 <= i < formats@.len() && format == formats@[i] && (srgb_format(formats@[i])
                ==> forall|j: int| 0 <= j < i ==> !srgb_format(#[trigger] formats@[j])) && (
            !srgb_format(formats@[i]) ==> i == 0 && forall|j: int|
                0 <= j < formats@.len() ==> !srgb_format(#[trigger] formats@[j])),
{
    let mut srgb: Vec<bool> = Vec::new();
    let mut k: usize = 0;
    while k < formats.len()
        invariant
            k <= formats@.len(),
            srgb@.len() == k,
            forall|j: int| 0 <= j < k ==> srgb@[j] == srgb_format(#[trigger] formats@[j]),
        decreases formats@.len() - k,
    {
        srgb.push(format_is_srgb(&formats[k]));
        k = k + 1;
    }
    assert(srgb@ =~= srgb_flags(formats@));
    let i = first_srgb_index(&srgb);
    proof {
        assert(srgb@[i as int] == srgb_format(formats@[i as int]));
        if srgb_format(formats@[i as int]) {
            assert forall|j: int| 0 <= j < i implies !srgb_format(#[trigger] formats@[j]) by {
                assert(!srgb@[j]);
            }
        } else {
            assert forall|j: int| 0 <= j < formats@.len() implies !srgb_format(
                #[trigger] formats@[j],
            ) by {
                assert(!srgb@[j]);
            }
        }
    }
    formats[i]
}

} // verus!
