//! Negotiation of the presentation colour format.
use gfx_hal::format::{ChannelType, Format};
use vstd::prelude::*;

verus! {

#[verifier::external_type_specification]
pub struct ExFormat(Format);

#[verifier::external_type_specification]
pub struct ExChannelType(ChannelType);

/// The channel type that gfx-hal's format table assigns to a format.
pub uninterp spec fn channel_of(f: Format) -> ChannelType;

/// A format that gfx-hal's format table describes (every variant but the
/// hidden end-of-table marker).
pub open spec fn is_table_format(f: Format) -> bool {
    !(f is __NumFormats)
}

/// Relies on `gfx_hal::format::Format::base_format`: it looks the format up in
/// the format table and returns its (surface, channel) pair; it asserts on the
/// end-of-table marker.
#[verifier::external_body]
fn channel_type(f: Format) -> (r: ChannelType)
    requires
        is_table_format(f),
    ensures
        r == channel_of(f),
{
    f.base_format().1
}

/// The format chosen when the surface reports no list of formats.
pub open spec fn default_colour_format() -> Format {
    Format::Rgba8Srgb
}

/// The first format of `s` whose channel encoding is sRGB.
pub open spec fn first_srgb(s: Seq<Format>) -> Option<Format>
    decreases s.len(),
{
    if s.len() == 0 {
        None
    } else if channel_of(s[0]) is Srgb {
        Some(s[0])
    } else {
        first_srgb(s.drop_first())
    }
}

/// The format that negotiation settles on: the default where no list, or an
/// empty one, is reported; otherwise the first sRGB entry of the list, and
/// nothing where the list holds none.
pub open spec fn negotiated_format(formats: Option<Seq<Format>>) -> Option<Format> {
    match formats {
        None => Some(default_colour_format()),
        Some(s) => if s.len() == 0 {
            Some(default_colour_format())
        } else {
            first_srgb(s)
        },
    }
}

pub open spec fn formats_view(formats: Option<Vec<Format>>) -> Option<Seq<Format>> {
    match formats {
        None => None,
        Some(v) => Some(v@),
    }
}

proof fn lemma_first_srgb_skip(s: Seq<Format>, i: int)
    requires
        0 <= i < s.len(),
        !(channel_of(s[i]) is Srgb),
    ensures
        first_srgb(s.subrange(i, s.len() as int)) == first_srgb(s.subrange(i + 1, s.len() as int)),
{
    let t = s.subrange(i, s.len() as int);
    assert(t.drop_first() =~= s.subrange(i + 1, s.len() as int));
}

/// Picks the colour format to present with, from the list of formats the
/// surface reports (`None` where it reports no list). The default 8-bit sRGB
/// RGBA format is chosen where no list or an empty one is reported; otherwise
/// the first sRGB format of the list, and `None` where the list has no sRGB
/// format at all.
pub fn pick_surface_colour_format(formats: Option<Vec<Format>>) -> (r: Option<Format>)
    requires
        formats is Some ==> forall|i: int|
            0 <= i < formats->0@.len() ==> is_table_format(#[trigger] formats->0@[i]),
    ensures
        r == negotiated_format(formats_view(formats)),
{
    match formats {
        None => Some(Format::Rgba8Srgb),
        Some(choices) => {
            if choices.len() == 0 {
                return Some(Format::Rgba8Srgb);
            }
            let n = choices.len();
            let mut i: usize = 0;
            assert(choices@.subrange(0, n as int) =~= choices@);
            while i < n
                invariant
                    n == choices@.len(),
                    formats_view(formats) == Some(choices@),
                    i <= n,
                    forall|k: int| 0 <= k < n ==> is_table_format(#[trigger] choices@[k]),
                    first_srgb(choices@) == first_srgb(choices@.subrange(i as int, n as int)),
                decreases n - i,
            {
                let f = choices[i];
                let c = channel_type(f);
                if let ChannelType::Srgb = c {
                    proof {
                        let t = choices@.subrange(i as int, n as int);
                        assert(t[0] == f);
                        assert(channel_of(t[0]) is Srgb);
                        assert(first_srgb(t) == Some(f));
                    }
                    return Some(f);
                }
                proof {
                    lemma_first_srgb_skip(choices@, i as int);
                }
                i = i + 1;
            }
            proof {
                assert(choices@.subrange(n as int, n as int).len() == 0);
            }
            None
        },
    }
}

proof fn lemma_first_srgb_at(s: Seq<Format>, k: int)
    requires
        0 <= k < s.len(),
        channel_of(s[k]) is Srgb,
        forall|j: int| 0 <= j < k ==> !(channel_of(#[trigger] s[j]) is Srgb),
    ensures
        first_srgb(s) == Some(s[k]),
    decreases k,
{
    if k > 0 {
        let t = s.drop_first();
        assert forall|j: int| 0 <= j < k - 1 implies !(channel_of(#[trigger] t[j]) is Srgb) by {
            assert(t[j] == s[j + 1]);
        }
        assert(!(channel_of(s[0]) is Srgb));
        lemma_first_srgb_at(t, k - 1);
    }
}

/// Given a reported list in which exactly one format is sRGB, negotiation
/// settles on that format; given no list, or an empty one, on the default
/// 8-bit sRGB RGBA format.
pub proof fn lemma_negotiation_picks_the_srgb_entry(s: Seq<Format>, k: int)
    requires
        0 <= k < s.len(),
        channel_of(s[k]) is Srgb,
        forall|j: int| 0 <= j < s.len() && j != k ==> !(channel_of(#[trigger] s[j]) is Srgb),
    ensures
        negotiated_format(Some(s)) == Some(s[k]),
        negotiated_format(None) == Some(Format::Rgba8Srgb),
        negotiated_format(Some(Seq::empty())) == Some(Format::Rgba8Srgb),
{
    lemma_first_srgb_at(s, k);
}

} // verus!
