//! Extension capability negotiation.
//!
//! At startup the tool needs three display-server extensions: redirection
//! (composite), compositing-rendering (render), and invalidation (damage),
//! plus a pixel format whose depth matches the display and whose color model
//! is direct. The round trips that fetch the extension versions and the
//! format list happen outside the library; this module holds the decisions:
//! which replies are acceptable, which format is picked, and which distinct
//! error each shortfall produces. Negotiation runs once and is never retried.

use vstd::prelude::*;

use crate::errors::XposeError;

verus! {

/// One pixel format advertised by the display server.
#[derive(Clone, Copy, Debug, PartialEq, Eq, Structural)]
pub struct PictFormatInfo {
    /// The format's protocol identifier.
    pub id: u32,
    /// Bits per pixel of the format.
    pub depth: u8,
    /// Whether the format's color model is direct (not indexed).
    pub direct: bool,
}

/// The capability data negotiation hands to the capture and composite paths.
#[derive(Clone, Copy, Debug, PartialEq, Eq, Structural)]
pub struct CapabilitySet {
    /// Reported major version of the redirection extension.
    pub composite_major: u32,
    /// Reported minor version of the redirection extension.
    pub composite_minor: u32,
    /// The picture format resolved for the display's depth.
    pub pict_format: u32,
    /// The depth the format was resolved for.
    pub depth: u8,
}

/// Whether a reported redirection-extension version is recent enough.
/// Version 0.2 introduced named off-screen buffers, which capture needs.
pub open spec fn composite_version_ok(major: u32, minor: u32) -> bool {
    !(major == 0 && minor < 2)
}

/// Whether a format can back compositing at the given depth: matching
/// bit-depth and a direct color model.
pub open spec fn format_matches(f: PictFormatInfo, depth: u8) -> bool {
    f.depth == depth && f.direct
}

/// The identifier of the first advertised format that matches, if any.
pub open spec fn first_direct_format(formats: Seq<PictFormatInfo>, depth: u8) -> Option<u32>
    decreases formats.len(),
{
    if formats.len() == 0 {
        None
    } else if format_matches(formats[0], depth) {
        Some(formats[0].id)
    } else {
        first_direct_format(formats.drop_first(), depth)
    }
}

/// What negotiation returns for given replies: the first shortfall in the
/// order the queries are made, or the assembled capability set.
pub open spec fn spec_negotiate(
    composite_version: Option<(u32, u32)>,
    render_present: bool,
    damage_present: bool,
    formats: Seq<PictFormatInfo>,
    depth: u8,
) -> Result<CapabilitySet, XposeError> {
    match composite_version {
        None => Err(XposeError::NoComposite),
        Some((major, minor)) => {
            if !composite_version_ok(major, minor) {
                Err(XposeError::CompositeVersionTooLow)
            } else if !render_present {
                Err(XposeError::NoRender)
            } else {
                match first_direct_format(formats, depth) {
                    None => Err(XposeError::NoPictFormat),
                    Some(id) => {
                        if !damage_present {
                            Err(XposeError::NoDamage)
                        } else {
                            Ok(
                                (CapabilitySet {
                                    composite_major: major,
                                    composite_minor: minor,
                                    pict_format: id,
                                    depth,
                                }),
                            )
                        }
                    },
                }
            }
        },
    }
}

/// Check the reported redirection-extension version; absence of the
/// extension is the caller's `None`.
pub fn check_composite_version(major: u32, minor: u32) -> (r: Result<(), XposeError>)
    ensures
        r is Ok <==> composite_version_ok(major, minor),
        r is Err ==> (r == Err::<(), XposeError>(XposeError::CompositeVersionTooLow)),
{
    if major == 0 && minor < 2 {
        Err(XposeError::CompositeVersionTooLow)
    } else {
        Ok(())
    }
}

/// Scan the advertised formats for the first one whose depth matches the
/// display and whose color model is direct.
pub fn resolve_pict_format(formats: &Vec<PictFormatInfo>, depth: u8) -> (r: Result<
    u32,
    XposeError,
>)
    ensures
        match r {
            Ok(id) => first_direct_format(formats@, depth) == Some(id),
            Err(e) => e == XposeError::NoPictFormat && first_direct_format(formats@, depth)
                is None,
        },
{
    let n = formats.len();
    proof {
        assert(formats@.skip(0) =~= formats@);
    }
    for i in 0..n
        invariant
            n == formats@.len(),
            first_direct_format(formats@, depth) == first_direct_format(
                formats@.skip(i as int),
                depth,
            ),
            forall|j: int| 0 <= j < i ==> !format_matches(formats@[j], depth),
    {
        proof {
            assert(formats@.skip(i as int)[0] == formats@[i as int]);
            assert(formats@.skip(i as int).drop_first() =~= formats@.skip(i as int + 1));
        }
        if formats[i].depth == depth && formats[i].direct {
            return Ok(formats[i].id);
        }
    }
    proof {
        assert(formats@.skip(n as int) =~= Seq::<PictFormatInfo>::empty());
    }
    Err(XposeError::NoPictFormat)
}

/// Combine the three extension replies and the format list into the
/// capability set, or the first of the distinct fatal errors. Each query's
/// reply is handed in by the caller that made the round trip.
pub fn negotiate(
    composite_version: Option<(u32, u32)>,
    render_present: bool,
    damage_present: bool,
    formats: &Vec<PictFormatInfo>,
    depth: u8,
) -> (r: Result<CapabilitySet, XposeError>)
    ensures
        r == spec_negotiate(composite_version, render_present, damage_present, formats@, depth),
{
    match composite_version {
        None => Err(XposeError::NoComposite),
        Some((major, minor)) => {
            if let Err(e) = check_composite_version(major, minor) {
                return Err(e);
            }
            if !render_present {
                return Err(XposeError::NoRender);
            }
            match resolve_pict_format(formats, depth) {
                Err(e) => Err(e),
                Ok(id) => {
                    if !damage_present {
                        Err(XposeError::NoDamage)
                    } else {
                        Ok(
                            CapabilitySet {
                                composite_major: major,
                                composite_minor: minor,
                                pict_format: id,
                                depth,
                            },
                        )
                    }
                },
            }
        },
    }
}

} // verus!
