//! Radar adapters: a borrowed, encode-only view over a slice of detections
//! and an owned, round-trip view holding its own copy.
//!
//! A detection's four scalar readings are IEEE-754 single-precision values;
//! the adapter carries each as its 32-bit pattern, which converts to and from
//! the foreign value without loss.

use vstd::prelude::*;
use vstd::string::StringExecFns;

use crate::DecodeError;
use crate::codec::{Element, decode_seq, decode_seq_spec, encode_seq, encode_seq_spec,
    lemma_seq_round_trip};
use crate::render::{bool_spec, capped, dec_spec, detection_render_spec, push_bool,
    push_detection, push_u64};

verus! {

/// The remote schema of the foreign radar detection: four single-precision
/// readings, carried as bit patterns, in the declared field order `velocity`,
/// `azimuth`, `altitude`, `depth`.
#[derive(Clone, Copy, Debug, PartialEq, Eq, Structural)]
pub struct RadarDetectionRemote {
    pub velocity_bits: u32,
    pub azimuth_bits: u32,
    pub altitude_bits: u32,
    pub depth_bits: u32,
}

impl Element for RadarDetectionRemote {
    open spec fn fields_spec(self) -> Seq<u64> {
        seq![
            self.velocity_bits as u64,
            self.azimuth_bits as u64,
            self.altitude_bits as u64,
            self.depth_bits as u64,
        ]
    }

    open spec fn of_fields_spec(fields: Seq<u64>) -> Result<RadarDetectionRemote, DecodeError> {
        if fields.len() != 4 {
            Err(DecodeError::SchemaMismatch)
        } else if fields[0] > 0xffff_ffff || fields[1] > 0xffff_ffff || fields[2] > 0xffff_ffff
            || fields[3] > 0xffff_ffff {
            Err(DecodeError::MalformedElement)
        } else {
            Ok(RadarDetectionRemote {
                velocity_bits: fields[0] as u32,
                azimuth_bits: fields[1] as u32,
                altitude_bits: fields[2] as u32,
                depth_bits: fields[3] as u32,
            })
        }
    }

    proof fn lemma_element_round_trip(self) {
    }

    fn to_fields(&self) -> (r: Vec<u64>) {
        let fields: Vec<u64> = vec![
            self.velocity_bits as u64,
            self.azimuth_bits as u64,
            self.altitude_bits as u64,
            self.depth_bits as u64,
        ];
        proof {
            assert(fields@ =~= self.fields_spec());
        }
        fields
    }

    fn of_fields(fields: &[u64]) -> (r: Result<RadarDetectionRemote, DecodeError>) {
        if fields.len() != 4 {
            Err(DecodeError::SchemaMismatch)
        } else if fields[0] > 0xffff_ffff || fields[1] > 0xffff_ffff || fields[2] > 0xffff_ffff
            || fields[3] > 0xffff_ffff {
            Err(DecodeError::MalformedElement)
        } else {
            Ok(RadarDetectionRemote {
                velocity_bits: fields[0] as u32,
                azimuth_bits: fields[1] as u32,
                altitude_bits: fields[2] as u32,
                depth_bits: fields[3] as u32,
            })
        }
    }
}

/// The mathematical content of a radar adapter: the cached scalar header and
/// the detections in storage order.
pub struct RadarView {
    pub detection_amount: nat,
    pub detections: Seq<RadarDetectionRemote>,
    pub len: nat,
    pub is_empty: bool,
}

/// A well-formed radar adapter: the cached header agrees with the detections.
pub open spec fn radar_wf(v: RadarView) -> bool {
    &&& v.detection_amount == v.detections.len()
    &&& v.len == v.detections.len()
    &&& v.is_empty == (v.len == 0)
}

/// Owned, round-trip radar adapter.
#[derive(Clone, Debug, PartialEq, Eq)]
pub struct RadarMeasurementSerDe {
    pub detection_amount: usize,
    pub detections: Vec<RadarDetectionRemote>,
    pub len: usize,
    pub is_empty: bool,
}

impl View for RadarMeasurementSerDe {
    type V = RadarView;

    open spec fn view(&self) -> RadarView {
        RadarView {
            detection_amount: self.detection_amount as nat,
            detections: self.detections@,
            len: self.len as nat,
            is_empty: self.is_empty,
        }
    }
}

/// Borrowed, zero-copy radar adapter over the source's detection slice.
/// Encode-only; it never outlives the slice it borrows.
pub struct RadarMeasurementSerBorrowed<'a> {
    pub detection_amount: usize,
    pub detections: &'a [RadarDetectionRemote],
    pub len: usize,
    pub is_empty: bool,
}

impl<'a> View for RadarMeasurementSerBorrowed<'a> {
    type V = RadarView;

    open spec fn view(&self) -> RadarView {
        RadarView {
            detection_amount: self.detection_amount as nat,
            detections: self.detections@,
            len: self.len as nat,
            is_empty: self.is_empty,
        }
    }
}

/// The encoded form of a radar adapter: the header scalars and one field list
/// per detection, in storage order.
#[derive(Clone, Debug, PartialEq, Eq)]
pub struct EncodedRadar {
    pub detection_amount: usize,
    pub detections: Vec<Vec<u64>>,
    pub len: usize,
    pub is_empty: bool,
}

/// The mathematical content of an encoded radar record.
pub struct EncodedRadarView {
    pub detection_amount: nat,
    pub detections: Seq<Seq<u64>>,
    pub len: nat,
    pub is_empty: bool,
}

impl View for EncodedRadar {
    type V = EncodedRadarView;

    open spec fn view(&self) -> EncodedRadarView {
        EncodedRadarView {
            detection_amount: self.detection_amount as nat,
            detections: self.detections.deep_view(),
            len: self.len as nat,
            is_empty: self.is_empty,
        }
    }
}

/// What encoding a radar adapter emits: every header field copied, the
/// detections encoded in order.
pub open spec fn encode_radar_spec(v: RadarView) -> EncodedRadarView {
    EncodedRadarView {
        detection_amount: v.detection_amount,
        detections: encode_seq_spec(v.detections),
        len: v.len,
        is_empty: v.is_empty,
    }
}

/// What decoding an encoded radar record yields: the header fields copied,
/// the detections decoded in order, the first failing one deciding the error.
pub open spec fn decode_radar_spec(e: EncodedRadarView) -> Result<RadarView, DecodeError> {
    match decode_seq_spec::<RadarDetectionRemote>(e.detections) {
        Err(err) => Err(err),
        Ok(ds) => Ok(
            RadarView {
                detection_amount: e.detection_amount,
                detections: ds,
                len: e.len,
                is_empty: e.is_empty,
            },
        ),
    }
}

impl RadarMeasurementSerDe {
    /// Build the owned adapter from the source's detections, caching the
    /// derived scalar header.
    pub fn from_detections(detections: Vec<RadarDetectionRemote>) -> (r: RadarMeasurementSerDe)
        ensures
            r@ == (RadarView {
                detection_amount: detections@.len(),
                detections: detections@,
                len: detections@.len(),
                is_empty: detections@.len() == 0,
            }),
            radar_wf(r@),
    {
        let n = detections.len();
        RadarMeasurementSerDe { detection_amount: n, detections, len: n, is_empty: n == 0 }
    }

    /// Encode this adapter: header fields copied, detections encoded in order.
    pub fn encode(&self) -> (r: EncodedRadar)
        ensures
            r@ == encode_radar_spec(self@),
    {
        EncodedRadar {
            detection_amount: self.detection_amount,
            detections: encode_seq(self.detections.as_slice()),
            len: self.len,
            is_empty: self.is_empty,
        }
    }

    /// Decode an encoded radar record into an owned adapter; the first
    /// detection that fails to decode decides the error.
    pub fn decode(e: &EncodedRadar) -> (r: Result<RadarMeasurementSerDe, DecodeError>)
        ensures
            match r {
                Ok(m) => decode_radar_spec(e@) == Ok::<RadarView, DecodeError>(m@),
                Err(err) => decode_radar_spec(e@) == Err::<RadarView, DecodeError>(err),
            },
    {
        match decode_seq::<RadarDetectionRemote>(&e.detections) {
            Ok(ds) => Ok(
                RadarMeasurementSerDe {
                    detection_amount: e.detection_amount,
                    detections: ds,
                    len: e.len,
                    is_empty: e.is_empty,
                },
            ),
            Err(err) => Err(err),
        }
    }
}

impl<'a> RadarMeasurementSerBorrowed<'a> {
    /// Build the borrowed adapter over the source's detection slice without
    /// copying any detection, caching only the derived scalar header.
    pub fn from_detections(detections: &'a [RadarDetectionRemote]) -> (r:
        RadarMeasurementSerBorrowed<'a>)
        ensures
            r@ == (RadarView {
                detection_amount: detections@.len(),
                detections: detections@,
                len: detections@.len(),
                is_empty: detections@.len() == 0,
            }),
            radar_wf(r@),
    {
        let n = detections.len();
        RadarMeasurementSerBorrowed { detection_amount: n, detections, len: n, is_empty: n == 0 }
    }

    /// Encode this adapter; the output is the same as the owned adapter's.
    pub fn encode(&self) -> (r: EncodedRadar)
        ensures
            r@ == encode_radar_spec(self@),
    {
        EncodedRadar {
            detection_amount: self.detection_amount,
            detections: encode_seq(self.detections),
            len: self.len,
            is_empty: self.is_empty,
        }
    }
}

/// Round trip: decoding what an owned radar adapter encodes to restores the
/// adapter field for field, the empty record included.
pub proof fn lemma_radar_round_trip(v: RadarView)
    ensures
        decode_radar_spec(encode_radar_spec(v)) == Ok::<RadarView, DecodeError>(v),
{
    lemma_seq_round_trip::<RadarDetectionRemote>(v.detections);
}

/// A borrowed adapter and an owned adapter built from the same source carry
/// the same content, and their encoded outputs are identical.
pub proof fn lemma_radar_borrowed_owned_encode_equal(b: RadarView, o: RadarView)
    requires
        b == o,
    ensures
        encode_radar_spec(b) == encode_radar_spec(o),
{
}

/// How many detections the preview shows.
pub const PREVIEW_DETECTIONS: usize = 5;

/// The renderings of the first `k` detections, one indented line each.
pub open spec fn detections_prefix_spec(ds: Seq<RadarDetectionRemote>, k: nat) -> Seq<char>
    decreases k,
{
    if k == 0 {
        Seq::empty()
    } else {
        detections_prefix_spec(ds, (k - 1) as nat) + "  "@ + detection_render_spec(ds[k - 1])
            + ",\n"@
    }
}

/// The full rendering of a detection sequence: every detection, no elision.
pub open spec fn radar_seq_full_spec(ds: Seq<RadarDetectionRemote>) -> Seq<char> {
    "[\n"@ + detections_prefix_spec(ds, ds.len()) + "]"@
}

/// The preview rendering of a detection sequence: at most
/// `PREVIEW_DETECTIONS` detections (and no more than the reported total),
/// then one elision line annotated with the remaining count when any were
/// dropped.
pub open spec fn radar_seq_preview_spec(ds: Seq<RadarDetectionRemote>, total: nat) -> Seq<char> {
    let max_show = capped(total, PREVIEW_DETECTIONS as nat);
    let shown = capped(ds.len(), max_show);
    "[\n"@ + detections_prefix_spec(ds, shown) + (if total > shown {
        "  … ("@ + dec_spec((total - shown) as nat) + " more)\n"@
    } else {
        Seq::<char>::empty()
    }) + "]"@
}

/// Append the full rendering of a detection slice.
fn push_radar_seq_full(s: &mut String, ds: &[RadarDetectionRemote])
    ensures
        final(s)@ == old(s)@ + radar_seq_full_spec(ds@),
{
    s.append("[\n");
    let mut i: usize = 0;
    while i < ds.len()
        invariant
            i <= ds@.len(),
            s@ == old(s)@ + "[\n"@ + detections_prefix_spec(ds@, i as nat),
        decreases ds@.len() - i,
    {
        s.append("  ");
        push_detection(s, &ds[i]);
        s.append(",\n");
        proof {
            assert(s@ =~= old(s)@ + "[\n"@ + detections_prefix_spec(ds@, (i + 1) as nat));
        }
        i += 1;
    }
    s.append("]");
    proof {
        assert(s@ =~= old(s)@ + radar_seq_full_spec(ds@));
    }
}

/// Append the preview rendering of a detection slice, `total` being the
/// adapter's reported detection count.
fn push_radar_seq_preview(s: &mut String, ds: &[RadarDetectionRemote], total: usize)
    ensures
        final(s)@ == old(s)@ + radar_seq_preview_spec(ds@, total as nat),
{
    let max_show = if total < PREVIEW_DETECTIONS {
        total
    } else {
        PREVIEW_DETECTIONS
    };
    let n = ds.len();
    let shown = if n < max_show {
        n
    } else {
        max_show
    };
    s.append("[\n");
    let mut i: usize = 0;
    while i < shown
        invariant
            i <= shown,
            shown <= ds@.len(),
            s@ == old(s)@ + "[\n"@ + detections_prefix_spec(ds@, i as nat),
        decreases shown - i,
    {
        s.append("  ");
        push_detection(s, &ds[i]);
        s.append(",\n");
        proof {
            assert(s@ =~= old(s)@ + "[\n"@ + detections_prefix_spec(ds@, (i + 1) as nat));
        }
        i += 1;
    }
    if total > shown {
        s.append("  … (");
        push_u64(s, (total - shown) as u64);
        s.append(" more)\n");
    }
    s.append("]");
    proof {
        assert(s@ =~= old(s)@ + radar_seq_preview_spec(ds@, total as nat));
    }
}

/// The complete text a radar adapter renders to: the scalar header with the
/// non-exhaustive marker, then the full detection dump (alternate mode) or
/// the bounded preview.
pub open spec fn radar_render_spec(name: Seq<char>, v: RadarView, alternate: bool) -> Seq<char> {
    let hdr = name + " { detection_amount: "@ + dec_spec(v.detection_amount) + ", len: "@
        + dec_spec(v.len) + ", is_empty: "@ + bool_spec(v.is_empty) + ", .. }"@;
    if alternate {
        hdr + "\ndetections (full, "@ + dec_spec(v.len) + " total) = "@ + radar_seq_full_spec(
            v.detections,
        )
    } else {
        hdr + "\ndetections (preview showing "@ + dec_spec(capped(v.len, PREVIEW_DETECTIONS as nat))
            + " of "@ + dec_spec(v.len) + ") = "@ + radar_seq_preview_spec(v.detections, v.len)
    }
}

/// Render a radar adapter's header and detections into one string.
fn render_radar_to(
    name: &str,
    detection_amount: usize,
    detections: &[RadarDetectionRemote],
    len: usize,
    is_empty: bool,
    alternate: bool,
) -> (r: String)
    ensures
        r@ == radar_render_spec(
            name@,
            RadarView {
                detection_amount: detection_amount as nat,
                detections: detections@,
                len: len as nat,
                is_empty: is_empty,
            },
            alternate,
        ),
{
    let ghost v = RadarView {
        detection_amount: detection_amount as nat,
        detections: detections@,
        len: len as nat,
        is_empty: is_empty,
    };
    let mut s = String::new();
    s.append(name);
    s.append(" { detection_amount: ");
    push_u64(&mut s, detection_amount as u64);
    s.append(", len: ");
    push_u64(&mut s, len as u64);
    s.append(", is_empty: ");
    push_bool(&mut s, is_empty);
    s.append(", .. }");
    if alternate {
        s.append("\ndetections (full, ");
        push_u64(&mut s, len as u64);
        s.append(" total) = ");
        push_radar_seq_full(&mut s, detections);
    } else {
        let show = if len < PREVIEW_DETECTIONS {
            len
        } else {
            PREVIEW_DETECTIONS
        };
        s.append("\ndetections (preview showing ");
        push_u64(&mut s, show as u64);
        s.append(" of ");
        push_u64(&mut s, len as u64);
        s.append(") = ");
        push_radar_seq_preview(&mut s, detections, len);
    }
    proof {
        assert(s@ =~= radar_render_spec(name@, v, alternate));
    }
    s
}

impl RadarMeasurementSerDe {
    /// Render this adapter as text: the full dump in alternate mode, the
    /// bounded preview otherwise.
    pub fn render(&self, alternate: bool) -> (r: String)
        ensures
            r@ == radar_render_spec("RadarMeasurementSerDe"@, self@, alternate),
    {
        render_radar_to(
            "RadarMeasurementSerDe",
            self.detection_amount,
            self.detections.as_slice(),
            self.len,
            self.is_empty,
            alternate,
        )
    }
}

impl<'a> RadarMeasurementSerBorrowed<'a> {
    /// Render this adapter as text: the full dump in alternate mode, the
    /// bounded preview otherwise.
    pub fn render(&self, alternate: bool) -> (r: String)
        ensures
            r@ == radar_render_spec("RadarMeasurementSerBorrowed"@, self@, alternate),
    {
        render_radar_to(
            "RadarMeasurementSerBorrowed",
            self.detection_amount,
            self.detections,
            self.len,
            self.is_empty,
            alternate,
        )
    }
}

/// Preview bounding: the preview render of a detection sequence depends only
/// on the first `capped(total, PREVIEW_DETECTIONS)` detections and the
/// reported total, never on what follows them.
pub proof fn lemma_radar_preview_bounded(
    ds1: Seq<RadarDetectionRemote>,
    ds2: Seq<RadarDetectionRemote>,
    total: nat,
)
    requires
        ds1.len() == ds2.len(),
        forall|i: int| 0 <= i < capped(total, PREVIEW_DETECTIONS as nat) && i < ds1.len()
            ==> ds1[i] == ds2[i],
    ensures
        radar_seq_preview_spec(ds1, total) == radar_seq_preview_spec(ds2, total),
{
    let max_show = capped(total, PREVIEW_DETECTIONS as nat);
    let shown = capped(ds1.len(), max_show);
    lemma_detections_prefix_equal(ds1, ds2, shown);
}

/// Two detection sequences that agree on their first `k` items render the
/// same `k`-item prefix.
proof fn lemma_detections_prefix_equal(
    ds1: Seq<RadarDetectionRemote>,
    ds2: Seq<RadarDetectionRemote>,
    k: nat,
)
    requires
        k <= ds1.len(),
        k <= ds2.len(),
        forall|i: int| 0 <= i < k ==> ds1[i] == ds2[i],
    ensures
        detections_prefix_spec(ds1, k) == detections_prefix_spec(ds2, k),
    decreases k,
{
    if k > 0 {
        lemma_detections_prefix_equal(ds1, ds2, (k - 1) as nat);
    }
}

} // verus!
