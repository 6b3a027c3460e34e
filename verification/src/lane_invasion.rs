//! Lane-invasion adapter: the owned list of crossed lane markings.
//!
//! Each marking carries three closed foreign enums, crossing the encoding
//! boundary as stable integer tags, and a marking width, an IEEE-754
//! double-precision value carried as its 64-bit pattern. A tag outside a
//! declared set decodes to `UnknownVariant`.

use vstd::prelude::*;

use vstd::string::StringExecFns;

use crate::DecodeError;
use crate::codec::{Element, decode_seq, decode_seq_spec, encode_seq, encode_seq_spec,
    lemma_seq_round_trip};
use crate::render::{dec_spec, push_u64};

verus! {

/// The remote schema of the foreign lane-marking type enum, with its declared
/// tags 0 through 10.
#[derive(Clone, Copy, Debug, PartialEq, Eq, Structural)]
pub enum LaneMarkingTypeSerDe {
    Other,
    Broken,
    Solid,
    SolidSolid,
    SolidBroken,
    BrokenSolid,
    BrokenBroken,
    BottsDots,
    Grass,
    Curb,
    NoMarking,
}

/// The remote schema of the foreign lane-marking color enum, with its
/// declared tags 0 through 5.
#[derive(Clone, Copy, Debug, PartialEq, Eq, Structural)]
pub enum LaneMarkingColorSerDe {
    Standard,
    Blue,
    Green,
    Red,
    Yellow,
    Other,
}

/// The remote schema of the foreign lane-change permission enum, with its
/// declared tags 0 through 3.
#[derive(Clone, Copy, Debug, PartialEq, Eq, Structural)]
pub enum LaneMarkingLaneChangeSerDe {
    NoChange,
    Right,
    Left,
    Both,
}

/// The stable tag of a marking type.
pub open spec fn marking_type_tag_spec(t: LaneMarkingTypeSerDe) -> u64 {
    match t {
        LaneMarkingTypeSerDe::Other => 0,
        LaneMarkingTypeSerDe::Broken => 1,
        LaneMarkingTypeSerDe::Solid => 2,
        LaneMarkingTypeSerDe::SolidSolid => 3,
        LaneMarkingTypeSerDe::SolidBroken => 4,
        LaneMarkingTypeSerDe::BrokenSolid => 5,
        LaneMarkingTypeSerDe::BrokenBroken => 6,
        LaneMarkingTypeSerDe::BottsDots => 7,
        LaneMarkingTypeSerDe::Grass => 8,
        LaneMarkingTypeSerDe::Curb => 9,
        LaneMarkingTypeSerDe::NoMarking => 10,
    }
}

/// The marking type a tag decodes to: each declared tag its exact variant,
/// anything else `UnknownVariant`.
pub open spec fn marking_type_of_tag_spec(tag: u64) -> Result<LaneMarkingTypeSerDe, DecodeError> {
    if tag == 0 {
        Ok(LaneMarkingTypeSerDe::Other)
    } else if tag == 1 {
        Ok(LaneMarkingTypeSerDe::Broken)
    } else if tag == 2 {
        Ok(LaneMarkingTypeSerDe::Solid)
    } else if tag == 3 {
        Ok(LaneMarkingTypeSerDe::SolidSolid)
    } else if tag == 4 {
        Ok(LaneMarkingTypeSerDe::SolidBroken)
    } else if tag == 5 {
        Ok(LaneMarkingTypeSerDe::BrokenSolid)
    } else if tag == 6 {
        Ok(LaneMarkingTypeSerDe::BrokenBroken)
    } else if tag == 7 {
        Ok(LaneMarkingTypeSerDe::BottsDots)
    } else if tag == 8 {
        Ok(LaneMarkingTypeSerDe::Grass)
    } else if tag == 9 {
        Ok(LaneMarkingTypeSerDe::Curb)
    } else if tag == 10 {
        Ok(LaneMarkingTypeSerDe::NoMarking)
    } else {
        Err(DecodeError::UnknownVariant)
    }
}

/// The stable tag of a marking color.
pub open spec fn marking_color_tag_spec(c: LaneMarkingColorSerDe) -> u64 {
    match c {
        LaneMarkingColorSerDe::Standard => 0,
        LaneMarkingColorSerDe::Blue => 1,
        LaneMarkingColorSerDe::Green => 2,
        LaneMarkingColorSerDe::Red => 3,
        LaneMarkingColorSerDe::Yellow => 4,
        LaneMarkingColorSerDe::Other => 5,
    }
}

/// The marking color a tag decodes to: each declared tag its exact variant,
/// anything else `UnknownVariant`.
pub open spec fn marking_color_of_tag_spec(tag: u64) -> Result<LaneMarkingColorSerDe, DecodeError> {
    if tag == 0 {
        Ok(LaneMarkingColorSerDe::Standard)
    } else if tag == 1 {
        Ok(LaneMarkingColorSerDe::Blue)
    } else if tag == 2 {
        Ok(LaneMarkingColorSerDe::Green)
    } else if tag == 3 {
        Ok(LaneMarkingColorSerDe::Red)
    } else if tag == 4 {
        Ok(LaneMarkingColorSerDe::Yellow)
    } else if tag == 5 {
        Ok(LaneMarkingColorSerDe::Other)
    } else {
        Err(DecodeError::UnknownVariant)
    }
}

/// The stable tag of a lane-change permission.
pub open spec fn lane_change_tag_spec(c: LaneMarkingLaneChangeSerDe) -> u64 {
    match c {
        LaneMarkingLaneChangeSerDe::NoChange => 0,
        LaneMarkingLaneChangeSerDe::Right => 1,
        LaneMarkingLaneChangeSerDe::Left => 2,
        LaneMarkingLaneChangeSerDe::Both => 3,
    }
}

/// The lane-change permission a tag decodes to: each declared tag its exact
/// variant, anything else `UnknownVariant`.
pub open spec fn lane_change_of_tag_spec(tag: u64) -> Result<
    LaneMarkingLaneChangeSerDe,
    DecodeError,
> {
    if tag == 0 {
        Ok(LaneMarkingLaneChangeSerDe::NoChange)
    } else if tag == 1 {
        Ok(LaneMarkingLaneChangeSerDe::Right)
    } else if tag == 2 {
        Ok(LaneMarkingLaneChangeSerDe::Left)
    } else if tag == 3 {
        Ok(LaneMarkingLaneChangeSerDe::Both)
    } else {
        Err(DecodeError::UnknownVariant)
    }
}

impl LaneMarkingTypeSerDe {
    /// The stable tag this variant encodes to.
    pub fn tag(&self) -> (r: u64)
        ensures
            r == marking_type_tag_spec(*self),
    {
        match self {
            LaneMarkingTypeSerDe::Other => 0,
            LaneMarkingTypeSerDe::Broken => 1,
            LaneMarkingTypeSerDe::Solid => 2,
            LaneMarkingTypeSerDe::SolidSolid => 3,
            LaneMarkingTypeSerDe::SolidBroken => 4,
            LaneMarkingTypeSerDe::BrokenSolid => 5,
            LaneMarkingTypeSerDe::BrokenBroken => 6,
            LaneMarkingTypeSerDe::BottsDots => 7,
            LaneMarkingTypeSerDe::Grass => 8,
            LaneMarkingTypeSerDe::Curb => 9,
            LaneMarkingTypeSerDe::NoMarking => 10,
        }
    }

    /// Decode a tag into its variant; a tag outside 0 through 10 is
    /// `UnknownVariant`.
    pub fn of_tag(tag: u64) -> (r: Result<LaneMarkingTypeSerDe, DecodeError>)
        ensures
            r == marking_type_of_tag_spec(tag),
    {
        if tag == 0 {
            Ok(LaneMarkingTypeSerDe::Other)
        } else if tag == 1 {
            Ok(LaneMarkingTypeSerDe::Broken)
        } else if tag == 2 {
            Ok(LaneMarkingTypeSerDe::Solid)
        } else if tag == 3 {
            Ok(LaneMarkingTypeSerDe::SolidSolid)
        } else if tag == 4 {
            Ok(LaneMarkingTypeSerDe::SolidBroken)
        } else if tag == 5 {
            Ok(LaneMarkingTypeSerDe::BrokenSolid)
        } else if tag == 6 {
            Ok(LaneMarkingTypeSerDe::BrokenBroken)
        } else if tag == 7 {
            Ok(LaneMarkingTypeSerDe::BottsDots)
        } else if tag == 8 {
            Ok(LaneMarkingTypeSerDe::Grass)
        } else if tag == 9 {
            Ok(LaneMarkingTypeSerDe::Curb)
        } else if tag == 10 {
            Ok(LaneMarkingTypeSerDe::NoMarking)
        } else {
            Err(DecodeError::UnknownVariant)
        }
    }
}

impl LaneMarkingColorSerDe {
    /// The stable tag this variant encodes to.
    pub fn tag(&self) -> (r: u64)
        ensures
            r == marking_color_tag_spec(*self),
    {
        match self {
            LaneMarkingColorSerDe::Standard => 0,
            LaneMarkingColorSerDe::Blue => 1,
            LaneMarkingColorSerDe::Green => 2,
            LaneMarkingColorSerDe::Red => 3,
            LaneMarkingColorSerDe::Yellow => 4,
            LaneMarkingColorSerDe::Other => 5,
        }
    }

    /// Decode a tag into its variant; a tag outside 0 through 5 is
    /// `UnknownVariant`.
    pub fn of_tag(tag: u64) -> (r: Result<LaneMarkingColorSerDe, DecodeError>)
        ensures
            r == marking_color_of_tag_spec(tag),
    {
        if tag == 0 {
            Ok(LaneMarkingColorSerDe::Standard)
        } else if tag == 1 {
            Ok(LaneMarkingColorSerDe::Blue)
        } else if tag == 2 {
            Ok(LaneMarkingColorSerDe::Green)
        } else if tag == 3 {
            Ok(LaneMarkingColorSerDe::Red)
        } else if tag == 4 {
            Ok(LaneMarkingColorSerDe::Yellow)
        } else if tag == 5 {
            Ok(LaneMarkingColorSerDe::Other)
        } else {
            Err(DecodeError::UnknownVariant)
        }
    }
}

impl LaneMarkingLaneChangeSerDe {
    /// The stable tag this variant encodes to.
    pub fn tag(&self) -> (r: u64)
        ensures
            r == lane_change_tag_spec(*self),
    {
        match self {
            LaneMarkingLaneChangeSerDe::NoChange => 0,
            LaneMarkingLaneChangeSerDe::Right => 1,
            LaneMarkingLaneChangeSerDe::Left => 2,
            LaneMarkingLaneChangeSerDe::Both => 3,
        }
    }

    /// Decode a tag into its variant; a tag outside 0 through 3 is
    /// `UnknownVariant`.
    pub fn of_tag(tag: u64) -> (r: Result<LaneMarkingLaneChangeSerDe, DecodeError>)
        ensures
            r == lane_change_of_tag_spec(tag),
    {
        if tag == 0 {
            Ok(LaneMarkingLaneChangeSerDe::NoChange)
        } else if tag == 1 {
            Ok(LaneMarkingLaneChangeSerDe::Right)
        } else if tag == 2 {
            Ok(LaneMarkingLaneChangeSerDe::Left)
        } else if tag == 3 {
            Ok(LaneMarkingLaneChangeSerDe::Both)
        } else {
            Err(DecodeError::UnknownVariant)
        }
    }
}

/// Tag stability: every declared tag decodes to exactly the variant that
/// encodes to it, every variant survives the round trip, and any tag outside
/// the declared set is rejected as `UnknownVariant`.
pub proof fn lemma_enum_tag_stability()
    ensures
        forall|t: LaneMarkingTypeSerDe|
            marking_type_of_tag_spec(#[trigger] marking_type_tag_spec(t)) == Ok::<
                LaneMarkingTypeSerDe,
                DecodeError,
            >(t),
        forall|x: u64| #[trigger] marking_type_of_tag_spec(x) is Ok <==> x <= 10,
        forall|x: u64| x <= 10
            ==> marking_type_tag_spec((#[trigger] marking_type_of_tag_spec(x)).unwrap()) == x,
        forall|c: LaneMarkingColorSerDe|
            marking_color_of_tag_spec(#[trigger] marking_color_tag_spec(c)) == Ok::<
                LaneMarkingColorSerDe,
                DecodeError,
            >(c),
        forall|x: u64| #[trigger] marking_color_of_tag_spec(x) is Ok <==> x <= 5,
        forall|x: u64| x <= 5
            ==> marking_color_tag_spec((#[trigger] marking_color_of_tag_spec(x)).unwrap()) == x,
        forall|l: LaneMarkingLaneChangeSerDe|
            lane_change_of_tag_spec(#[trigger] lane_change_tag_spec(l)) == Ok::<
                LaneMarkingLaneChangeSerDe,
                DecodeError,
            >(l),
        forall|x: u64| #[trigger] lane_change_of_tag_spec(x) is Ok <==> x <= 3,
        forall|x: u64| x <= 3
            ==> lane_change_tag_spec((#[trigger] lane_change_of_tag_spec(x)).unwrap()) == x,
{
}

/// One crossed lane marking: three closed enums and the marking width, an
/// IEEE-754 double-precision value carried as its 64-bit pattern.
#[derive(Clone, Copy, Debug, PartialEq, Eq, Structural)]
pub struct LaneMarkingSerDe {
    pub marking_type: LaneMarkingTypeSerDe,
    pub marking_color: LaneMarkingColorSerDe,
    pub lane_change: LaneMarkingLaneChangeSerDe,
    pub width_bits: u64,
}

impl Element for LaneMarkingSerDe {
    /// The declared field order is `marking_type`, `marking_color`,
    /// `lane_change`, `width`.
    open spec fn fields_spec(self) -> Seq<u64> {
        seq![
            marking_type_tag_spec(self.marking_type),
            marking_color_tag_spec(self.marking_color),
            lane_change_tag_spec(self.lane_change),
            self.width_bits,
        ]
    }

    open spec fn of_fields_spec(fields: Seq<u64>) -> Result<LaneMarkingSerDe, DecodeError> {
        if fields.len() != 4 {
            Err(DecodeError::SchemaMismatch)
        } else {
            match marking_type_of_tag_spec(fields[0]) {
                Err(e) => Err(e),
                Ok(t) => match marking_color_of_tag_spec(fields[1]) {
                    Err(e) => Err(e),
                    Ok(c) => match lane_change_of_tag_spec(fields[2]) {
                        Err(e) => Err(e),
                        Ok(l) => Ok(
                            LaneMarkingSerDe {
                                marking_type: t,
                                marking_color: c,
                                lane_change: l,
                                width_bits: fields[3],
                            },
                        ),
                    },
                },
            }
        }
    }

    proof fn lemma_element_round_trip(self) {
    }

    fn to_fields(&self) -> (r: Vec<u64>) {
        let fields: Vec<u64> = vec![
            self.marking_type.tag(),
            self.marking_color.tag(),
            self.lane_change.tag(),
            self.width_bits,
        ];
        proof {
            assert(fields@ =~= self.fields_spec());
        }
        fields
    }

    fn of_fields(fields: &[u64]) -> (r: Result<LaneMarkingSerDe, DecodeError>) {
        if fields.len() != 4 {
            return Err(DecodeError::SchemaMismatch);
        }
        let t = match LaneMarkingTypeSerDe::of_tag(fields[0]) {
            Ok(t) => t,
            Err(e) => {
                return Err(e);
            },
        };
        let c = match LaneMarkingColorSerDe::of_tag(fields[1]) {
            Ok(c) => c,
            Err(e) => {
                return Err(e);
            },
        };
        let l = match LaneMarkingLaneChangeSerDe::of_tag(fields[2]) {
            Ok(l) => l,
            Err(e) => {
                return Err(e);
            },
        };
        Ok(
            LaneMarkingSerDe {
                marking_type: t,
                marking_color: c,
                lane_change: l,
                width_bits: fields[3],
            },
        )
    }
}

/// Owned, round-trip lane-invasion adapter: the crossed lane markings in the
/// order the source reports them.
#[derive(Clone, Debug, PartialEq, Eq)]
pub struct LaneInvasionEventSerDe {
    pub crossed_lane_markings: Vec<LaneMarkingSerDe>,
}

/// The encoded form of a lane-invasion event: one field list per crossed
/// marking, in order.
#[derive(Clone, Debug, PartialEq, Eq)]
pub struct EncodedLaneInvasion {
    pub crossed_lane_markings: Vec<Vec<u64>>,
}

/// What encoding a lane-invasion adapter emits.
pub open spec fn encode_lane_invasion_spec(markings: Seq<LaneMarkingSerDe>) -> Seq<Seq<u64>> {
    encode_seq_spec(markings)
}

/// What decoding an encoded lane-invasion event yields.
pub open spec fn decode_lane_invasion_spec(rows: Seq<Seq<u64>>) -> Result<
    Seq<LaneMarkingSerDe>,
    DecodeError,
> {
    decode_seq_spec::<LaneMarkingSerDe>(rows)
}

impl LaneInvasionEventSerDe {
    /// Build the owned adapter from the source's crossed markings.
    pub fn from_markings(crossed_lane_markings: Vec<LaneMarkingSerDe>) -> (r:
        LaneInvasionEventSerDe)
        ensures
            r.crossed_lane_markings@ == crossed_lane_markings@,
    {
        LaneInvasionEventSerDe { crossed_lane_markings }
    }

    /// Encode this adapter: the markings in order.
    pub fn encode(&self) -> (r: EncodedLaneInvasion)
        ensures
            r.crossed_lane_markings.deep_view() == encode_lane_invasion_spec(
                self.crossed_lane_markings@,
            ),
    {
        EncodedLaneInvasion {
            crossed_lane_markings: encode_seq(self.crossed_lane_markings.as_slice()),
        }
    }

    /// Decode an encoded lane-invasion event; the first marking that fails to
    /// decode decides the error.
    pub fn decode(e: &EncodedLaneInvasion) -> (r: Result<LaneInvasionEventSerDe, DecodeError>)
        ensures
            match r {
                Ok(ev) => decode_lane_invasion_spec(e.crossed_lane_markings.deep_view()) == Ok::<
                    Seq<LaneMarkingSerDe>,
                    DecodeError,
                >(ev.crossed_lane_markings@),
                Err(err) => decode_lane_invasion_spec(e.crossed_lane_markings.deep_view()) == Err::<
                    Seq<LaneMarkingSerDe>,
                    DecodeError,
                >(err),
            },
    {
        match decode_seq::<LaneMarkingSerDe>(&e.crossed_lane_markings) {
            Ok(ms) => Ok(LaneInvasionEventSerDe { crossed_lane_markings: ms }),
            Err(err) => Err(err),
        }
    }
}

/// Round trip: decoding what a lane-invasion adapter encodes to restores the
/// markings exactly, the empty list included.
pub proof fn lemma_lane_invasion_round_trip(markings: Seq<LaneMarkingSerDe>)
    ensures
        decode_lane_invasion_spec(encode_lane_invasion_spec(markings)) == Ok::<
            Seq<LaneMarkingSerDe>,
            DecodeError,
        >(markings),
{
    lemma_seq_round_trip::<LaneMarkingSerDe>(markings);
}

/// The rendered name of a marking-type variant.
pub open spec fn marking_type_name_spec(t: LaneMarkingTypeSerDe) -> Seq<char> {
    match t {
        LaneMarkingTypeSerDe::Other => "Other"@,
        LaneMarkingTypeSerDe::Broken => "Broken"@,
        LaneMarkingTypeSerDe::Solid => "Solid"@,
        LaneMarkingTypeSerDe::SolidSolid => "SolidSolid"@,
        LaneMarkingTypeSerDe::SolidBroken => "SolidBroken"@,
        LaneMarkingTypeSerDe::BrokenSolid => "BrokenSolid"@,
        LaneMarkingTypeSerDe::BrokenBroken => "BrokenBroken"@,
        LaneMarkingTypeSerDe::BottsDots => "BottsDots"@,
        LaneMarkingTypeSerDe::Grass => "Grass"@,
        LaneMarkingTypeSerDe::Curb => "Curb"@,
        LaneMarkingTypeSerDe::NoMarking => "NoMarking"@,
    }
}

/// The rendered name of a marking-color variant.
pub open spec fn marking_color_name_spec(c: LaneMarkingColorSerDe) -> Seq<char> {
    match c {
        LaneMarkingColorSerDe::Standard => "Standard"@,
        LaneMarkingColorSerDe::Blue => "Blue"@,
        LaneMarkingColorSerDe::Green => "Green"@,
        LaneMarkingColorSerDe::Red => "Red"@,
        LaneMarkingColorSerDe::Yellow => "Yellow"@,
        LaneMarkingColorSerDe::Other => "Other"@,
    }
}

/// The rendered name of a lane-change variant.
pub open spec fn lane_change_name_spec(l: LaneMarkingLaneChangeSerDe) -> Seq<char> {
    match l {
        LaneMarkingLaneChangeSerDe::NoChange => "NoChange"@,
        LaneMarkingLaneChangeSerDe::Right => "Right"@,
        LaneMarkingLaneChangeSerDe::Left => "Left"@,
        LaneMarkingLaneChangeSerDe::Both => "Both"@,
    }
}

impl LaneMarkingTypeSerDe {
    /// This variant's rendered name.
    pub fn name(&self) -> (r: &'static str)
        ensures
            r@ == marking_type_name_spec(*self),
    {
        match self {
            LaneMarkingTypeSerDe::Other => "Other",
            LaneMarkingTypeSerDe::Broken => "Broken",
            LaneMarkingTypeSerDe::Solid => "Solid",
            LaneMarkingTypeSerDe::SolidSolid => "SolidSolid",
            LaneMarkingTypeSerDe::SolidBroken => "SolidBroken",
            LaneMarkingTypeSerDe::BrokenSolid => "BrokenSolid",
            LaneMarkingTypeSerDe::BrokenBroken => "BrokenBroken",
            LaneMarkingTypeSerDe::BottsDots => "BottsDots",
            LaneMarkingTypeSerDe::Grass => "Grass",
            LaneMarkingTypeSerDe::Curb => "Curb",
            LaneMarkingTypeSerDe::NoMarking => "NoMarking",
        }
    }
}

impl LaneMarkingColorSerDe {
    /// This variant's rendered name.
    pub fn name(&self) -> (r: &'static str)
        ensures
            r@ == marking_color_name_spec(*self),
    {
        match self {
            LaneMarkingColorSerDe::Standard => "Standard",
            LaneMarkingColorSerDe::Blue => "Blue",
            LaneMarkingColorSerDe::Green => "Green",
            LaneMarkingColorSerDe::Red => "Red",
            LaneMarkingColorSerDe::Yellow => "Yellow",
            LaneMarkingColorSerDe::Other => "Other",
        }
    }
}

impl LaneMarkingLaneChangeSerDe {
    /// This variant's rendered name.
    pub fn name(&self) -> (r: &'static str)
        ensures
            r@ == lane_change_name_spec(*self),
    {
        match self {
            LaneMarkingLaneChangeSerDe::NoChange => "NoChange",
            LaneMarkingLaneChangeSerDe::Right => "Right",
            LaneMarkingLaneChangeSerDe::Left => "Left",
            LaneMarkingLaneChangeSerDe::Both => "Both",
        }
    }
}

/// The rendering of one crossed marking: every field, the enums by name, the
/// width by its bit pattern.
pub open spec fn marking_render_spec(m: LaneMarkingSerDe) -> Seq<char> {
    "LaneMarkingSerDe { marking_type: "@ + marking_type_name_spec(m.marking_type)
        + ", marking_color: "@ + marking_color_name_spec(m.marking_color) + ", lane_change: "@
        + lane_change_name_spec(m.lane_change) + ", width_bits: "@ + dec_spec(m.width_bits as nat)
        + " }"@
}

/// The renderings of the first `k` markings, comma-separated.
pub open spec fn markings_prefix_spec(ms: Seq<LaneMarkingSerDe>, k: nat) -> Seq<char>
    decreases k,
{
    if k == 0 {
        Seq::empty()
    } else if k == 1 {
        marking_render_spec(ms[0])
    } else {
        markings_prefix_spec(ms, (k - 1) as nat) + ", "@ + marking_render_spec(ms[k - 1])
    }
}

/// The complete text a lane-invasion adapter renders to: the bracketed list
/// of every crossed marking, in order. The list is never elided: a lane
/// invasion reports at most a handful of markings.
pub open spec fn lane_invasion_render_spec(ms: Seq<LaneMarkingSerDe>) -> Seq<char> {
    "LaneInvasionEventSerDe { crossed_lane_markings: ["@ + markings_prefix_spec(ms, ms.len())
        + "] }"@
}

/// Append the rendering of one crossed marking.
fn push_marking(s: &mut String, m: &LaneMarkingSerDe)
    ensures
        final(s)@ == old(s)@ + marking_render_spec(*m),
{
    s.append("LaneMarkingSerDe { marking_type: ");
    s.append(m.marking_type.name());
    s.append(", marking_color: ");
    s.append(m.marking_color.name());
    s.append(", lane_change: ");
    s.append(m.lane_change.name());
    s.append(", width_bits: ");
    push_u64(s, m.width_bits);
    s.append(" }");
    proof {
        assert(s@ =~= old(s)@ + marking_render_spec(*m));
    }
}

impl LaneMarkingSerDe {
    /// Render this marking as text.
    pub fn render(&self) -> (r: String)
        ensures
            r@ == marking_render_spec(*self),
    {
        let mut s = String::new();
        push_marking(&mut s, self);
        proof {
            assert(s@ =~= marking_render_spec(*self));
        }
        s
    }
}

impl LaneInvasionEventSerDe {
    /// Render this adapter as text: every crossed marking, in order.
    pub fn render(&self) -> (r: String)
        ensures
            r@ == lane_invasion_render_spec(self.crossed_lane_markings@),
    {
        let ghost ms = self.crossed_lane_markings@;
        let mut s = String::new();
        s.append("LaneInvasionEventSerDe { crossed_lane_markings: [");
        let mut i: usize = 0;
        while i < self.crossed_lane_markings.len()
            invariant
                i <= ms.len(),
                ms == self.crossed_lane_markings@,
                s@ == "LaneInvasionEventSerDe { crossed_lane_markings: ["@ + markings_prefix_spec(
                    ms,
                    i as nat,
                ),
            decreases ms.len() - i,
        {
            if i > 0 {
                s.append(", ");
            }
            push_marking(&mut s, &self.crossed_lane_markings[i]);
            proof {
                assert(s@ =~= "LaneInvasionEventSerDe { crossed_lane_markings: ["@
                    + markings_prefix_spec(ms, (i + 1) as nat));
            }
            i += 1;
        }
        s.append("] }");
        proof {
            assert(s@ =~= lane_invasion_render_spec(ms));
        }
        s
    }
}

} // verus!
