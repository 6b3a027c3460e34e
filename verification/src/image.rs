//! Image adapters: a borrowed, encode-only view and an owned, round-trip view
//! over a two-dimensional pixel grid, plus the grid codec.
//!
//! The encoded payload is row-major: one field list per pixel, one sequence of
//! field lists per row, the outer sequence as long as the grid is high.
//! Decoding rejects ragged payloads; an empty outer sequence decodes to the
//! explicit 0 by 0 grid.

use vstd::arithmetic::div_mod::{
    lemma_fundamental_div_mod, lemma_fundamental_div_mod_converse, lemma_mod_bound,
};
use vstd::prelude::*;

use vstd::string::StringExecFns;

use crate::DecodeError;
use crate::codec::{Element, decode_seq, decode_seq_spec, lemma_decode_seq_all_ok};
use crate::grid::{Color, PixelGrid, grid_pixels, grid_shape, grid_wf};
use crate::render::{bool_spec, capped, color_render_spec, dec_spec, push_bool, push_color,
    push_u64};

verus! {

impl Element for Color {
    /// The remote schema's declared field order is the foreign storage order
    /// `b`, `g`, `r`, `a`.
    open spec fn fields_spec(self) -> Seq<u64> {
        seq![self.b as u64, self.g as u64, self.r as u64, self.a as u64]
    }

    open spec fn of_fields_spec(fields: Seq<u64>) -> Result<Color, DecodeError> {
        if fields.len() != 4 {
            Err(DecodeError::SchemaMismatch)
        } else if fields[0] > 0xff || fields[1] > 0xff || fields[2] > 0xff || fields[3] > 0xff {
            Err(DecodeError::MalformedElement)
        } else {
            Ok(Color { b: fields[0] as u8, g: fields[1] as u8, r: fields[2] as u8, a: fields[3] as u8 })
        }
    }

    proof fn lemma_element_round_trip(self) {
    }

    fn to_fields(&self) -> (r: Vec<u64>) {
        let fields: Vec<u64> = vec![self.b as u64, self.g as u64, self.r as u64, self.a as u64];
        proof {
            assert(fields@ =~= self.fields_spec());
        }
        fields
    }

    fn of_fields(fields: &[u64]) -> (r: Result<Color, DecodeError>) {
        if fields.len() != 4 {
            Err(DecodeError::SchemaMismatch)
        } else if fields[0] > 0xff || fields[1] > 0xff || fields[2] > 0xff || fields[3] > 0xff {
            Err(DecodeError::MalformedElement)
        } else {
            Ok(Color { b: fields[0] as u8, g: fields[1] as u8, r: fields[2] as u8, a: fields[3] as u8 })
        }
    }
}

/// The mathematical model of a decoded grid: its shape and its pixels in
/// row-major order.
pub struct GridModel {
    pub height: nat,
    pub width: nat,
    pub pixels: Seq<Color>,
}

/// The encoding of a rectangular grid given as `h` rows of `w` pixels stored
/// row-major in `pixels`.
pub open spec fn encode_grid_spec(h: nat, w: nat, pixels: Seq<Color>) -> Seq<Seq<Seq<u64>>> {
    Seq::new(h, |i: int| Seq::new(w, |j: int| pixels[i * w + j].fields_spec()))
}

/// Row-by-row element decoding: the rows in order, or the error of the first
/// row that fails.
pub open spec fn decode_rows_spec(rows: Seq<Seq<Seq<u64>>>) -> Result<Seq<Seq<Color>>, DecodeError>
    decreases rows.len(),
{
    if rows.len() == 0 {
        Ok(Seq::empty())
    } else {
        match decode_seq_spec::<Color>(rows.first()) {
            Err(e) => Err(e),
            Ok(r0) => match decode_rows_spec(rows.drop_first()) {
                Err(e) => Err(e),
                Ok(rest) => Ok(seq![r0] + rest),
            },
        }
    }
}

/// A decoded payload is ragged when some row's length differs from the first
/// row's.
pub open spec fn is_ragged(rs: Seq<Seq<Color>>) -> bool {
    exists|i: int| 0 <= i < rs.len() && #[trigger] rs[i].len() != rs[0].len()
}

/// The row-major flattening of equal-length rows.
pub open spec fn flatten_rows(rs: Seq<Seq<Color>>) -> Seq<Color> {
    let w = if rs.len() == 0 { 0 } else { rs[0].len() };
    Seq::new(rs.len() * w, |k: int| rs[k / w as int][k % w as int])
}

/// What decoding a two-dimensional payload yields: the first element error in
/// row-major order, else `RaggedGrid` when row lengths differ, else the grid,
/// with the explicit 0 by 0 grid for the empty payload.
pub open spec fn decode_grid_spec(rows: Seq<Seq<Seq<u64>>>) -> Result<GridModel, DecodeError> {
    match decode_rows_spec(rows) {
        Err(e) => Err(e),
        Ok(rs) => if is_ragged(rs) {
            Err(DecodeError::RaggedGrid)
        } else {
            Ok(GridModel {
                height: rs.len(),
                width: if rs.len() == 0 { 0 } else { rs[0].len() },
                pixels: flatten_rows(rs),
            })
        },
    }
}

/// When every row decodes, the whole payload's row decoding yields the rows in
/// order.
pub proof fn lemma_decode_rows_all_ok(rows: Seq<Seq<Seq<u64>>>, out: Seq<Seq<Color>>)
    requires
        out.len() == rows.len(),
        forall|j: int| 0 <= j < rows.len()
            ==> decode_seq_spec::<Color>(rows[j]) == Ok::<Seq<Color>, DecodeError>(out[j]),
    ensures
        decode_rows_spec(rows) == Ok::<Seq<Seq<Color>>, DecodeError>(out),
    decreases rows.len(),
{
    if rows.len() == 0 {
        assert(out =~= Seq::<Seq<Color>>::empty());
    } else {
        lemma_decode_rows_all_ok(rows.drop_first(), out.drop_first());
        assert(seq![out[0]] + out.drop_first() =~= out);
    }
}

/// When the rows before position `k` decode and row `k` fails, the whole
/// payload's row decoding reports exactly that failure.
pub proof fn lemma_decode_rows_err_at(rows: Seq<Seq<Seq<u64>>>, k: int, e: DecodeError)
    requires
        0 <= k < rows.len(),
        forall|j: int| 0 <= j < k ==> decode_seq_spec::<Color>(rows[j]) is Ok,
        decode_seq_spec::<Color>(rows[k]) == Err::<Seq<Color>, DecodeError>(e),
    ensures
        decode_rows_spec(rows) == Err::<Seq<Seq<Color>>, DecodeError>(e),
    decreases rows.len(),
{
    if k > 0 {
        lemma_decode_rows_err_at(rows.drop_first(), k - 1, e);
    }
}

/// Encode a grid row-major: one field list per pixel, one inner sequence per
/// row.
pub fn encode_grid(g: &PixelGrid) -> (r: Vec<Vec<Vec<u64>>>)
    requires
        grid_wf(*g),
    ensures
        r.deep_view() == encode_grid_spec(grid_shape(*g).0, grid_shape(*g).1, grid_pixels(*g)),
{
    let (h, w) = g.dim();
    let ghost gw = grid_shape(*g).1 as int;
    let mut r: Vec<Vec<Vec<u64>>> = Vec::new();
    let mut i: usize = 0;
    while i < h
        invariant
            i <= h,
            h as nat == grid_shape(*g).0,
            w as nat == grid_shape(*g).1,
            gw == w as int,
            grid_wf(*g),
            grid_pixels(*g).len() == h as nat * w as nat,
            r@.len() == i,
            forall|a: int| 0 <= a < i ==> (#[trigger] r@[a])@.len() == w as nat,
            forall|a: int, b: int| 0 <= a < i && 0 <= b < w
                ==> (#[trigger] r@[a]@[b])@ == grid_pixels(*g)[a * gw + b].fields_spec(),
        decreases h - i,
    {
        let mut row: Vec<Vec<u64>> = Vec::new();
        let mut j: usize = 0;
        while j < w
            invariant
                j <= w,
                i < h,
                h as nat == grid_shape(*g).0,
                w as nat == grid_shape(*g).1,
                gw == w as int,
                grid_wf(*g),
                grid_pixels(*g).len() == h as nat * w as nat,
                row@.len() == j,
                forall|b: int| 0 <= b < j
                    ==> (#[trigger] row@[b])@ == grid_pixels(*g)[i as int * gw + b].fields_spec(),
            decreases w - j,
        {
            proof {
                let n: int = grid_pixels(*g).len() as int;
                let ii: int = i as int;
                let jj: int = j as int;
                let hh: int = h as int;
                assert(0 <= ii * gw + jj && ii * gw + jj < n) by (nonlinear_arith)
                    requires
                        0 <= ii < hh,
                        0 <= jj < gw,
                        n == hh * gw;
            }
            let px = g.get(i, j);
            let fields = px.to_fields();
            row.push(fields);
            j += 1;
        }
        r.push(row);
        i += 1;
    }
    proof {
        assert(r.deep_view() =~~= encode_grid_spec(
            grid_shape(*g).0,
            grid_shape(*g).1,
            grid_pixels(*g),
        ));
    }
    r
}

/// Decode a two-dimensional payload into a grid.
///
/// The first element that fails to decode (in row-major order) decides the
/// error; then rows of unequal length are rejected as `RaggedGrid`; an empty
/// outer sequence yields the 0 by 0 grid.
pub fn decode_grid(rows: &Vec<Vec<Vec<u64>>>) -> (r: Result<PixelGrid, DecodeError>)
    ensures
        match r {
            Ok(g) => {
                &&& decode_grid_spec(rows.deep_view()) == Ok::<GridModel, DecodeError>(
                    GridModel {
                        height: grid_shape(g).0,
                        width: grid_shape(g).1,
                        pixels: grid_pixels(g),
                    },
                )
                &&& grid_wf(g)
                &&& (grid_shape(g).0 == 0 ==> grid_shape(g).1 == 0)
            },
            Err(e) => decode_grid_spec(rows.deep_view()) == Err::<GridModel, DecodeError>(e),
        },
{
    let ghost grows = rows.deep_view();
    let mut px_rows: Vec<Vec<Color>> = Vec::new();
    let mut i: usize = 0;
    while i < rows.len()
        invariant
            i <= rows@.len(),
            px_rows@.len() == i,
            grows == rows.deep_view(),
            grows.len() == rows@.len(),
            forall|j: int| 0 <= j < rows@.len() ==> grows[j] == #[trigger] rows@[j].deep_view(),
            forall|j: int| 0 <= j < i
                ==> decode_seq_spec::<Color>(grows[j]) == Ok::<Seq<Color>, DecodeError>(
                    #[trigger] px_rows@[j]@,
                ),
        decreases rows@.len() - i,
    {
        match decode_seq::<Color>(&rows[i]) {
            Ok(row) => {
                px_rows.push(row);
            },
            Err(e) => {
                proof {
                    assert forall|j: int| 0 <= j < i implies decode_seq_spec::<Color>(
                        grows[j],
                    ) is Ok by {
                        assert(decode_seq_spec::<Color>(grows[j]) == Ok::<
                            Seq<Color>,
                            DecodeError,
                        >(px_rows@[j]@));
                    }
                    lemma_decode_rows_err_at(grows, i as int, e);
                }
                return Err(e);
            },
        }
        i += 1;
    }
    let ghost rs = Seq::new(px_rows@.len(), |j: int| px_rows@[j]@);
    proof {
        lemma_decode_rows_all_ok(grows, rs);
    }
    let h = px_rows.len();
    let w = if h == 0 { 0 } else { px_rows[0].len() };
    // ragged check: every row must have the first row's length
    let mut k: usize = 0;
    while k < h
        invariant
            k <= h,
            h == px_rows@.len(),
            rs == Seq::new(px_rows@.len(), |j: int| px_rows@[j]@),
            h == 0 ==> w == 0,
            h > 0 ==> w as nat == rs[0].len(),
            grows == rows.deep_view(),
            decode_rows_spec(grows) == Ok::<Seq<Seq<Color>>, DecodeError>(rs),
            forall|j: int| 0 <= j < k ==> rs[j].len() == w as nat,
        decreases h - k,
    {
        if px_rows[k].len() != w {
            proof {
                assert(rs[k as int].len() != rs[0].len());
                assert(is_ragged(rs));
            }
            return Err(DecodeError::RaggedGrid);
        }
        k += 1;
    }
    proof {
        assert(!is_ragged(rs));
    }
    // flatten row-major into the backing storage
    let mut flat: Vec<Color> = Vec::new();
    let mut a: usize = 0;
    while a < h
        invariant
            a <= h,
            h == px_rows@.len(),
            rs == Seq::new(px_rows@.len(), |j: int| px_rows@[j]@),
            h == 0 ==> w == 0,
            grows == rows.deep_view(),
            decode_rows_spec(grows) == Ok::<Seq<Seq<Color>>, DecodeError>(rs),
            forall|j: int| 0 <= j < h ==> #[trigger] rs[j].len() == w as nat,
            flat@.len() == a as nat * w as nat,
            forall|t: int| 0 <= t < flat@.len()
                ==> #[trigger] flat@[t] == rs[t / w as int][t % w as int],
        decreases h - a,
    {
        let mut b: usize = 0;
        proof {
            assert(a as nat * w as nat + w as nat == (a + 1) as nat * w as nat)
                by (nonlinear_arith);
            assert((a + 1) as nat * w as nat <= h as nat * w as nat) by (nonlinear_arith)
                requires
                    a as int + 1 <= h as int,
                    w as int >= 0;
        }
        while b < w
            invariant
                b <= w,
                a < h,
                h == px_rows@.len(),
                rs == Seq::new(px_rows@.len(), |j: int| px_rows@[j]@),
                h == 0 ==> w == 0,
                grows == rows.deep_view(),
                decode_rows_spec(grows) == Ok::<Seq<Seq<Color>>, DecodeError>(rs),
                forall|j: int| 0 <= j < h ==> #[trigger] rs[j].len() == w as nat,
                flat@.len() == a as nat * w as nat + b as nat,
                forall|t: int| 0 <= t < flat@.len()
                    ==> #[trigger] flat@[t] == rs[t / w as int][t % w as int],
            decreases w - b,
        {
            proof {
                assert(rs[a as int] == px_rows@[a as int]@);
                assert(px_rows@[a as int]@.len() == w as nat);
            }
            let px = px_rows[a][b];
            proof {
                lemma_fundamental_div_mod_converse(
                    a as int * w as int + b as int,
                    w as int,
                    a as int,
                    b as int,
                );
            }
            flat.push(px);
            b += 1;
        }
        a += 1;
    }
    proof {
        assert(flat@ =~= flatten_rows(rs));
    }
    let g = PixelGrid::from_vec(h, w, flat);
    Ok(g)
}

/// Decoding what a rectangular grid encodes to restores its shape and its
/// pixels exactly, the empty grid included.
pub proof fn lemma_grid_round_trip(h: nat, w: nat, pixels: Seq<Color>)
    requires
        pixels.len() == h * w,
        h == 0 ==> w == 0,
    ensures
        decode_grid_spec(encode_grid_spec(h, w, pixels)) == Ok::<GridModel, DecodeError>(
            GridModel { height: h, width: w, pixels: pixels },
        ),
{
    let rows = encode_grid_spec(h, w, pixels);
    let rs = Seq::new(h, |i: int| Seq::new(w, |j: int| pixels[i * w + j]));
    assert forall|i: int| 0 <= i < h implies decode_seq_spec::<Color>(rows[i]) == Ok::<
        Seq<Color>,
        DecodeError,
    >(rs[i]) by {
        assert forall|j: int| 0 <= j < w implies Color::of_fields_spec(rows[i][j]) == Ok::<
            Color,
            DecodeError,
        >(rs[i][j]) by {
            assert(0 <= i * w + j && i * w + j < h * w) by (nonlinear_arith)
                requires
                    0 <= i < h,
                    0 <= j < w;
            assert(rows[i][j] == pixels[i * w + j].fields_spec());
            assert(rs[i][j] == pixels[i * w + j]);
        }
        lemma_decode_seq_all_ok::<Color>(rows[i], rs[i]);
    }
    lemma_decode_rows_all_ok(rows, rs);
    assert(!is_ragged(rs));
    if h == 0 {
        assert(flatten_rows(rs) =~= pixels);
    } else {
        assert(rs[0].len() == w);
        assert(flatten_rows(rs).len() == h * w);
        assert forall|k: int| 0 <= k < h * w implies flatten_rows(rs)[k] == pixels[k] by {
            lemma_fundamental_div_mod(k, w as int);
            lemma_mod_bound(k, w as int);
            let q = k / (w as int);
            let r = k % (w as int);
            assert(0 <= q && q < h) by (nonlinear_arith)
                requires
                    k == (w as int) * q + r,
                    0 <= r < w as int,
                    0 <= k < h * w;
            assert(rs[q][r] == pixels[q * (w as int) + r]);
        }
        assert(flatten_rows(rs) =~= pixels);
    }
}

/// A payload whose rows all decode but whose row lengths differ is rejected
/// as `RaggedGrid`, never repaired.
pub proof fn lemma_ragged_rejected(rows: Seq<Seq<Seq<u64>>>, rs: Seq<Seq<Color>>)
    requires
        decode_rows_spec(rows) == Ok::<Seq<Seq<Color>>, DecodeError>(rs),
        is_ragged(rs),
    ensures
        decode_grid_spec(rows) == Err::<GridModel, DecodeError>(DecodeError::RaggedGrid),
{
}

/// A 0 by 0 grid encodes to the empty outer sequence, and the empty outer
/// sequence decodes to the explicit 0 by 0 grid, not an error.
pub proof fn lemma_empty_grid(pixels: Seq<Color>)
    requires
        pixels.len() == 0,
    ensures
        encode_grid_spec(0, 0, pixels) == Seq::<Seq<Seq<u64>>>::empty(),
        decode_grid_spec(Seq::<Seq<Seq<u64>>>::empty()) == Ok::<GridModel, DecodeError>(
            GridModel { height: 0, width: 0, pixels: Seq::<Color>::empty() },
        ),
{
    assert(encode_grid_spec(0, 0, pixels) =~= Seq::<Seq<Seq<u64>>>::empty());
    let e = Seq::<Seq<Seq<u64>>>::empty();
    assert(decode_rows_spec(e) == Ok::<Seq<Seq<Color>>, DecodeError>(Seq::empty()));
    assert(!is_ragged(Seq::<Seq<Color>>::empty()));
    assert(flatten_rows(Seq::<Seq<Color>>::empty()) =~= Seq::<Color>::empty());
}

/// The mathematical content of an image adapter: the cached scalar header
/// fields and the grid's shape and pixels.
pub struct ImageView {
    pub height: nat,
    pub width: nat,
    pub len: nat,
    pub is_empty: bool,
    pub fov_angle_bits: u32,
    pub rows: nat,
    pub cols: nat,
    pub pixels: Seq<Color>,
}

/// A well-formed image adapter: the cached header agrees with the grid, and a
/// zero-row grid has width zero.
pub open spec fn image_wf(v: ImageView) -> bool {
    &&& v.rows == v.height
    &&& v.cols == v.width
    &&& v.pixels.len() == v.height * v.width
    &&& v.len == v.height * v.width
    &&& v.is_empty == (v.len == 0)
    &&& (v.height == 0 ==> v.width == 0)
}

/// Owned, round-trip image adapter: header scalars plus an owned pixel grid.
pub struct ImageEventSerDe {
    pub height: usize,
    pub width: usize,
    pub len: usize,
    pub is_empty: bool,
    pub fov_angle_bits: u32,
    pub array: PixelGrid,
}

impl View for ImageEventSerDe {
    type V = ImageView;

    open spec fn view(&self) -> ImageView {
        ImageView {
            height: self.height as nat,
            width: self.width as nat,
            len: self.len as nat,
            is_empty: self.is_empty,
            fov_angle_bits: self.fov_angle_bits,
            rows: grid_shape(self.array).0,
            cols: grid_shape(self.array).1,
            pixels: grid_pixels(self.array),
        }
    }
}

/// Borrowed, zero-copy image adapter: header scalars plus a reference to the
/// source grid. Encode-only; it never outlives the grid it borrows.
pub struct ImageEventSerBorrowed<'a> {
    pub height: usize,
    pub width: usize,
    pub len: usize,
    pub is_empty: bool,
    pub fov_angle_bits: u32,
    pub array: &'a PixelGrid,
}

impl<'a> View for ImageEventSerBorrowed<'a> {
    type V = ImageView;

    open spec fn view(&self) -> ImageView {
        ImageView {
            height: self.height as nat,
            width: self.width as nat,
            len: self.len as nat,
            is_empty: self.is_empty,
            fov_angle_bits: self.fov_angle_bits,
            rows: grid_shape(*self.array).0,
            cols: grid_shape(*self.array).1,
            pixels: grid_pixels(*self.array),
        }
    }
}

/// The encoded form of an image adapter: the header scalars and the row-major
/// payload, exactly the serialized field set.
#[derive(Clone, Debug, PartialEq, Eq)]
pub struct EncodedImage {
    pub height: usize,
    pub width: usize,
    pub len: usize,
    pub is_empty: bool,
    pub fov_angle_bits: u32,
    pub array: Vec<Vec<Vec<u64>>>,
}

/// The mathematical content of an encoded image.
pub struct EncodedImageView {
    pub height: nat,
    pub width: nat,
    pub len: nat,
    pub is_empty: bool,
    pub fov_angle_bits: u32,
    pub array: Seq<Seq<Seq<u64>>>,
}

impl View for EncodedImage {
    type V = EncodedImageView;

    open spec fn view(&self) -> EncodedImageView {
        EncodedImageView {
            height: self.height as nat,
            width: self.width as nat,
            len: self.len as nat,
            is_empty: self.is_empty,
            fov_angle_bits: self.fov_angle_bits,
            array: self.array.deep_view(),
        }
    }
}

/// What encoding an image adapter emits: every header field copied, the grid
/// encoded row-major.
pub open spec fn encode_image_spec(v: ImageView) -> EncodedImageView {
    EncodedImageView {
        height: v.height,
        width: v.width,
        len: v.len,
        is_empty: v.is_empty,
        fov_angle_bits: v.fov_angle_bits,
        array: encode_grid_spec(v.rows, v.cols, v.pixels),
    }
}

/// What decoding an encoded image yields: the header fields copied, the grid
/// payload decoded with ragged rejection.
pub open spec fn decode_image_spec(e: EncodedImageView) -> Result<ImageView, DecodeError> {
    match decode_grid_spec(e.array) {
        Err(err) => Err(err),
        Ok(m) => Ok(
            ImageView {
                height: e.height,
                width: e.width,
                len: e.len,
                is_empty: e.is_empty,
                fov_angle_bits: e.fov_angle_bits,
                rows: m.height,
                cols: m.width,
                pixels: m.pixels,
            },
        ),
    }
}

impl ImageEventSerDe {
    /// Build the owned adapter from a source grid and its field-of-view
    /// angle, caching the derived scalar header.
    pub fn from_grid(array: PixelGrid, fov_angle_bits: u32) -> (r: ImageEventSerDe)
        requires
            grid_wf(array),
            grid_shape(array).0 == 0 ==> grid_shape(array).1 == 0,
        ensures
            r@ == (ImageView {
                height: grid_shape(array).0,
                width: grid_shape(array).1,
                len: grid_pixels(array).len(),
                is_empty: grid_pixels(array).len() == 0,
                fov_angle_bits: fov_angle_bits,
                rows: grid_shape(array).0,
                cols: grid_shape(array).1,
                pixels: grid_pixels(array),
            }),
            image_wf(r@),
    {
        let (h, w) = array.dim();
        let len = h * w;
        ImageEventSerDe {
            height: h,
            width: w,
            len,
            is_empty: len == 0,
            fov_angle_bits,
            array,
        }
    }

    /// Encode this adapter: header fields copied, payload encoded row-major.
    pub fn encode(&self) -> (r: EncodedImage)
        requires
            grid_wf(self.array),
        ensures
            r@ == encode_image_spec(self@),
    {
        EncodedImage {
            height: self.height,
            width: self.width,
            len: self.len,
            is_empty: self.is_empty,
            fov_angle_bits: self.fov_angle_bits,
            array: encode_grid(&self.array),
        }
    }

    /// Decode an encoded image into an owned adapter; the payload's first
    /// element error, or its raggedness, decides the failure.
    pub fn decode(e: &EncodedImage) -> (r: Result<ImageEventSerDe, DecodeError>)
        ensures
            match r {
                Ok(img) => {
                    &&& decode_image_spec(e@) == Ok::<ImageView, DecodeError>(img@)
                    &&& grid_wf(img.array)
                },
                Err(err) => decode_image_spec(e@) == Err::<ImageView, DecodeError>(err),
            },
    {
        match decode_grid(&e.array) {
            Ok(g) => Ok(
                ImageEventSerDe {
                    height: e.height,
                    width: e.width,
                    len: e.len,
                    is_empty: e.is_empty,
                    fov_angle_bits: e.fov_angle_bits,
                    array: g,
                },
            ),
            Err(err) => Err(err),
        }
    }
}

impl<'a> ImageEventSerBorrowed<'a> {
    /// Build the borrowed adapter over a source grid without copying any
    /// pixel, caching only the derived scalar header.
    pub fn from_grid(array: &'a PixelGrid, fov_angle_bits: u32) -> (r: ImageEventSerBorrowed<'a>)
        requires
            grid_wf(*array),
            grid_shape(*array).0 == 0 ==> grid_shape(*array).1 == 0,
        ensures
            r@ == (ImageView {
                height: grid_shape(*array).0,
                width: grid_shape(*array).1,
                len: grid_pixels(*array).len(),
                is_empty: grid_pixels(*array).len() == 0,
                fov_angle_bits: fov_angle_bits,
                rows: grid_shape(*array).0,
                cols: grid_shape(*array).1,
                pixels: grid_pixels(*array),
            }),
            image_wf(r@),
    {
        let (h, w) = array.dim();
        let len = h * w;
        ImageEventSerBorrowed {
            height: h,
            width: w,
            len,
            is_empty: len == 0,
            fov_angle_bits,
            array,
        }
    }

    /// Encode this adapter; the output is the same as the owned adapter's.
    pub fn encode(&self) -> (r: EncodedImage)
        requires
            grid_wf(*self.array),
        ensures
            r@ == encode_image_spec(self@),
    {
        EncodedImage {
            height: self.height,
            width: self.width,
            len: self.len,
            is_empty: self.is_empty,
            fov_angle_bits: self.fov_angle_bits,
            array: encode_grid(self.array),
        }
    }
}

/// Round trip: decoding what a well-formed owned image adapter encodes to
/// restores the adapter field for field, the empty image included.
pub proof fn lemma_image_round_trip(v: ImageView)
    requires
        image_wf(v),
    ensures
        decode_image_spec(encode_image_spec(v)) == Ok::<ImageView, DecodeError>(v),
{
    lemma_grid_round_trip(v.rows, v.cols, v.pixels);
}

/// A borrowed adapter and an owned adapter built from the same source carry
/// the same content, and their encoded outputs are identical.
pub proof fn lemma_borrowed_owned_encode_equal(b: ImageView, o: ImageView)
    requires
        b == o,
    ensures
        encode_image_spec(b) == encode_image_spec(o),
{
}

/// How many rows the image preview shows.
pub const PREVIEW_H: usize = 3;

/// How many columns of each shown row the image preview shows.
pub const PREVIEW_W: usize = 3;

/// The rendering of the first `j` pixels of row `i`, comma-separated.
pub open spec fn row_prefix_spec(pixels: Seq<Color>, w: nat, i: int, j: nat) -> Seq<char>
    decreases j,
{
    if j == 0 {
        Seq::empty()
    } else if j == 1 {
        color_render_spec(pixels[i * w])
    } else {
        row_prefix_spec(pixels, w, i, (j - 1) as nat) + ", "@ + color_render_spec(
            pixels[i * w + (j - 1)],
        )
    }
}

/// The full rendering of row `i`: every pixel, bracketed.
pub open spec fn full_row_spec(pixels: Seq<Color>, w: nat, i: int) -> Seq<char> {
    "  ["@ + row_prefix_spec(pixels, w, i, w) + "],\n"@
}

/// The preview rendering of row `i`: at most `PREVIEW_W` pixels, then an
/// elision marker inside the row when columns were dropped.
pub open spec fn preview_row_spec(pixels: Seq<Color>, w: nat, i: int) -> Seq<char> {
    "  ["@ + row_prefix_spec(pixels, w, i, capped(w, PREVIEW_W as nat)) + (if w > PREVIEW_W as nat {
        ", …"@
    } else {
        Seq::<char>::empty()
    }) + "],\n"@
}

/// The full renderings of the first `i` rows, concatenated.
pub open spec fn full_rows_spec(pixels: Seq<Color>, w: nat, i: nat) -> Seq<char>
    decreases i,
{
    if i == 0 {
        Seq::empty()
    } else {
        full_rows_spec(pixels, w, (i - 1) as nat) + full_row_spec(pixels, w, i - 1)
    }
}

/// The preview renderings of the first `i` rows, concatenated.
pub open spec fn preview_rows_spec(pixels: Seq<Color>, w: nat, i: nat) -> Seq<char>
    decreases i,
{
    if i == 0 {
        Seq::empty()
    } else {
        preview_rows_spec(pixels, w, (i - 1) as nat) + preview_row_spec(pixels, w, i - 1)
    }
}

/// The full matrix rendering: every row, every pixel, no elision.
pub open spec fn full_matrix_spec(h: nat, w: nat, pixels: Seq<Color>) -> Seq<char> {
    "[\n"@ + full_rows_spec(pixels, w, h) + "]"@
}

/// The preview matrix rendering: at most `PREVIEW_H` rows of at most
/// `PREVIEW_W` pixels, an in-row elision marker where columns were dropped,
/// and one elision line where rows were dropped.
pub open spec fn preview_matrix_spec(h: nat, w: nat, pixels: Seq<Color>) -> Seq<char> {
    "[\n"@ + preview_rows_spec(pixels, w, capped(h, PREVIEW_H as nat)) + (if h > PREVIEW_H as nat {
        "  …\n"@
    } else {
        Seq::<char>::empty()
    }) + "]"@
}

/// Append the full matrix rendering of a grid.
fn push_full_matrix(s: &mut String, g: &PixelGrid)
    requires
        grid_wf(*g),
    ensures
        final(s)@ == old(s)@ + full_matrix_spec(grid_shape(*g).0, grid_shape(*g).1, grid_pixels(*g)),
{
    let ghost pixels = grid_pixels(*g);
    let (h, w) = g.dim();
    let ghost gw = grid_shape(*g).1 as int;
    s.append("[\n");
    let mut i: usize = 0;
    while i < h
        invariant
            i <= h,
            h as nat == grid_shape(*g).0,
            w as nat == grid_shape(*g).1,
            gw == w as int,
            grid_wf(*g),
            pixels == grid_pixels(*g),
            pixels.len() == h as nat * w as nat,
            s@ == old(s)@ + "[\n"@ + full_rows_spec(pixels, w as nat, i as nat),
        decreases h - i,
    {
        s.append("  [");
        let mut j: usize = 0;
        while j < w
            invariant
                j <= w,
                i < h,
                h as nat == grid_shape(*g).0,
                w as nat == grid_shape(*g).1,
                gw == w as int,
                grid_wf(*g),
                pixels == grid_pixels(*g),
                pixels.len() == h as nat * w as nat,
                s@ == old(s)@ + "[\n"@ + full_rows_spec(pixels, w as nat, i as nat) + "  ["@
                    + row_prefix_spec(pixels, w as nat, i as int, j as nat),
            decreases w - j,
        {
            proof {
                let n: int = pixels.len() as int;
                let ii: int = i as int;
                let jj: int = j as int;
                let hh: int = h as int;
                assert(0 <= ii * gw + jj && ii * gw + jj < n) by (nonlinear_arith)
                    requires
                        0 <= ii < hh,
                        0 <= jj < gw,
                        n == hh * gw;
            }
            if j > 0 {
                s.append(", ");
            }
            let px = g.get(i, j);
            push_color(s, px);
            proof {
                assert(s@ =~= old(s)@ + "[\n"@ + full_rows_spec(pixels, w as nat, i as nat)
                    + "  ["@ + row_prefix_spec(pixels, w as nat, i as int, (j + 1) as nat));
            }
            j += 1;
        }
        s.append("],\n");
        proof {
            assert(s@ =~= old(s)@ + "[\n"@ + full_rows_spec(pixels, w as nat, (i + 1) as nat));
        }
        i += 1;
    }
    s.append("]");
    proof {
        assert(s@ =~= old(s)@ + full_matrix_spec(
            grid_shape(*g).0,
            grid_shape(*g).1,
            grid_pixels(*g),
        ));
    }
}

/// Append the preview matrix rendering of a grid.
fn push_preview_matrix(s: &mut String, g: &PixelGrid)
    requires
        grid_wf(*g),
    ensures
        final(s)@ == old(s)@ + preview_matrix_spec(
            grid_shape(*g).0,
            grid_shape(*g).1,
            grid_pixels(*g),
        ),
{
    let ghost pixels = grid_pixels(*g);
    let (h, w) = g.dim();
    let ghost gw = grid_shape(*g).1 as int;
    let show_h = if h < PREVIEW_H { h } else { PREVIEW_H };
    let show_w = if w < PREVIEW_W { w } else { PREVIEW_W };
    s.append("[\n");
    let mut i: usize = 0;
    while i < show_h
        invariant
            i <= show_h,
            show_h as nat == capped(h as nat, PREVIEW_H as nat),
            show_w as nat == capped(w as nat, PREVIEW_W as nat),
            h as nat == grid_shape(*g).0,
            w as nat == grid_shape(*g).1,
            gw == w as int,
            grid_wf(*g),
            pixels == grid_pixels(*g),
            pixels.len() == h as nat * w as nat,
            s@ == old(s)@ + "[\n"@ + preview_rows_spec(pixels, w as nat, i as nat),
        decreases show_h - i,
    {
        s.append("  [");
        let mut j: usize = 0;
        while j < show_w
            invariant
                j <= show_w,
                i < show_h,
                show_h as nat == capped(h as nat, PREVIEW_H as nat),
                show_w as nat == capped(w as nat, PREVIEW_W as nat),
                h as nat == grid_shape(*g).0,
                w as nat == grid_shape(*g).1,
                gw == w as int,
                grid_wf(*g),
                pixels == grid_pixels(*g),
                pixels.len() == h as nat * w as nat,
                s@ == old(s)@ + "[\n"@ + preview_rows_spec(pixels, w as nat, i as nat) + "  ["@
                    + row_prefix_spec(pixels, w as nat, i as int, j as nat),
            decreases show_w - j,
        {
            proof {
                let n: int = pixels.len() as int;
                let ii: int = i as int;
                let jj: int = j as int;
                let hh: int = h as int;
                assert(0 <= ii * gw + jj && ii * gw + jj < n) by (nonlinear_arith)
                    requires
                        0 <= ii < hh,
                        0 <= jj < gw,
                        n == hh * gw;
            }
            if j > 0 {
                s.append(", ");
            }
            let px = g.get(i, j);
            push_color(s, px);
            proof {
                assert(s@ =~= old(s)@ + "[\n"@ + preview_rows_spec(pixels, w as nat, i as nat)
                    + "  ["@ + row_prefix_spec(pixels, w as nat, i as int, (j + 1) as nat));
            }
            j += 1;
        }
        if w > PREVIEW_W {
            s.append(", …");
        }
        s.append("],\n");
        proof {
            assert(s@ =~= old(s)@ + "[\n"@ + preview_rows_spec(pixels, w as nat, (i + 1) as nat));
        }
        i += 1;
    }
    if h > PREVIEW_H {
        s.append("  …\n");
    }
    s.append("]");
    proof {
        assert(s@ =~= old(s)@ + preview_matrix_spec(
            grid_shape(*g).0,
            grid_shape(*g).1,
            grid_pixels(*g),
        ));
    }
}

/// The header line of an image render: every scalar field, then the
/// non-exhaustive marker for the payload.
pub open spec fn image_header_spec(name: Seq<char>, v: ImageView) -> Seq<char> {
    name + " { height: "@ + dec_spec(v.height) + ", width: "@ + dec_spec(v.width) + ", len: "@
        + dec_spec(v.len) + ", is_empty: "@ + bool_spec(v.is_empty) + ", fov_angle_bits: "@
        + dec_spec(v.fov_angle_bits as nat) + ", .. }"@
}

/// The complete text an image adapter renders to: the header, then the full
/// matrix (alternate mode) or the bounded preview.
pub open spec fn image_render_spec(name: Seq<char>, v: ImageView, alternate: bool) -> Seq<char> {
    if alternate {
        image_header_spec(name, v) + "\narray (full "@ + dec_spec(v.rows) + "x"@ + dec_spec(v.cols)
            + ") = "@ + full_matrix_spec(v.rows, v.cols, v.pixels)
    } else {
        image_header_spec(name, v) + "\narray (preview "@ + dec_spec(v.rows) + "x"@ + dec_spec(
            v.cols,
        ) + ", showing "@ + dec_spec(capped(v.rows, PREVIEW_H as nat)) + "x"@ + dec_spec(
            capped(v.cols, PREVIEW_W as nat),
        ) + ") = "@ + preview_matrix_spec(v.rows, v.cols, v.pixels)
    }
}

/// Render an image adapter's header and payload into one string.
fn render_image_to(
    name: &str,
    height: usize,
    width: usize,
    len: usize,
    is_empty: bool,
    fov_angle_bits: u32,
    array: &PixelGrid,
    alternate: bool,
) -> (r: String)
    requires
        grid_wf(*array),
    ensures
        r@ == image_render_spec(
            name@,
            ImageView {
                height: height as nat,
                width: width as nat,
                len: len as nat,
                is_empty: is_empty,
                fov_angle_bits: fov_angle_bits,
                rows: grid_shape(*array).0,
                cols: grid_shape(*array).1,
                pixels: grid_pixels(*array),
            },
            alternate,
        ),
{
    let ghost v = ImageView {
        height: height as nat,
        width: width as nat,
        len: len as nat,
        is_empty: is_empty,
        fov_angle_bits: fov_angle_bits,
        rows: grid_shape(*array).0,
        cols: grid_shape(*array).1,
        pixels: grid_pixels(*array),
    };
    let mut s = String::new();
    s.append(name);
    s.append(" { height: ");
    push_u64(&mut s, height as u64);
    s.append(", width: ");
    push_u64(&mut s, width as u64);
    s.append(", len: ");
    push_u64(&mut s, len as u64);
    s.append(", is_empty: ");
    push_bool(&mut s, is_empty);
    s.append(", fov_angle_bits: ");
    push_u64(&mut s, fov_angle_bits as u64);
    s.append(", .. }");
    proof {
        assert(s@ =~= image_header_spec(name@, v));
    }
    let (h, w) = array.dim();
    if alternate {
        s.append("\narray (full ");
        push_u64(&mut s, h as u64);
        s.append("x");
        push_u64(&mut s, w as u64);
        s.append(") = ");
        let ghost before = s@;
        proof {
            assert(before =~= image_header_spec(name@, v) + "\narray (full "@ + dec_spec(v.rows)
                + "x"@ + dec_spec(v.cols) + ") = "@);
        }
        push_full_matrix(&mut s, array);
        proof {
            assert(s@ =~= image_render_spec(name@, v, alternate));
        }
    } else {
        let show_h = if h < PREVIEW_H { h } else { PREVIEW_H };
        let show_w = if w < PREVIEW_W { w } else { PREVIEW_W };
        s.append("\narray (preview ");
        push_u64(&mut s, h as u64);
        s.append("x");
        push_u64(&mut s, w as u64);
        s.append(", showing ");
        push_u64(&mut s, show_h as u64);
        s.append("x");
        push_u64(&mut s, show_w as u64);
        s.append(") = ");
        let ghost before = s@;
        proof {
            assert(before =~= image_header_spec(name@, v) + "\narray (preview "@ + dec_spec(v.rows)
                + "x"@ + dec_spec(v.cols) + ", showing "@ + dec_spec(
                capped(v.rows, PREVIEW_H as nat),
            ) + "x"@ + dec_spec(capped(v.cols, PREVIEW_W as nat)) + ") = "@);
        }
        push_preview_matrix(&mut s, array);
        proof {
            assert(s@ =~= image_render_spec(name@, v, alternate));
        }
    }
    s
}

impl ImageEventSerDe {
    /// Render this adapter as text: the full dump in alternate mode, the
    /// bounded preview otherwise.
    pub fn render(&self, alternate: bool) -> (r: String)
        requires
            grid_wf(self.array),
        ensures
            r@ == image_render_spec("ImageEventSerDe"@, self@, alternate),
    {
        render_image_to(
            "ImageEventSerDe",
            self.height,
            self.width,
            self.len,
            self.is_empty,
            self.fov_angle_bits,
            &self.array,
            alternate,
        )
    }
}

impl<'a> ImageEventSerBorrowed<'a> {
    /// Render this adapter as text: the full dump in alternate mode, the
    /// bounded preview otherwise.
    pub fn render(&self, alternate: bool) -> (r: String)
        requires
            grid_wf(*self.array),
        ensures
            r@ == image_render_spec("ImageEventSerBorrowed"@, self@, alternate),
    {
        render_image_to(
            "ImageEventSerBorrowed",
            self.height,
            self.width,
            self.len,
            self.is_empty,
            self.fov_angle_bits,
            self.array,
            alternate,
        )
    }
}

/// Two grids that agree on the first `j` pixels of row `i` render the same
/// `j`-pixel row prefix.
proof fn lemma_row_prefix_equal(w: nat, p1: Seq<Color>, p2: Seq<Color>, i: int, j: nat)
    requires
        forall|b: int| 0 <= b < j ==> #[trigger] p1[i * w + b] == p2[i * w + b],
    ensures
        row_prefix_spec(p1, w, i, j) == row_prefix_spec(p2, w, i, j),
    decreases j,
{
    if j > 0 {
        lemma_row_prefix_equal(w, p1, p2, i, (j - 1) as nat);
        assert(p1[i * w + (j - 1)] == p2[i * w + (j - 1)]);
        assert(p1[i * w + 0] == p2[i * w + 0]);
    }
}

/// Two grids that agree on the preview prefix of their first `k` rows render
/// the same `k`-row preview prefix.
proof fn lemma_preview_rows_equal(w: nat, p1: Seq<Color>, p2: Seq<Color>, k: nat)
    requires
        forall|a: int, b: int| 0 <= a < k && 0 <= b < capped(w, PREVIEW_W as nat)
            ==> #[trigger] p1[a * w + b] == p2[a * w + b],
    ensures
        preview_rows_spec(p1, w, k) == preview_rows_spec(p2, w, k),
    decreases k,
{
    if k > 0 {
        lemma_preview_rows_equal(w, p1, p2, (k - 1) as nat);
        assert forall|b: int| 0 <= b < capped(w, PREVIEW_W as nat) implies #[trigger] p1[(k - 1) * w
            + b] == p2[(k - 1) * w + b] by {
            assert(0 <= k - 1 < k);
        }
        lemma_row_prefix_equal(w, p1, p2, k - 1, capped(w, PREVIEW_W as nat));
    }
}

/// Preview bounding: the preview matrix render depends only on the grid's
/// shape and on the pixels of its first `PREVIEW_H` rows and `PREVIEW_W`
/// columns, never on any pixel outside that prefix; and the full render of
/// the same grid elides nothing, walking every row in whole.
pub proof fn lemma_image_preview_bounded(h: nat, w: nat, p1: Seq<Color>, p2: Seq<Color>)
    requires
        p1.len() == h * w,
        p2.len() == h * w,
        forall|a: int, b: int|
            0 <= a < capped(h, PREVIEW_H as nat) && 0 <= b < capped(w, PREVIEW_W as nat)
                ==> #[trigger] p1[a * w + b] == p2[a * w + b],
    ensures
        preview_matrix_spec(h, w, p1) == preview_matrix_spec(h, w, p2),
{
    lemma_preview_rows_equal(w, p1, p2, capped(h, PREVIEW_H as nat));
}

/// Field-order independence: the encode path emits the pixel channels in the
/// foreign declared order (b, g, r, a), while the renderer deliberately leads
/// with the red channel, emitting (r, g, b, a); the two orders are stated and
/// verified separately.
pub proof fn lemma_pixel_orders(c: Color)
    ensures
        c.fields_spec() == seq![c.b as u64, c.g as u64, c.r as u64, c.a as u64],
        color_render_spec(c)[0] == '(',
        color_render_spec(c).subrange(1, 1 + dec_spec(c.r as nat).len() as int) == dec_spec(
            c.r as nat,
        ),
{
    reveal_strlit("(");
    assert(("("@).len() == 1);
    assert(color_render_spec(c)[0] == '(');
    assert(color_render_spec(c).subrange(1, 1 + dec_spec(c.r as nat).len() as int) =~= dec_spec(
        c.r as nat,
    ));
}

} // verus!
